//! The registers of the attribute store that the controller reads and writes.
use vstd::prelude::*;
use crate::model::Model;

verus! {

/// The keyboard battery's state of charge, in percent.
pub const KB_SOC: &'static str = "/sys/class/power_supply/ip5xxx-charger/capacity";

/// The keyboard battery's status.
pub const KB_STATE: &'static str = "/sys/class/power_supply/ip5xxx-charger/status";

/// The keyboard battery's voltage, in microvolts.
pub const KB_VOLTAGE: &'static str = "/sys/class/power_supply/ip5xxx-charger/voltage_now";

/// The keyboard battery's current, in microamperes.
pub const KB_CURRENT: &'static str = "/sys/class/power_supply/ip5xxx-charger/current_now";

/// The keyboard's constant-charge current, in microamperes.
pub const KB_LIMIT: &'static str =
    "/sys/class/power_supply/ip5xxx-charger/constant_charge_current";

/// Whether the keyboard's boost converter is on.
pub const KB_ENABLED: &'static str = "/sys/class/power_supply/ip5xxx-boost/online";

/// The PinePhone Pro's battery status.
pub const PRO_STATE: &'static str = "/sys/class/power_supply/battery/status";

/// The PinePhone Pro's state of charge, in percent.
pub const PRO_SOC: &'static str = "/sys/class/power_supply/battery/capacity";

/// The PinePhone Pro's battery voltage, in microvolts.
pub const PRO_VOLTAGE: &'static str = "/sys/class/power_supply/battery/voltage_now";

/// The PinePhone Pro's battery current, in microamperes.
pub const PRO_CURRENT: &'static str = "/sys/class/power_supply/battery/current_now";

/// The PinePhone Pro's input-current limit, in microamperes.
pub const PRO_LIMIT: &'static str = "/sys/class/power_supply/rk818-usb/input_current_limit";

/// The PinePhone's battery status.
pub const PHONE_STATE: &'static str = "/sys/class/power_supply/axp20x-battery/status";

/// The PinePhone's state of charge, in percent.
pub const PHONE_SOC: &'static str = "/sys/class/power_supply/axp20x-battery/capacity";

/// The PinePhone's battery voltage, in microvolts.
pub const PHONE_VOLTAGE: &'static str = "/sys/class/power_supply/axp20x-battery/voltage_now";

/// The PinePhone's battery current, in microamperes, without its sign.
pub const PHONE_CURRENT: &'static str = "/sys/class/power_supply/axp20x-battery/current_now";

/// The PinePhone's input-current limit, in microamperes.
pub const PHONE_LIMIT: &'static str = "/sys/class/power_supply/axp20x-usb/input_current_limit";

/// A phone and the paths of its registers.
#[derive(Debug, Clone, Copy)]
pub struct Device {
    pub model: Model,
    pub kb_soc: &'static str,
    pub kb_state: &'static str,
    pub kb_voltage: &'static str,
    pub kb_current: &'static str,
    pub kb_limit: &'static str,
    pub kb_enabled: &'static str,
    pub mb_state: &'static str,
    pub mb_soc: &'static str,
    pub mb_voltage: &'static str,
    pub mb_current: &'static str,
    pub mb_limit: &'static str,
}

impl Device {
    /// The registers of a phone: the keyboard's are the same on both, the
    /// main battery's and the USB supply's are the phone's own.
    pub fn new(model: Model) -> (dev: Device)
        ensures
            dev.model == model,
            dev.kb_soc@ == KB_SOC@,
            dev.kb_state@ == KB_STATE@,
            dev.kb_voltage@ == KB_VOLTAGE@,
            dev.kb_current@ == KB_CURRENT@,
            dev.kb_limit@ == KB_LIMIT@,
            dev.kb_enabled@ == KB_ENABLED@,
            dev.mb_state@ == (match model {
                Model::PinePhonePro => PRO_STATE@,
                Model::PinePhone => PHONE_STATE@,
            }),
            dev.mb_soc@ == (match model {
                Model::PinePhonePro => PRO_SOC@,
                Model::PinePhone => PHONE_SOC@,
            }),
            dev.mb_voltage@ == (match model {
                Model::PinePhonePro => PRO_VOLTAGE@,
                Model::PinePhone => PHONE_VOLTAGE@,
            }),
            dev.mb_current@ == (match model {
                Model::PinePhonePro => PRO_CURRENT@,
                Model::PinePhone => PHONE_CURRENT@,
            }),
            dev.mb_limit@ == (match model {
                Model::PinePhonePro => PRO_LIMIT@,
                Model::PinePhone => PHONE_LIMIT@,
            }),
    {
        match model {
            Model::PinePhonePro => Device {
                model,
                kb_current: KB_CURRENT,
                kb_voltage: KB_VOLTAGE,
                kb_soc: KB_SOC,
                kb_state: KB_STATE,
                kb_limit: KB_LIMIT,
                kb_enabled: KB_ENABLED,
                mb_state: PRO_STATE,
                mb_soc: PRO_SOC,
                mb_voltage: PRO_VOLTAGE,
                mb_current: PRO_CURRENT,
                mb_limit: PRO_LIMIT,
            },
            Model::PinePhone => Device {
                model,
                kb_current: KB_CURRENT,
                kb_voltage: KB_VOLTAGE,
                kb_soc: KB_SOC,
                kb_state: KB_STATE,
                kb_limit: KB_LIMIT,
                kb_enabled: KB_ENABLED,
                mb_state: PHONE_STATE,
                mb_soc: PHONE_SOC,
                mb_voltage: PHONE_VOLTAGE,
                mb_current: PHONE_CURRENT,
                mb_limit: PHONE_LIMIT,
            },
        }
    }
}

} // verus!
