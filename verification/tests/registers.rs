use keyboard_power::device::Device;
use keyboard_power::model::Model;
use keyboard_power::readings::Register;

#[test]
fn keyboard_registers_are_the_same_on_both_phones() {
    for model in [Model::PinePhone, Model::PinePhonePro] {
        let dev = Device::new(model);
        assert_eq!(dev.model, model);
        assert_eq!(dev.kb_current, "/sys/class/power_supply/ip5xxx-charger/current_now");
        assert_eq!(dev.kb_voltage, "/sys/class/power_supply/ip5xxx-charger/voltage_now");
        assert_eq!(dev.kb_soc, "/sys/class/power_supply/ip5xxx-charger/capacity");
        assert_eq!(dev.kb_state, "/sys/class/power_supply/ip5xxx-charger/status");
        assert_eq!(
            dev.kb_limit,
            "/sys/class/power_supply/ip5xxx-charger/constant_charge_current"
        );
        assert_eq!(dev.kb_enabled, "/sys/class/power_supply/ip5xxx-boost/online");
    }
}

#[test]
fn pinephone_pro_registers() {
    let dev = Device::new(Model::PinePhonePro);
    assert_eq!(dev.mb_state, "/sys/class/power_supply/battery/status");
    assert_eq!(dev.mb_soc, "/sys/class/power_supply/battery/capacity");
    assert_eq!(dev.mb_voltage, "/sys/class/power_supply/battery/voltage_now");
    assert_eq!(dev.mb_current, "/sys/class/power_supply/battery/current_now");
    assert_eq!(dev.mb_limit, "/sys/class/power_supply/rk818-usb/input_current_limit");
}

#[test]
fn pinephone_registers() {
    let dev = Device::new(Model::PinePhone);
    assert_eq!(dev.mb_state, "/sys/class/power_supply/axp20x-battery/status");
    assert_eq!(dev.mb_soc, "/sys/class/power_supply/axp20x-battery/capacity");
    assert_eq!(dev.mb_voltage, "/sys/class/power_supply/axp20x-battery/voltage_now");
    assert_eq!(dev.mb_current, "/sys/class/power_supply/axp20x-battery/current_now");
    assert_eq!(dev.mb_limit, "/sys/class/power_supply/axp20x-usb/input_current_limit");
}

#[test]
fn path_picks_the_register() {
    let dev = Device::new(Model::PinePhone);
    assert_eq!(dev.path(Register::KbState), dev.kb_state);
    assert_eq!(dev.path(Register::KbSoc), dev.kb_soc);
    assert_eq!(dev.path(Register::KbVoltage), dev.kb_voltage);
    assert_eq!(dev.path(Register::KbCurrent), dev.kb_current);
    assert_eq!(dev.path(Register::KbLimit), dev.kb_limit);
    assert_eq!(dev.path(Register::KbEnabled), dev.kb_enabled);
    assert_eq!(dev.path(Register::MbState), dev.mb_state);
    assert_eq!(dev.path(Register::MbSoc), dev.mb_soc);
    assert_eq!(dev.path(Register::MbVoltage), dev.mb_voltage);
    assert_eq!(dev.path(Register::MbCurrent), dev.mb_current);
    assert_eq!(dev.path(Register::MbLimit), dev.mb_limit);
}
