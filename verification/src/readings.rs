//! From the text of the registers to a snapshot, or to the first register
//! that stands in the way.
use vstd::prelude::*;
use vstd::string::*;
use crate::device::Device;
use crate::model::Model;
use crate::telemetry::{main_from, state_of_text, Info, KeyboardBattery, MainBattery, State};
use crate::text::{chars_of, i32_of_text, parse_i32, parse_u32, trim_bounds, trimmed, u32_of_text};

verus! {

/// A register of the attribute store.
#[derive(Debug, Clone, Copy, PartialEq, Eq, Structural)]
pub enum Register {
    KbState,
    KbSoc,
    KbVoltage,
    KbCurrent,
    KbLimit,
    KbEnabled,
    MbState,
    MbSoc,
    MbVoltage,
    MbCurrent,
    MbLimit,
}

/// Why a tick has no snapshot.
#[derive(Debug, Clone, Copy, PartialEq, Eq, Structural)]
pub enum ReadError {
    /// The register could not be read.
    Unreadable(Register),
    /// The register's text is not a value of its kind.
    Unparseable(Register),
}

/// The text of each register as it was read in one tick, and nothing for a
/// register that could not be read.
#[derive(Debug, Clone)]
pub struct Readings {
    pub kb_state: Option<String>,
    pub kb_soc: Option<String>,
    pub kb_voltage: Option<String>,
    pub kb_current: Option<String>,
    pub kb_limit: Option<String>,
    pub kb_enabled: Option<String>,
    pub mb_state: Option<String>,
    pub mb_soc: Option<String>,
    pub mb_voltage: Option<String>,
    pub mb_current: Option<String>,
    pub mb_limit: Option<String>,
}

/// The unsigned number in a register.
pub open spec fn unsigned_in(reg: Register, raw: Option<String>) -> Result<u32, ReadError> {
    match raw {
        None => Err(ReadError::Unreadable(reg)),
        Some(text) => match u32_of_text(trimmed(text@)) {
            Some(v) => Ok(v),
            None => Err(ReadError::Unparseable(reg)),
        },
    }
}

/// The signed number in a register.
pub open spec fn signed_in(reg: Register, raw: Option<String>) -> Result<i32, ReadError> {
    match raw {
        None => Err(ReadError::Unreadable(reg)),
        Some(text) => match i32_of_text(trimmed(text@)) {
            Some(v) => Ok(v),
            None => Err(ReadError::Unparseable(reg)),
        },
    }
}

/// The state in a status register.
pub open spec fn state_in(reg: Register, raw: Option<String>) -> Result<State, ReadError> {
    match raw {
        None => Err(ReadError::Unreadable(reg)),
        Some(text) => match state_of_text(trimmed(text@)) {
            Some(v) => Ok(v),
            None => Err(ReadError::Unparseable(reg)),
        },
    }
}

/// The state of charge in a register: not every phone has one, so a register
/// that cannot be read or holds no number gives none.
pub open spec fn percent_in(raw: Option<String>) -> Option<u32> {
    match raw {
        None => None,
        Some(text) => u32_of_text(trimmed(text@)),
    }
}

/// The keyboard's record, or the first of its registers that fails, going by
/// status, voltage, current, limit and converter.
pub open spec fn keyboard_of(r: Readings) -> Result<KeyboardBattery, ReadError> {
    match state_in(Register::KbState, r.kb_state) {
        Err(e) => Err(e),
        Ok(state) => match unsigned_in(Register::KbVoltage, r.kb_voltage) {
            Err(e) => Err(e),
            Ok(voltage) => match signed_in(Register::KbCurrent, r.kb_current) {
                Err(e) => Err(e),
                Ok(current) => match unsigned_in(Register::KbLimit, r.kb_limit) {
                    Err(e) => Err(e),
                    Ok(limit) => match signed_in(Register::KbEnabled, r.kb_enabled) {
                        Err(e) => Err(e),
                        Ok(online) => Ok(
                            KeyboardBattery {
                                state,
                                soc: percent_in(r.kb_soc),
                                voltage,
                                current,
                                limit,
                                enabled: online == 1,
                            },
                        ),
                    },
                },
            },
        },
    }
}

/// The main battery's record, or the first of its registers that fails. The
/// PinePhone Pro goes by current, status, voltage and limit; the PinePhone
/// takes the limit first, then current, status and voltage.
pub open spec fn main_of(model: Model, r: Readings) -> Result<MainBattery, ReadError> {
    let limit = unsigned_in(Register::MbLimit, r.mb_limit);
    let reading = signed_in(Register::MbCurrent, r.mb_current);
    let status = state_in(Register::MbState, r.mb_state);
    let voltage = unsigned_in(Register::MbVoltage, r.mb_voltage);
    if model == Model::PinePhone && limit is Err {
        Err(limit->Err_0)
    } else if reading is Err {
        Err(reading->Err_0)
    } else if status is Err {
        Err(status->Err_0)
    } else if voltage is Err {
        Err(voltage->Err_0)
    } else if limit is Err {
        Err(limit->Err_0)
    } else {
        Ok(
            main_from(
                model,
                status->Ok_0,
                percent_in(r.mb_soc),
                voltage->Ok_0,
                reading->Ok_0,
                limit->Ok_0,
            ),
        )
    }
}

/// The snapshot of one tick, or the first register that fails: the
/// keyboard's come before the main battery's.
pub open spec fn snapshot_of(model: Model, r: Readings) -> Result<Info, ReadError> {
    match keyboard_of(r) {
        Err(e) => Err(e),
        Ok(kbd) => match main_of(model, r) {
            Err(e) => Err(e),
            Ok(mb) => Ok(Info { kbd, mb }),
        },
    }
}

/// Reads an unsigned number from what was read of a register.
pub fn read_unsigned(reg: Register, raw: &Option<String>) -> (r: Result<u32, ReadError>)
    ensures
        r == unsigned_in(reg, *raw),
{
    match raw {
        None => Err(ReadError::Unreadable(reg)),
        Some(text) => match parse_u32(text.as_str()) {
            Some(v) => Ok(v),
            None => Err(ReadError::Unparseable(reg)),
        },
    }
}

/// Reads a signed number from what was read of a register.
pub fn read_signed(reg: Register, raw: &Option<String>) -> (r: Result<i32, ReadError>)
    ensures
        r == signed_in(reg, *raw),
{
    match raw {
        None => Err(ReadError::Unreadable(reg)),
        Some(text) => match parse_i32(text.as_str()) {
            Some(v) => Ok(v),
            None => Err(ReadError::Unparseable(reg)),
        },
    }
}

/// Reads a state from what was read of a status register.
pub fn read_state(reg: Register, raw: &Option<String>) -> (r: Result<State, ReadError>)
    ensures
        r == state_in(reg, *raw),
{
    match raw {
        None => Err(ReadError::Unreadable(reg)),
        Some(text) => {
            let v = chars_of(text.as_str());
            let (a, b) = trim_bounds(&v);
            match State::from_chars(&v, a, b) {
                Ok(state) => Ok(state),
                Err(_) => Err(ReadError::Unparseable(reg)),
            }
        },
    }
}

/// Reads a state of charge from what was read of its register.
pub fn read_percent(raw: &Option<String>) -> (r: Option<u32>)
    ensures
        r == percent_in(*raw),
{
    match raw {
        None => None,
        Some(text) => parse_u32(text.as_str()),
    }
}

impl Device {
    /// The path of a register of this phone.
    pub fn path(&self, reg: Register) -> (r: &'static str)
        ensures
            r == (match reg {
                Register::KbState => self.kb_state,
                Register::KbSoc => self.kb_soc,
                Register::KbVoltage => self.kb_voltage,
                Register::KbCurrent => self.kb_current,
                Register::KbLimit => self.kb_limit,
                Register::KbEnabled => self.kb_enabled,
                Register::MbState => self.mb_state,
                Register::MbSoc => self.mb_soc,
                Register::MbVoltage => self.mb_voltage,
                Register::MbCurrent => self.mb_current,
                Register::MbLimit => self.mb_limit,
            }),
    {
        match reg {
            Register::KbState => self.kb_state,
            Register::KbSoc => self.kb_soc,
            Register::KbVoltage => self.kb_voltage,
            Register::KbCurrent => self.kb_current,
            Register::KbLimit => self.kb_limit,
            Register::KbEnabled => self.kb_enabled,
            Register::MbState => self.mb_state,
            Register::MbSoc => self.mb_soc,
            Register::MbVoltage => self.mb_voltage,
            Register::MbCurrent => self.mb_current,
            Register::MbLimit => self.mb_limit,
        }
    }

    /// Puts the snapshot of one tick together from what was read of the
    /// registers. The first register that could not be read or holds no
    /// value of its kind fails the tick; a state of charge never does.
    pub fn info(&self, readings: &Readings) -> (r: Result<Info, ReadError>)
        ensures
            r == snapshot_of(self.model, *readings),
    {
        let kbd = match KeyboardBattery::read(readings) {
            Ok(kbd) => kbd,
            Err(e) => {
                return Err(e);
            },
        };
        match MainBattery::read(self.model, readings) {
            Ok(mb) => Ok(Info { kbd, mb }),
            Err(e) => Err(e),
        }
    }
}

impl KeyboardBattery {
    /// The keyboard's record from what was read of its registers.
    pub fn read(readings: &Readings) -> (r: Result<KeyboardBattery, ReadError>)
        ensures
            r == keyboard_of(*readings),
    {
        let state = match read_state(Register::KbState, &readings.kb_state) {
            Ok(v) => v,
            Err(e) => {
                return Err(e);
            },
        };
        let soc = read_percent(&readings.kb_soc);
        let voltage = match read_unsigned(Register::KbVoltage, &readings.kb_voltage) {
            Ok(v) => v,
            Err(e) => {
                return Err(e);
            },
        };
        let current = match read_signed(Register::KbCurrent, &readings.kb_current) {
            Ok(v) => v,
            Err(e) => {
                return Err(e);
            },
        };
        let limit = match read_unsigned(Register::KbLimit, &readings.kb_limit) {
            Ok(v) => v,
            Err(e) => {
                return Err(e);
            },
        };
        let online = match read_signed(Register::KbEnabled, &readings.kb_enabled) {
            Ok(v) => v,
            Err(e) => {
                return Err(e);
            },
        };
        Ok(KeyboardBattery::get(state, soc, voltage, current, limit, online))
    }
}

impl MainBattery {
    /// The main battery's record from what was read of its registers.
    pub fn read(model: Model, readings: &Readings) -> (r: Result<MainBattery, ReadError>)
        ensures
            r == main_of(model, *readings),
    {
        match model {
            Model::PinePhonePro => {
                let reading = match read_signed(Register::MbCurrent, &readings.mb_current) {
                    Ok(v) => v,
                    Err(e) => {
                        return Err(e);
                    },
                };
                let status = match read_state(Register::MbState, &readings.mb_state) {
                    Ok(v) => v,
                    Err(e) => {
                        return Err(e);
                    },
                };
                let soc = read_percent(&readings.mb_soc);
                let voltage = match read_unsigned(Register::MbVoltage, &readings.mb_voltage) {
                    Ok(v) => v,
                    Err(e) => {
                        return Err(e);
                    },
                };
                let limit = match read_unsigned(Register::MbLimit, &readings.mb_limit) {
                    Ok(v) => v,
                    Err(e) => {
                        return Err(e);
                    },
                };
                Ok(MainBattery::get(model, status, soc, voltage, reading, limit))
            },
            Model::PinePhone => {
                let limit = match read_unsigned(Register::MbLimit, &readings.mb_limit) {
                    Ok(v) => v,
                    Err(e) => {
                        return Err(e);
                    },
                };
                let reading = match read_signed(Register::MbCurrent, &readings.mb_current) {
                    Ok(v) => v,
                    Err(e) => {
                        return Err(e);
                    },
                };
                let status = match read_state(Register::MbState, &readings.mb_state) {
                    Ok(v) => v,
                    Err(e) => {
                        return Err(e);
                    },
                };
                let soc = read_percent(&readings.mb_soc);
                let voltage = match read_unsigned(Register::MbVoltage, &readings.mb_voltage) {
                    Ok(v) => v,
                    Err(e) => {
                        return Err(e);
                    },
                };
                Ok(MainBattery::get(model, status, soc, voltage, reading, limit))
            },
        }
    }
}

} // verus!
