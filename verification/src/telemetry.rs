//! One tick's view of the two power sources, and how it is put together from
//! what the registers report.
use vstd::prelude::*;
use crate::model::Model;
use crate::text::{chars_of, spells};

verus! {

/// What a power source reports of itself.
#[derive(Debug, Clone, Copy, PartialEq, Eq, Structural)]
pub enum State {
    Charging,
    Discharging,
    Full,
}

/// A status text that names no state.
#[derive(Debug, Clone, Copy, PartialEq, Eq, Structural)]
pub struct UnexpectedState;

/// The keyboard's battery and its boost converter.
#[derive(Debug, Clone, Copy, PartialEq, Eq, Structural)]
pub struct KeyboardBattery {
    pub state: State,
    /// State of charge in percent, where the register can be read.
    pub soc: Option<u32>,
    /// Microvolts.
    pub voltage: u32,
    /// Microamperes, positive while charging.
    pub current: i32,
    /// The keyboard's own constant-charge-current setting, in microamperes.
    pub limit: u32,
    /// Whether the boost converter that feeds the phone is switched on.
    pub enabled: bool,
}

/// The phone's battery and the input-current limit of its USB supply.
#[derive(Debug, Clone, Copy, PartialEq, Eq, Structural)]
pub struct MainBattery {
    pub state: State,
    /// State of charge in percent, where the register can be read.
    pub soc: Option<u32>,
    /// Microvolts.
    pub voltage: u32,
    /// Microamperes, positive while charging.
    pub current: i32,
    /// The input-current limit in force, in microamperes.
    pub limit: u32,
}

/// Both sources at one instant.
#[derive(Debug, Clone, Copy, PartialEq, Eq, Structural)]
pub struct Info {
    pub kbd: KeyboardBattery,
    pub mb: MainBattery,
}

/// The state that a status text names, if it names one. A source that is
/// "Not charging" counts as full.
pub open spec fn state_of_text(t: Seq<char>) -> Option<State> {
    if t == "Charging"@ {
        Some(State::Charging)
    } else if t == "Discharging"@ {
        Some(State::Discharging)
    } else if t == "Full"@ || t == "Not charging"@ {
        Some(State::Full)
    } else {
        None
    }
}

/// The signed current behind a reading of the main battery's current
/// register. The PinePhone Pro reports the sign. The PinePhone reports the
/// magnitude only: a magnitude above five quarters of the limit in force is
/// taken for a discharge and replaced by its bitwise complement, which is
/// `-reading - 1`.
pub open spec fn signed_current(model: Model, reading: i32, limit: u32) -> int {
    match model {
        Model::PinePhonePro => reading as int,
        Model::PinePhone => if reading > limit + limit / 4 {
            -reading - 1
        } else {
            reading as int
        },
    }
}

/// The current that is inferred fits where the reading did, and a reading
/// that is taken for a discharge gives a negative current.
pub proof fn lemma_signed_current_fits(model: Model, reading: i32, limit: u32)
    ensures
        i32::MIN <= signed_current(model, reading, limit) <= i32::MAX,
        signed_current(model, reading, limit) != reading ==> {
            &&& model == Model::PinePhone
            &&& reading > limit + limit / 4
            &&& signed_current(model, reading, limit) < 0
        },
{
}

/// The main battery's state once its status is held against its current: a
/// battery said to charge that takes in no current is discharging.
pub open spec fn settled_state(status: State, current: int) -> State {
    match status {
        State::Full => State::Full,
        State::Charging => if current > 0 {
            State::Charging
        } else {
            State::Discharging
        },
        State::Discharging => State::Discharging,
    }
}

/// The main battery's record from the values of its registers: the current
/// is given its sign as the phone requires, and the state follows from the
/// status and that current.
pub open spec fn main_from(
    model: Model,
    status: State,
    soc: Option<u32>,
    voltage: u32,
    reading: i32,
    limit: u32,
) -> MainBattery {
    MainBattery {
        state: settled_state(status, signed_current(model, reading, limit)),
        soc,
        voltage,
        current: signed_current(model, reading, limit) as i32,
        limit,
    }
}

impl State {
    /// Reads a state from the characters of `v` between `from` and `to`.
    pub fn from_chars(v: &Vec<char>, from: usize, to: usize) -> (r: Result<State, UnexpectedState>)
        requires
            from <= to <= v.len(),
        ensures
            r == (match state_of_text(v@.subrange(from as int, to as int)) {
                Some(state) => Ok::<State, UnexpectedState>(state),
                None => Err(UnexpectedState),
            }),
    {
        if spells(v, from, to, "Charging") {
            Ok(State::Charging)
        } else if spells(v, from, to, "Discharging") {
            Ok(State::Discharging)
        } else if spells(v, from, to, "Full") || spells(v, from, to, "Not charging") {
            Ok(State::Full)
        } else {
            Err(UnexpectedState)
        }
    }

    /// Reads a state from the text of a status register.
    pub fn from_str(s: &str) -> (r: Result<State, UnexpectedState>)
        ensures
            r == (match state_of_text(s@) {
                Some(state) => Ok::<State, UnexpectedState>(state),
                None => Err(UnexpectedState),
            }),
    {
        let v = chars_of(s);
        assert(v@.subrange(0, v.len() as int) =~= s@);
        State::from_chars(&v, 0, v.len())
    }
}

impl Model {
    /// The signed current behind a reading of the main battery's current
    /// register, taken while `limit` was the input-current limit.
    pub fn infer_current(&self, reading: i32, limit: u32) -> (r: i32)
        ensures
            r == signed_current(*self, reading, limit),
    {
        match self {
            Model::PinePhonePro => reading,
            Model::PinePhone => {
                let limit: i64 = limit as i64;
                if reading as i64 > limit + limit / 4 {
                    -1 - reading
                } else {
                    reading
                }
            },
        }
    }
}

impl KeyboardBattery {
    /// The keyboard's record from the values of its registers. The converter
    /// is on when its register reads 1.
    pub fn get(
        state: State,
        soc: Option<u32>,
        voltage: u32,
        current: i32,
        limit: u32,
        online: i32,
    ) -> (kbd: KeyboardBattery)
        ensures
            kbd == (KeyboardBattery { state, soc, voltage, current, limit, enabled: online == 1 }),
    {
        KeyboardBattery { state, soc, voltage, current, limit, enabled: online == 1 }
    }
}

impl MainBattery {
    /// The state of the main battery, given its status and its signed current.
    pub fn get_state(status: State, current: i32) -> (r: State)
        ensures
            r == settled_state(status, current as int),
    {
        match status {
            State::Full => State::Full,
            State::Charging => if current > 0 {
                State::Charging
            } else {
                State::Discharging
            },
            State::Discharging => State::Discharging,
        }
    }

    /// The main battery's record from the values of its registers.
    pub fn get(
        model: Model,
        status: State,
        soc: Option<u32>,
        voltage: u32,
        reading: i32,
        limit: u32,
    ) -> (mb: MainBattery)
        ensures
            mb == main_from(model, status, soc, voltage, reading, limit),
    {
        let current = model.infer_current(reading, limit);
        MainBattery { state: MainBattery::get_state(status, current), soc, voltage, current, limit }
    }
}

} // verus!
