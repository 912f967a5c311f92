//! The policy: from the controller's memory and one snapshot to one action.
use vstd::prelude::*;
use crate::device::Device;
use crate::model::{step_on, Model};
use crate::telemetry::{Info, State};

verus! {

/// The charge current, in microamperes, that the keyboard is meant to reach.
pub const KEYBOARD_CAP: u32 = 2300000;

/// The band, in microvolts, within which two battery voltages count as equal.
pub const VOLTAGE_BAND: u32 = 150000;

/// The state of charge, in percent, above which the main battery can spare
/// input current.
pub const SOC_FLOOR: u32 = 30;

/// What the controller does in one tick. The actions whose names begin with
/// `Maybe` are carried out only when enough time has passed since the last
/// action.
#[derive(Debug, Clone, Copy, PartialEq, Eq, Structural)]
pub enum Action {
    /// Raise the input-current limit by one rung, or switch the converter
    /// back on if it is off.
    MaybeStepUp,
    /// Lower the input-current limit by one rung, or switch the converter off
    /// if the limit is at its lowest.
    MaybeStepDown,
    /// Raise the input-current limit by one rung and give the keyboard what
    /// is left of its cap.
    MaybeKeyboardPriorityUp,
    /// Raise the keyboard's own charge current.
    MaybeStepKeyboardUp,
    /// Return both limits to their defaults.
    SetDefault,
    /// Give the main battery the highest input-current limit.
    SetMax,
    /// Leave everything as it is.
    Pass,
}

/// The controller: the phone it runs on and what it remembers from one tick
/// to the next. Times are nanoseconds on a clock that never runs backwards.
#[derive(Debug, Clone, Copy)]
pub struct Ctx {
    pub dev: Device,
    /// Whether the keyboard is in a charging session.
    pub kb_charging: bool,
    /// When an action was last carried out.
    pub last_step: u64,
    /// When the converter was last switched off.
    pub last_offline: u64,
}

/// The most that the keyboard's current and the input-current limit may add
/// up to: the keyboard's cap and a sixteenth of it.
pub open spec fn ceiling() -> int {
    KEYBOARD_CAP + KEYBOARD_CAP / 16
}

/// Whether a state of charge is known and above the floor.
pub open spec fn above_floor(soc: Option<u32>) -> bool {
    match soc {
        Some(v) => v > SOC_FLOOR,
        None => false,
    }
}

/// The magnitude of a current.
pub open spec fn magnitude(current: int) -> int {
    if current < 0 {
        -current
    } else {
        current
    }
}

/// The action while the keyboard charges in a session that has begun.
pub open spec fn charging_action(model: Model, info: Info) -> Action {
    let net = info.kbd.current + info.mb.limit;
    let next = step_on(model.limits(), true, info.mb.limit);
    if info.mb.current < 0 {
        if info.kbd.current + next < ceiling() {
            Action::MaybeStepUp
        } else {
            Action::MaybeKeyboardPriorityUp
        }
    } else if net >= ceiling() {
        Action::MaybeStepDown
    } else if net < KEYBOARD_CAP {
        Action::MaybeStepKeyboardUp
    } else {
        Action::Pass
    }
}

/// The action while both batteries discharge and the main battery is above
/// the floor: the battery with the higher voltage gives, and within the band
/// nothing changes. At the band's upper edge, and where the keyboard's
/// voltage is higher by the band or more, the currents decide.
pub open spec fn balancing_action(info: Info) -> Action {
    let lead = info.mb.voltage - info.kbd.voltage;
    if lead > VOLTAGE_BAND {
        Action::MaybeStepDown
    } else if -VOLTAGE_BAND < lead < VOLTAGE_BAND {
        Action::Pass
    } else if magnitude(info.mb.current as int) > magnitude(info.kbd.current as int) {
        Action::MaybeStepUp
    } else {
        Action::Pass
    }
}

/// The action while the keyboard discharges outside a session.
pub open spec fn discharging_action(model: Model, info: Info) -> Action {
    match info.mb.state {
        State::Full => Action::SetDefault,
        State::Charging => if above_floor(info.mb.soc) {
            Action::MaybeStepDown
        } else {
            let delta = info.mb.limit - step_on(model.limits(), false, info.mb.limit);
            if info.mb.current > 0 && delta < info.mb.current {
                Action::MaybeStepDown
            } else {
                Action::Pass
            }
        },
        State::Discharging => if above_floor(info.mb.soc) {
            balancing_action(info)
        } else {
            Action::MaybeStepUp
        },
    }
}

/// The action of one tick.
pub open spec fn decision(model: Model, kb_charging: bool, info: Info) -> Action {
    match info.kbd.state {
        State::Charging => if !kb_charging {
            Action::SetDefault
        } else {
            charging_action(model, info)
        },
        State::Full => if info.kbd.enabled && kb_charging {
            Action::SetMax
        } else {
            Action::SetDefault
        },
        State::Discharging => if kb_charging {
            Action::SetDefault
        } else {
            discharging_action(model, info)
        },
    }
}

/// Whether the keyboard is in a session after a tick: a session begins when
/// the keyboard charges, ends when it discharges, and is left as it is while
/// the keyboard is full.
pub open spec fn session_after(kb_charging: bool, info: Info) -> bool {
    match info.kbd.state {
        State::Charging => true,
        State::Full => kb_charging,
        State::Discharging => false,
    }
}

/// While the keyboard charges in a session, each action comes with exactly
/// one condition on the main battery's current and on what the keyboard's
/// current and the input-current limit add up to. The conditions exclude one
/// another and leave nothing out, and neither reset is ever chosen.
pub proof fn lemma_charging_branches(model: Model, info: Info)
    ensures
        ({
            let action = charging_action(model, info);
            let net = info.kbd.current + info.mb.limit;
            let raised = info.kbd.current + step_on(model.limits(), true, info.mb.limit);
            &&& action == Action::MaybeStepUp <==> info.mb.current < 0 && raised < ceiling()
            &&& action == Action::MaybeKeyboardPriorityUp <==> info.mb.current < 0 && raised
                >= ceiling()
            &&& action == Action::MaybeStepDown <==> info.mb.current >= 0 && net >= ceiling()
            &&& action == Action::MaybeStepKeyboardUp <==> info.mb.current >= 0 && net
                < KEYBOARD_CAP
            &&& action == Action::Pass <==> info.mb.current >= 0 && KEYBOARD_CAP <= net < ceiling()
            &&& action != Action::SetDefault
            &&& action != Action::SetMax
        }),
{
}

/// While the keyboard charges in a session, two snapshots in which the
/// keyboard's current and the input-current limit add up to the same are
/// never answered by a step up for the one and a step down for the other,
/// provided that a step up from the first snapshot's limit does not lower it.
pub proof fn lemma_charging_never_up_and_down(model: Model, a: Info, b: Info)
    requires
        a.kbd.current + a.mb.limit == b.kbd.current + b.mb.limit,
        step_on(model.limits(), true, a.mb.limit) >= a.mb.limit,
    ensures
        !(charging_action(model, a) == Action::MaybeStepUp && charging_action(model, b)
            == Action::MaybeStepDown),
{
}

impl Ctx {
    /// A controller that starts at `now`, outside a session.
    pub fn new(dev: Device, now: u64) -> (ctx: Ctx)
        ensures
            ctx.dev == dev,
            !ctx.kb_charging,
            ctx.last_step == now,
            ctx.last_offline == now,
    {
        Ctx { dev, kb_charging: false, last_step: now, last_offline: now }
    }

    /// Chooses the action for a snapshot, and notes whether the keyboard is
    /// in a charging session.
    pub fn decide(&mut self, info: &Info) -> (action: Action)
        ensures
            action == decision(old(self).dev.model, old(self).kb_charging, *info),
            final(self).kb_charging == session_after(old(self).kb_charging, *info),
            final(self).dev == old(self).dev,
            final(self).last_step == old(self).last_step,
            final(self).last_offline == old(self).last_offline,
    {
        match info.kbd.state {
            State::Charging => {
                if !self.kb_charging {
                    self.kb_charging = true;
                    Action::SetDefault
                } else {
                    let cap: i64 = KEYBOARD_CAP as i64;
                    let lim: i64 = cap + cap / 16;
                    let ka: i64 = info.kbd.current as i64;
                    let tot: i64 = ka + info.mb.limit as i64;
                    let nextl: i64 = self.dev.model.limit_step(true, info.mb.limit) as i64;
                    if ka + nextl < lim && info.mb.current < 0 {
                        Action::MaybeStepUp
                    } else if info.mb.current < 0 {
                        Action::MaybeKeyboardPriorityUp
                    } else if tot >= lim {
                        Action::MaybeStepDown
                    } else if tot < cap {
                        Action::MaybeStepKeyboardUp
                    } else {
                        Action::Pass
                    }
                }
            },
            State::Full => {
                if info.kbd.enabled && self.kb_charging {
                    Action::SetMax
                } else {
                    Action::SetDefault
                }
            },
            State::Discharging => {
                if self.kb_charging {
                    self.kb_charging = false;
                    Action::SetDefault
                } else {
                    let spare = match info.mb.soc {
                        Some(v) => v > SOC_FLOOR,
                        None => false,
                    };
                    match info.mb.state {
                        State::Full => Action::SetDefault,
                        State::Charging => {
                            if spare {
                                Action::MaybeStepDown
                            } else {
                                // keep the main battery above the floor for as long
                                // as possible, even if that means charging it
                                let delta: i64 = info.mb.limit as i64 - self.dev.model.limit_step(
                                    false,
                                    info.mb.limit,
                                ) as i64;
                                if info.mb.current > 0 && delta < info.mb.current as i64 {
                                    Action::MaybeStepDown
                                } else {
                                    Action::Pass
                                }
                            }
                        },
                        State::Discharging => {
                            if spare {
                                let band: i64 = VOLTAGE_BAND as i64;
                                let lead: i64 = info.mb.voltage as i64 - info.kbd.voltage as i64;
                                let mbc: i64 = if info.mb.current < 0 {
                                    -(info.mb.current as i64)
                                } else {
                                    info.mb.current as i64
                                };
                                let kbc: i64 = if info.kbd.current < 0 {
                                    -(info.kbd.current as i64)
                                } else {
                                    info.kbd.current as i64
                                };
                                if lead > band {
                                    Action::MaybeStepDown
                                } else if -band < lead && lead < band {
                                    Action::Pass
                                } else if mbc > kbc {
                                    Action::MaybeStepUp
                                } else {
                                    Action::Pass
                                }
                            } else {
                                Action::MaybeStepUp
                            }
                        },
                    }
                }
            },
        }
    }
}

} // verus!

