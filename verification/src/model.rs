//! The supported phones and their ladders of input-current limits.
use vstd::prelude::*;

verus! {

/// The input-current limits, in microamperes, that the PinePhone Pro accepts.
pub const PINEPHONE_PRO_LIMITS: [u32; 6] = [450000, 850000, 1000000, 1250000, 1500000, 2000000];

/// The input-current limits, in microamperes, that the PinePhone accepts.
pub const PINEPHONE_LIMITS: [u32; 4] = [500000, 900000, 1500000, 2000000];

/// The rung that `limit_step` falls back to when the present limit is not on the ladder.
pub const FALLBACK_RUNG: usize = 2;

/// A supported phone.
#[derive(Debug, Clone, Copy, PartialEq, Eq, Structural)]
pub enum Model {
    PinePhone,
    PinePhonePro,
}

/// No supported phone was recognised.
#[derive(Debug, Clone, Copy, PartialEq, Eq, Structural)]
pub struct UnknownModel;

/// A ladder is usable when it reaches the fallback rung and rises strictly.
pub open spec fn ladder_wf(t: Seq<u32>) -> bool {
    &&& t.len() > FALLBACK_RUNG
    &&& forall|i: int, j: int| 0 <= i < j < t.len() ==> t[i] < t[j]
}

/// One step along the ladder `t` from `cur`: the neighbouring rung in the
/// direction asked for, the same rung at either end, and the fallback rung
/// when `cur` is not on the ladder.
pub open spec fn step_on(t: Seq<u32>, up: bool, cur: u32) -> u32 {
    if t.contains(cur) {
        let i = t.index_of(cur);
        if up {
            if i + 1 < t.len() {
                t[i + 1]
            } else {
                t[i]
            }
        } else {
            if i > 0 {
                t[i - 1]
            } else {
                t[i]
            }
        }
    } else {
        t[FALLBACK_RUNG as int]
    }
}

/// On a strictly rising ladder a value stands on at most one rung.
pub proof fn lemma_rung_unique(t: Seq<u32>, i: int)
    requires
        ladder_wf(t),
        0 <= i < t.len(),
    ensures
        t.contains(t[i]),
        t.index_of(t[i]) == i,
{
    let j = t.index_of(t[i]);
    assert(0 <= j < t.len() && t[j] == t[i]);
    if j < i {
        assert(t[j] < t[i]);
    } else if i < j {
        assert(t[i] < t[j]);
    }
}

/// A step lands on the ladder.
pub proof fn lemma_step_on_ladder(t: Seq<u32>, up: bool, cur: u32)
    requires
        ladder_wf(t),
    ensures
        t.contains(step_on(t, up, cur)),
{
    if t.contains(cur) {
        let i = t.index_of(cur);
        assert(0 <= i < t.len() && t[i] == cur);
        if up {
            if i + 1 < t.len() {
                assert(t[i + 1] == step_on(t, up, cur));
            }
        } else {
            if i > 0 {
                assert(t[i - 1] == step_on(t, up, cur));
            }
        }
    } else {
        assert(t[FALLBACK_RUNG as int] == step_on(t, up, cur));
    }
}

/// From a value on the ladder a step up never lowers it, and a step down
/// never raises it.
pub proof fn lemma_step_monotonic(t: Seq<u32>, cur: u32)
    requires
        ladder_wf(t),
        t.contains(cur),
    ensures
        step_on(t, true, cur) >= cur,
        step_on(t, false, cur) <= cur,
{
    let i = t.index_of(cur);
    assert(0 <= i < t.len() && t[i] == cur);
    if i + 1 < t.len() {
        assert(t[i] < t[i + 1]);
    }
    if i > 0 {
        assert(t[i - 1] < t[i]);
    }
}

/// From a value on the ladder other than the lowest, a step down and then a
/// step up lead back to it.
pub proof fn lemma_step_down_then_up(t: Seq<u32>, cur: u32)
    requires
        ladder_wf(t),
        t.contains(cur),
        cur != t[0],
    ensures
        step_on(t, true, step_on(t, false, cur)) == cur,
{
    let i = t.index_of(cur);
    assert(0 <= i < t.len() && t[i] == cur);
    lemma_rung_unique(t, i - 1);
}

/// From a value on the ladder other than the highest, a step up and then a
/// step down lead back to it.
pub proof fn lemma_step_up_then_down(t: Seq<u32>, cur: u32)
    requires
        ladder_wf(t),
        t.contains(cur),
        cur != t.last(),
    ensures
        step_on(t, false, step_on(t, true, cur)) == cur,
{
    let i = t.index_of(cur);
    assert(0 <= i < t.len() && t[i] == cur);
    lemma_rung_unique(t, i + 1);
}

impl Model {
    /// The ladder of this phone.
    pub open spec fn limits(self) -> Seq<u32> {
        match self {
            Model::PinePhonePro => PINEPHONE_PRO_LIMITS@,
            Model::PinePhone => PINEPHONE_LIMITS@,
        }
    }

    /// The rung that holds the default limit.
    pub open spec fn default_rung(self) -> int {
        0
    }

    /// The rung that holds the highest limit in use.
    pub open spec fn max_rung(self) -> int {
        match self {
            Model::PinePhonePro => 5,
            Model::PinePhone => 3,
        }
    }

    /// Both ladders are usable, their marked rungs lie on them, and every
    /// rung lies between 450 mA and 2 A.
    pub proof fn lemma_limits_wf(self)
        ensures
            ladder_wf(self.limits()),
            0 <= self.default_rung() < self.limits().len(),
            self.max_rung() == self.limits().len() - 1,
            forall|i: int|
                0 <= i < self.limits().len() ==> 450000 <= #[trigger] self.limits()[i] <= 2000000,
    {
    }

    /// Tells the phone from which of the two USB supplies is present: the
    /// Pro's is looked for first.
    pub fn detect(rk818_usb: bool, axp20x_usb: bool) -> (r: Result<Model, UnknownModel>)
        ensures
            r == (if rk818_usb {
                Ok::<Model, UnknownModel>(Model::PinePhonePro)
            } else if axp20x_usb {
                Ok(Model::PinePhone)
            } else {
                Err(UnknownModel)
            }),
    {
        if rk818_usb {
            Ok(Model::PinePhonePro)
        } else if axp20x_usb {
            Ok(Model::PinePhone)
        } else {
            Err(UnknownModel)
        }
    }

    /// The values that the input-current limit can be set to, lowest first.
    pub fn valid_limits(&self) -> (r: &'static [u32])
        ensures
            r@ == self.limits(),
    {
        match self {
            Model::PinePhonePro => vstd::array::array_as_slice(&PINEPHONE_PRO_LIMITS),
            Model::PinePhone => vstd::array::array_as_slice(&PINEPHONE_LIMITS),
        }
    }

    /// The default input-current limit.
    pub fn default_limit(&self) -> (r: u32)
        ensures
            r == self.limits()[self.default_rung()],
    {
        match self {
            Model::PinePhonePro => self.valid_limits()[0],
            Model::PinePhone => self.valid_limits()[0],
        }
    }

    /// The highest input-current limit in use.
    pub fn max_limit(&self) -> (r: u32)
        ensures
            r == self.limits()[self.max_rung()],
    {
        match self {
            Model::PinePhonePro => self.valid_limits()[5],
            Model::PinePhone => self.valid_limits()[3],
        }
    }

    /// The lowest input-current limit.
    pub fn min_limit(&self) -> (r: u32)
        ensures
            r == self.limits()[0],
    {
        self.valid_limits()[0]
    }

    /// Given the present input-current limit, steps one rung up or down and
    /// returns the new value.
    pub fn limit_step(&self, up: bool, cur: u32) -> (r: u32)
        ensures
            r == step_on(self.limits(), up, cur),
    {
        let valid = self.valid_limits();
        proof {
            self.lemma_limits_wf();
        }
        let mut i: usize = 0;
        while i < valid.len()
            invariant
                valid@ == self.limits(),
                ladder_wf(valid@),
                i <= valid.len(),
                forall|k: int| 0 <= k < i ==> valid@[k] != cur,
            decreases valid.len() - i,
        {
            if valid[i] == cur {
                proof {
                    lemma_rung_unique(valid@, i as int);
                }
                if up {
                    if i + 1 < valid.len() {
                        return valid[i + 1];
                    } else {
                        return valid[i];
                    }
                } else if i == 0 {
                    return valid[0];
                } else {
                    return valid[i - 1];
                }
            }
            i += 1;
        }
        valid[FALLBACK_RUNG]
    }
}

} // verus!
