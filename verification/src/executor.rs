//! Carrying out an action: which registers are written, in which order, and
//! what the controller remembers afterwards.
use vstd::prelude::*;
use crate::device::Device;
use crate::engine::{decision, session_after, Action, Ctx, KEYBOARD_CAP};
use crate::model::{lemma_step_on_ladder, step_on, Model};
use crate::telemetry::{Info, KeyboardBattery, MainBattery};

verus! {

/// The time, in nanoseconds, that must have passed since the last action
/// before a rate-limited action is carried out.
pub const STEP_NANOS: u64 = 10000000000;

/// The time, in nanoseconds, after which a converter that is off is switched
/// back on, lest it stop answering.
pub const OFFLINE_NANOS: u64 = 20000000000;

/// The step, in microamperes, by which the keyboard's charge current is raised.
pub const KEYBOARD_STEP: u32 = 100000;

/// One write to a register.
#[derive(Debug, Clone, Copy, PartialEq, Eq, Structural)]
pub enum Write {
    /// Switch the keyboard's boost converter on or off.
    Online(bool),
    /// Set the input-current limit of the phone's USB supply.
    InputLimit(u32),
    /// Set the keyboard's constant-charge current.
    KeyboardLimit(u32),
}

/// What one tick came to: the action chosen and the writes to make, in order.
#[derive(Debug, Clone)]
pub struct Tick {
    pub action: Action,
    pub writes: Vec<Write>,
}

/// The time from `since` to `now`; none if the clock reads earlier than `since`.
pub open spec fn elapsed(now: u64, since: u64) -> int {
    if now >= since {
        now - since
    } else {
        0
    }
}

/// The write that brings the converter to `desired`, if it is not there.
pub open spec fn online_write(desired: bool, cur: bool) -> Seq<Write> {
    if desired != cur {
        seq![Write::Online(desired)]
    } else {
        Seq::empty()
    }
}

/// The write that brings the input-current limit to `target`, if it is not there.
pub open spec fn limit_write(target: u32, cur: u32) -> Seq<Write> {
    if target != cur {
        seq![Write::InputLimit(target)]
    } else {
        Seq::empty()
    }
}

/// The write that brings the keyboard's charge current to `target`, if it is
/// not there.
pub open spec fn kb_limit_write(target: u32, cur: u32) -> Seq<Write> {
    if target != cur {
        seq![Write::KeyboardLimit(target)]
    } else {
        Seq::empty()
    }
}

/// The keyboard's share of its cap once the phone is given `limit`, which is
/// a rung of a ladder and so below the cap.
pub open spec fn keyboard_share(limit: u32) -> u32 {
    (KEYBOARD_CAP - limit) as u32
}

/// The keyboard's charge current raised by one step from `limit`, which is
/// below the cap, and no higher than the cap.
pub open spec fn keyboard_raised(limit: u32) -> u32 {
    if limit + KEYBOARD_STEP < KEYBOARD_CAP {
        (limit + KEYBOARD_STEP) as u32
    } else {
        KEYBOARD_CAP
    }
}

/// The writes of a step up: a converter that is off is switched on, else the
/// input-current limit goes up a rung.
pub open spec fn step_up_writes(model: Model, info: Info) -> Seq<Write> {
    if !info.kbd.enabled {
        online_write(true, info.kbd.enabled)
    } else {
        limit_write(step_on(model.limits(), true, info.mb.limit), info.mb.limit)
    }
}

/// Whether a step down turns to the converter: it does when the
/// input-current limit is at its lowest and cannot go down.
pub open spec fn cuts_off(model: Model, info: Info) -> bool {
    info.mb.limit == model.limits()[0]
}

/// Whether a step down finds the converter on and switches it off.
pub open spec fn switches_off(model: Model, info: Info) -> bool {
    cuts_off(model, info) && info.kbd.enabled
}

/// The writes of a step down: at the lowest limit the converter is switched
/// off, else the input-current limit goes down a rung.
pub open spec fn step_down_writes(model: Model, info: Info) -> Seq<Write> {
    if cuts_off(model, info) {
        online_write(false, info.kbd.enabled)
    } else {
        limit_write(step_on(model.limits(), false, info.mb.limit), info.mb.limit)
    }
}

/// The writes that bring the converter on, the input-current limit to
/// `target` and the keyboard's charge current to its share beside the
/// default limit.
pub open spec fn reset_writes(model: Model, target: u32, info: Info) -> Seq<Write> {
    online_write(true, info.kbd.enabled) + limit_write(target, info.mb.limit) + kb_limit_write(
        keyboard_share(model.limits()[model.default_rung()]),
        info.kbd.limit,
    )
}

/// The writes of an action that is carried out, in order.
pub open spec fn action_writes(model: Model, action: Action, info: Info) -> Seq<Write> {
    match action {
        Action::Pass => Seq::empty(),
        Action::MaybeStepUp => step_up_writes(model, info),
        Action::MaybeStepDown => step_down_writes(model, info),
        Action::MaybeKeyboardPriorityUp => {
            let next = step_on(model.limits(), true, info.mb.limit);
            online_write(true, info.kbd.enabled) + kb_limit_write(
                keyboard_share(next),
                info.kbd.limit,
            ) + limit_write(next, info.mb.limit)
        },
        Action::MaybeStepKeyboardUp => online_write(true, info.kbd.enabled) + (if info.kbd.limit
            < KEYBOARD_CAP {
            kb_limit_write(keyboard_raised(info.kbd.limit), info.kbd.limit)
        } else {
            Seq::empty()
        }),
        Action::SetDefault => reset_writes(model, model.limits()[model.default_rung()], info),
        Action::SetMax => reset_writes(model, model.limits()[model.max_rung()], info),
    }
}

/// Whether an action waits until enough time has passed since the last one.
pub open spec fn rate_limited(action: Action) -> bool {
    match action {
        Action::MaybeStepUp => true,
        Action::MaybeStepDown => true,
        Action::MaybeKeyboardPriorityUp => true,
        Action::MaybeStepKeyboardUp => true,
        _ => false,
    }
}

/// Whether enough time has passed since the last action for a rate-limited
/// action to be carried out at `now`.
pub open spec fn step_due(last_step: u64, now: u64) -> bool {
    elapsed(now, last_step) >= STEP_NANOS
}

/// Whether an action chosen at `now` is carried out: `Pass` never is, a
/// rate-limited action is when a step is due, the others always are.
pub open spec fn carried_out(action: Action, last_step: u64, now: u64) -> bool {
    if action == Action::Pass {
        false
    } else if rate_limited(action) {
        step_due(last_step, now)
    } else {
        true
    }
}

/// The writes that an action chosen at `now` leads to.
pub open spec fn execution_writes(ctx: Ctx, action: Action, info: Info, now: u64) -> Seq<Write> {
    if carried_out(action, ctx.last_step, now) {
        action_writes(ctx.dev.model, action, info)
    } else {
        Seq::empty()
    }
}

/// The controller after an action chosen at `now`: an action that is carried
/// out restarts the wait, and a step down that switches the converter off
/// notes when it did. A step down that finds the converter off already
/// leaves that time as it is.
pub open spec fn after_execution(ctx: Ctx, action: Action, info: Info, now: u64) -> Ctx {
    if carried_out(action, ctx.last_step, now) {
        Ctx {
            last_step: now,
            last_offline: if action == Action::MaybeStepDown && switches_off(
                ctx.dev.model,
                info,
            ) {
                now
            } else {
                ctx.last_offline
            },
            ..ctx
        }
    } else {
        ctx
    }
}

/// Whether the converter has been off for too long at `now`.
pub open spec fn needs_recovery(info: Info, last_offline: u64, now: u64) -> bool {
    !info.kbd.enabled && elapsed(now, last_offline) > OFFLINE_NANOS
}

/// The controller after the decision and, where the converter has been off
/// for too long, after its recovery, which restarts the wait.
pub open spec fn before_execution(ctx: Ctx, info: Info, now: u64) -> Ctx {
    Ctx {
        kb_charging: session_after(ctx.kb_charging, info),
        last_step: if needs_recovery(info, ctx.last_offline, now) {
            now
        } else {
            ctx.last_step
        },
        ..ctx
    }
}

/// The writes of one tick: the recovery of the converter, where it is due,
/// then those of the action.
pub open spec fn tick_writes(ctx: Ctx, info: Info, now: u64) -> Seq<Write> {
    let action = decision(ctx.dev.model, ctx.kb_charging, info);
    let recovery = if needs_recovery(info, ctx.last_offline, now) {
        online_write(true, info.kbd.enabled)
    } else {
        Seq::empty()
    };
    recovery + execution_writes(before_execution(ctx, info, now), action, info, now)
}

/// The controller after one tick.
pub open spec fn after_tick(ctx: Ctx, info: Info, now: u64) -> Ctx {
    let action = decision(ctx.dev.model, ctx.kb_charging, info);
    after_execution(before_execution(ctx, info, now), action, info, now)
}

/// Whether the hardware can take a write: an input-current limit is a rung
/// of the phone's ladder, and the keyboard's charge current is within its cap.
pub open spec fn admissible(model: Model, write: Write) -> bool {
    match write {
        Write::Online(_) => true,
        Write::InputLimit(limit) => model.limits().contains(limit),
        Write::KeyboardLimit(limit) => limit <= KEYBOARD_CAP,
    }
}

/// Whether a write sets its register to another value than the snapshot shows.
pub open spec fn changes(info: Info, write: Write) -> bool {
    match write {
        Write::Online(on) => on != info.kbd.enabled,
        Write::InputLimit(limit) => limit != info.mb.limit,
        Write::KeyboardLimit(limit) => limit != info.kbd.limit,
    }
}

/// Whether every write of a list can be taken by the hardware and changes
/// what the snapshot shows.
pub open spec fn all_sound(model: Model, info: Info, writes: Seq<Write>) -> bool {
    forall|i: int|
        0 <= i < writes.len() ==> {
            &&& admissible(model, #[trigger] writes[i])
            &&& changes(info, writes[i])
        }
}

/// Two lists of sound writes make a list of sound writes.
pub proof fn lemma_sound_concat(model: Model, info: Info, a: Seq<Write>, b: Seq<Write>)
    requires
        all_sound(model, info, a),
        all_sound(model, info, b),
    ensures
        all_sound(model, info, a + b),
{
    assert forall|i: int| 0 <= i < (a + b).len() implies {
        &&& admissible(model, #[trigger] (a + b)[i])
        &&& changes(info, (a + b)[i])
    } by {
        if i < a.len() {
            assert((a + b)[i] == a[i]);
        } else {
            assert((a + b)[i] == b[i - a.len()]);
        }
    }
}

/// The keyboard's share beside a rung of the ladder is within its cap.
pub proof fn lemma_share_within_cap(model: Model, limit: u32)
    requires
        model.limits().contains(limit),
    ensures
        keyboard_share(limit) <= KEYBOARD_CAP,
        keyboard_share(limit) == KEYBOARD_CAP - limit,
{
    model.lemma_limits_wf();
    let t = model.limits();
    let i = choose|i: int| 0 <= i < t.len() && t[i] == limit;
    assert(450000 <= t[i] <= 2000000);
}

/// Every write of a reset to a rung of the ladder is sound.
pub proof fn lemma_reset_writes_sound(model: Model, target: u32, info: Info)
    requires
        model.limits().contains(target),
    ensures
        all_sound(model, info, reset_writes(model, target, info)),
        reset_writes(model, target, info).len() <= 3,
{
    model.lemma_limits_wf();
    let base = model.limits()[model.default_rung()];
    assert(model.limits().contains(base));
    lemma_share_within_cap(model, base);
    let o = online_write(true, info.kbd.enabled);
    let l = limit_write(target, info.mb.limit);
    let k = kb_limit_write(keyboard_share(base), info.kbd.limit);
    lemma_sound_concat(model, info, o, l);
    lemma_sound_concat(model, info, o + l, k);
}

/// Every write of an action can be taken by the hardware and changes what
/// the snapshot shows, and no action makes more than three.
pub proof fn lemma_action_writes_sound(model: Model, action: Action, info: Info)
    ensures
        all_sound(model, info, action_writes(model, action, info)),
        action_writes(model, action, info).len() <= 3,
{
    model.lemma_limits_wf();
    let t = model.limits();
    let o = online_write(true, info.kbd.enabled);
    match action {
        Action::Pass => {},
        Action::MaybeStepUp => {
            lemma_step_on_ladder(t, true, info.mb.limit);
        },
        Action::MaybeStepDown => {
            lemma_step_on_ladder(t, false, info.mb.limit);
        },
        Action::MaybeKeyboardPriorityUp => {
            let next = step_on(t, true, info.mb.limit);
            lemma_step_on_ladder(t, true, info.mb.limit);
            lemma_share_within_cap(model, next);
            let k = kb_limit_write(keyboard_share(next), info.kbd.limit);
            let l = limit_write(next, info.mb.limit);
            lemma_sound_concat(model, info, o, k);
            lemma_sound_concat(model, info, o + k, l);
        },
        Action::MaybeStepKeyboardUp => {
            let k = if info.kbd.limit < KEYBOARD_CAP {
                kb_limit_write(keyboard_raised(info.kbd.limit), info.kbd.limit)
            } else {
                Seq::empty()
            };
            lemma_sound_concat(model, info, o, k);
        },
        Action::SetDefault => {
            assert(t.contains(t[model.default_rung()]));
            lemma_reset_writes_sound(model, t[model.default_rung()], info);
        },
        Action::SetMax => {
            assert(t.contains(t[model.max_rung()]));
            lemma_reset_writes_sound(model, t[model.max_rung()], info);
        },
    }
}

/// Every write of a tick can be taken by the hardware and changes what the
/// snapshot shows, and no tick makes more than four.
pub proof fn lemma_tick_writes_sound(ctx: Ctx, info: Info, now: u64)
    ensures
        all_sound(ctx.dev.model, info, tick_writes(ctx, info, now)),
        tick_writes(ctx, info, now).len() <= 4,
{
    let model = ctx.dev.model;
    let action = decision(model, ctx.kb_charging, info);
    lemma_action_writes_sound(model, action, info);
    let recovery = if needs_recovery(info, ctx.last_offline, now) {
        online_write(true, info.kbd.enabled)
    } else {
        Seq::empty()
    };
    let rest = execution_writes(before_execution(ctx, info, now), action, info, now);
    lemma_sound_concat(model, info, recovery, rest);
}

/// The snapshot once a write has taken effect.
pub open spec fn written(info: Info, write: Write) -> Info {
    match write {
        Write::Online(on) => Info { kbd: KeyboardBattery { enabled: on, ..info.kbd }, ..info },
        Write::InputLimit(limit) => Info { mb: MainBattery { limit, ..info.mb }, ..info },
        Write::KeyboardLimit(limit) => Info { kbd: KeyboardBattery { limit, ..info.kbd }, ..info },
    }
}

/// The snapshot once a list of writes has taken effect, the first write first.
pub open spec fn applied(info: Info, writes: Seq<Write>) -> Info
    decreases writes.len(),
{
    if writes.len() == 0 {
        info
    } else {
        written(applied(info, writes.drop_last()), writes.last())
    }
}

/// Writes that follow one another take effect one list after the other.
pub proof fn lemma_applied_concat(info: Info, a: Seq<Write>, b: Seq<Write>)
    ensures
        applied(info, a + b) == applied(applied(info, a), b),
    decreases b.len(),
{
    if b.len() == 0 {
        assert(a + b =~= a);
    } else {
        assert((a + b).drop_last() =~= a + b.drop_last());
        assert((a + b).last() == b.last());
        lemma_applied_concat(info, a, b.drop_last());
    }
}

/// A reset brings the converter on, the input-current limit to its target
/// and the keyboard's charge current to its share, and touches nothing else.
pub proof fn lemma_reset_settles(model: Model, target: u32, info: Info)
    ensures
        applied(info, reset_writes(model, target, info)) == (Info {
            kbd: KeyboardBattery {
                enabled: true,
                limit: keyboard_share(model.limits()[model.default_rung()]),
                ..info.kbd
            },
            mb: MainBattery { limit: target, ..info.mb },
        }),
{
    let share = keyboard_share(model.limits()[model.default_rung()]);
    let o = online_write(true, info.kbd.enabled);
    let l = limit_write(target, info.mb.limit);
    let k = kb_limit_write(share, info.kbd.limit);
    lemma_applied_concat(info, o + l, k);
    lemma_applied_concat(info, o, l);
    reveal_with_fuel(applied, 2);
    assert(o.len() > 0 ==> o.drop_last() =~= Seq::<Write>::empty());
    assert(l.len() > 0 ==> l.drop_last() =~= Seq::<Write>::empty());
    assert(k.len() > 0 ==> k.drop_last() =~= Seq::<Write>::empty());
}

/// A reset that is chosen again once the writes of the first have taken
/// effect writes nothing: `action` is `SetDefault` or `SetMax`, carried out
/// at `first` and again at `second`.
pub proof fn lemma_reset_idempotent(ctx: Ctx, action: Action, info: Info, first: u64, second: u64)
    requires
        action == Action::SetDefault || action == Action::SetMax,
    ensures
        execution_writes(
            after_execution(ctx, action, info, first),
            action,
            applied(info, execution_writes(ctx, action, info, first)),
            second,
        ) == Seq::<Write>::empty(),
{
    let model = ctx.dev.model;
    let target = if action == Action::SetDefault {
        model.limits()[model.default_rung()]
    } else {
        model.limits()[model.max_rung()]
    };
    lemma_reset_settles(model, target, info);
    let settled = applied(info, reset_writes(model, target, info));
    assert(reset_writes(model, target, settled) =~= Seq::<Write>::empty());
}

/// Of two rate-limited actions chosen less than the waiting time apart, at
/// `first` and at `second`, at most one is carried out. If a step is due
/// at `first`, it is the first, and the second writes nothing and leaves the
/// controller as it was.
pub proof fn lemma_rate_limit(
    ctx: Ctx,
    x: Action,
    a: Info,
    first: u64,
    y: Action,
    b: Info,
    second: u64,
)
    requires
        rate_limited(x),
        rate_limited(y),
        elapsed(second, first) < STEP_NANOS,
    ensures
        ({
            let between = after_execution(ctx, x, a, first);
            &&& !(carried_out(x, ctx.last_step, first) && carried_out(y, between.last_step, second))
            &&& step_due(ctx.last_step, first) ==> {
                &&& carried_out(x, ctx.last_step, first)
                &&& execution_writes(between, y, b, second) == Seq::<Write>::empty()
                &&& after_execution(between, y, b, second) == between
            }
        }),
{
}

/// Two steps up chosen less than the waiting time apart make one write at
/// most. If a step is due at `first`, the second makes none, and the first
/// makes exactly one unless the converter is on and the input-current limit
/// cannot rise.
pub proof fn lemma_step_up_once(ctx: Ctx, a: Info, first: u64, b: Info, second: u64)
    requires
        elapsed(second, first) < STEP_NANOS,
    ensures
        ({
            let one = execution_writes(ctx, Action::MaybeStepUp, a, first);
            let between = after_execution(ctx, Action::MaybeStepUp, a, first);
            let two = execution_writes(between, Action::MaybeStepUp, b, second);
            &&& one.len() + two.len() <= 1
            &&& step_due(ctx.last_step, first) ==> {
                &&& two.len() == 0
                &&& one.len() == 1 <==> !a.kbd.enabled || step_on(
                    ctx.dev.model.limits(),
                    true,
                    a.mb.limit,
                ) != a.mb.limit
            }
        }),
{
}

/// A converter that has been off for too long is switched on first thing in
/// the tick, whatever the action, and the wait restarts.
pub proof fn lemma_offline_recovery(ctx: Ctx, info: Info, now: u64)
    requires
        needs_recovery(info, ctx.last_offline, now),
    ensures
        tick_writes(ctx, info, now).len() > 0,
        tick_writes(ctx, info, now)[0] == Write::Online(true),
        after_tick(ctx, info, now).last_step == now,
{
}

/// The time at which the converter was last switched off moves only in a
/// tick that plans to switch it off, and then to the time of that tick.
pub proof fn lemma_offline_noted_with_write(ctx: Ctx, info: Info, now: u64)
    ensures
        ({
            let after = after_tick(ctx, info, now);
            let writes = tick_writes(ctx, info, now);
            &&& after.last_offline == ctx.last_offline || after.last_offline == now
            &&& writes.contains(Write::Online(false)) ==> after.last_offline == now
            &&& after.last_offline != ctx.last_offline ==> writes.contains(Write::Online(false))
        }),
{
    let model = ctx.dev.model;
    let action = decision(model, ctx.kb_charging, info);
    let before = before_execution(ctx, info, now);
    let recovery = if needs_recovery(info, ctx.last_offline, now) {
        online_write(true, info.kbd.enabled)
    } else {
        Seq::empty()
    };
    let rest = execution_writes(before, action, info, now);
    let writes = recovery + rest;
    lemma_tick_writes_sound(ctx, info, now);
    if after_tick(ctx, info, now).last_offline != ctx.last_offline {
        assert(rest =~= seq![Write::Online(false)]);
        assert(writes[writes.len() - 1] == Write::Online(false));
    }
    if writes.contains(Write::Online(false)) {
        let i = choose|i: int| 0 <= i < writes.len() && writes[i] == Write::Online(false);
        assert(changes(info, writes[i]));
        assert(info.kbd.enabled);
        assert(recovery.len() == 0);
        assert(rest[i] == Write::Online(false));
    }
}

/// While the snapshot shows the converter off, no tick moves the time at
/// which it was switched off, whatever the action.
pub proof fn lemma_off_keeps_time(ctx: Ctx, info: Info, now: u64)
    requires
        !info.kbd.enabled,
    ensures
        after_tick(ctx, info, now).last_offline == ctx.last_offline,
{
}

/// Recovery is not put off: after a tick at `first` that found the converter
/// off, a tick at `second` that finds it off still, and too long after it was
/// switched off, begins by switching it on.
pub proof fn lemma_recovery_not_postponed(ctx: Ctx, a: Info, first: u64, b: Info, second: u64)
    requires
        !a.kbd.enabled,
        !b.kbd.enabled,
        elapsed(second, ctx.last_offline) > OFFLINE_NANOS,
    ensures
        tick_writes(after_tick(ctx, a, first), b, second).len() > 0,
        tick_writes(after_tick(ctx, a, first), b, second)[0] == Write::Online(true),
{
    lemma_off_keeps_time(ctx, a, first);
    lemma_offline_recovery(after_tick(ctx, a, first), b, second);
}

/// The time from `since` to `now`.
pub fn time_since(now: u64, since: u64) -> (r: u64)
    ensures
        r == elapsed(now, since),
{
    if now >= since {
        now - since
    } else {
        0
    }
}

impl Device {
    /// Plans the write that brings the converter to `desired`, unless `cur`
    /// shows it there.
    pub fn set_online(&self, desired: bool, cur: bool, plan: &mut Vec<Write>)
        ensures
            final(plan)@ == old(plan)@ + online_write(desired, cur),
    {
        if desired != cur {
            plan.push(Write::Online(desired));
        }
        assert(final(plan)@ =~= old(plan)@ + online_write(desired, cur));
    }

    /// Plans the write that brings the input-current limit to `limit`,
    /// unless `cur` shows it there.
    pub fn set_limit(&self, limit: u32, cur: u32, plan: &mut Vec<Write>)
        ensures
            final(plan)@ == old(plan)@ + limit_write(limit, cur),
    {
        if limit != cur {
            plan.push(Write::InputLimit(limit));
        }
        assert(final(plan)@ =~= old(plan)@ + limit_write(limit, cur));
    }

    /// Plans the write that brings the keyboard's charge current to `limit`,
    /// unless `cur` shows it there.
    pub fn set_kb_limit(&self, limit: u32, cur: u32, plan: &mut Vec<Write>)
        ensures
            final(plan)@ == old(plan)@ + kb_limit_write(limit, cur),
    {
        if limit != cur {
            plan.push(Write::KeyboardLimit(limit));
        }
        assert(final(plan)@ =~= old(plan)@ + kb_limit_write(limit, cur));
    }

    /// Plans one step of the input-current limit from `cur`.
    pub fn set_limit_step(&self, up: bool, cur: u32, plan: &mut Vec<Write>)
        ensures
            final(plan)@ == old(plan)@ + limit_write(step_on(self.model.limits(), up, cur), cur),
    {
        let limit = self.model.limit_step(up, cur);
        self.set_limit(limit, cur, plan);
    }

    /// Plans the return of the input-current limit to its default.
    pub fn set_limit_default(&self, cur: u32, plan: &mut Vec<Write>)
        ensures
            final(plan)@ == old(plan)@ + limit_write(
                self.model.limits()[self.model.default_rung()],
                cur,
            ),
    {
        let def = self.model.default_limit();
        self.set_limit(def, cur, plan);
    }

    /// Plans the rise of the input-current limit to its highest value.
    pub fn set_limit_max(&self, cur: u32, plan: &mut Vec<Write>)
        ensures
            final(plan)@ == old(plan)@ + limit_write(
                self.model.limits()[self.model.max_rung()],
                cur,
            ),
    {
        let max = self.model.max_limit();
        self.set_limit(max, cur, plan);
    }
}

impl Ctx {
    /// Asks for a rate-limited step at `now`: where one is due the wait restarts, and the
    /// caller goes ahead.
    pub fn maybe_step(&mut self, now: u64) -> (go: bool)
        ensures
            go == step_due(old(self).last_step, now),
            *final(self) == (if go {
                Ctx { last_step: now, ..*old(self) }
            } else {
                *old(self)
            }),
    {
        if time_since(now, self.last_step) >= STEP_NANOS {
            self.last_step = now;
            true
        } else {
            false
        }
    }

    /// Plans a step up.
    pub fn step_up(&self, info: &Info, plan: &mut Vec<Write>)
        ensures
            final(plan)@ == old(plan)@ + step_up_writes(self.dev.model, *info),
    {
        if !info.kbd.enabled {
            self.dev.set_online(true, info.kbd.enabled, plan);
        } else {
            self.dev.set_limit_step(true, info.mb.limit, plan);
        }
    }

    /// Plans a step down at `now`, and notes the time if the converter is
    /// switched off by it.
    pub fn step_down(&mut self, info: &Info, now: u64, plan: &mut Vec<Write>)
        ensures
            final(plan)@ == old(plan)@ + step_down_writes(old(self).dev.model, *info),
            *final(self) == (if switches_off(old(self).dev.model, *info) {
                Ctx { last_offline: now, ..*old(self) }
            } else {
                *old(self)
            }),
    {
        if info.mb.limit == self.dev.model.min_limit() {
            if info.kbd.enabled {
                self.last_offline = now;
            }
            self.dev.set_online(false, info.kbd.enabled, plan);
        } else {
            self.dev.set_limit_step(false, info.mb.limit, plan);
        }
    }

    /// Plans the writes of `action`, chosen at `now` for the snapshot `info`,
    /// and updates the controller's two times.
    pub fn execute(&mut self, action: Action, info: &Info, now: u64) -> (plan: Vec<Write>)
        ensures
            plan@ == execution_writes(*old(self), action, *info, now),
            *final(self) == after_execution(*old(self), action, *info, now),
    {
        let mut plan: Vec<Write> = Vec::new();
        let model = self.dev.model;
        proof {
            model.lemma_limits_wf();
            lemma_step_on_ladder(model.limits(), true, info.mb.limit);
        }
        match action {
            Action::Pass => {},
            Action::MaybeStepUp => {
                if self.maybe_step(now) {
                    self.step_up(info, &mut plan);
                }
            },
            Action::MaybeKeyboardPriorityUp => {
                if self.maybe_step(now) {
                    self.dev.set_online(true, info.kbd.enabled, &mut plan);
                    let lim = self.dev.model.limit_step(true, info.mb.limit);
                    self.dev.set_kb_limit(KEYBOARD_CAP - lim, info.kbd.limit, &mut plan);
                    self.dev.set_limit_step(true, info.mb.limit, &mut plan);
                }
            },
            Action::MaybeStepKeyboardUp => {
                if self.maybe_step(now) {
                    self.dev.set_online(true, info.kbd.enabled, &mut plan);
                    if info.kbd.limit < KEYBOARD_CAP {
                        let raised = if info.kbd.limit + KEYBOARD_STEP < KEYBOARD_CAP {
                            info.kbd.limit + KEYBOARD_STEP
                        } else {
                            KEYBOARD_CAP
                        };
                        self.dev.set_kb_limit(raised, info.kbd.limit, &mut plan);
                    }
                }
            },
            Action::MaybeStepDown => {
                if self.maybe_step(now) {
                    self.step_down(info, now, &mut plan);
                }
            },
            Action::SetDefault => {
                self.last_step = now;
                self.dev.set_online(true, info.kbd.enabled, &mut plan);
                self.dev.set_limit_default(info.mb.limit, &mut plan);
                self.dev.set_kb_limit(
                    KEYBOARD_CAP - self.dev.model.default_limit(),
                    info.kbd.limit,
                    &mut plan,
                );
            },
            Action::SetMax => {
                self.last_step = now;
                self.dev.set_online(true, info.kbd.enabled, &mut plan);
                self.dev.set_limit_max(info.mb.limit, &mut plan);
                self.dev.set_kb_limit(
                    KEYBOARD_CAP - self.dev.model.default_limit(),
                    info.kbd.limit,
                    &mut plan,
                );
            },
        }
        assert(plan@ =~= execution_writes(*old(self), action, *info, now));
        plan
    }

    /// One tick at `now` on the snapshot `info`: decides, switches a
    /// converter that has been off for too long back on, and carries the
    /// action out.
    pub fn step(&mut self, info: &Info, now: u64) -> (tick: Tick)
        ensures
            tick.action == decision(old(self).dev.model, old(self).kb_charging, *info),
            tick.writes@ == tick_writes(*old(self), *info, now),
            *final(self) == after_tick(*old(self), *info, now),
            needs_recovery(*info, old(self).last_offline, now) ==> tick.writes@.len() > 0
                && tick.writes@[0] == Write::Online(true) && final(self).last_step == now,
    {
        let action = self.decide(info);
        let mut writes: Vec<Write> = Vec::new();
        // a converter that is left off for too long stops answering
        if !info.kbd.enabled && time_since(now, self.last_offline) > OFFLINE_NANOS {
            self.last_step = now;
            self.dev.set_online(true, info.kbd.enabled, &mut writes);
        }
        assert(*self == before_execution(*old(self), *info, now));
        let mut rest = self.execute(action, info, now);
        writes.append(&mut rest);
        assert(writes@ =~= tick_writes(*old(self), *info, now));
        Tick { action, writes }
    }
}

} // verus!
