use keyboard_power::device::Device;
use keyboard_power::engine::{Action, Ctx, KEYBOARD_CAP, SOC_FLOOR, VOLTAGE_BAND};
use keyboard_power::model::Model;
use keyboard_power::telemetry::{Info, KeyboardBattery, MainBattery, State};

fn ctx(model: Model, kb_charging: bool) -> Ctx {
    let mut ctx = Ctx::new(Device::new(model), 7);
    ctx.kb_charging = kb_charging;
    ctx
}

fn snapshot(kb_state: State, mb_state: State) -> Info {
    Info {
        kbd: KeyboardBattery {
            state: kb_state,
            soc: Some(50),
            voltage: 3700000,
            current: 0,
            limit: 1800000,
            enabled: true,
        },
        mb: MainBattery {
            state: mb_state,
            soc: Some(50),
            voltage: 3700000,
            current: 0,
            limit: 500000,
        },
    }
}

fn charging(kb_current: i32, mb_current: i32, mb_limit: u32) -> Info {
    let mut info = snapshot(State::Charging, State::Charging);
    info.kbd.current = kb_current;
    info.mb.current = mb_current;
    info.mb.limit = mb_limit;
    info
}

#[test]
fn policy_constants() {
    assert_eq!(KEYBOARD_CAP, 2300000);
    assert_eq!(VOLTAGE_BAND, 150000);
    assert_eq!(SOC_FLOOR, 30);
}

#[test]
fn a_new_controller_is_outside_a_session() {
    let ctx = Ctx::new(Device::new(Model::PinePhonePro), 12345);
    assert!(!ctx.kb_charging);
    assert_eq!(ctx.last_step, 12345);
    assert_eq!(ctx.last_offline, 12345);
    assert_eq!(ctx.dev.model, Model::PinePhonePro);
}

#[test]
fn keyboard_starts_charging_resets_the_limits_and_opens_a_session() {
    let mut ctx = ctx(Model::PinePhone, false);
    let info = snapshot(State::Charging, State::Discharging);
    assert_eq!(ctx.decide(&info), Action::SetDefault);
    assert!(ctx.kb_charging);
    assert_eq!(ctx.last_step, 7);
    assert_eq!(ctx.last_offline, 7);
}

#[test]
fn main_battery_below_the_floor_keeps_charging_unless_it_can_spare_a_rung() {
    let mut ctx = ctx(Model::PinePhone, false);
    let mut info = snapshot(State::Discharging, State::Charging);
    info.mb.soc = Some(20);
    info.mb.current = 500000;
    info.mb.limit = 900000;
    assert_eq!(ctx.decide(&info), Action::MaybeStepDown);
    assert!(!ctx.kb_charging);
    info.mb.current = 400001;
    assert_eq!(ctx.decide(&info), Action::MaybeStepDown);
    info.mb.current = 400000;
    assert_eq!(ctx.decide(&info), Action::Pass);
    info.mb.current = 0;
    assert_eq!(ctx.decide(&info), Action::Pass);
    info.mb.current = -500000;
    assert_eq!(ctx.decide(&info), Action::Pass);
}

#[test]
fn main_battery_below_the_floor_on_the_pro() {
    let mut ctx = ctx(Model::PinePhonePro, false);
    let mut info = snapshot(State::Discharging, State::Charging);
    info.mb.soc = Some(20);
    info.mb.current = 500000;
    info.mb.limit = 850000;
    assert_eq!(ctx.decide(&info), Action::MaybeStepDown);
    // at the lowest rung nothing is left to step down by
    info.mb.limit = 450000;
    info.mb.current = 1;
    assert_eq!(ctx.decide(&info), Action::MaybeStepDown);
}

#[test]
fn main_battery_without_a_state_of_charge_counts_as_below_the_floor() {
    let mut ctx = ctx(Model::PinePhone, false);
    let mut info = snapshot(State::Discharging, State::Charging);
    info.mb.soc = None;
    info.mb.current = 400000;
    info.mb.limit = 900000;
    assert_eq!(ctx.decide(&info), Action::Pass);
    info.mb.state = State::Discharging;
    assert_eq!(ctx.decide(&info), Action::MaybeStepUp);
}

#[test]
fn limit_off_the_ladder_below_the_fallback_gives_a_negative_delta() {
    let mut ctx = ctx(Model::PinePhone, false);
    let mut info = snapshot(State::Discharging, State::Charging);
    info.mb.soc = Some(30);
    info.mb.limit = 1000000;
    info.mb.current = 1;
    assert_eq!(ctx.decide(&info), Action::MaybeStepDown);
}

#[test]
fn main_battery_above_the_floor_gives_up_input_current() {
    let mut ctx = ctx(Model::PinePhone, false);
    let mut info = snapshot(State::Discharging, State::Charging);
    info.mb.soc = Some(31);
    assert_eq!(ctx.decide(&info), Action::MaybeStepDown);
    info.mb.soc = Some(30);
    assert_eq!(ctx.decide(&info), Action::Pass);
}

#[test]
fn both_discharging_the_higher_main_voltage_steps_down() {
    let mut ctx = ctx(Model::PinePhonePro, false);
    let mut info = snapshot(State::Discharging, State::Discharging);
    info.mb.soc = Some(50);
    info.mb.voltage = 3800000;
    info.kbd.voltage = 3600000;
    assert_eq!(ctx.decide(&info), Action::MaybeStepDown);
    assert!(!ctx.kb_charging);
}

#[test]
fn both_discharging_within_the_band_nothing_changes() {
    let mut ctx = ctx(Model::PinePhonePro, false);
    let mut info = snapshot(State::Discharging, State::Discharging);
    info.mb.current = -900000;
    info.kbd.current = -100000;
    info.kbd.voltage = 3700000;
    for v in [3700000, 3849999, 3550001, 3700001, 3699999] {
        info.mb.voltage = v;
        assert_eq!(ctx.decide(&info), Action::Pass);
    }
    info.mb.voltage = 3850001;
    assert_eq!(ctx.decide(&info), Action::MaybeStepDown);
}

#[test]
fn both_discharging_outside_the_band_the_currents_decide() {
    let mut ctx = ctx(Model::PinePhonePro, false);
    let mut info = snapshot(State::Discharging, State::Discharging);
    info.kbd.voltage = 3700000;
    for v in [3850000, 3550000, 3000000, 0] {
        info.mb.voltage = v;
        info.mb.current = -900000;
        info.kbd.current = -100000;
        assert_eq!(ctx.decide(&info), Action::MaybeStepUp);
        info.mb.current = 900000;
        info.kbd.current = 100000;
        assert_eq!(ctx.decide(&info), Action::MaybeStepUp);
        info.mb.current = -100000;
        info.kbd.current = -100000;
        assert_eq!(ctx.decide(&info), Action::Pass);
        info.mb.current = -100000;
        info.kbd.current = 900000;
        assert_eq!(ctx.decide(&info), Action::Pass);
    }
}

#[test]
fn both_discharging_with_the_largest_magnitudes() {
    let mut ctx = ctx(Model::PinePhone, false);
    let mut info = snapshot(State::Discharging, State::Discharging);
    info.mb.voltage = 0;
    info.kbd.voltage = u32::MAX;
    info.mb.current = i32::MIN;
    info.kbd.current = i32::MAX;
    assert_eq!(ctx.decide(&info), Action::MaybeStepUp);
    info.mb.voltage = u32::MAX;
    info.kbd.voltage = 0;
    assert_eq!(ctx.decide(&info), Action::MaybeStepDown);
}

#[test]
fn both_discharging_at_the_floor_draws_from_the_keyboard() {
    let mut ctx = ctx(Model::PinePhone, false);
    let mut info = snapshot(State::Discharging, State::Discharging);
    info.mb.soc = Some(30);
    info.mb.voltage = 3800000;
    info.kbd.voltage = 3600000;
    assert_eq!(ctx.decide(&info), Action::MaybeStepUp);
    info.mb.soc = Some(0);
    assert_eq!(ctx.decide(&info), Action::MaybeStepUp);
}

#[test]
fn keyboard_discharging_with_a_full_main_battery_resets() {
    let mut ctx = ctx(Model::PinePhone, false);
    let info = snapshot(State::Discharging, State::Full);
    assert_eq!(ctx.decide(&info), Action::SetDefault);
    assert!(!ctx.kb_charging);
}

#[test]
fn keyboard_stops_charging_resets_the_limits_and_ends_the_session() {
    let mut ctx = ctx(Model::PinePhone, true);
    let info = snapshot(State::Discharging, State::Discharging);
    assert_eq!(ctx.decide(&info), Action::SetDefault);
    assert!(!ctx.kb_charging);
    assert_eq!(ctx.decide(&info), Action::Pass);
}

#[test]
fn full_keyboard_in_a_session_gives_the_main_battery_the_most() {
    let mut ctx = ctx(Model::PinePhone, true);
    let mut info = snapshot(State::Full, State::Charging);
    assert_eq!(ctx.decide(&info), Action::SetMax);
    assert!(ctx.kb_charging);
    info.kbd.enabled = false;
    assert_eq!(ctx.decide(&info), Action::SetDefault);
    assert!(ctx.kb_charging);
}

#[test]
fn full_keyboard_outside_a_session_resets() {
    let mut ctx = ctx(Model::PinePhone, false);
    let info = snapshot(State::Full, State::Charging);
    assert_eq!(ctx.decide(&info), Action::SetDefault);
    assert!(!ctx.kb_charging);
}

#[test]
fn charging_with_room_and_a_draining_main_battery_steps_up() {
    let mut ctx = ctx(Model::PinePhone, true);
    assert_eq!(ctx.decide(&charging(1000000, -100, 500000)), Action::MaybeStepUp);
    assert!(ctx.kb_charging);
    // the next rung is 1500000: 943749 + 1500000 is one below the ceiling
    assert_eq!(ctx.decide(&charging(943749, -1, 900000)), Action::MaybeStepUp);
}

#[test]
fn charging_without_room_and_a_draining_main_battery_favours_the_phone() {
    let mut ctx = ctx(Model::PinePhone, true);
    assert_eq!(ctx.decide(&charging(1000000, -100, 900000)), Action::MaybeKeyboardPriorityUp);
    assert_eq!(ctx.decide(&charging(943750, -1, 900000)), Action::MaybeKeyboardPriorityUp);
}

#[test]
fn charging_over_the_ceiling_steps_down() {
    let mut ctx = ctx(Model::PinePhone, true);
    assert_eq!(ctx.decide(&charging(1000000, 100, 1500000)), Action::MaybeStepDown);
    assert_eq!(ctx.decide(&charging(943750, 0, 1500000)), Action::MaybeStepDown);
}

#[test]
fn charging_under_the_cap_raises_the_keyboard() {
    let mut ctx = ctx(Model::PinePhone, true);
    assert_eq!(ctx.decide(&charging(1000000, 100, 900000)), Action::MaybeStepKeyboardUp);
    assert_eq!(ctx.decide(&charging(799999, 0, 1500000)), Action::MaybeStepKeyboardUp);
    assert_eq!(ctx.decide(&charging(-5000000, 0, 1500000)), Action::MaybeStepKeyboardUp);
}

#[test]
fn charging_between_cap_and_ceiling_passes() {
    let mut ctx = ctx(Model::PinePhone, true);
    assert_eq!(ctx.decide(&charging(900000, 100, 1500000)), Action::Pass);
    assert_eq!(ctx.decide(&charging(800000, 0, 1500000)), Action::Pass);
    assert_eq!(ctx.decide(&charging(943749, 0, 1500000)), Action::Pass);
}

#[test]
fn charging_with_the_largest_values_does_not_wrap() {
    let mut ctx = ctx(Model::PinePhone, true);
    assert_eq!(ctx.decide(&charging(i32::MAX, 0, u32::MAX)), Action::MaybeStepDown);
    assert_eq!(ctx.decide(&charging(i32::MIN, 0, u32::MAX)), Action::MaybeStepDown);
    assert_eq!(ctx.decide(&charging(i32::MIN, 0, 0)), Action::MaybeStepKeyboardUp);
    assert_eq!(ctx.decide(&charging(i32::MAX, -1, u32::MAX)), Action::MaybeKeyboardPriorityUp);
    assert_eq!(ctx.decide(&charging(i32::MIN, -1, u32::MAX)), Action::MaybeStepUp);
}

#[test]
fn charging_never_steps_up_and_down_on_the_same_total() {
    let model = Model::PinePhonePro;
    let mut ctx = ctx(model, true);
    for &limit in model.valid_limits() {
        for total in [0i64, 2299999, 2300000, 2443749, 2443750, 2443751, 4000000] {
            let kb_current = (total - limit as i64) as i32;
            let draining = ctx.decide(&charging(kb_current, -1, limit));
            let charging_too = ctx.decide(&charging(kb_current, 1, limit));
            assert!(!(draining == Action::MaybeStepUp && charging_too == Action::MaybeStepDown));
            assert!(draining == Action::MaybeStepUp || draining == Action::MaybeKeyboardPriorityUp);
            assert!(
                charging_too == Action::MaybeStepDown
                    || charging_too == Action::MaybeStepKeyboardUp
                    || charging_too == Action::Pass
            );
        }
    }
}

#[test]
fn charging_with_a_limit_above_the_ladder_steps_towards_the_fallback() {
    // off the ladder a step up leads to 1500000, below the limit in force
    let mut ctx = ctx(Model::PinePhone, true);
    assert_eq!(ctx.decide(&charging(100000, -1, 2400000)), Action::MaybeStepUp);
    assert_eq!(ctx.decide(&charging(100000, 1, 2400000)), Action::MaybeStepDown);
}
