use servo_switch::api::delete;
use servo_switch::api::get;
use servo_switch::api::patch;
use servo_switch::api::{ApiError, ApiKey};
use servo_switch::config::{
    default_config, formdatetime_validate, formdatetime_validate_at,
    generate_api_key, read_config_file, Config, FlipSettings, FormDateTime, LightState,
    ScheduledFlip, StorageError,
};
use servo_switch::schedule::{run_schedules, run_schedules_at};
use servo_switch::servo::{
    calc_pulse_width, flip, servo_value_validate, set_value, Action, Actuation, ActuationError,
    Progress, ServoValue, ValidationError,
};

fn pos(millionths: i64) -> ServoValue {
    servo_value_validate(millionths).unwrap()
}

fn settings(delay: u64, millionths: i64) -> FlipSettings {
    FlipSettings { delay, servo_value: pos(millionths) }
}

fn sample_config() -> Config {
    let mut c = default_config("secret".to_string());
    c.on_settings = settings(200, 1_000_000);
    c.off_settings = settings(300, -1_000_000);
    c
}

fn key_for(c: &Config) -> ApiKey {
    ApiKey::from_request(Some(c.api_key.as_str()), &Ok(c.clone())).unwrap()
}

fn total_sleep(actions: &[Action]) -> u64 {
    actions
        .iter()
        .map(|a| match a {
            Action::Sleep(ms) => *ms,
            _ => 0,
        })
        .sum()
}

#[test]
fn pulse_width_at_ends_and_center() {
    assert_eq!(calc_pulse_width(pos(-1_000_000)), 1000);
    assert_eq!(calc_pulse_width(pos(1_000_000)), 2000);
    assert_eq!(calc_pulse_width(pos(0)), 1500);
    assert_eq!(calc_pulse_width(ServoValue::center()), 1500);
}

#[test]
fn pulse_width_rounds_to_nearest_microsecond() {
    assert_eq!(calc_pulse_width(pos(500_000)), 1750);
    assert_eq!(calc_pulse_width(pos(-500_000)), 1250);
    assert_eq!(calc_pulse_width(pos(999)), 1500);
    assert_eq!(calc_pulse_width(pos(1000)), 1501);
    assert_eq!(calc_pulse_width(pos(-1000)), 1500);
    assert_eq!(calc_pulse_width(pos(-1001)), 1499);
}

#[test]
fn pulse_width_is_monotonic() {
    let mut last = 0u64;
    let mut m: i64 = -1_000_000;
    while m <= 1_000_000 {
        let p = calc_pulse_width(pos(m));
        assert!(p >= last);
        last = p;
        m += 777;
    }
}

#[test]
fn servo_value_out_of_range_is_refused() {
    assert_eq!(servo_value_validate(1_000_001), Err(ValidationError::ServoValueOutOfRange));
    assert_eq!(servo_value_validate(-1_000_001), Err(ValidationError::ServoValueOutOfRange));
    assert_eq!(servo_value_validate(1_000_000).unwrap().millionths(), 1_000_000);
    assert_eq!(servo_value_validate(-1_000_000).unwrap().millionths(), -1_000_000);
}

#[test]
fn flip_scenario_on_settings() {
    let c = sample_config();
    let actions = flip(&c.on_settings, &c);
    assert_eq!(
        actions,
        vec![
            Action::Enable,
            Action::SetPulseWidth(2000),
            Action::Sleep(200),
            Action::SetPulseWidth(1500),
            Action::Sleep(500),
            Action::Disable,
        ]
    );
    assert!(total_sleep(&actions) >= 700);
}

#[test]
fn flip_returns_to_configured_idle() {
    let mut c = sample_config();
    c.idle_servo_value = pos(-500_000);
    let actions = flip(&c.off_settings, &c);
    assert_eq!(
        actions,
        vec![
            Action::Enable,
            Action::SetPulseWidth(1000),
            Action::Sleep(300),
            Action::SetPulseWidth(1250),
            Action::Sleep(500),
            Action::Disable,
        ]
    );
}

#[test]
fn set_value_moves_settles_and_releases() {
    assert_eq!(
        set_value(pos(500_000)),
        vec![Action::Enable, Action::SetPulseWidth(1750), Action::Sleep(500), Action::Disable]
    );
}

#[test]
fn actuation_runs_every_step_in_order() {
    let plan = set_value(pos(0));
    let mut run = Actuation::new(plan.clone());
    let mut seen = Vec::new();
    let mut outcome = Ok(());
    loop {
        match run.step(outcome) {
            Progress::Perform(a) => {
                seen.push(a);
                outcome = Ok(());
            }
            Progress::Finished(r) => {
                assert_eq!(r, Ok(()));
                break;
            }
        }
    }
    assert_eq!(seen, plan);
}

#[test]
fn actuation_stops_at_first_failure() {
    let c = sample_config();
    let mut run = Actuation::new(flip(&c.on_settings, &c));
    assert!(matches!(run.step(Ok(())), Progress::Perform(Action::Enable)));
    assert!(matches!(run.step(Ok(())), Progress::Perform(Action::SetPulseWidth(2000))));
    let err = ActuationError { message: "channel gone".to_string() };
    match run.step(Err(err.clone())) {
        Progress::Finished(r) => assert_eq!(r, Err(err)),
        Progress::Perform(a) => panic!("went on with {:?}", a),
    }
    assert!(matches!(run.step(Ok(())), Progress::Finished(Ok(()))));
}

#[test]
fn first_load_creates_zeroed_record_with_fresh_key() {
    let loaded = read_config_file(None).unwrap();
    assert!(loaded.created);
    let c = loaded.config;
    assert_eq!(c.idle_servo_value.millionths(), 0);
    assert_eq!(c.scheduled_flip, None);
    assert_eq!(c.on_settings, settings(0, 0));
    assert_eq!(c.off_settings, settings(0, 0));
    assert_eq!(c.api_key.len(), 44);
    assert_eq!(base64::decode(&c.api_key).unwrap().len(), 32);
    let other = read_config_file(None).unwrap().config;
    assert_ne!(c.api_key, other.api_key);
}

#[test]
fn generated_keys_differ() {
    let a = generate_api_key();
    let b = generate_api_key();
    assert_eq!(a.len(), 44);
    assert_ne!(a, b);
}

#[test]
fn stored_record_is_returned_as_it_is() {
    let c = sample_config();
    let loaded = read_config_file(Some(Ok(c.clone()))).unwrap();
    assert!(!loaded.created);
    assert_eq!(loaded.config.api_key, c.api_key);
    assert_eq!(loaded.config.on_settings, c.on_settings);
    assert_eq!(loaded.config.off_settings, c.off_settings);
    let e = StorageError { message: "bad toml".to_string() };
    assert_eq!(read_config_file(Some(Err(e.clone()))).unwrap_err(), e);
}

#[test]
fn date_is_read_from_seconds() {
    assert_eq!(FormDateTime::from_value("1700000000"), Ok(FormDateTime { inner: 1_700_000_000 }));
    assert_eq!(FormDateTime::from_value("-5"), Ok(FormDateTime { inner: -5 }));
    assert_eq!(FormDateTime::from_value("soon"), Err(ValidationError::NotANumber));
    assert_eq!(FormDateTime::from_value(""), Err(ValidationError::NotANumber));
    assert_eq!(
        FormDateTime::from_value("9223372036854775807"),
        Err(ValidationError::InvalidTimestamp)
    );
}

#[test]
fn due_date_must_be_in_future() {
    let d = FormDateTime { inner: 1000 };
    assert_eq!(formdatetime_validate_at(&d, 999), Ok(()));
    assert_eq!(formdatetime_validate_at(&d, 1000), Err(ValidationError::NotInFuture));
    assert_eq!(formdatetime_validate_at(&d, 1001), Err(ValidationError::NotInFuture));
    assert_eq!(formdatetime_validate(&d), Err(ValidationError::NotInFuture));
    let later = FormDateTime { inner: 4_000_000_000 };
    assert_eq!(formdatetime_validate(&later), Ok(()));
}

#[test]
fn schedule_scenario_fires_once_when_due() {
    let now: i64 = 1_700_000_000;
    let c = sample_config();
    assert!(c.scheduled_flip.is_none());
    let flip_at = ScheduledFlip { state: LightState::On, datetime: FormDateTime { inner: now + 120 } };
    let c = patch::schedule(flip_at, key_for(&c), c);
    assert!(run_schedules_at(c.clone(), now + 60).is_none());
    let fired = run_schedules_at(c.clone(), now + 180).unwrap();
    assert_eq!(fired.config.scheduled_flip, None);
    assert_eq!(fired.actions, flip(&c.on_settings, &c));
    assert!(run_schedules_at(fired.config, now + 180).is_none());
}

#[test]
fn schedule_due_exactly_now_fires() {
    let mut c = sample_config();
    c.scheduled_flip =
        Some(ScheduledFlip { state: LightState::Off, datetime: FormDateTime { inner: 50 } });
    let fired = run_schedules_at(c.clone(), 50).unwrap();
    assert_eq!(fired.actions, flip(&c.off_settings, &c));
    assert!(run_schedules_at(fired.config, 51).is_none());
}

#[test]
fn past_schedule_fires_at_current_time() {
    let mut c = sample_config();
    c.scheduled_flip =
        Some(ScheduledFlip { state: LightState::On, datetime: FormDateTime { inner: 10 } });
    let fired = run_schedules(c).unwrap();
    assert_eq!(fired.config.scheduled_flip, None);
    assert!(run_schedules(sample_config()).is_none());
}

#[test]
fn new_schedule_replaces_pending_one() {
    let c = sample_config();
    let first = ScheduledFlip { state: LightState::On, datetime: FormDateTime { inner: 100 } };
    let second = ScheduledFlip { state: LightState::Off, datetime: FormDateTime { inner: 200 } };
    let c = patch::schedule(first, key_for(&c), c);
    let c = patch::schedule(second, key_for(&c), c);
    assert_eq!(c.scheduled_flip, Some(second));
    assert!(run_schedules_at(c.clone(), 150).is_none());
    let fired = run_schedules_at(c.clone(), 200).unwrap();
    assert_eq!(fired.actions, flip(&c.off_settings, &c));
}

#[test]
fn delete_schedule_clears_it() {
    let mut c = sample_config();
    c.scheduled_flip =
        Some(ScheduledFlip { state: LightState::On, datetime: FormDateTime { inner: 10 } });
    let c = delete::schedule(key_for(&c), c);
    assert_eq!(c.scheduled_flip, None);
    assert!(run_schedules_at(c, 100).is_none());
}

#[test]
fn wrong_key_is_rejected() {
    let c = sample_config();
    let r = ApiKey::from_request(Some("not-the-secret"), &Ok(c.clone()));
    assert!(matches!(r, Err(ApiError::InvalidKey)));
    assert_eq!(get::settings_idle(&c).millionths(), 0);
}

#[test]
fn missing_key_is_rejected() {
    let c = sample_config();
    assert!(matches!(ApiKey::from_request(None, &Ok(c)), Err(ApiError::MissingKey)));
}

#[test]
fn unreadable_record_fails_key_check() {
    let e = StorageError { message: "unreadable".to_string() };
    match ApiKey::from_request(Some("secret"), &Err(e.clone())) {
        Err(ApiError::Storage(got)) => assert_eq!(got, e),
        other => panic!("unexpected {:?}", other),
    }
}

#[test]
fn idle_update_moves_servo_and_updates_record() {
    let c = sample_config();
    let (next, actions) = patch::settings_idle(pos(250_000), key_for(&c), c.clone());
    assert_eq!(next.idle_servo_value.millionths(), 250_000);
    assert_eq!(next.on_settings, c.on_settings);
    assert_eq!(next.api_key, c.api_key);
    assert_eq!(actions, set_value(pos(250_000)));
    assert_eq!(actions[1], Action::SetPulseWidth(1625));
}

#[test]
fn settings_updates_touch_one_state() {
    let c = sample_config();
    let c2 = patch::settings_on(settings(10, 100_000), key_for(&c), c.clone());
    assert_eq!(get::settings_on(&c2), settings(10, 100_000));
    assert_eq!(get::settings_off(&c2), c.off_settings);
    let c3 = patch::settings_off(settings(20, -100_000), key_for(&c2), c2.clone());
    assert_eq!(get::settings_off(&c3), settings(20, -100_000));
    assert_eq!(get::settings_on(&c3), settings(10, 100_000));
}

#[test]
fn light_state_and_test_flips() {
    let c = sample_config();
    assert_eq!(patch::light_state(LightState::On, key_for(&c), &c), flip(&c.on_settings, &c));
    assert_eq!(patch::light_state(LightState::Off, key_for(&c), &c), flip(&c.off_settings, &c));
    let t = settings(5, 0);
    assert_eq!(patch::settings_test(t, key_for(&c), &c), flip(&t, &c));
    assert_eq!(LightState::Off.get_settings(&c), &c.off_settings);
}

#[test]
fn index_page() {
    assert_eq!(get::index(), "WIP");
}
