//! Requests that change the record or move the servo; each needs the secret.
use crate::api::ApiKey;
use crate::config::{Config, FlipSettings, LightState, ScheduledFlip};
use crate::servo::{flip, flip_sequence, set_value, set_value_sequence, Action, ServoValue};
use vstd::prelude::*;

verus! {

/// The flip to a named state, with the record's settings and idle position.
pub fn light_state(state: LightState, _key: ApiKey, config: &Config) -> (r: Vec<Action>)
    ensures
        r@ == flip_sequence(config.settings_of(state), config.idle_servo_value),
{
    flip(state.get_settings(config), config)
}

/// A flip with settings given by the request, which are not stored.
pub fn settings_test(settings: FlipSettings, _key: ApiKey, config: &Config) -> (r: Vec<Action>)
    ensures
        r@ == flip_sequence(settings, config.idle_servo_value),
{
    flip(&settings, config)
}

/// The record with new settings for the on state.
pub fn settings_on(settings: FlipSettings, _key: ApiKey, config: Config) -> (r: Config)
    ensures
        r == (Config { on_settings: settings, ..config }),
{
    Config { on_settings: settings, ..config }
}

/// The record with new settings for the off state.
pub fn settings_off(settings: FlipSettings, _key: ApiKey, config: Config) -> (r: Config)
    ensures
        r == (Config { off_settings: settings, ..config }),
{
    Config { off_settings: settings, ..config }
}

/// A new idle position: the record to write, and the move that brings the
/// servo there. The record is written only once the move has succeeded.
pub fn settings_idle(value: ServoValue, _key: ApiKey, config: Config) -> (r: (Config, Vec<Action>))
    ensures
        r.0 == (Config { idle_servo_value: value, ..config }),
        r.1@ == set_value_sequence(value),
{
    (Config { idle_servo_value: value, ..config }, set_value(value))
}

/// The record with `scheduled_flip` as its pending schedule, in place of any
/// earlier one.
pub fn schedule(scheduled_flip: ScheduledFlip, _key: ApiKey, config: Config) -> (r: Config)
    ensures
        r == config.with_schedule(Some(scheduled_flip)),
{
    Config { scheduled_flip: Some(scheduled_flip), ..config }
}

} // verus!
