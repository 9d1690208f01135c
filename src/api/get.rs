//! Requests that read the record.
use crate::config::{Config, FlipSettings};
use crate::servo::ServoValue;
use vstd::prelude::*;

verus! {

/// The text of the root page.
pub fn index() -> (r: &'static str)
    ensures
        r@ == "WIP"@,
{
    "WIP"
}

/// The settings of the on state.
pub fn settings_on(config: &Config) -> (r: FlipSettings)
    ensures
        r == config.on_settings,
{
    config.on_settings
}

/// The settings of the off state.
pub fn settings_off(config: &Config) -> (r: FlipSettings)
    ensures
        r == config.off_settings,
{
    config.off_settings
}

/// The idle position.
pub fn settings_idle(config: &Config) -> (r: ServoValue)
    ensures
        r == config.idle_servo_value,
{
    config.idle_servo_value
}

} // verus!
