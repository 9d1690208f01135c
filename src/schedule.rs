//! The decisions of the background scheduler, taken once per tick.
use crate::config::{now_seconds, Config};
use crate::servo::{flip, flip_sequence, Action};
use vstd::prelude::*;

verus! {

/// Seconds between two ticks of the scheduler.
pub const TICK_SECONDS: u64 = 60;

/// A record holds a schedule that is due at `now`.
pub open spec fn is_due(c: Config, now: int) -> bool {
    c.scheduled_flip matches Some(f) && f.datetime.inner <= now
}

/// What a tick does when a schedule is due: write `config` back, which no
/// longer holds the schedule, and then run `actions`.
#[derive(Debug)]
pub struct Fired {
    pub config: Config,
    pub actions: Vec<Action>,
}

/// The tick's outcome for `c` when its schedule is due: the record cleared of
/// the schedule, and the flip to the scheduled state.
pub open spec fn fires(c: Config, f: Fired) -> bool {
    &&& c.scheduled_flip is Some
    &&& f.config == c.with_schedule(None)
    &&& f.actions@ == flip_sequence(
        c.settings_of(c.scheduled_flip->Some_0.state),
        c.idle_servo_value,
    )
}

/// One tick at time `now`: nothing unless a schedule is due; a due schedule is
/// cleared from the record, which is to be written before the flip runs.
pub fn run_schedules_at(config: Config, now: i64) -> (r: Option<Fired>)
    ensures
        r is Some <==> is_due(config, now as int),
        r matches Some(f) ==> fires(config, f),
{
    match config.scheduled_flip {
        Some(scheduled_flip) => {
            if scheduled_flip.datetime.inner <= now {
                let cleared = Config { scheduled_flip: None, ..config };
                let settings = *scheduled_flip.state.get_settings(&cleared);
                let actions = flip(&settings, &cleared);
                Some(Fired { config: cleared, actions })
            } else {
                None
            }
        },
        None => None,
    }
}

/// One tick at the current time.
pub fn run_schedules(config: Config) -> (r: Option<Fired>)
    ensures
        r is Some ==> config.scheduled_flip is Some,
        r matches Some(f) ==> fires(config, f),
{
    run_schedules_at(config, now_seconds())
}

/// A schedule fires once: the record that a firing tick writes back holds no
/// schedule, so no later tick fires again, whatever became of the flip.
pub proof fn lemma_fires_once(c: Config, f: Fired, later: int)
    requires
        fires(c, f),
    ensures
        !is_due(f.config, later),
{
}

} // verus!
