//! Servo positions and the actuation sequences that drive the PWM channel.
use crate::config::{Config, FlipSettings};
use vstd::prelude::*;

verus! {

/// Units of a position per 1.0 of the normalised range [-1.0, 1.0].
pub const SCALE: i64 = 1_000_000;

/// Length of one PWM period, in milliseconds.
pub const PERIOD_MS: u64 = 20;

/// Pulse width at position -1.0, in microseconds.
pub const PULSE_MIN_US: u64 = 1000;

/// Pulse width at position 1.0, in microseconds.
pub const PULSE_MAX_US: u64 = 2000;

/// Time given to the servo to settle before its output is disabled.
pub const SETTLE_MS: u64 = 500;

/// Why a value was refused at the boundary.
#[derive(Clone, Debug, PartialEq, Eq)]
pub enum ValidationError {
    /// A servo position outside [-1.0, 1.0].
    ServoValueOutOfRange,
    /// A date that is not a decimal number of seconds.
    NotANumber,
    /// A number of seconds that is not a representable instant.
    InvalidTimestamp,
    /// A date that is not strictly in the future.
    NotInFuture,
}

/// A normalised servo position in [-1.0, 1.0], held in millionths.
#[derive(Clone, Copy, Debug, PartialEq, Eq, Structural)]
pub struct ServoValue {
    millionths: i64,
}

impl ServoValue {
    #[verifier::type_invariant]
    spec fn in_range(self) -> bool {
        -SCALE <= self.millionths <= SCALE
    }

    /// The position, in millionths of the unit range.
    pub closed spec fn view(self) -> int {
        self.millionths as int
    }

    /// The position, in millionths of the unit range.
    pub fn millionths(&self) -> (r: i64)
        ensures
            r == self@,
            valid_millionths(r as int),
    {
        proof {
            use_type_invariant(self);
        }
        self.millionths
    }

    /// The position 0.0, halfway between the two ends.
    pub fn center() -> (r: ServoValue)
        ensures
            r@ == 0,
    {
        ServoValue { millionths: 0 }
    }
}

/// A position in millionths lies in [-1.0, 1.0].
pub open spec fn valid_millionths(m: int) -> bool {
    -SCALE <= m <= SCALE
}

/// Accepts a position given in millionths when it lies in [-1.0, 1.0].
pub fn servo_value_validate(millionths: i64) -> (r: Result<ServoValue, ValidationError>)
    ensures
        valid_millionths(millionths as int) <==> r.is_ok(),
        r matches Ok(v) ==> v@ == millionths,
        r matches Err(e) ==> e == ValidationError::ServoValueOutOfRange,
{
    if millionths < -SCALE || millionths > SCALE {
        return Err(ValidationError::ServoValueOutOfRange);
    }
    Ok(ServoValue { millionths })
}

/// The pulse width, in microseconds, for a position in millionths: the linear
/// map from [-1.0, 1.0] onto [PULSE_MIN_US, PULSE_MAX_US], rounded to the
/// nearest microsecond, halves upward.
pub open spec fn pulse_width_us(m: int) -> int {
    PULSE_MIN_US + ((PULSE_MAX_US - PULSE_MIN_US) * (m + SCALE) + SCALE) / (2 * SCALE)
}

/// The pulse width for a position, in microseconds.
pub fn calc_pulse_width(servo_value: ServoValue) -> (r: u64)
    ensures
        r == pulse_width_us(servo_value@),
        PULSE_MIN_US <= r <= PULSE_MAX_US,
        // within half a microsecond of the exact linear value
        -SCALE < 2 * SCALE * (r - PULSE_MIN_US) - (PULSE_MAX_US - PULSE_MIN_US) * (servo_value@
            + SCALE) <= SCALE,
{
    let m = servo_value.millionths();
    let shifted = (m + SCALE) as u64;
    assert(0 <= shifted <= 2 * SCALE);
    let r = PULSE_MIN_US + ((PULSE_MAX_US - PULSE_MIN_US) * shifted + SCALE as u64) / (2
        * SCALE as u64);
    proof {
        lemma_pulse_width_linear(m as int);
    }
    r
}

/// The pulse width grows with the position.
pub proof fn lemma_pulse_width_monotonic(a: int, b: int)
    requires
        valid_millionths(a),
        valid_millionths(b),
        a <= b,
    ensures
        pulse_width_us(a) <= pulse_width_us(b),
{
    let x = 1000 * (a + 1_000_000) + 1_000_000;
    let y = 1000 * (b + 1_000_000) + 1_000_000;
    assert(x <= y) by (nonlinear_arith)
        requires
            a <= b,
            x == 1000 * (a + 1_000_000) + 1_000_000,
            y == 1000 * (b + 1_000_000) + 1_000_000,
    ;
    vstd::arithmetic::div_mod::lemma_div_is_ordered(x, y, 2 * SCALE as int);
}

/// The pulse width is the linear map rounded: it is never more than half a
/// microsecond from `PULSE_MIN_US + (m + SCALE) * (PULSE_MAX_US - PULSE_MIN_US) / (2 * SCALE)`.
pub proof fn lemma_pulse_width_linear(m: int)
    requires
        valid_millionths(m),
    ensures
        -SCALE < 2 * SCALE * (pulse_width_us(m) - PULSE_MIN_US) - (PULSE_MAX_US - PULSE_MIN_US) * (
        m + SCALE) <= SCALE,
{
    let x = 1000 * (m + 1_000_000) + 1_000_000;
    vstd::arithmetic::div_mod::lemma_fundamental_div_mod(x, 2_000_000);
    assert(0 <= x % 2_000_000 < 2_000_000) by {
        vstd::arithmetic::div_mod::lemma_mod_bound(x, 2_000_000);
    }
}

/// A failure of the PWM channel, with the driver's message.
#[derive(Clone, Debug, PartialEq, Eq)]
pub struct ActuationError {
    pub message: String,
}

/// One step of an actuation sequence, performed on the PWM channel.
#[derive(Clone, Copy, Debug, PartialEq, Eq, Structural)]
pub enum Action {
    /// Switch the output on.
    Enable,
    /// Drive pulses of this width, in microseconds.
    SetPulseWidth(u64),
    /// Hold for this many milliseconds.
    Sleep(u64),
    /// Switch the output off.
    Disable,
}

/// The step that moves the servo to a position.
pub open spec fn move_to(v: ServoValue) -> Action {
    Action::SetPulseWidth(pulse_width_us(v@) as u64)
}

/// A flip: move to the target, hold for its delay, come back to idle,
/// settle, then release the servo.
pub open spec fn flip_sequence(settings: FlipSettings, idle: ServoValue) -> Seq<Action> {
    seq![
        Action::Enable,
        move_to(settings.servo_value),
        Action::Sleep(settings.delay),
        move_to(idle),
        Action::Sleep(SETTLE_MS),
        Action::Disable,
    ]
}

/// A move to a new resting position: move, settle, release.
pub open spec fn set_value_sequence(v: ServoValue) -> Seq<Action> {
    seq![Action::Enable, move_to(v), Action::Sleep(SETTLE_MS), Action::Disable]
}

/// The total time that a sequence holds, in milliseconds.
pub open spec fn hold_time(actions: Seq<Action>) -> int
    decreases actions.len(),
{
    if actions.len() == 0 {
        0
    } else {
        let rest = hold_time(actions.drop_last());
        match actions.last() {
            Action::Sleep(ms) => rest + ms,
            _ => rest,
        }
    }
}

/// The sequence that flips the servo to `settings` and back to the idle
/// position of `config`.
pub fn flip(settings: &FlipSettings, config: &Config) -> (r: Vec<Action>)
    ensures
        r@ == flip_sequence(*settings, config.idle_servo_value),
{
    let target = calc_pulse_width(settings.servo_value);
    let idle = calc_pulse_width(config.idle_servo_value);
    let r = vec![
        Action::Enable,
        Action::SetPulseWidth(target),
        Action::Sleep(settings.delay),
        Action::SetPulseWidth(idle),
        Action::Sleep(SETTLE_MS),
        Action::Disable,
    ];
    assert(r@ =~= flip_sequence(*settings, config.idle_servo_value));
    r
}

/// The sequence that moves the servo to a new resting position.
pub fn set_value(servo_value: ServoValue) -> (r: Vec<Action>)
    ensures
        r@ == set_value_sequence(servo_value),
{
    let pulse = calc_pulse_width(servo_value);
    let r = vec![Action::Enable, Action::SetPulseWidth(pulse), Action::Sleep(SETTLE_MS), Action::Disable];
    assert(r@ =~= set_value_sequence(servo_value));
    r
}

/// A flip holds the servo for its delay plus the settle time, and ends with
/// the output released.
pub proof fn lemma_flip_timing(settings: FlipSettings, idle: ServoValue)
    ensures
        hold_time(flip_sequence(settings, idle)) == settings.delay + SETTLE_MS,
        flip_sequence(settings, idle).last() == Action::Disable,
{
    let s = flip_sequence(settings, idle);
    reveal_with_fuel(hold_time, 7);
    assert(s.drop_last().drop_last().drop_last().drop_last().drop_last().drop_last() =~= Seq::<Action>::empty());
    assert(s.drop_last().drop_last().drop_last().drop_last().drop_last() =~= seq![Action::Enable]);
    assert(s.drop_last().drop_last().drop_last().drop_last() =~= seq![Action::Enable, move_to(settings.servo_value)]);
    assert(s.drop_last().drop_last().drop_last() =~= seq![Action::Enable, move_to(settings.servo_value), Action::Sleep(settings.delay)]);
    assert(s.drop_last().drop_last() =~= seq![Action::Enable, move_to(settings.servo_value), Action::Sleep(settings.delay), move_to(idle)]);
    assert(s.drop_last() =~= seq![Action::Enable, move_to(settings.servo_value), Action::Sleep(settings.delay), move_to(idle), Action::Sleep(SETTLE_MS)]);
}

/// What an actuation run asks of its driver next.
#[derive(Debug)]
pub enum Progress {
    /// Perform this step and report how it went.
    Perform(Action),
    /// The run is over, with this outcome.
    Finished(Result<(), ActuationError>),
}

/// A run of an actuation sequence: steps are handed out in order, and the
/// first failure ends the run with that failure.
pub struct Actuation {
    plan: Vec<Action>,
    next: usize,
}

impl Actuation {
    /// The steps of the run.
    pub closed spec fn plan(&self) -> Seq<Action> {
        self.plan@
    }

    /// How many steps have been handed out.
    pub closed spec fn done(&self) -> int {
        self.next as int
    }

    pub closed spec fn wf(&self) -> bool {
        self.next <= self.plan@.len()
    }

    /// A run of `plan` that has not started.
    pub fn new(plan: Vec<Action>) -> (r: Actuation)
        ensures
            r.wf(),
            r.plan() == plan@,
            r.done() == 0,
    {
        Actuation { plan, next: 0 }
    }

    /// Takes the outcome of the step handed out last (`Ok(())` at the start)
    /// and says what comes next.
    pub fn step(&mut self, outcome: Result<(), ActuationError>) -> (r: Progress)
        requires
            old(self).wf(),
        ensures
            final(self).wf(),
            final(self).plan() == old(self).plan(),
            match outcome {
                Err(e) => r == Progress::Finished(Err(e)) && final(self).done() == old(self).plan().len(),
                Ok(()) => if old(self).done() < old(self).plan().len() {
                    r == Progress::Perform(old(self).plan()[old(self).done()])
                        && final(self).done() == old(self).done() + 1
                } else {
                    r == Progress::Finished(Ok(())) && final(self).done() == old(self).done()
                },
            },
    {
        match outcome {
            Err(e) => {
                self.next = self.plan.len();
                Progress::Finished(Err(e))
            },
            Ok(()) => {
                if self.next < self.plan.len() {
                    let a = self.plan[self.next];
                    self.next = self.next + 1;
                    Progress::Perform(a)
                } else {
                    Progress::Finished(Ok(()))
                }
            },
        }
    }
}

} // verus!
