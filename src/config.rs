//! The configuration record, its parts, and what happens when it is loaded.
use crate::servo::{ServoValue, ValidationError};
use chrono::TimeZone;
use rand::RngCore;
use vstd::prelude::*;

verus! {

/// One of the two named states of the switch.
#[derive(Clone, Copy, Debug, PartialEq, Eq, Structural)]
pub enum LightState {
    On,
    Off,
}

/// How to flip to one state: where to move, and how long to hold there.
#[derive(Clone, Copy, Debug, PartialEq, Eq, Structural)]
pub struct FlipSettings {
    /// Hold time at the target, in milliseconds.
    pub delay: u64,
    pub servo_value: ServoValue,
}

/// An instant in UTC, in whole seconds since the Unix epoch.
#[derive(Clone, Copy, Debug, PartialEq, Eq, Structural)]
pub struct FormDateTime {
    pub inner: i64,
}

/// A flip to `state` that is due at `datetime`.
#[derive(Clone, Copy, Debug, PartialEq, Eq, Structural)]
pub struct ScheduledFlip {
    pub state: LightState,
    pub datetime: FormDateTime,
}

/// The whole persisted state.
#[derive(Clone, Debug)]
pub struct Config {
    /// Where the servo rests between flips.
    pub idle_servo_value: ServoValue,
    /// The shared secret that every changing request must present.
    pub api_key: String,
    pub scheduled_flip: Option<ScheduledFlip>,
    pub on_settings: FlipSettings,
    pub off_settings: FlipSettings,
}

/// The record could not be read, parsed or written.
#[derive(Clone, Debug, PartialEq, Eq)]
pub struct StorageError {
    pub message: String,
}

impl Config {
    /// The settings that belong to a state.
    pub open spec fn settings_of(&self, state: LightState) -> FlipSettings {
        match state {
            LightState::On => self.on_settings,
            LightState::Off => self.off_settings,
        }
    }

    /// The record with `flip` as its only pending schedule.
    pub open spec fn with_schedule(self, flip: Option<ScheduledFlip>) -> Config {
        Config { scheduled_flip: flip, ..self }
    }
}

impl LightState {
    /// The settings that `config` holds for this state.
    pub fn get_settings<'a>(&self, config: &'a Config) -> (r: &'a FlipSettings)
        ensures
            *r == config.settings_of(*self),
    {
        match *self {
            LightState::On => &config.on_settings,
            LightState::Off => &config.off_settings,
        }
    }
}

/// Bytes of randomness in a fresh API key.
pub const API_KEY_BYTES: usize = 32;

/// The standard, padded base64 text of `bytes`.
pub uninterp spec fn base64_of(bytes: Seq<u8>) -> Seq<char>;

/// The value of `s` read as a decimal `i64`, or none where it is not one.
pub uninterp spec fn decimal_i64_of(s: Seq<char>) -> Option<i64>;

/// Whether `secs` seconds after the Unix epoch is an instant that the UTC
/// calendar can hold.
pub uninterp spec fn utc_instant_exists(secs: int) -> bool;

/// Relies on rand's thread-local generator (`RngCore::fill_bytes`) to fill
/// 32 bytes; nothing is known of their values.
#[verifier::external_body]
fn random_key_bytes() -> (r: Vec<u8>)
    ensures
        r@.len() == API_KEY_BYTES,
{
    let mut data = [0u8; 32];
    rand::thread_rng().fill_bytes(&mut data);
    data.to_vec()
}

/// Relies on base64::encode: standard alphabet, padded, so four characters
/// for each started group of three bytes.
#[verifier::external_body]
fn encode_base64(bytes: &Vec<u8>) -> (r: String)
    requires
        bytes@.len() <= 1_000_000,
    ensures
        r@ == base64_of(bytes@),
        r@.len() == 4 * ((bytes@.len() + 2) / 3),
{
    base64::encode(bytes)
}

/// Relies on `str::parse::<i64>`: the result depends on the text alone.
#[verifier::external_body]
fn parse_i64(s: &str) -> (r: Option<i64>)
    ensures
        r == decimal_i64_of(s@),
{
    s.parse::<i64>().ok()
}

/// Relies on chrono's `Utc.timestamp_opt(secs, 0)`, which gives a single
/// instant exactly when the seconds lie in the calendar's range.
#[verifier::external_body]
fn utc_timestamp_exists(secs: i64) -> (r: bool)
    ensures
        r == utc_instant_exists(secs as int),
{
    match chrono::Utc.timestamp_opt(secs, 0) {
        chrono::LocalResult::Single(_) => true,
        chrono::LocalResult::None => false,
        chrono::LocalResult::Ambiguous(_, _) => false,
    }
}

/// Relies on chrono's `Utc::now`: the current time, in whole seconds since
/// the Unix epoch. Nothing is known of its value.
#[verifier::external_body]
pub(crate) fn now_seconds() -> (r: i64) {
    chrono::Utc::now().timestamp()
}

/// A fresh shared secret: 32 random bytes in base64.
pub fn generate_api_key() -> (r: String)
    ensures
        exists|b: Seq<u8>| b.len() == API_KEY_BYTES && r@ == base64_of(b),
        r@.len() == 44,
{
    let data = random_key_bytes();
    encode_base64(&data)
}

/// A record holds the zero position and zero settings, and no schedule.
pub open spec fn is_zeroed(c: Config) -> bool {
    &&& c.idle_servo_value@ == 0
    &&& c.scheduled_flip is None
    &&& c.on_settings.delay == 0
    &&& c.on_settings.servo_value@ == 0
    &&& c.off_settings.delay == 0
    &&& c.off_settings.servo_value@ == 0
}

/// The record of a first run, with the given secret.
pub fn default_config(api_key: String) -> (r: Config)
    ensures
        is_zeroed(r),
        r.api_key@ == api_key@,
{
    Config {
        idle_servo_value: ServoValue::center(),
        api_key,
        scheduled_flip: None,
        on_settings: FlipSettings { delay: 0, servo_value: ServoValue::center() },
        off_settings: FlipSettings { delay: 0, servo_value: ServoValue::center() },
    }
}

/// A loaded record, and whether it was made just now and still has to be
/// written.
#[derive(Debug)]
pub struct Loaded {
    pub config: Config,
    pub created: bool,
}

/// Decides what a load returns from what storage held: the stored record as
/// it is; a fresh record with a new secret where nothing was stored (it is
/// then marked to be written); or the error where the stored record could not
/// be read.
pub fn read_config_file(stored: Option<Result<Config, StorageError>>) -> (r: Result<
    Loaded,
    StorageError,
>)
    ensures
        match stored {
            Some(Ok(c)) => r matches Ok(l) && l.config == c && !l.created,
            Some(Err(e)) => r == Err::<Loaded, StorageError>(e),
            None => r matches Ok(l) && l.created && is_zeroed(l.config) && l.config.api_key@.len()
                == 44 && exists|b: Seq<u8>|
                b.len() == API_KEY_BYTES && l.config.api_key@ == base64_of(b),
        },
{
    match stored {
        Some(Ok(config)) => Ok(Loaded { config, created: false }),
        Some(Err(e)) => Err(e),
        None => {
            let config = default_config(generate_api_key());
            Ok(Loaded { config, created: true })
        },
    }
}

impl FormDateTime {
    /// Reads a date given as a decimal number of seconds since the Unix epoch.
    pub fn from_value(value: &str) -> (r: Result<FormDateTime, ValidationError>)
        ensures
            match decimal_i64_of(value@) {
                None => r == Err::<FormDateTime, ValidationError>(ValidationError::NotANumber),
                Some(n) => if utc_instant_exists(n as int) {
                    r == Ok::<FormDateTime, ValidationError>(FormDateTime { inner: n })
                } else {
                    r == Err::<FormDateTime, ValidationError>(ValidationError::InvalidTimestamp)
                },
            },
    {
        match parse_i64(value) {
            None => Err(ValidationError::NotANumber),
            Some(n) => {
                if utc_timestamp_exists(n) {
                    Ok(FormDateTime { inner: n })
                } else {
                    Err(ValidationError::InvalidTimestamp)
                }
            },
        }
    }
}

/// Accepts a due date only when it is strictly later than `now`.
pub fn formdatetime_validate_at(formdatetime: &FormDateTime, now: i64) -> (r: Result<
    (),
    ValidationError,
>)
    ensures
        r is Ok <==> formdatetime.inner > now,
        r matches Err(e) ==> e == ValidationError::NotInFuture,
{
    if formdatetime.inner <= now {
        return Err(ValidationError::NotInFuture);
    }
    Ok(())
}

/// Accepts a due date only when it is strictly later than the current time.
pub fn formdatetime_validate(formdatetime: &FormDateTime) -> (r: Result<(), ValidationError>)
    ensures
        r matches Err(e) ==> e == ValidationError::NotInFuture,
{
    formdatetime_validate_at(formdatetime, now_seconds())
}

} // verus!
