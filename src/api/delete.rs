//! Requests that remove a part of the record; each needs the secret.
use crate::api::ApiKey;
use crate::config::Config;
use vstd::prelude::*;

verus! {

/// The record with no pending schedule.
pub fn schedule(_key: ApiKey, config: Config) -> (r: Config)
    ensures
        r == config.with_schedule(None),
{
    Config { scheduled_flip: None, ..config }
}

} // verus!
