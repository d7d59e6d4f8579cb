//! Requests about the farmer.

use crate::error::{Error, ErrorKind};
use vstd::prelude::*;
use vstd::string::*;

verus! {

/// A span of time, from `start` to `end`, in seconds since the epoch.
#[derive(Clone, Copy, Debug, PartialEq, Eq, Structural)]
pub struct RangePayload {
    pub start: i64,
    pub end: i64,
}

/// A request to make a configuration from a mnemonic.
#[derive(Clone, Debug)]
pub struct GenerateMnemonicRequest {
    pub mnemonic: String,
}

/// The span of a request for the statistics of a span of time. A request
/// without a payload is refused with `InvalidInput`.
pub fn stats_range(payload: Option<RangePayload>) -> (out: Result<(i64, i64), Error>)
    ensures
        match payload {
            Some(range) => out == Ok::<(i64, i64), Error>((range.start, range.end)),
            None => out matches Err(e) && e.kind == ErrorKind::InvalidInput,
        },
{
    match payload {
        Some(range) => Ok((range.start, range.end)),
        None => Err(Error::new(ErrorKind::InvalidInput, String::from_str("Invalid Range Payload"))),
    }
}

/// Whether the farmer may be started: only with a configuration that is
/// ready. One that is not is refused with `InvalidInput`.
pub fn check_ready(ready: bool) -> (out: Result<(), Error>)
    ensures
        ready ==> out is Ok,
        !ready ==> (out matches Err(e) && e.kind == ErrorKind::InvalidInput),
{
    if ready {
        Ok(())
    } else {
        Err(Error::new(ErrorKind::InvalidInput, String::from_str("Config Not Ready for Farming")))
    }
}

} // verus!
