use vstd::prelude::*;

verus! {

/// The minutes a member is kept from writing where the command names none.
pub const DEFAULT_LIMIT: u8 = 30;

/// The minutes a timeout lasts: those asked for, or the default.
pub fn limit_minutes(limit: Option<u8>) -> (minutes: u8)
    ensures
        minutes == match limit {
            Some(asked) => asked,
            None => DEFAULT_LIMIT,
        },
{
    match limit {
        Some(asked) => asked,
        None => DEFAULT_LIMIT,
    }
}

/// The seconds after which a timeout of `minutes` is lifted.
pub fn limit_seconds(minutes: u8) -> (seconds: u64)
    ensures
        seconds == minutes * 60,
{
    let minutes: u64 = minutes as u64;
    minutes * 60
}

} // verus!
