use crate::handlers::error::{BotError, Error, ErrorKind, ErrorOrigin};
use vstd::prelude::*;

verus! {

/// Whether the answer to a command is shown to its author alone: so it is,
/// unless the author asked otherwise.
pub fn ephemeral(asked: Option<bool>) -> (hidden: bool)
    ensures
        hidden == (asked != Some(false)),
{
    match asked {
        Some(asked) => asked,
        None => true,
    }
}

/// The guild a command was given in, or an error of the user with `error_msg` where it was given in none.
pub fn required_guild_id(guild_id: Option<u64>, error_msg: &str) -> (result: Result<u64, BotError>)
    ensures
        match guild_id {
            Some(id) => result == Ok::<u64, BotError>(id),
            None => result matches Err(error) && error.message@ == error_msg@ && error.kind
                == ErrorKind::Other && error.origin == ErrorOrigin::User,
        },
{
    match guild_id {
        Some(id) => Ok(id),
        None => Err(BotError::new(error_msg.to_owned(), ErrorKind::Other, ErrorOrigin::User)),
    }
}

} // verus!
