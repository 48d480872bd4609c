//! Core rules of a moderation bot: duration expressions such as
//! `1d - 2h + 3min` evaluated to milliseconds, emoji tokens classified and
//! taken apart, and the small decisions that its commands and handlers make.
//! Every function here carries a contract that the verifier proves from its
//! body; what is taken on trust stands in `utils::pattern`.

pub mod commands;
pub mod handlers;
pub mod utils;
