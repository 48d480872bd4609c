pub mod expression;
pub mod filter;
pub mod laws;
pub mod matchs;
pub mod parse;
pub mod pattern;
pub mod units;
pub mod values;
pub mod verify;
