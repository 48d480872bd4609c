pub mod enums;
pub mod structs;
