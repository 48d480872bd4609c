pub mod error;
pub mod event;
pub mod i18n;
pub mod punishment;
