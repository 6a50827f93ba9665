//! Conversion of a time value between three textual forms: a count of
//! milliseconds since the Unix epoch, RFC 3339, and `YYYY-MM-DD HH:MM:SS`.

pub mod calendar;
pub mod converter;
pub mod decimal;
pub mod error;
pub mod instant;
