//! Timestamped log lines in UTC.
//!
//! The crate renders an instant of the UTC calendar as the prefix
//! `[YYYY-MM-DD] - [HH:MM-SS]`, joins it with a message into one log line, and
//! builds the name of a dated log file from an optional directory, the UTC
//! date and a base name. Every function states its result exactly, over
//! sequences of characters; the functions that read the clock state what
//! holds of every instant that it may show.
//!
//! Writing a line to the console or to a file is left to the caller.

pub mod calendar;
pub mod digits;
pub mod line;
pub mod path;
pub mod stamp;
pub mod strftime;

pub use calendar::{leap_year, month_length, UtcInstant, MAX_YEAR, MIN_YEAR};
pub use line::{compose_line, log_line, mk_str};
pub use path::{
    dated_path, directory_prefix, dyn_file_path, has_trailing_separator, resolve_path, SEPARATOR,
};
pub use stamp::{date_stamp, timestamp};
