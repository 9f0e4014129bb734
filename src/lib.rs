//! Leveled logging decisions and boot-log style completion lines.
pub mod complete;
pub mod config;
pub mod level;
pub mod message;
pub mod output;
pub mod text;

pub use complete::{
    format_complete, format_complete_width, format_complete_with, format_done, format_fail,
    format_warn, CompleteStatus,
};
pub use config::{get_min_log_level, is_verbose, set_min_log_level, set_verbose, LogConfig};
pub use level::{passes_filter, should_emit, LevelError, LogEntryLevel};
pub use message::{
    datetime_format, datetime_text, experimental_notice, format_datetime, leveled_line, status_line, verbose_line,
};
pub use output::{print_complete, print_done, print_experimental, print_fail, print_warn, LinePrinter, LineRecorder};
