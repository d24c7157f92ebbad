use crate::import::{spec_import_error_message, spec_outcome_view, ImportError, ImportErrorView};
use crate::path::{spec_render, FilePath};
use vstd::prelude::*;
use vstd::string::*;

verus! {

/// How loudly an outcome is reported.
#[derive(Clone, Copy, Debug, PartialEq, Eq, Structural)]
pub enum LogLevel {
    Error,
    Info,
    Debug,
}

/// One line for the log.
#[derive(Clone, Debug, PartialEq, Eq)]
pub struct LogRecord {
    pub level: LogLevel,
    pub message: String,
}

/// An import is reported as information, a skipped file only for those who
/// ask for detail, a failure as an error.
pub open spec fn spec_report_level(outcome: Result<bool, ImportErrorView>) -> LogLevel {
    match outcome {
        Ok(true) => LogLevel::Info,
        Ok(false) => LogLevel::Debug,
        Err(_) => LogLevel::Error,
    }
}

/// The line that reports how the import of `src_file` into `dst_base_dir`
/// ended.
pub open spec fn spec_report_message(
    outcome: Result<bool, ImportErrorView>,
    src_file: Seq<Seq<char>>,
    dst_base_dir: Seq<Seq<char>>,
) -> Seq<char> {
    match outcome {
        Ok(true) => "Processing file successfully: "@ + spec_render(src_file)
            + " - Destination directory: "@ + spec_render(dst_base_dir),
        Ok(false) => "Skipping file, already processed: "@ + spec_render(src_file) + " "@,
        Err(e) => "Failed to process file: "@ + spec_render(src_file) + " with error: "@
            + spec_import_error_message(e),
    }
}

/// Puts the outcome of one import into words for the log.
pub fn result_handler(
    result: &Result<bool, ImportError>,
    src_file: &FilePath,
    dst_base_dir: &FilePath,
) -> (record: LogRecord)
    ensures
        record.level == spec_report_level(spec_outcome_view(*result)),
        record.message@ == spec_report_message(
            spec_outcome_view(*result),
            src_file@,
            dst_base_dir@,
        ),
{
    match result {
        Ok(true) => {
            let mut message = String::from_str("Processing file successfully: ");
            message.append(src_file.render().as_str());
            message.append(" - Destination directory: ");
            message.append(dst_base_dir.render().as_str());
            LogRecord { level: LogLevel::Info, message }
        },
        Ok(false) => {
            let mut message = String::from_str("Skipping file, already processed: ");
            message.append(src_file.render().as_str());
            message.append(" ");
            LogRecord { level: LogLevel::Debug, message }
        },
        Err(e) => {
            let mut message = String::from_str("Failed to process file: ");
            message.append(src_file.render().as_str());
            message.append(" with error: ");
            message.append(e.message().as_str());
            LogRecord { level: LogLevel::Error, message }
        },
    }
}

} // verus!
