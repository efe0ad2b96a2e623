//! The error taxonomy of the export pipeline.
//!
//! Every failure of an export is terminal and is reported as one of these
//! variants; the carried string holds the diagnostic text captured from the
//! failing external process or file system operation.

use vstd::prelude::*;
use vstd::string::StringExecFns;

verus! {

/// Why an export failed.
#[derive(Debug)]
pub enum ExportError {
    /// The probing or transcoding binary is not invocable.
    ToolUnavailable(String),
    /// The probe exited non-zero or produced malformed output.
    ProbeFailed(String),
    /// The source has no video stream.
    UnsupportedFormat,
    /// The transcoder exited non-zero, in either stage.
    TranscodeFailed(String),
    /// Directory creation, a file read or write, or the archive write failed.
    FilesystemFailed(String),
    /// Defensive terminal state: no asset was generated despite no hard error.
    NoOutputProduced,
}

impl ExportError {
    /// The human-readable message for this error.
    pub open spec fn message_spec(self) -> Seq<char> {
        match self {
            ExportError::ToolUnavailable(s) => "tool unavailable: "@ + s@,
            ExportError::ProbeFailed(s) => "probe failed: "@ + s@,
            ExportError::UnsupportedFormat => "Unsupported format (no video stream)"@,
            ExportError::TranscodeFailed(s) => "transcode failed: "@ + s@,
            ExportError::FilesystemFailed(s) => "filesystem operation failed: "@ + s@,
            ExportError::NoOutputProduced => "no outputs generated"@,
        }
    }

    /// Render the error as a human-readable string.
    pub fn message(&self) -> (r: String)
        ensures
            r@ == self.message_spec(),
    {
        match self {
            ExportError::ToolUnavailable(s) => {
                let mut m = "tool unavailable: ".to_owned();
                m.append(s.as_str());
                m
            },
            ExportError::ProbeFailed(s) => {
                let mut m = "probe failed: ".to_owned();
                m.append(s.as_str());
                m
            },
            ExportError::UnsupportedFormat => "Unsupported format (no video stream)".to_owned(),
            ExportError::TranscodeFailed(s) => {
                let mut m = "transcode failed: ".to_owned();
                m.append(s.as_str());
                m
            },
            ExportError::FilesystemFailed(s) => {
                let mut m = "filesystem operation failed: ".to_owned();
                m.append(s.as_str());
                m
            },
            ExportError::NoOutputProduced => "no outputs generated".to_owned(),
        }
    }
}

} // verus!
