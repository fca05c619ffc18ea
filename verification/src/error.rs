//! Errors reported while querying a CMake build tree.

use vstd::prelude::*;
use vstd::string::StringExecFns;

verus! {

/// The kinds of operating-system failure that the library tells apart.
#[derive(Debug, Clone, Copy, PartialEq, Eq, Structural)]
pub enum IoErrorKind {
    NotFound,
    PermissionDenied,
    BrokenPipe,
    Interrupted,
    InvalidInput,
    Other,
}

/// A failed operating-system operation: its kind and its description.
#[derive(Debug)]
pub struct IoFailure {
    pub kind: IoErrorKind,
    pub message: String,
}

/// Errors reported while querying a CMake build tree.
#[derive(Debug)]
pub enum Error {
    /// A filesystem operation failed.
    Io { action: String, path: String, source: IoFailure },
    /// A path does not identify a usable configured build tree.
    InvalidBuildDirectory { path: String, reason: String },
    /// CMake could not be launched.
    StartCmake { path: String, source: IoFailure },
    /// CMake completed unsuccessfully; `output` holds the captured output, formatted for display.
    CmakeFailed { path: String, status: String, output: String },
    /// The interrupt handler could not be installed.
    InstallInterruptHandler(String),
    /// The operation was interrupted by the user.
    Interrupted,
    /// A background output reader failed.
    CmakeOutputReaderPanicked { path: String, stream: String },
    /// A JSON reply could not be decoded.
    Json { path: String, message: String },
    /// The File API response is absent, unsupported, or inconsistent.
    FileApi { path: String, reason: String },
    /// Writing the target list failed.
    WriteStdout(IoFailure),
}

/// The mathematical value of an [`IoFailure`].
pub struct IoFailureView {
    pub kind: IoErrorKind,
    pub message: Seq<char>,
}

impl View for IoFailure {
    type V = IoFailureView;

    open spec fn view(&self) -> IoFailureView {
        IoFailureView { kind: self.kind, message: self.message@ }
    }
}

/// The mathematical value of an [`Error`]: each text field by its characters.
pub enum ErrorView {
    Io { action: Seq<char>, path: Seq<char>, source: IoFailureView },
    InvalidBuildDirectory { path: Seq<char>, reason: Seq<char> },
    StartCmake { path: Seq<char>, source: IoFailureView },
    CmakeFailed { path: Seq<char>, status: Seq<char>, output: Seq<char> },
    InstallInterruptHandler(Seq<char>),
    Interrupted,
    CmakeOutputReaderPanicked { path: Seq<char>, stream: Seq<char> },
    Json { path: Seq<char>, message: Seq<char> },
    FileApi { path: Seq<char>, reason: Seq<char> },
    WriteStdout(IoFailureView),
}

impl View for Error {
    type V = ErrorView;

    open spec fn view(&self) -> ErrorView {
        match self {
            Error::Io { action, path, source } => ErrorView::Io {
                action: action@,
                path: path@,
                source: source@,
            },
            Error::InvalidBuildDirectory { path, reason } => ErrorView::InvalidBuildDirectory {
                path: path@,
                reason: reason@,
            },
            Error::StartCmake { path, source } => ErrorView::StartCmake {
                path: path@,
                source: source@,
            },
            Error::CmakeFailed { path, status, output } => ErrorView::CmakeFailed {
                path: path@,
                status: status@,
                output: output@,
            },
            Error::InstallInterruptHandler(message) => ErrorView::InstallInterruptHandler(
                message@,
            ),
            Error::Interrupted => ErrorView::Interrupted,
            Error::CmakeOutputReaderPanicked { path, stream } =>
                ErrorView::CmakeOutputReaderPanicked { path: path@, stream: stream@ },
            Error::Json { path, message } => ErrorView::Json { path: path@, message: message@ },
            Error::FileApi { path, reason } => ErrorView::FileApi { path: path@, reason: reason@ },
            Error::WriteStdout(source) => ErrorView::WriteStdout(source@),
        }
    }
}

impl ErrorView {
    /// The text shown to the user for this error.
    pub open spec fn message(self) -> Seq<char> {
        match self {
            ErrorView::Io { action, path, source } =>
                "failed to "@ + action + " `"@ + path + "`: "@ + source.message,
            ErrorView::InvalidBuildDirectory { path, reason } =>
                "invalid CMake build directory `"@ + path + "`: "@ + reason,
            ErrorView::StartCmake { path, source } =>
                "failed to run `cmake` for `"@ + path + "`: "@ + source.message,
            ErrorView::CmakeFailed { path, status, output } =>
                "CMake configuration failed for `"@ + path + "` with "@ + status + output,
            ErrorView::InstallInterruptHandler(message) =>
                "failed to install Ctrl+C handler: "@ + message,
            ErrorView::Interrupted => "interrupted"@,
            ErrorView::CmakeOutputReaderPanicked { path, stream } =>
                "failed to capture CMake "@ + stream + " for `"@ + path + "`"@,
            ErrorView::Json { path, message } =>
                "failed to parse CMake File API reply `"@ + path + "`: "@ + message,
            ErrorView::FileApi { path, reason } =>
                "invalid CMake File API response in `"@ + path + "`: "@ + reason,
            ErrorView::WriteStdout(source) =>
                "failed to write target list to stdout: "@ + source.message,
        }
    }
}

impl Error {
    /// Whether the error can result from CMake replacing reply files concurrently.
    pub open spec fn is_not_found_spec(&self) -> bool {
        self matches Error::Io { source, .. } && source.kind == IoErrorKind::NotFound
    }

    /// Whether the operation was interrupted by the user.
    pub open spec fn is_interrupted_spec(&self) -> bool {
        self is Interrupted
    }

    /// Whether the output consumer closed its pipe.
    pub open spec fn is_broken_pipe_spec(&self) -> bool {
        self matches Error::WriteStdout(source) && source.kind == IoErrorKind::BrokenPipe
    }

    /// Construct a path-aware I/O error.
    pub fn io(action: &str, path: String, source: IoFailure) -> (result: Self)
        ensures
            result matches Error::Io { action: a, path: p, source: s }
                && a@ == action@ && p == path && s == source,
    {
        Error::Io { action: String::from_str(action), path, source }
    }

    /// Construct a stdout error.
    pub fn write_stdout(source: IoFailure) -> (result: Self)
        ensures
            result == Error::WriteStdout(source),
    {
        Error::WriteStdout(source)
    }

    /// Whether this error can result from CMake replacing reply files concurrently.
    pub fn is_not_found(&self) -> (result: bool)
        ensures
            result == self.is_not_found_spec(),
    {
        match self {
            Error::Io { source, .. } => source.kind == IoErrorKind::NotFound,
            _ => false,
        }
    }

    /// Whether the operation was interrupted by the user.
    pub fn is_interrupted(&self) -> (result: bool)
        ensures
            result == self.is_interrupted_spec(),
    {
        match self {
            Error::Interrupted => true,
            _ => false,
        }
    }

    /// Whether the output consumer closed its pipe.
    pub fn is_broken_pipe(&self) -> (result: bool)
        ensures
            result == self.is_broken_pipe_spec(),
    {
        match self {
            Error::WriteStdout(source) => source.kind == IoErrorKind::BrokenPipe,
            _ => false,
        }
    }

    /// The text shown to the user for this error.
    pub fn message(&self) -> (result: String)
        ensures
            result@ == self@.message(),
    {
        let mut text = String::new();
        match self {
            Error::Io { action, path, source } => {
                text.append("failed to ");
                text.append(action.as_str());
                text.append(" `");
                text.append(path.as_str());
                text.append("`: ");
                text.append(source.message.as_str());
            },
            Error::InvalidBuildDirectory { path, reason } => {
                text.append("invalid CMake build directory `");
                text.append(path.as_str());
                text.append("`: ");
                text.append(reason.as_str());
            },
            Error::StartCmake { path, source } => {
                text.append("failed to run `cmake` for `");
                text.append(path.as_str());
                text.append("`: ");
                text.append(source.message.as_str());
            },
            Error::CmakeFailed { path, status, output } => {
                text.append("CMake configuration failed for `");
                text.append(path.as_str());
                text.append("` with ");
                text.append(status.as_str());
                text.append(output.as_str());
            },
            Error::InstallInterruptHandler(message) => {
                text.append("failed to install Ctrl+C handler: ");
                text.append(message.as_str());
            },
            Error::Interrupted => {
                text.append("interrupted");
            },
            Error::CmakeOutputReaderPanicked { path, stream } => {
                text.append("failed to capture CMake ");
                text.append(stream.as_str());
                text.append(" for `");
                text.append(path.as_str());
                text.append("`");
            },
            Error::Json { path, message } => {
                text.append("failed to parse CMake File API reply `");
                text.append(path.as_str());
                text.append("`: ");
                text.append(message.as_str());
            },
            Error::FileApi { path, reason } => {
                text.append("invalid CMake File API response in `");
                text.append(path.as_str());
                text.append("`: ");
                text.append(reason.as_str());
            },
            Error::WriteStdout(source) => {
                text.append("failed to write target list to stdout: ");
                text.append(source.message.as_str());
            },
        }
        text
    }
}

} // verus!
