use vstd::prelude::*;

verus! {

/// What went wrong, as a tag that callers can match on.
#[derive(Clone, Copy, Debug, PartialEq, Eq, Structural)]
pub enum ErrorKind {
    /// A required privacy permission is denied or unknown.
    Permission,
    /// Another process already owns the key combination.
    HotkeyConflict,
    /// The region shows nothing of any display.
    InvalidBounds,
    /// The system refused the pixel grab although the permission check passed.
    CaptureDenied,
    /// The system refused access to the clipboard.
    ClipboardUnavailable,
    /// The system could not open an outside program or panel.
    ExternalLaunch,
    /// The system did not finish a capture in time.
    CaptureTimeout,
}

impl ErrorKind {
    pub open spec fn tag_spec(self) -> Seq<char> {
        match self {
            ErrorKind::Permission => "permission"@,
            ErrorKind::HotkeyConflict => "hotkey_conflict"@,
            ErrorKind::InvalidBounds => "invalid_bounds"@,
            ErrorKind::CaptureDenied => "capture_denied"@,
            ErrorKind::ClipboardUnavailable => "clipboard_unavailable"@,
            ErrorKind::ExternalLaunch => "external_launch"@,
            ErrorKind::CaptureTimeout => "capture_timeout"@,
        }
    }

    /// A short machine-readable name of the kind.
    pub fn tag(&self) -> (r: &'static str)
        ensures
            r@ == self.tag_spec(),
    {
        match self {
            ErrorKind::Permission => "permission",
            ErrorKind::HotkeyConflict => "hotkey_conflict",
            ErrorKind::InvalidBounds => "invalid_bounds",
            ErrorKind::CaptureDenied => "capture_denied",
            ErrorKind::ClipboardUnavailable => "clipboard_unavailable",
            ErrorKind::ExternalLaunch => "external_launch",
            ErrorKind::CaptureTimeout => "capture_timeout",
        }
    }
}

/// An error as the shell sees it: a kind, and what the system said about
/// it, if anything.
#[derive(Clone, Debug)]
pub struct AppError {
    pub kind: ErrorKind,
    pub detail: String,
}

impl AppError {
    pub open spec fn is_invalid_bounds(self) -> bool {
        self.kind == ErrorKind::InvalidBounds
    }

    pub fn new(kind: ErrorKind, detail: String) -> (r: AppError)
        ensures
            r.kind == kind,
            r.detail@ == detail@,
    {
        AppError { kind, detail }
    }

    /// The error for a region that shows nothing of any display.
    pub fn invalid_bounds() -> (r: AppError)
        ensures
            r.kind == ErrorKind::InvalidBounds,
    {
        AppError { kind: ErrorKind::InvalidBounds, detail: String::from_str("the region lies outside every display") }
    }

    /// The human-readable form: the tag, then the detail after a colon.
    pub fn message(&self) -> (r: String)
        ensures
            r@ == self.kind.tag_spec() + ": "@ + self.detail@,
    {
        let head = String::from_str(self.kind.tag());
        let head = head.concat(": ");
        head.concat(self.detail.as_str())
    }
}

} // verus!
