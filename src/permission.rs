use vstd::prelude::*;

use crate::error::{AppError, ErrorKind};

verus! {

/// One reading of the system's privacy permissions. Each reading is taken
/// afresh: the user may revoke a permission at any time.
#[derive(Clone, Copy, Debug, PartialEq, Eq, Structural)]
pub struct PermissionStatus {
    pub screen_recording: bool,
    pub accessibility: bool,
}

impl PermissionStatus {
    /// Both permissions that a capture needs are granted.
    pub open spec fn all_granted_spec(self) -> bool {
        self.screen_recording && self.accessibility
    }

    pub fn new(screen_recording: bool, accessibility: bool) -> (r: PermissionStatus)
        ensures
            r == (PermissionStatus { screen_recording, accessibility }),
    {
        PermissionStatus { screen_recording, accessibility }
    }

    pub fn all_granted(&self) -> (r: bool)
        ensures
            r == self.all_granted_spec(),
    {
        self.screen_recording && self.accessibility
    }
}

/// The state shared by the whole process: whether the last reading of the
/// permissions allowed a capture. Each launch starts with nothing granted.
#[derive(Debug)]
pub struct AppState {
    pub permissions_granted: bool,
}

impl AppState {
    pub fn new() -> (r: AppState)
        ensures
            !r.permissions_granted,
    {
        AppState { permissions_granted: false }
    }

    /// Takes a fresh reading as the one that counts from now on.
    pub fn record(&mut self, status: PermissionStatus)
        ensures
            final(self).permissions_granted == status.all_granted_spec(),
    {
        self.permissions_granted = status.all_granted();
    }
}

impl Default for AppState {
    fn default() -> (r: AppState)
        ensures
            !r.permissions_granted,
    {
        AppState::new()
    }
}

/// What to offer the user once a permission is missing.
#[derive(Clone, Copy, Debug, PartialEq, Eq, Structural)]
pub enum Remediation {
    /// Nothing more: the system granted the request.
    Done,
    /// The system wants the user to act: open its privacy settings.
    OpenSettings,
}

/// After asking the system for the permissions: a refusal is no error, it
/// means that the user has to grant them in the settings.
pub fn remediation_after_request(granted: bool) -> (r: Remediation)
    ensures
        granted ==> r == Remediation::Done,
        !granted ==> r == Remediation::OpenSettings,
{
    if granted {
        Remediation::Done
    } else {
        Remediation::OpenSettings
    }
}

/// The address that opens the privacy settings at screen recording.
pub fn privacy_settings_url() -> (r: &'static str)
    ensures
        r@ == "x-apple.systempreferences:com.apple.preference.security?Privacy_ScreenCapture"@,
{
    "x-apple.systempreferences:com.apple.preference.security?Privacy_ScreenCapture"
}

/// The result of opening the privacy settings, given what the system said
/// when asked to open them: a failure is reported, not retried.
pub fn settings_launch_result(launch: Result<(), String>) -> (r: Result<(), AppError>)
    ensures
        launch is Ok <==> r is Ok,
        launch matches Err(d) ==> (r matches Err(e) && e.kind == ErrorKind::ExternalLaunch
            && e.detail@ == "could not open the privacy settings: "@ + d@),
{
    match launch {
        Ok(()) => Ok(()),
        Err(d) => {
            let detail = String::from_str("could not open the privacy settings: ").concat(d.as_str());
            Err(AppError::new(ErrorKind::ExternalLaunch, detail))
        },
    }
}

} // verus!
