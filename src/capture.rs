use vstd::prelude::*;

use crate::bounds::CaptureBounds;
use crate::error::{AppError, ErrorKind};

verus! {

/// An encoded image and the region of the screen that it shows.
#[derive(Clone, Debug)]
pub struct CaptureResult {
    pub image_data: String,
    pub bounds: CaptureBounds,
}

/// What the system's pixel grab came back with.
#[derive(Clone, Debug)]
pub enum GrabOutcome {
    /// The pixels of the region, encoded.
    Image(String),
    /// The system refused, with its reason.
    Refused(String),
    /// The system did not answer in time.
    TimedOut,
}

/// Turns the outcome of grabbing `region` into the result of the capture.
/// The result's bounds are the region actually grabbed.
pub fn finish_capture(region: CaptureBounds, grab: GrabOutcome) -> (r: Result<CaptureResult, AppError>)
    ensures
        grab matches GrabOutcome::Image(data) ==> (r matches Ok(c) && c.bounds == region
            && c.image_data@ == data@),
        grab matches GrabOutcome::Refused(why) ==> (r matches Err(e) && e.kind
            == ErrorKind::CaptureDenied && e.detail@ == why@),
        grab is TimedOut ==> (r matches Err(e) && e.kind == ErrorKind::CaptureTimeout),
{
    match grab {
        GrabOutcome::Image(data) => Ok(CaptureResult { image_data: data, bounds: region }),
        GrabOutcome::Refused(why) => Err(AppError::new(ErrorKind::CaptureDenied, why)),
        GrabOutcome::TimedOut => Err(
            AppError::new(
                ErrorKind::CaptureTimeout,
                String::from_str("the screen capture did not finish in time"),
            ),
        ),
    }
}

/// What the clipboard is given.
#[derive(Clone, Debug)]
pub enum ClipboardPayload {
    Image(String),
    Text(String),
}

/// The payload that delivers a capture: its encoded image.
pub fn payload_of(c: &CaptureResult) -> (r: ClipboardPayload)
    ensures
        r matches ClipboardPayload::Image(data) && data@ == c.image_data@,
{
    ClipboardPayload::Image(c.image_data.clone())
}

/// The result of writing to the clipboard, given what the system said.
pub fn delivery_result(write: Result<(), String>) -> (r: Result<(), AppError>)
    ensures
        write is Ok <==> r is Ok,
        write matches Err(why) ==> (r matches Err(e) && e.kind == ErrorKind::ClipboardUnavailable
            && e.detail@ == why@),
{
    match write {
        Ok(()) => Ok(()),
        Err(why) => Err(AppError::new(ErrorKind::ClipboardUnavailable, why)),
    }
}

} // verus!
