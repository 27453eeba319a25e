//! Failures of the capture path.

use vstd::prelude::*;

verus! {

/// What can go wrong in a capture session. Failures of a call into the
/// platform carry the platform's result code.
#[derive(Debug, Clone, Copy, PartialEq, Eq, Structural)]
pub enum WindowsCaptureError {
    AlreadyCapturing,
    NotCapturing,
    NoFramePool,
    NoCaptureItem,
    StagingStateLockFailed,
    FailedToCreateFramePool(i32),
    FailedToCreateCaptureSession(i32),
    FailedToGetCaptureItemSize(i32),
    FailedToSetMinUpdateInterval(i32),
    FailedToSetFrameArrivedHandler(i32),
    FailedToGetSurface(i32),
    FailedToGetInterface(i32),
    FailedToGetContentSize(i32),
    FailedToGetDevice(i32),
    FailedToGetImmediateContext(i32),
    DuplicateOutputFailed(i32),
    FailedToCreateTexture(i32),
    FailedToMapTexture(i32),
    FailedToGetMonitorOutput(i32),
    FailedToCreateDispatcherQueueController(i32),
    FailedToStartCapture(i32),
    CastFailed(i32),
    InvalidStagingDepth,
    FrameSenderClosed,
    UnknownWindowsError(i32),
}

/// A capture failure, whatever the platform.
#[derive(Debug, Clone, Copy, PartialEq, Eq, Structural)]
pub enum CaptureError {
    WindowsCaptureError(WindowsCaptureError),
}

} // verus!
