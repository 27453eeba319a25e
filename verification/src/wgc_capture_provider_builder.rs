//! Step-by-step construction of a capture session.

use vstd::prelude::*;
use crate::capture_error::WindowsCaptureError;
use crate::pixel_format::PixelFormat;
use crate::wgc_capture_provider::{CapturePhase, WgcCaptureProvider, BUFFER_ARENA_SIZE};

verus! {

/// Why a capture session could not be built.
#[derive(Debug, Clone, Copy, PartialEq, Eq, Structural)]
pub enum WgcCaptureProviderBuilderError {
    /// No device was given.
    MissingDevice,
    /// The session refused its configuration.
    InitializationError(WindowsCaptureError),
    /// The platform failed, with this result code.
    WindowsError(i32),
}

/// Collects what a capture session is made of.
pub struct WgcCaptureProviderBuilder<D, I> {
    device: Option<D>,
    capture_item: Option<I>,
    pixel_format: PixelFormat,
}

impl<D, I> WgcCaptureProviderBuilder<D, I> {
    /// The device collected so far.
    pub closed spec fn spec_device(&self) -> Option<D> {
        self.device
    }

    /// The source collected so far.
    pub closed spec fn spec_capture_item(&self) -> Option<I> {
        self.capture_item
    }

    /// The pixel format the session will capture in.
    pub closed spec fn spec_pixel_format(&self) -> PixelFormat {
        self.pixel_format
    }

    /// A builder for a session that captures in `pixel_format`, with no
    /// device and no source yet.
    pub fn new(pixel_format: PixelFormat) -> (builder: Self)
        ensures
            builder.spec_device() is None,
            builder.spec_capture_item() is None,
            builder.spec_pixel_format() == pixel_format,
    {
        WgcCaptureProviderBuilder { device: None, capture_item: None, pixel_format }
    }

    /// Uses `device`.
    pub fn with_device(self, device: D) -> (builder: Self)
        ensures
            builder.spec_device() == Some(device),
            builder.spec_capture_item() == self.spec_capture_item(),
            builder.spec_pixel_format() == self.spec_pixel_format(),
    {
        let mut builder = self;
        builder.device = Some(device);
        builder
    }

    /// Uses the platform's default device, which the caller tried to
    /// create: `created` is the device, or the result code of the failure.
    pub fn with_default_device(self, created: Result<D, i32>) -> (r: Result<
        Self,
        WgcCaptureProviderBuilderError,
    >)
        ensures
            created is Ok <==> r is Ok,
            r is Ok ==> {
                &&& r->Ok_0.spec_device() == Some(created->Ok_0)
                &&& r->Ok_0.spec_capture_item() == self.spec_capture_item()
                &&& r->Ok_0.spec_pixel_format() == self.spec_pixel_format()
            },
            r is Err ==> r->Err_0 == WgcCaptureProviderBuilderError::WindowsError(created->Err_0),
    {
        match created {
            Ok(device) => {
                let mut builder = self;
                builder.device = Some(device);
                Ok(builder)
            },
            Err(code) => Err(WgcCaptureProviderBuilderError::WindowsError(code)),
        }
    }

    /// Leaves the source to be chosen later.
    pub fn with_default_capture_item(self) -> (r: Result<Self, WgcCaptureProviderBuilderError>)
        ensures
            r is Ok,
            r->Ok_0.spec_device() == self.spec_device(),
            r->Ok_0.spec_capture_item() is None,
            r->Ok_0.spec_pixel_format() == self.spec_pixel_format(),
    {
        let mut builder = self;
        builder.capture_item = None;
        Ok(builder)
    }

    /// Builds the session: idle, or configured if a source was collected.
    /// Fails when no device was.
    pub fn build(self) -> (r: Result<WgcCaptureProvider<D, I>, WgcCaptureProviderBuilderError>)
        ensures
            self.spec_device() is Some <==> r is Ok,
            r is Err ==> r->Err_0 == WgcCaptureProviderBuilderError::MissingDevice,
            r is Ok ==> {
                &&& r->Ok_0.wf()
                &&& r->Ok_0.spec_device() == self.spec_device()->0
                &&& r->Ok_0.spec_capture_item() == self.spec_capture_item()
                &&& r->Ok_0.spec_pixel_format() == self.spec_pixel_format()
                &&& r->Ok_0.spec_phase() == if self.spec_capture_item() is Some {
                    CapturePhase::Configured
                } else {
                    CapturePhase::Idle
                }
                &&& r->Ok_0.spec_stream() is None
                &&& r->Ok_0.spec_tokens().len() == 0
                &&& !r->Ok_0.spec_staging().spec_allocated()
                &&& r->Ok_0.spec_staging().spec_frame_count() == 0
                &&& r->Ok_0.spec_arena().available() == BUFFER_ARENA_SIZE
                &&& r->Ok_0.spec_arena().growths == 0
            },
    {
        let device = match self.device {
            Some(device) => device,
            None => {
                return Err(WgcCaptureProviderBuilderError::MissingDevice);
            },
        };
        let mut capture = WgcCaptureProvider::new(device, self.pixel_format);
        match self.capture_item {
            Some(capture_item) => {
                match capture.set_capture_item(capture_item) {
                    Ok(()) => {},
                    Err(e) => {
                        return Err(WgcCaptureProviderBuilderError::InitializationError(e));
                    },
                }
            },
            None => {},
        }
        Ok(capture)
    }
}

} // verus!
