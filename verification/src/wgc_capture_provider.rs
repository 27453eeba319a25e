//! The capture session: which source is bound, whether frames flow, and
//! what to do with every frame that arrives.
//!
//! The session is `Idle` until a source is bound, `Configured` once one is,
//! and `Capturing` between a start and a stop. The platform's capture
//! objects, its event loop and the thread that runs it are the caller's; the
//! session decides what the caller has to set up, start and tear down, and
//! takes every arriving frame through the staging pipeline.

use vstd::prelude::*;
use crate::buffer_arena::{ArenaModel, BufferArena, BufferRef};
use crate::capture_error::WindowsCaptureError;
use crate::capture_framerate::{spec_frametime, CaptureFramerate};
use crate::pixel_format::{
    spec_bytes_per_pixel,
    spec_directx_code,
    BytesPerPixel,
    DirectXPixelFormat,
    PixelFormat,
    ToDirectXPixelFormat,
};
use crate::staging::{Staging, StagingStep};

verus! {

/// Frames the platform keeps in flight for a frame source.
pub const WGC_FRAME_BUFFERS: i32 = 2;

/// Copy targets in the staging ring.
pub const PIPELINE_DEPTH: usize = 2;

/// Frames the outbound channel of a stream holds.
pub const TX_QUEUE_SIZE: usize = 2;

/// Bytes the frame arena starts with.
pub const BUFFER_ARENA_SIZE: usize = 128000;

/// The states of a capture session.
#[derive(Debug, Clone, Copy, PartialEq, Eq, Structural)]
pub enum CapturePhase {
    /// No source is bound.
    Idle,
    /// A source is bound; no frames flow.
    Configured,
    /// Frames flow.
    Capturing,
}

/// What to set up for a new stream.
#[derive(Debug, Clone, Copy, PartialEq, Eq, Structural)]
pub struct StreamPlan {
    /// A frame source exists already and is to be torn down first.
    pub replace_existing: bool,
    /// Pixel format of the new frame source.
    pub pixel_format: DirectXPixelFormat,
    /// Frames the platform keeps in flight.
    pub frame_buffers: i32,
    /// Shortest time between two frames, in nanoseconds.
    pub min_update_interval: u64,
    /// Frames the outbound channel holds; a frame that finds it full is
    /// dropped.
    pub queue_depth: usize,
    /// The session is capturing, so the new frame source is to be started
    /// at once.
    pub start_now: bool,
}

/// What to tear down when capture stops.
#[derive(Debug)]
pub struct StopPlan {
    /// A frame source exists and is to be closed, its thread told to quit
    /// and joined.
    pub close_source: bool,
    /// The frame-arrival handlers to remove from it first.
    pub handler_tokens: Vec<i64>,
}

/// What to do with an arriving frame.
pub enum FramePlan {
    /// The frame has no pixels, or more than can be buffered: pass it over.
    Skip,
    /// Do the copies `step` names. `buffer` is there to take what is read
    /// back, if anything is.
    Process { step: StagingStep, buffer: Option<BufferRef> },
}

/// How handing a frame to the outbound channel ended.
#[derive(Debug, Clone, Copy, PartialEq, Eq, Structural)]
pub enum SendOutcome {
    Delivered,
    /// The channel was full; the frame was dropped.
    Full,
    /// Nobody receives any more.
    Closed,
}

/// Bytes a frame of `width` by `height` pixels of `bytes_per_pixel` bytes
/// needs, if it has any pixels and the bytes fit in one allocation.
pub open spec fn spec_frame_buffer_size(
    width: i32,
    height: i32,
    bytes_per_pixel: u32,
) -> Option<nat> {
    if width > 0 && height > 0 && bytes_per_pixel > 0 && width * height * bytes_per_pixel
        <= isize::MAX {
        Some((width * height * bytes_per_pixel) as nat)
    } else {
        None
    }
}

/// Bytes a frame of `width` by `height` pixels of `bytes_per_pixel` bytes
/// needs, if it has any pixels and the bytes fit in one allocation.
pub fn frame_buffer_size(width: i32, height: i32, bytes_per_pixel: u32) -> (size: Option<usize>)
    ensures
        size is Some <==> spec_frame_buffer_size(width, height, bytes_per_pixel) is Some,
        size is Some ==> Some(size->0 as nat) == spec_frame_buffer_size(
            width,
            height,
            bytes_per_pixel,
        ),
{
    if width <= 0 || height <= 0 || bytes_per_pixel == 0 {
        return None;
    }
    let w = width as u64;
    let h = height as u64;
    let b = bytes_per_pixel as u64;
    assert(w * h <= 0x7fff_ffff * 0x7fff_ffff) by (nonlinear_arith)
        requires
            w <= 0x7fff_ffff,
            h <= 0x7fff_ffff,
    ;
    let pixels = w * h;
    let limit = (usize::MAX / 2) as u64;
    assert(limit == isize::MAX);
    if pixels > limit / b {
        assert(pixels * b > limit) by (nonlinear_arith)
            requires
                pixels > limit / b,
                b > 0,
        ;
        assert(width * height * bytes_per_pixel == pixels * b) by (nonlinear_arith)
            requires
                width == w,
                height == h,
                bytes_per_pixel == b,
                pixels == w * h,
        ;
        return None;
    }
    assert(pixels * b <= limit) by (nonlinear_arith)
        requires
            pixels <= limit / b,
            b > 0,
    ;
    assert(width * height * bytes_per_pixel == pixels * b) by (nonlinear_arith)
        requires
            width == w,
            height == h,
            bytes_per_pixel == b,
            pixels == w * h,
    ;
    Some((pixels * b) as usize)
}

/// Nanoseconds a frame whose relative time is `ticks` is reported to have
/// lasted: a hundredth of the ticks, taken as an unsigned 64-bit number.
pub open spec fn spec_frame_duration(ticks: i64) -> u64 {
    let hundredth = if ticks >= 0 {
        ticks / 100
    } else {
        -((-ticks) / 100)
    };
    if hundredth >= 0 {
        hundredth as u64
    } else {
        (hundredth + 0x1_0000_0000_0000_0000) as u64
    }
}

/// Nanoseconds a frame whose relative time is `ticks` is reported to have
/// lasted.
pub fn frame_duration(ticks: i64) -> (nanos: u64)
    ensures
        nanos == spec_frame_duration(ticks),
{
    if ticks >= 0 {
        (ticks / 100) as u64
    } else {
        let magnitude: u64 = if ticks == i64::MIN {
            0x8000_0000_0000_0000
        } else {
            (-ticks) as u64
        };
        let hundredth = magnitude / 100;
        if hundredth == 0 {
            0
        } else {
            u64::MAX - (hundredth - 1)
        }
    }
}

/// What the sender of frames is told after a frame was handed to the
/// outbound channel: a full channel is no failure, a closed one is.
pub fn frame_sent(outcome: SendOutcome) -> (r: Result<(), WindowsCaptureError>)
    ensures
        outcome == SendOutcome::Closed <==> r is Err,
        r is Err ==> r->Err_0 == WindowsCaptureError::FrameSenderClosed,
{
    match outcome {
        SendOutcome::Delivered => Ok(()),
        SendOutcome::Full => Ok(()),
        SendOutcome::Closed => Err(WindowsCaptureError::FrameSenderClosed),
    }
}

/// `tokens` without the first occurrence of `token`.
pub open spec fn without_first(tokens: Seq<i64>, token: i64) -> Seq<i64>
    decreases tokens.len(),
{
    if tokens.len() == 0 {
        tokens
    } else if tokens[0] == token {
        tokens.drop_first()
    } else {
        seq![tokens[0]] + without_first(tokens.drop_first(), token)
    }
}

/// Removing the element at the first position that holds `token` removes
/// the first occurrence of `token`; a sequence without `token` stays as it
/// is.
pub proof fn lemma_without_first(tokens: Seq<i64>, token: i64, i: int)
    requires
        0 <= i <= tokens.len(),
        forall|j: int| 0 <= j < i ==> tokens[j] != token,
        i < tokens.len() ==> tokens[i] == token,
    ensures
        without_first(tokens, token) == if i < tokens.len() {
            tokens.remove(i)
        } else {
            tokens
        },
    decreases tokens.len(),
{
    if tokens.len() == 0 {
    } else if i == 0 {
        assert(tokens.remove(0) =~= tokens.drop_first());
    } else {
        let rest = tokens.drop_first();
        lemma_without_first(rest, token, i - 1);
        if i < tokens.len() {
            assert(seq![tokens[0]] + rest.remove(i - 1) =~= tokens.remove(i));
        } else {
            assert(seq![tokens[0]] + rest =~= tokens);
        }
    }
}

/// A capture session over a device of type `D` and sources of type `I`.
pub struct WgcCaptureProvider<D, I> {
    device: D,
    capture_item: Option<I>,
    pixel_format: PixelFormat,
    staging_state: Staging,
    buffer_pool: BufferArena,
    stream: Option<CaptureFramerate>,
    stream_tokens: Vec<i64>,
    capturing: bool,
}

impl<D, I> WgcCaptureProvider<D, I> {
    /// The device the session captures with.
    pub closed spec fn spec_device(&self) -> D {
        self.device
    }

    /// The bound source, if one is bound.
    pub closed spec fn spec_capture_item(&self) -> Option<I> {
        self.capture_item
    }

    /// The pixel format frames are captured in.
    pub closed spec fn spec_pixel_format(&self) -> PixelFormat {
        self.pixel_format
    }

    /// The staging pipeline.
    pub closed spec fn spec_staging(&self) -> Staging {
        self.staging_state
    }

    /// The frame arena.
    pub closed spec fn spec_arena(&self) -> ArenaModel {
        self.buffer_pool@
    }

    /// The frame rate the frame source was made for, if there is one.
    pub closed spec fn spec_stream(&self) -> Option<CaptureFramerate> {
        self.stream
    }

    /// The frame-arrival handlers registered with the frame source.
    pub closed spec fn spec_tokens(&self) -> Seq<i64> {
        self.stream_tokens@
    }

    /// Frames are flowing.
    pub closed spec fn spec_capturing(&self) -> bool {
        self.capturing
    }

    /// The state of the session.
    pub open spec fn spec_phase(&self) -> CapturePhase {
        if self.spec_capturing() {
            CapturePhase::Capturing
        } else if self.spec_capture_item() is Some {
            CapturePhase::Configured
        } else {
            CapturePhase::Idle
        }
    }

    /// Nothing is captured without a source, handlers belong to a frame
    /// source, and the pipeline and the arena are in order.
    pub open spec fn wf(&self) -> bool {
        &&& self.spec_capturing() ==> self.spec_capture_item() is Some
        &&& self.spec_stream() is None ==> self.spec_tokens().len() == 0
        &&& self.spec_staging().wf()
        &&& self.spec_staging().spec_depth() == PIPELINE_DEPTH
        &&& self.spec_arena().available() <= isize::MAX
    }

    /// Everything but the pipeline and the arena is as in `before`.
    pub open spec fn same_session(&self, before: &Self) -> bool {
        &&& self.spec_device() == before.spec_device()
        &&& self.spec_capture_item() == before.spec_capture_item()
        &&& self.spec_pixel_format() == before.spec_pixel_format()
        &&& self.spec_stream() == before.spec_stream()
        &&& self.spec_tokens() == before.spec_tokens()
        &&& self.spec_capturing() == before.spec_capturing()
    }

    /// A session on `device` that captures in `pixel_format`: idle, without
    /// a frame source, its pipeline empty.
    pub fn new(device: D, pixel_format: PixelFormat) -> (session: Self)
        ensures
            session.wf(),
            session.spec_phase() == CapturePhase::Idle,
            session.spec_device() == device,
            session.spec_pixel_format() == pixel_format,
            session.spec_stream() is None,
            session.spec_tokens().len() == 0,
            !session.spec_staging().spec_allocated(),
            session.spec_staging().spec_frame_count() == 0,
            session.spec_arena().available() == BUFFER_ARENA_SIZE,
            session.spec_arena().growths == 0,
    {
        WgcCaptureProvider {
            device,
            capture_item: None,
            pixel_format,
            staging_state: Staging::with_depth(PIPELINE_DEPTH),
            buffer_pool: BufferArena::init(BUFFER_ARENA_SIZE),
            stream: None,
            stream_tokens: Vec::new(),
            capturing: false,
        }
    }

    /// The state of the session.
    pub fn phase(&self) -> (p: CapturePhase)
        ensures
            p == self.spec_phase(),
    {
        if self.capturing {
            CapturePhase::Capturing
        } else if self.capture_item.is_some() {
            CapturePhase::Configured
        } else {
            CapturePhase::Idle
        }
    }

    /// Whether frames are flowing.
    pub fn is_capturing(&self) -> (b: bool)
        ensures
            b == (self.spec_phase() == CapturePhase::Capturing),
    {
        self.capturing
    }

    /// The device the session captures with.
    pub fn device(&self) -> (d: &D)
        ensures
            *d == self.spec_device(),
    {
        &self.device
    }

    /// The pixel format frames are captured in.
    pub fn pixel_format(&self) -> (format: PixelFormat)
        ensures
            format == self.spec_pixel_format(),
    {
        self.pixel_format
    }

    /// The bound source, if one is bound.
    pub fn capture_item(&self) -> (item: &Option<I>)
        ensures
            *item == self.spec_capture_item(),
    {
        &self.capture_item
    }

    /// Frames the pipeline has processed since its targets were made.
    pub fn frame_count(&self) -> (n: u64)
        ensures
            n == self.spec_staging().spec_frame_count(),
    {
        self.staging_state.frame_count()
    }

    /// Binds `capture_item` as the source. The staging pipeline forgets its
    /// targets, so the next frame starts it afresh.
    pub fn set_capture_item(&mut self, capture_item: I) -> (r: Result<(), WindowsCaptureError>)
        requires
            old(self).wf(),
        ensures
            r is Ok,
            final(self).wf(),
            final(self).spec_capture_item() == Some(capture_item),
            final(self).spec_device() == old(self).spec_device(),
            final(self).spec_pixel_format() == old(self).spec_pixel_format(),
            final(self).spec_stream() == old(self).spec_stream(),
            final(self).spec_tokens() == old(self).spec_tokens(),
            final(self).spec_capturing() == old(self).spec_capturing(),
            final(self).spec_arena() == old(self).spec_arena(),
            !final(self).spec_staging().spec_allocated(),
            final(self).spec_staging().spec_frame_count() == 0,
    {
        self.capture_item = Some(capture_item);
        self.staging_state.reset();
        Ok(())
    }

    /// Starts capturing. The result says whether a frame source exists that
    /// is to be started now; without one, frames flow as soon as a stream is
    /// created. Fails, changing nothing, when the session captures already
    /// and when no source is bound.
    pub fn start_capture(&mut self) -> (r: Result<bool, WindowsCaptureError>)
        requires
            old(self).wf(),
        ensures
            final(self).wf(),
            old(self).spec_phase() == CapturePhase::Capturing ==> r is Err && r->Err_0
                == WindowsCaptureError::AlreadyCapturing && *final(self) == *old(self),
            old(self).spec_phase() == CapturePhase::Idle ==> r is Err && r->Err_0
                == WindowsCaptureError::NoCaptureItem && *final(self) == *old(self),
            old(self).spec_phase() == CapturePhase::Configured ==> {
                &&& r is Ok
                &&& r->Ok_0 == (old(self).spec_stream() is Some)
                &&& final(self).spec_phase() == CapturePhase::Capturing
                &&& final(self).spec_device() == old(self).spec_device()
                &&& final(self).spec_capture_item() == old(self).spec_capture_item()
                &&& final(self).spec_pixel_format() == old(self).spec_pixel_format()
                &&& final(self).spec_stream() == old(self).spec_stream()
                &&& final(self).spec_tokens() == old(self).spec_tokens()
                &&& final(self).spec_staging() == old(self).spec_staging()
                &&& final(self).spec_arena() == old(self).spec_arena()
            },
    {
        if self.capturing {
            return Err(WindowsCaptureError::AlreadyCapturing);
        }
        if self.capture_item.is_none() {
            return Err(WindowsCaptureError::NoCaptureItem);
        }
        self.capturing = true;
        Ok(self.stream.is_some())
    }

    /// Takes back a start whose frame source the platform refused to start
    /// with result code `code`: the session is configured again, and the
    /// failure to report is returned.
    pub fn start_failed(&mut self, code: i32) -> (e: WindowsCaptureError)
        requires
            old(self).wf(),
        ensures
            final(self).wf(),
            e == WindowsCaptureError::FailedToStartCapture(code),
            !final(self).spec_capturing(),
            final(self).spec_device() == old(self).spec_device(),
            final(self).spec_capture_item() == old(self).spec_capture_item(),
            final(self).spec_pixel_format() == old(self).spec_pixel_format(),
            final(self).spec_stream() == old(self).spec_stream(),
            final(self).spec_tokens() == old(self).spec_tokens(),
            final(self).spec_staging() == old(self).spec_staging(),
            final(self).spec_arena() == old(self).spec_arena(),
    {
        self.capturing = false;
        WindowsCaptureError::FailedToStartCapture(code)
    }

    /// Stops capturing and says what to tear down: the frame source, if
    /// there is one, after its handlers were removed. Fails, changing
    /// nothing, when the session does not capture.
    pub fn stop_capture(&mut self) -> (r: Result<StopPlan, WindowsCaptureError>)
        requires
            old(self).wf(),
        ensures
            final(self).wf(),
            old(self).spec_phase() != CapturePhase::Capturing ==> r is Err && r->Err_0
                == WindowsCaptureError::NotCapturing && *final(self) == *old(self),
            old(self).spec_phase() == CapturePhase::Capturing ==> {
                &&& r is Ok
                &&& r->Ok_0.close_source == (old(self).spec_stream() is Some)
                &&& r->Ok_0.handler_tokens@ == old(self).spec_tokens()
                &&& final(self).spec_phase() == CapturePhase::Configured
                &&& final(self).spec_stream() is None
                &&& final(self).spec_tokens().len() == 0
                &&& final(self).spec_device() == old(self).spec_device()
                &&& final(self).spec_capture_item() == old(self).spec_capture_item()
                &&& final(self).spec_pixel_format() == old(self).spec_pixel_format()
                &&& final(self).spec_staging() == old(self).spec_staging()
                &&& final(self).spec_arena() == old(self).spec_arena()
            },
    {
        if !self.capturing {
            return Err(WindowsCaptureError::NotCapturing);
        }
        let close_source = self.stream.is_some();
        let mut handler_tokens: Vec<i64> = Vec::new();
        std::mem::swap(&mut handler_tokens, &mut self.stream_tokens);
        self.stream = None;
        self.capturing = false;
        Ok(StopPlan { close_source, handler_tokens })
    }

    /// Plans a stream of frames at `framerate`. A frame source that exists
    /// is replaced by one made for `framerate`; the new one is started at
    /// once if the session captures. Fails, changing nothing, when no source
    /// is bound.
    pub fn create_stream(
        &mut self,
        framerate: CaptureFramerate,
    ) -> (r: Result<StreamPlan, WindowsCaptureError>)
        requires
            old(self).wf(),
        ensures
            final(self).wf(),
            old(self).spec_capture_item() is None ==> r is Err && r->Err_0
                == WindowsCaptureError::NoCaptureItem && *final(self) == *old(self),
            old(self).spec_capture_item() is Some ==> {
                &&& r is Ok
                &&& r->Ok_0 == (StreamPlan {
                    replace_existing: old(self).spec_stream() is Some,
                    pixel_format: DirectXPixelFormat(
                        spec_directx_code(old(self).spec_pixel_format()),
                    ),
                    frame_buffers: WGC_FRAME_BUFFERS,
                    min_update_interval: spec_frametime(framerate),
                    queue_depth: TX_QUEUE_SIZE,
                    start_now: old(self).spec_capturing(),
                })
                &&& final(self).spec_stream() == Some(framerate)
                &&& final(self).spec_tokens().len() == 0
                &&& final(self).spec_capturing() == old(self).spec_capturing()
                &&& final(self).spec_device() == old(self).spec_device()
                &&& final(self).spec_capture_item() == old(self).spec_capture_item()
                &&& final(self).spec_pixel_format() == old(self).spec_pixel_format()
                &&& final(self).spec_staging() == old(self).spec_staging()
                &&& final(self).spec_arena() == old(self).spec_arena()
            },
    {
        if self.capture_item.is_none() {
            return Err(WindowsCaptureError::NoCaptureItem);
        }
        let plan = StreamPlan {
            replace_existing: self.stream.is_some(),
            pixel_format: self.pixel_format.to_directx_pixel_format(),
            frame_buffers: WGC_FRAME_BUFFERS,
            min_update_interval: framerate.to_frametime(),
            queue_depth: TX_QUEUE_SIZE,
            start_now: self.capturing,
        };
        self.stream = Some(framerate);
        self.stream_tokens.clear();
        Ok(plan)
    }

    /// Records the handler `token` that was registered with the frame
    /// source. Without a frame source there is nothing to record it for.
    pub fn stream_created(&mut self, token: i64)
        requires
            old(self).wf(),
        ensures
            final(self).wf(),
            final(self).spec_tokens() == if old(self).spec_stream() is Some {
                old(self).spec_tokens().push(token)
            } else {
                old(self).spec_tokens()
            },
            final(self).spec_device() == old(self).spec_device(),
            final(self).spec_capture_item() == old(self).spec_capture_item(),
            final(self).spec_pixel_format() == old(self).spec_pixel_format(),
            final(self).spec_stream() == old(self).spec_stream(),
            final(self).spec_capturing() == old(self).spec_capturing(),
            final(self).spec_staging() == old(self).spec_staging(),
            final(self).spec_arena() == old(self).spec_arena(),
    {
        if self.stream.is_some() {
            self.stream_tokens.push(token);
        }
    }

    /// Forgets the handler `token` when the stream it served is closed, and
    /// says whether it was registered, in which case it is to be removed
    /// from the frame source.
    pub fn unregister_frame_arrived(&mut self, token: i64) -> (registered: bool)
        requires
            old(self).wf(),
        ensures
            final(self).wf(),
            registered == old(self).spec_tokens().contains(token),
            final(self).spec_tokens() == without_first(old(self).spec_tokens(), token),
            final(self).spec_device() == old(self).spec_device(),
            final(self).spec_capture_item() == old(self).spec_capture_item(),
            final(self).spec_pixel_format() == old(self).spec_pixel_format(),
            final(self).spec_stream() == old(self).spec_stream(),
            final(self).spec_capturing() == old(self).spec_capturing(),
            final(self).spec_staging() == old(self).spec_staging(),
            final(self).spec_arena() == old(self).spec_arena(),
    {
        let mut i: usize = 0;
        while i < self.stream_tokens.len()
            invariant
                *self == *old(self),
                self.wf(),
                i <= self.stream_tokens@.len(),
                forall|j: int| 0 <= j < i ==> self.stream_tokens@[j] != token,
            decreases self.stream_tokens.len() - i,
        {
            if self.stream_tokens[i] == token {
                proof {
                    lemma_without_first(self.stream_tokens@, token, i as int);
                }
                self.stream_tokens.remove(i);
                return true;
            }
            i = i + 1;
        }
        proof {
            lemma_without_first(self.stream_tokens@, token, i as int);
        }
        false
    }

    /// Forgets a frame source the platform failed to set up.
    pub fn stream_failed(&mut self)
        requires
            old(self).wf(),
        ensures
            final(self).wf(),
            final(self).spec_stream() is None,
            final(self).spec_tokens().len() == 0,
            final(self).spec_device() == old(self).spec_device(),
            final(self).spec_capture_item() == old(self).spec_capture_item(),
            final(self).spec_pixel_format() == old(self).spec_pixel_format(),
            final(self).spec_capturing() == old(self).spec_capturing(),
            final(self).spec_staging() == old(self).spec_staging(),
            final(self).spec_arena() == old(self).spec_arena(),
    {
        self.stream = None;
        self.stream_tokens.clear();
    }

    /// Takes an arriving frame whose content is `content_width` by
    /// `content_height` pixels, in a texture of `texture_width` by
    /// `texture_height`.
    ///
    /// A frame without pixels, or with more than fit one buffer, is passed
    /// over and changes nothing. Every other frame advances the staging
    /// pipeline: it is copied into one target of the ring, and from the
    /// second frame on another target is read back, which holds the frame
    /// that arrived one step earlier. If a target is read back, a buffer for
    /// the frame's bytes is leased from the arena to take what is read.
    pub fn begin_frame(
        &mut self,
        content_width: i32,
        content_height: i32,
        texture_width: u32,
        texture_height: u32,
    ) -> (plan: FramePlan)
        requires
            old(self).wf(),
            old(self).spec_staging().next_frame(texture_width, texture_height) < u64::MAX,
        ensures
            final(self).wf(),
            final(self).same_session(old(self)),
            spec_frame_buffer_size(
                content_width,
                content_height,
                spec_bytes_per_pixel(old(self).spec_pixel_format()),
            ) is None ==> plan is Skip && final(self).spec_staging() == old(self).spec_staging()
                && final(self).spec_arena() == old(self).spec_arena(),
            spec_frame_buffer_size(
                content_width,
                content_height,
                spec_bytes_per_pixel(old(self).spec_pixel_format()),
            ) matches Some(size) ==> {
                &&& plan matches FramePlan::Process { step, buffer }
                &&& old(self).spec_staging().advances(
                    &final(self).spec_staging(),
                    texture_width,
                    texture_height,
                    step,
                )
                &&& step.write_index < PIPELINE_DEPTH
                &&& step.read_index is Some ==> step.read_index->0 < PIPELINE_DEPTH
                    && step.read_index->0 != step.write_index
                &&& step.read_index is Some ==> final(self).spec_staging().spec_held()[step.read_index->0 as int]
                    == Some(
                    (old(self).spec_staging().next_frame(texture_width, texture_height)
                        - 1) as nat,
                )
                &&& buffer is Some <==> step.read_index is Some
                &&& buffer is Some ==> buffer->0@ == old(self).spec_arena().leased(size)
                    && final(self).spec_arena() == old(self).spec_arena().after_get(size)
                &&& buffer is None ==> final(self).spec_arena() == old(self).spec_arena()
            },
    {
        let size = match frame_buffer_size(
            content_width,
            content_height,
            self.pixel_format.bytes_per_pixel(),
        ) {
            Some(size) => size,
            None => {
                return FramePlan::Skip;
            },
        };
        let step = self.staging_state.advance(texture_width, texture_height);
        let buffer = if step.read_index.is_some() {
            Some(self.buffer_pool.get(size))
        } else {
            None
        };
        FramePlan::Process { step, buffer }
    }

    /// Takes back a buffer that was leased for a frame and is no longer
    /// needed, so that its bytes serve a later frame. A buffer the arena has
    /// no room for is dropped.
    pub fn release_buffer(&mut self, buffer: BufferRef)
        requires
            old(self).wf(),
        ensures
            final(self).wf(),
            final(self).same_session(old(self)),
            final(self).spec_staging() == old(self).spec_staging(),
            final(self).spec_arena() == if old(self).spec_arena().available() + buffer@.len()
                <= isize::MAX {
                old(self).spec_arena().after_release(buffer@)
            } else {
                old(self).spec_arena()
            },
    {
        let _ = self.buffer_pool.try_release(buffer);
    }

    /// Forgets the staging targets after the platform failed to make them
    /// with result code `code`, so that the next frame asks for them again,
    /// and returns the failure to report.
    pub fn staging_failed(&mut self, code: i32) -> (e: WindowsCaptureError)
        requires
            old(self).wf(),
        ensures
            final(self).wf(),
            e == WindowsCaptureError::FailedToCreateTexture(code),
            final(self).same_session(old(self)),
            final(self).spec_arena() == old(self).spec_arena(),
            !final(self).spec_staging().spec_allocated(),
            final(self).spec_staging().spec_frame_count() == 0,
    {
        self.staging_state.reset();
        WindowsCaptureError::FailedToCreateTexture(code)
    }
}

} // verus!
