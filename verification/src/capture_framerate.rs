//! The frame rates a capture stream can be asked for.

use vstd::prelude::*;

verus! {

/// A capture frame rate.
#[derive(Debug, Clone, Copy, PartialEq, Eq, Structural)]
pub enum CaptureFramerate {
    FPS5,
    FPS24,
    FPS30,
    FPS60,
    FPS120,
    FPS144,
    FPS200,
}

/// Nanoseconds in a second.
pub const NANOS_PER_SECOND: u64 = 1_000_000_000;

/// Frames per second of `rate`.
pub open spec fn spec_hz(rate: CaptureFramerate) -> u32 {
    match rate {
        CaptureFramerate::FPS5 => 5,
        CaptureFramerate::FPS24 => 24,
        CaptureFramerate::FPS30 => 30,
        CaptureFramerate::FPS60 => 60,
        CaptureFramerate::FPS120 => 120,
        CaptureFramerate::FPS144 => 144,
        CaptureFramerate::FPS200 => 200,
    }
}

/// Whole nanoseconds between two frames at `rate`.
pub open spec fn spec_frametime(rate: CaptureFramerate) -> u64 {
    (NANOS_PER_SECOND as int / spec_hz(rate) as int) as u64
}

/// The digits `rate` is shown with.
pub open spec fn spec_label(rate: CaptureFramerate) -> Seq<char> {
    match rate {
        CaptureFramerate::FPS5 => "5"@,
        CaptureFramerate::FPS24 => "24"@,
        CaptureFramerate::FPS30 => "30"@,
        CaptureFramerate::FPS60 => "60"@,
        CaptureFramerate::FPS120 => "120"@,
        CaptureFramerate::FPS144 => "144"@,
        CaptureFramerate::FPS200 => "200"@,
    }
}

/// Every frame rate, slowest first.
pub open spec fn spec_all() -> Seq<CaptureFramerate> {
    seq![
        CaptureFramerate::FPS5,
        CaptureFramerate::FPS24,
        CaptureFramerate::FPS30,
        CaptureFramerate::FPS60,
        CaptureFramerate::FPS120,
        CaptureFramerate::FPS144,
        CaptureFramerate::FPS200,
    ]
}

impl CaptureFramerate {
    /// Every frame rate, slowest first.
    pub fn all() -> (rates: Vec<CaptureFramerate>)
        ensures
            rates@ == spec_all(),
    {
        let mut rates: Vec<CaptureFramerate> = Vec::new();
        rates.push(CaptureFramerate::FPS5);
        rates.push(CaptureFramerate::FPS24);
        rates.push(CaptureFramerate::FPS30);
        rates.push(CaptureFramerate::FPS60);
        rates.push(CaptureFramerate::FPS120);
        rates.push(CaptureFramerate::FPS144);
        rates.push(CaptureFramerate::FPS200);
        assert(rates@ =~= spec_all());
        rates
    }

    /// Frames per second.
    pub fn to_hz(&self) -> (hz: u32)
        ensures
            hz == spec_hz(*self),
            hz > 0,
    {
        match self {
            CaptureFramerate::FPS5 => 5,
            CaptureFramerate::FPS24 => 24,
            CaptureFramerate::FPS30 => 30,
            CaptureFramerate::FPS60 => 60,
            CaptureFramerate::FPS120 => 120,
            CaptureFramerate::FPS144 => 144,
            CaptureFramerate::FPS200 => 200,
        }
    }

    /// Time between two frames, in whole nanoseconds.
    pub fn to_frametime(&self) -> (nanos: u64)
        ensures
            nanos == spec_frametime(*self),
    {
        NANOS_PER_SECOND / (self.to_hz() as u64)
    }

    /// The digits the rate is shown with.
    pub fn to_string(&self) -> (label: String)
        ensures
            label@ == spec_label(*self),
    {
        match self {
            CaptureFramerate::FPS5 => "5".to_owned(),
            CaptureFramerate::FPS24 => "24".to_owned(),
            CaptureFramerate::FPS30 => "30".to_owned(),
            CaptureFramerate::FPS60 => "60".to_owned(),
            CaptureFramerate::FPS120 => "120".to_owned(),
            CaptureFramerate::FPS144 => "144".to_owned(),
            CaptureFramerate::FPS200 => "200".to_owned(),
        }
    }
}

} // verus!
