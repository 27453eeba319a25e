//! The user's configuration.

use vstd::prelude::*;
use crate::capture_framerate::CaptureFramerate;
use crate::pixel_format::PixelFormat;

verus! {

/// How video is encoded for the wire.
#[derive(Debug, Clone, Copy, PartialEq, Eq, Structural)]
pub enum FFmpegTranscodeType {
    H264Software,
    H264Vulkan,
    H265Vulkan,
}

/// Name of the encoder that does `t`.
pub open spec fn spec_encoder_name(t: FFmpegTranscodeType) -> Seq<char> {
    match t {
        FFmpegTranscodeType::H264Software => "libx264"@,
        FFmpegTranscodeType::H264Vulkan => "h264_vulkan"@,
        FFmpegTranscodeType::H265Vulkan => "hevc_vulkan"@,
    }
}

/// Name of the decoder that undoes `t`.
pub open spec fn spec_decoder_name(t: FFmpegTranscodeType) -> Seq<char> {
    match t {
        FFmpegTranscodeType::H264Software => "h264"@,
        FFmpegTranscodeType::H264Vulkan => "h264"@,
        FFmpegTranscodeType::H265Vulkan => "hevc"@,
    }
}

/// Name of the hardware acceleration `t` runs on, if it runs on any.
pub open spec fn spec_hw_accel_name(t: FFmpegTranscodeType) -> Option<Seq<char>> {
    match t {
        FFmpegTranscodeType::H264Software => None,
        FFmpegTranscodeType::H264Vulkan => Some("vulkan"@),
        FFmpegTranscodeType::H265Vulkan => Some("vulkan"@),
    }
}

/// The name `t` is shown with.
pub open spec fn spec_transcode_label(t: FFmpegTranscodeType) -> Seq<char> {
    match t {
        FFmpegTranscodeType::H264Software => "H264Software"@,
        FFmpegTranscodeType::H264Vulkan => "H264Vulkan"@,
        FFmpegTranscodeType::H265Vulkan => "H265Vulkan"@,
    }
}

impl FFmpegTranscodeType {
    /// Every way of encoding, the default first.
    pub fn all() -> (types: Vec<FFmpegTranscodeType>)
        ensures
            types@ == seq![
                FFmpegTranscodeType::H264Software,
                FFmpegTranscodeType::H264Vulkan,
                FFmpegTranscodeType::H265Vulkan,
            ],
    {
        let mut types: Vec<FFmpegTranscodeType> = Vec::new();
        types.push(FFmpegTranscodeType::H264Software);
        types.push(FFmpegTranscodeType::H264Vulkan);
        types.push(FFmpegTranscodeType::H265Vulkan);
        assert(types@ =~= seq![
            FFmpegTranscodeType::H264Software,
            FFmpegTranscodeType::H264Vulkan,
            FFmpegTranscodeType::H265Vulkan,
        ]);
        types
    }

    /// Name of the encoder.
    pub fn to_encoder_name(&self) -> (name: &'static str)
        ensures
            name@ == spec_encoder_name(*self),
    {
        match self {
            FFmpegTranscodeType::H264Software => "libx264",
            FFmpegTranscodeType::H264Vulkan => "h264_vulkan",
            FFmpegTranscodeType::H265Vulkan => "hevc_vulkan",
        }
    }

    /// Name of the decoder.
    pub fn to_decoder_name(&self) -> (name: &'static str)
        ensures
            name@ == spec_decoder_name(*self),
    {
        match self {
            FFmpegTranscodeType::H264Software => "h264",
            FFmpegTranscodeType::H264Vulkan => "h264",
            FFmpegTranscodeType::H265Vulkan => "hevc",
        }
    }

    /// Name of the hardware acceleration, if any.
    pub fn hw_accel_name(&self) -> (name: Option<&'static str>)
        ensures
            name is Some <==> spec_hw_accel_name(*self) is Some,
            name is Some ==> Some(name->0@) == spec_hw_accel_name(*self),
    {
        match self {
            FFmpegTranscodeType::H264Software => None,
            FFmpegTranscodeType::H264Vulkan => Some("vulkan"),
            FFmpegTranscodeType::H265Vulkan => Some("vulkan"),
        }
    }

    /// The name the type is shown with.
    pub fn to_string(&self) -> (label: String)
        ensures
            label@ == spec_transcode_label(*self),
    {
        match self {
            FFmpegTranscodeType::H264Software => "H264Software".to_owned(),
            FFmpegTranscodeType::H264Vulkan => "H264Vulkan".to_owned(),
            FFmpegTranscodeType::H265Vulkan => "H265Vulkan".to_owned(),
        }
    }
}

impl Default for FFmpegTranscodeType {
    fn default() -> (t: Self)
        ensures
            t == FFmpegTranscodeType::H264Software,
    {
        FFmpegTranscodeType::H264Software
    }
}

/// The configuration.
#[derive(Debug)]
pub struct Config {
    pub onboarding_done: bool,
    pub server_url: String,
    pub bitrate: u32,
    pub framerate: CaptureFramerate,
    pub pixel_format: PixelFormat,
    pub max_depacket_latency: u16,
    pub transcoding_type: FFmpegTranscodeType,
}

/// A configuration as a value of characters.
pub struct ConfigView {
    pub onboarding_done: bool,
    pub server_url: Seq<char>,
    pub bitrate: u32,
    pub framerate: CaptureFramerate,
    pub pixel_format: PixelFormat,
    pub max_depacket_latency: u16,
    pub transcoding_type: FFmpegTranscodeType,
}

impl View for Config {
    type V = ConfigView;

    open spec fn view(&self) -> ConfigView {
        ConfigView {
            onboarding_done: self.onboarding_done,
            server_url: self.server_url@,
            bitrate: self.bitrate,
            framerate: self.framerate,
            pixel_format: self.pixel_format,
            max_depacket_latency: self.max_depacket_latency,
            transcoding_type: self.transcoding_type,
        }
    }
}

/// The configuration a first start begins with.
pub open spec fn default_config() -> ConfigView {
    ConfigView {
        onboarding_done: false,
        server_url: "ws://127.0.0.1:30000/ws"@,
        bitrate: 8_000_000,
        framerate: CaptureFramerate::FPS30,
        pixel_format: PixelFormat::RGBA8,
        max_depacket_latency: 2000,
        transcoding_type: FFmpegTranscodeType::H264Software,
    }
}

impl Default for Config {
    fn default() -> (config: Self)
        ensures
            config@ == default_config(),
    {
        Config {
            onboarding_done: false,
            server_url: "ws://127.0.0.1:30000/ws".to_owned(),
            bitrate: 8_000_000,
            framerate: CaptureFramerate::FPS30,
            pixel_format: PixelFormat::RGBA8,
            max_depacket_latency: 2000,
            transcoding_type: FFmpegTranscodeType::H264Software,
        }
    }
}

impl Clone for Config {
    fn clone(&self) -> (copy: Self)
        ensures
            copy == *self,
    {
        Config {
            onboarding_done: self.onboarding_done,
            server_url: self.server_url.clone(),
            bitrate: self.bitrate,
            framerate: self.framerate,
            pixel_format: self.pixel_format,
            max_depacket_latency: self.max_depacket_latency,
            transcoding_type: self.transcoding_type,
        }
    }
}

} // verus!
