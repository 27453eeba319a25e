//! Verified core of a low-latency screen-sharing system: frame buffer
//! leasing, the staging pipeline of the capture path, the capture session
//! state machine, the signaling relay and the call state machine.

pub mod bitmap_utils;
pub mod buffer_arena;
pub mod buffer_pool;
pub mod capture_error;
pub mod capture_framerate;
pub mod config;
pub mod frame;
pub mod notification;
pub mod pixel_format;
pub mod screens;
pub mod settings;
pub mod signaling;
pub mod signaling_connection;
pub mod signaling_server;
pub mod staging;
pub mod webrtc;
pub mod wgc_capture_provider;
pub mod wgc_capture_provider_builder;
