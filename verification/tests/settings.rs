use fjarsyn::capture_framerate::CaptureFramerate;
use fjarsyn::config::{Config, FFmpegTranscodeType};
use fjarsyn::pixel_format::PixelFormat;
use fjarsyn::settings::{
    parse_unsigned, ConfigField, ConfigValue, SettingsMessage, SettingsScreen,
};

fn edit(screen: &mut SettingsScreen, field: ConfigField, value: ConfigValue) {
    assert!(screen.update(SettingsMessage::ConfigUpdate(field, value)).is_none());
}

fn text(s: &str) -> ConfigValue {
    ConfigValue::String(s.to_owned())
}

#[test]
fn default_config() {
    let config = Config::default();
    assert!(!config.onboarding_done);
    assert_eq!(config.server_url, "ws://127.0.0.1:30000/ws");
    assert_eq!(config.bitrate, 8_000_000);
    assert_eq!(config.framerate, CaptureFramerate::FPS30);
    assert_eq!(config.pixel_format, PixelFormat::RGBA8);
    assert_eq!(config.max_depacket_latency, 2000);
    assert_eq!(config.transcoding_type, FFmpegTranscodeType::H264Software);
    assert_eq!(FFmpegTranscodeType::default(), FFmpegTranscodeType::H264Software);
}

#[test]
fn clone_of_a_config_is_equal() {
    let mut config = Config::default();
    config.server_url = "ws://example:1/ws".to_owned();
    config.bitrate = 5;
    let copy = config.clone();
    assert_eq!(copy.server_url, "ws://example:1/ws");
    assert_eq!(copy.bitrate, 5);
    assert_eq!(copy.framerate, config.framerate);
    assert_eq!(copy.max_depacket_latency, config.max_depacket_latency);
}

#[test]
fn parse_reads_decimal_numbers() {
    assert_eq!(parse_unsigned("0", u32::MAX), Some(0));
    assert_eq!(parse_unsigned("8000000", u32::MAX), Some(8_000_000));
    assert_eq!(parse_unsigned("4294967295", u32::MAX), Some(u32::MAX));
    assert_eq!(parse_unsigned("65535", 65535), Some(65535));
    assert_eq!(parse_unsigned("007", u32::MAX), Some(7));
    assert_eq!(parse_unsigned("00000000000000000000000000012", u32::MAX), Some(12));
}

#[test]
fn parse_accepts_a_leading_plus() {
    assert_eq!(parse_unsigned("+15", u32::MAX), Some(15));
    assert_eq!(parse_unsigned("+0", u32::MAX), Some(0));
}

#[test]
fn parse_refuses_what_is_no_number() {
    for bad in ["", "+", "-", "-1", "++1", "+-1", " 1", "1 ", "1_000", "12a", "a12", "1.5", "0x10", "１２"] {
        assert_eq!(parse_unsigned(bad, u32::MAX), None, "{:?}", bad);
        assert_eq!(bad.parse::<u32>().ok(), None, "{:?}", bad);
    }
}

#[test]
fn parse_refuses_numbers_beyond_the_maximum() {
    assert_eq!(parse_unsigned("4294967296", u32::MAX), None);
    assert_eq!(parse_unsigned("99999999999999999999999999", u32::MAX), None);
    assert_eq!(parse_unsigned("65536", 65535), None);
    assert_eq!(parse_unsigned("6", 5), None);
    assert_eq!(parse_unsigned("5", 5), Some(5));
}

#[test]
fn parse_agrees_with_the_standard_parser() {
    for s in ["0", "1", "+1", "42", "4294967295", "4294967296", "000", "+", "", "-0", "9a", "+007"] {
        assert_eq!(parse_unsigned(s, u32::MAX), s.parse::<u32>().ok(), "{:?}", s);
        assert_eq!(
            parse_unsigned(s, 65535),
            s.parse::<u16>().ok().map(|n| n as u32),
            "{:?}",
            s
        );
    }
}

#[test]
fn form_edits_a_copy_of_the_config() {
    let screen = SettingsScreen::new(Config::default());
    let pending = screen.pending_config.unwrap();
    assert_eq!(pending.server_url, "ws://127.0.0.1:30000/ws");
    assert_eq!(pending.bitrate, 8_000_000);
}

#[test]
fn server_url_takes_any_text() {
    let mut screen = SettingsScreen::new(Config::default());
    edit(&mut screen, ConfigField::ServerUrl, text("ws://relay.example/ws"));
    assert_eq!(screen.pending_config.as_ref().unwrap().server_url, "ws://relay.example/ws");
    edit(&mut screen, ConfigField::ServerUrl, text(""));
    assert_eq!(screen.pending_config.as_ref().unwrap().server_url, "");
}

#[test]
fn bitrate_takes_numbers_and_keeps_its_value_otherwise() {
    let mut screen = SettingsScreen::new(Config::default());
    edit(&mut screen, ConfigField::Bitrate, text("2500000"));
    assert_eq!(screen.pending_config.as_ref().unwrap().bitrate, 2_500_000);
    edit(&mut screen, ConfigField::Bitrate, text("fast"));
    assert_eq!(screen.pending_config.as_ref().unwrap().bitrate, 2_500_000);
    edit(&mut screen, ConfigField::Bitrate, text("4294967296"));
    assert_eq!(screen.pending_config.as_ref().unwrap().bitrate, 2_500_000);
    edit(&mut screen, ConfigField::Bitrate, text("4294967295"));
    assert_eq!(screen.pending_config.as_ref().unwrap().bitrate, u32::MAX);
}

#[test]
fn latency_takes_numbers_up_to_65535() {
    let mut screen = SettingsScreen::new(Config::default());
    edit(&mut screen, ConfigField::MaxDepacketLatency, text("65535"));
    assert_eq!(screen.pending_config.as_ref().unwrap().max_depacket_latency, 65535);
    edit(&mut screen, ConfigField::MaxDepacketLatency, text("65536"));
    assert_eq!(screen.pending_config.as_ref().unwrap().max_depacket_latency, 65535);
    edit(&mut screen, ConfigField::MaxDepacketLatency, text("150"));
    assert_eq!(screen.pending_config.as_ref().unwrap().max_depacket_latency, 150);
    edit(&mut screen, ConfigField::MaxDepacketLatency, text(""));
    assert_eq!(screen.pending_config.as_ref().unwrap().max_depacket_latency, 150);
}

#[test]
fn framerate_and_transcoding_take_values_of_their_kind() {
    let mut screen = SettingsScreen::new(Config::default());
    edit(&mut screen, ConfigField::Framerate, ConfigValue::Framerate(CaptureFramerate::FPS144));
    edit(
        &mut screen,
        ConfigField::TranscodingType,
        ConfigValue::TranscodingType(FFmpegTranscodeType::H265Vulkan),
    );
    let pending = screen.pending_config.as_ref().unwrap();
    assert_eq!(pending.framerate, CaptureFramerate::FPS144);
    assert_eq!(pending.transcoding_type, FFmpegTranscodeType::H265Vulkan);
}

#[test]
fn value_of_the_wrong_kind_changes_nothing() {
    let mut screen = SettingsScreen::new(Config::default());
    edit(&mut screen, ConfigField::Framerate, text("60"));
    edit(&mut screen, ConfigField::ServerUrl, ConfigValue::Framerate(CaptureFramerate::FPS5));
    edit(&mut screen, ConfigField::Bitrate, ConfigValue::TranscodingType(FFmpegTranscodeType::H264Vulkan));
    edit(&mut screen, ConfigField::TranscodingType, text("hevc"));
    edit(&mut screen, ConfigField::MaxDepacketLatency, ConfigValue::Framerate(CaptureFramerate::FPS5));
    let pending = screen.pending_config.as_ref().unwrap();
    assert_eq!(pending.framerate, CaptureFramerate::FPS30);
    assert_eq!(pending.server_url, "ws://127.0.0.1:30000/ws");
    assert_eq!(pending.bitrate, 8_000_000);
    assert_eq!(pending.transcoding_type, FFmpegTranscodeType::H264Software);
    assert_eq!(pending.max_depacket_latency, 2000);
}

#[test]
fn saving_hands_the_pending_config_out_once() {
    let mut screen = SettingsScreen::new(Config::default());
    edit(&mut screen, ConfigField::Bitrate, text("1"));
    let saved = screen.update(SettingsMessage::SaveConfig).unwrap();
    assert_eq!(saved.bitrate, 1);
    assert!(screen.pending_config.is_none());
    assert!(screen.update(SettingsMessage::SaveConfig).is_none());
}

#[test]
fn edits_after_saving_change_nothing() {
    let mut screen = SettingsScreen::new(Config::default());
    screen.update(SettingsMessage::SaveConfig);
    edit(&mut screen, ConfigField::Bitrate, text("1"));
    assert!(screen.pending_config.is_none());
}

#[test]
fn transcode_types_name_their_codecs() {
    let all = FFmpegTranscodeType::all();
    assert_eq!(
        all,
        vec![
            FFmpegTranscodeType::H264Software,
            FFmpegTranscodeType::H264Vulkan,
            FFmpegTranscodeType::H265Vulkan,
        ]
    );
    let encoders: Vec<&str> = all.iter().map(|t| t.to_encoder_name()).collect();
    assert_eq!(encoders, vec!["libx264", "h264_vulkan", "hevc_vulkan"]);
    let decoders: Vec<&str> = all.iter().map(|t| t.to_decoder_name()).collect();
    assert_eq!(decoders, vec!["h264", "h264", "hevc"]);
    let accel: Vec<Option<&str>> = all.iter().map(|t| t.hw_accel_name()).collect();
    assert_eq!(accel, vec![None, Some("vulkan"), Some("vulkan")]);
    let labels: Vec<String> = all.iter().map(|t| t.to_string()).collect();
    assert_eq!(labels, vec!["H264Software", "H264Vulkan", "H265Vulkan"]);
}
