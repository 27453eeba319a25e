//! The settings form: edits to a pending copy of the configuration, which
//! replaces the configuration when it is saved.

use vstd::prelude::*;
use vstd::string::StringSliceAdditionalSpecFns;
use vstd::utf8::encode_utf8;
use crate::capture_framerate::CaptureFramerate;
use crate::config::{Config, ConfigView, FFmpegTranscodeType};

verus! {

/// The fields the form edits.
#[derive(Debug, Clone, Copy, PartialEq, Eq, Structural)]
pub enum ConfigField {
    Bitrate,
    Framerate,
    ServerUrl,
    MaxDepacketLatency,
    TranscodingType,
}

/// The values the form's inputs produce.
#[derive(Debug)]
pub enum ConfigValue {
    String(String),
    Framerate(CaptureFramerate),
    TranscodingType(FFmpegTranscodeType),
}

/// What the form is told.
#[derive(Debug)]
pub enum SettingsMessage {
    ConfigUpdate(ConfigField, ConfigValue),
    SaveConfig,
}

/// The form.
#[derive(Debug)]
pub struct SettingsScreen {
    pub pending_config: Option<Config>,
}

/// A form value as a value of characters.
pub enum ConfigValueView {
    String(Seq<char>),
    Framerate(CaptureFramerate),
    TranscodingType(FFmpegTranscodeType),
}

impl View for ConfigValue {
    type V = ConfigValueView;

    open spec fn view(&self) -> ConfigValueView {
        match self {
            ConfigValue::String(s) => ConfigValueView::String(s@),
            ConfigValue::Framerate(rate) => ConfigValueView::Framerate(*rate),
            ConfigValue::TranscodingType(t) => ConfigValueView::TranscodingType(*t),
        }
    }
}

/// The byte is an ASCII decimal digit.
pub open spec fn is_digit(b: u8) -> bool {
    0x30 <= b <= 0x39
}

/// The number a sequence of ASCII decimal digits denotes.
pub open spec fn digits_value(digits: Seq<u8>) -> nat
    decreases digits.len(),
{
    if digits.len() == 0 {
        0
    } else {
        digits_value(digits.drop_last()) * 10 + (digits.last() - 0x30) as nat
    }
}

/// The digits of a number written as text: the text without a leading plus
/// sign.
pub open spec fn unsigned_digits(text: Seq<u8>) -> Seq<u8> {
    if text.len() > 0 && text[0] == 0x2b {
        text.drop_first()
    } else {
        text
    }
}

/// The number the bytes `text` denote, if they are an optional plus sign
/// followed by one or more decimal digits and nothing else, and the number is
/// at most `max`.
pub open spec fn spec_parse_unsigned(text: Seq<u8>, max: nat) -> Option<nat> {
    let digits = unsigned_digits(text);
    if digits.len() > 0 && (forall|i: int| 0 <= i < digits.len() ==> is_digit(#[trigger] digits[i]))
        && digits_value(digits) <= max {
        Some(digits_value(digits))
    } else {
        None
    }
}

/// More digits never denote less.
pub proof fn lemma_digits_value_grows(digits: Seq<u8>, k: int)
    requires
        0 <= k <= digits.len(),
        forall|i: int| 0 <= i < digits.len() ==> is_digit(#[trigger] digits[i]),
    ensures
        digits_value(digits.take(k)) <= digits_value(digits),
    decreases digits.len() - k,
{
    if k < digits.len() {
        lemma_digits_value_grows(digits, k + 1);
        let longer = digits.take(k + 1);
        assert(longer.drop_last() =~= digits.take(k));
        assert(longer.last() == digits[k]);
    } else {
        assert(digits.take(k) =~= digits);
    }
}

/// Reads `text` as an unsigned decimal number of at most `max`.
pub fn parse_unsigned(text: &str, max: u32) -> (r: Option<u32>)
    ensures
        r is Some <==> spec_parse_unsigned(text.spec_bytes(), max as nat) is Some,
        r is Some ==> Some(r->0 as nat) == spec_parse_unsigned(text.spec_bytes(), max as nat),
{
    let bytes = text.as_bytes();
    let n = bytes.len();
    let start: usize = if n > 0 && bytes[0] == 0x2b {
        1
    } else {
        0
    };
    let ghost digits = unsigned_digits(bytes@);
    assert(digits =~= bytes@.subrange(start as int, n as int));
    if start == n {
        return None;
    }
    let mut value: u64 = 0;
    let mut i: usize = start;
    assert(digits.take(0) =~= Seq::<u8>::empty());
    while i < n
        invariant
            start <= i <= n,
            n == bytes@.len(),
            bytes@ == text.spec_bytes(),
            digits == unsigned_digits(bytes@),
            digits == bytes@.subrange(start as int, n as int),
            forall|j: int| 0 <= j < i - start ==> is_digit(#[trigger] digits[j]),
            value == digits_value(digits.take(i - start)),
            value <= max,
        decreases n - i,
    {
        let b = bytes[i];
        assert(digits[i - start] == b);
        if b < 0x30 || b > 0x39 {
            return None;
        }
        let next = value * 10 + (b - 0x30) as u64;
        proof {
            let longer = digits.take(i - start + 1);
            assert(longer.drop_last() =~= digits.take(i - start));
            assert(longer.last() == b);
            assert(next == digits_value(longer));
        }
        if next > max as u64 {
            proof {
                if forall|j: int| 0 <= j < digits.len() ==> is_digit(#[trigger] digits[j]) {
                    lemma_digits_value_grows(digits, i - start + 1);
                }
            }
            return None;
        }
        value = next;
        i = i + 1;
    }
    assert(digits.take(n - start) =~= digits);
    Some(value as u32)
}

/// The pending configuration after `field` was set from `value`.
///
/// The server address takes any text. Bit rate and depacketizing latency
/// take text that reads as a number in their range and keep their value
/// otherwise. Frame rate and transcoding take values of their own kind. A
/// value of the wrong kind for its field changes nothing.
pub open spec fn updated(
    config: ConfigView,
    field: ConfigField,
    value: ConfigValueView,
) -> ConfigView {
    match (field, value) {
        (ConfigField::ServerUrl, ConfigValueView::String(text)) => ConfigView {
            server_url: text,
            ..config
        },
        (ConfigField::Framerate, ConfigValueView::Framerate(rate)) => ConfigView {
            framerate: rate,
            ..config
        },
        (ConfigField::TranscodingType, ConfigValueView::TranscodingType(t)) => ConfigView {
            transcoding_type: t,
            ..config
        },
        (ConfigField::Bitrate, ConfigValueView::String(text)) => match spec_parse_unsigned(
            encode_utf8(text),
            u32::MAX as nat,
        ) {
            Some(n) => ConfigView { bitrate: n as u32, ..config },
            None => config,
        },
        (ConfigField::MaxDepacketLatency, ConfigValueView::String(text)) => {
            match spec_parse_unsigned(encode_utf8(text), u16::MAX as nat) {
                Some(n) => ConfigView { max_depacket_latency: n as u16, ..config },
                None => config,
            }
        },
        _ => config,
    }
}

/// The characters of an optional configuration.
pub open spec fn config_view(config: Option<Config>) -> Option<ConfigView> {
    match config {
        Some(c) => Some(c@),
        None => None,
    }
}

impl SettingsScreen {
    /// A form that edits a copy of `current_config`.
    pub fn new(current_config: Config) -> (screen: SettingsScreen)
        ensures
            screen.pending_config == Some(current_config),
    {
        SettingsScreen { pending_config: Some(current_config) }
    }

    /// Takes `message`. An edit changes the pending configuration, if there
    /// is one, and returns nothing. Saving hands the pending configuration
    /// out to replace the configuration and leaves the form without one.
    pub fn update(&mut self, message: SettingsMessage) -> (saved: Option<Config>)
        ensures
            match message {
                SettingsMessage::ConfigUpdate(field, value) => {
                    &&& saved is None
                    &&& config_view(final(self).pending_config) == match config_view(
                        old(self).pending_config,
                    ) {
                        Some(pending) => Some(updated(pending, field, value@)),
                        None => None,
                    }
                },
                SettingsMessage::SaveConfig => {
                    &&& saved == old(self).pending_config
                    &&& final(self).pending_config is None
                },
            },
    {
        match message {
            SettingsMessage::ConfigUpdate(field, value) => {
                let mut config = match self.pending_config.take() {
                    Some(config) => config,
                    None => {
                        return None;
                    },
                };
                match (field, value) {
                    (ConfigField::ServerUrl, ConfigValue::String(s)) => {
                        config.server_url = s;
                    },
                    (ConfigField::Framerate, ConfigValue::Framerate(rate)) => {
                        config.framerate = rate;
                    },
                    (ConfigField::TranscodingType, ConfigValue::TranscodingType(t)) => {
                        config.transcoding_type = t;
                    },
                    (ConfigField::Bitrate, ConfigValue::String(s)) => {
                        match parse_unsigned(s.as_str(), u32::MAX) {
                            Some(n) => {
                                config.bitrate = n;
                            },
                            None => {},
                        }
                    },
                    (ConfigField::MaxDepacketLatency, ConfigValue::String(s)) => {
                        match parse_unsigned(s.as_str(), 0xffff) {
                            Some(n) => {
                                config.max_depacket_latency = n as u16;
                            },
                            None => {},
                        }
                    },
                    _ => {},
                }
                self.pending_config = Some(config);
                None
            },
            SettingsMessage::SaveConfig => self.pending_config.take(),
        }
    }
}

} // verus!
