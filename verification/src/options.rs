//! The options resource: the [`Options`] record and its fetch URL.

use vstd::prelude::*;

use crate::DecodeError;
use crate::json::{JsonValue, parsed_json, parse_json, s_bool, s_u32, get_bool, get_u32};

verus! {

/// Full record for a user's options.
#[derive(Debug, Clone, PartialEq)]
pub struct Options {
    /// Whether the user can stream on the platform.
    pub streaming: bool,
    /// The streaming duration of the user, in seconds.
    pub streaming_duration: u32,
    /// Whether the user can listen to music in offline mode.
    pub offline: bool,
    /// Whether HQ can be activated.
    pub hq: bool,
    /// Whether ads are displayed.
    pub ads_display: bool,
    /// Whether audio ads are activated.
    pub ads_audio: bool,
    /// Whether the user reached the limit of linked devices. Wire name:
    /// `too_many_devices`.
    pub has_too_many_devices: bool,
    /// Whether the user can subscribe to the service.
    pub can_subscribe: bool,
    /// The limit of radio skips; zero means no limit.
    pub radio_skips: u32,
    /// Whether lossless is available.
    pub lossless: bool,
    /// Whether track previews may be displayed.
    pub preview: bool,
    /// Whether the radio may be streamed.
    pub radio: bool,
}

/// Mathematical model of an [`Options`].
pub struct OptionsView {
    pub streaming: bool,
    pub streaming_duration: u32,
    pub offline: bool,
    pub hq: bool,
    pub ads_display: bool,
    pub ads_audio: bool,
    pub has_too_many_devices: bool,
    pub can_subscribe: bool,
    pub radio_skips: u32,
    pub lossless: bool,
    pub preview: bool,
    pub radio: bool,
}

impl View for Options {
    type V = OptionsView;

    open spec fn view(&self) -> OptionsView {
        OptionsView {
            streaming: self.streaming,
            streaming_duration: self.streaming_duration,
            offline: self.offline,
            hq: self.hq,
            ads_display: self.ads_display,
            ads_audio: self.ads_audio,
            has_too_many_devices: self.has_too_many_devices,
            can_subscribe: self.can_subscribe,
            radio_skips: self.radio_skips,
            lossless: self.lossless,
            preview: self.preview,
            radio: self.radio,
        }
    }
}

/// The decode of `v` as an options record, when it succeeds.
pub open spec fn spec_options(v: JsonValue) -> Option<OptionsView> {
    if s_bool(v, "streaming"@) is None || s_u32(v, "streaming_duration"@) is None || s_bool(
        v,
        "offline"@,
    ) is None || s_bool(v, "hq"@) is None || s_bool(v, "ads_display"@) is None || s_bool(
        v,
        "ads_audio"@,
    ) is None || s_bool(v, "too_many_devices"@) is None || s_bool(v, "can_subscribe"@) is None
        || s_u32(v, "radio_skips"@) is None || s_bool(v, "lossless"@) is None || s_bool(
        v,
        "preview"@,
    ) is None || s_bool(v, "radio"@) is None {
        None
    } else {
        Some(
            OptionsView {
                streaming: s_bool(v, "streaming"@)->0,
                streaming_duration: s_u32(v, "streaming_duration"@)->0,
                offline: s_bool(v, "offline"@)->0,
                hq: s_bool(v, "hq"@)->0,
                ads_display: s_bool(v, "ads_display"@)->0,
                ads_audio: s_bool(v, "ads_audio"@)->0,
                has_too_many_devices: s_bool(v, "too_many_devices"@)->0,
                can_subscribe: s_bool(v, "can_subscribe"@)->0,
                radio_skips: s_u32(v, "radio_skips"@)->0,
                lossless: s_bool(v, "lossless"@)->0,
                preview: s_bool(v, "preview"@)->0,
                radio: s_bool(v, "radio"@)->0,
            },
        )
    }
}

impl Options {
    /// Decodes an options record from a JSON value.
    pub fn from_json(v: &JsonValue) -> (r: Option<Options>)
        ensures
            r matches Some(o) ==> spec_options(*v) == Some(o@),
            r is None ==> spec_options(*v) is None,
    {
        let streaming = get_bool(v, "streaming")?;
        let streaming_duration = get_u32(v, "streaming_duration")?;
        let offline = get_bool(v, "offline")?;
        let hq = get_bool(v, "hq")?;
        let ads_display = get_bool(v, "ads_display")?;
        let ads_audio = get_bool(v, "ads_audio")?;
        let has_too_many_devices = get_bool(v, "too_many_devices")?;
        let can_subscribe = get_bool(v, "can_subscribe")?;
        let radio_skips = get_u32(v, "radio_skips")?;
        let lossless = get_bool(v, "lossless")?;
        let preview = get_bool(v, "preview")?;
        let radio = get_bool(v, "radio")?;
        Some(
            Options {
                streaming,
                streaming_duration,
                offline,
                hq,
                ads_display,
                ads_audio,
                has_too_many_devices,
                can_subscribe,
                radio_skips,
                lossless,
                preview,
                radio,
            },
        )
    }

    /// Decodes an options record from JSON text: the body of an options
    /// fetch.
    pub fn new(json: &str) -> (r: Result<Options, DecodeError>)
        ensures
            match parsed_json(json@) {
                None => r matches Err(e) && e == DecodeError::Syntax,
                Some(v) => match spec_options(v) {
                    None => r matches Err(e) && e == DecodeError::Structure,
                    Some(ov) => r matches Ok(o) && o@ == ov,
                },
            },
    {
        match parse_json(json) {
            None => Err(DecodeError::Syntax),
            Some(v) => match Options::from_json(&v) {
                None => Err(DecodeError::Structure),
                Some(o) => Ok(o),
            },
        }
    }
}

/// URL of the options resource.
pub open spec fn spec_options_api() -> Seq<char> {
    "https://api.deezer.com/options"@
}

/// Produces the appropriate api url.
pub fn get_options_api() -> (r: String)
    ensures
        r@ == spec_options_api(),
{
    "https://api.deezer.com/options".to_owned()
}

} // verus!
