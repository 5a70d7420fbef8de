//! Message payloads received from an LG TV over the SSAP WebSocket protocol.

use vstd::prelude::*;



verus! {

/// TV software information for the managed LG TV.
#[derive(Debug, Clone, PartialEq, Eq, Hash)]
pub struct CurrentSwInfoPayload {
    pub return_value: bool,
    pub product_name: String,
    pub model_name: String,
    pub sw_type: String,
    pub major_ver: String,
    pub minor_ver: String,
    pub country: String,
    pub country_group: String,
    pub device_id: String,
    pub auth_flag: String,
    pub ignore_disable: String,
    pub eco_info: String,
    pub config_key: String,
    pub language_code: String,
}

/// A TV input (e.g. HDMI).
#[derive(Debug, Clone, PartialEq, Eq, Hash)]
pub struct ExternalInput {
    pub id: String,
    pub label: String,
    pub port: i64,
    pub connected: bool,
    pub app_id: Option<String>,
    pub icon: Option<String>,
    pub force_icon: Option<bool>,
    pub modified: Option<bool>,
    pub last_unique_id: Option<i64>,
    pub hdmi_plug_in: Option<bool>,
    pub sub_count: Option<i64>,
    pub favorite: Option<bool>,
}

/// Power state reported by the TV.
#[derive(Debug, Clone)]
pub struct GetPowerStatePayload {
    pub state: String,
    pub processing: Option<String>,
    pub return_value: bool,
}

/// Optional TV features.
#[derive(Debug, Clone)]
pub struct Features {
    pub three_d: Option<bool>,
    pub dvr: Option<bool>,
}

/// System information reported by the TV.
#[derive(Debug, Clone)]
pub struct GetSystemInfoPayload {
    pub return_value: bool,
    pub features: Option<Features>,
    pub receiver_type: String,
    pub model_name: String,
    pub serial_number: Option<String>,
    pub program_mode: bool,
}

/// Volume status, first of the two shapes seen from TVs.
#[derive(Debug)]
pub struct VolumeStatusVariantA {
    pub volume_limitable: Option<bool>,
    pub active_status: Option<bool>,
    pub max_volume: u8,
    pub volume_limiter: Option<String>,
    pub sound_output: Option<String>,
    pub volume: u8,
    pub cause: Option<String>,
    pub mode: Option<String>,
    pub external_device_control: Option<bool>,
    pub mute_status: bool,
    pub volume_syncable: Option<bool>,
    pub adjust_volume: bool,
}

/// Volume payload, first shape: the status is nested.
#[derive(Debug)]
pub struct GetVolumePayloadVariantA {
    pub return_value: bool,
    pub volume_status: VolumeStatusVariantA,
    pub caller_id: Option<String>,
}

/// Volume payload, second shape: the status is flat.
#[derive(Debug)]
pub struct GetVolumePayloadVariantB {
    pub return_value: bool,
    pub volume_max: u8,
    pub ringtonewithvibration: Option<bool>,
    pub scenario: Option<String>,
    pub muted: bool,
    pub hac: Option<bool>,
    pub subscribed: Option<bool>,
    pub volume: u8,
    pub action: Option<String>,
    pub supportvolume: bool,
    pub ringer_switch: Option<bool>,
    pub slider: Option<bool>,
    pub active: Option<bool>,
}

/// A pairing prompt from the TV.
#[derive(Debug)]
pub struct PairPayload {
    pub pairing_type: String,
    pub return_value: bool,
}

/// A payload with nothing but a return value.
#[derive(Debug)]
pub struct PlainReturnValuePayload {
    pub return_value: bool,
}

/// Reply to a mute change.
#[derive(Debug)]
pub struct SetMutePayload {
    pub return_value: bool,
    pub mute_status: bool,
    pub sound_output: String,
}

/// Reply to a screen on/off change.
#[derive(Debug)]
pub struct SetScreenOnPayload {
    pub return_value: bool,
    pub state: String,
}

/// Reply to `setVolume`, `volumeDown` and `volumeUp`.
#[derive(Debug)]
pub struct SetVolumePayload {
    pub return_value: bool,
    pub volume: u8,
    pub sound_output: String,
}

/// The payloads a command response can carry.
#[derive(Debug)]
pub enum LgTvResponsePayload {
    CurrentSwInfo(CurrentSwInfoPayload),
    GetExternalInputList(GetExternalInputListPayload),
    GetPowerState(GetPowerStatePayload),
    GetSystemInfo(GetSystemInfoPayload),
    GetVolumeVariantA(GetVolumePayloadVariantA),
    GetVolumeVariantB(GetVolumePayloadVariantB),
    Pair(PairPayload),
    PlainReturnValue(PlainReturnValuePayload),
    SetMute(SetMutePayload),
    SetScreenOn(SetScreenOnPayload),
    SetVolume(SetVolumePayload),
}

/// The TV's input list.
#[derive(Debug)]
pub struct GetExternalInputListPayload {
    pub return_value: bool,
    pub devices: Vec<ExternalInput>,
}

/// An error reported by the TV.
#[derive(Debug)]
pub struct LgTvErrorResponse {
    pub id: String,
    pub error: Option<String>,
}

/// Registration completed: the TV hands out a client key.
#[derive(Debug)]
pub struct LgTvRegisteredResponse {
    pub id: String,
    pub client_key: String,
}

/// A response to a command.
#[derive(Debug)]
pub struct LgTvCommandResponse {
    pub id: String,
    pub payload: LgTvResponsePayload,
}

/// A message received from the TV.
#[derive(Debug)]
pub enum LgTvResponse {
    Error(LgTvErrorResponse),
    Registered(LgTvRegisteredResponse),
    Command(LgTvCommandResponse),
}

/// A copy of an optional string, equal to it.
pub fn clone_opt_string(o: &Option<String>) -> (r: Option<String>)
    ensures
        r == *o,
{
    match o {
        Some(s) => Some(s.clone()),
        None => None,
    }
}

impl CurrentSwInfoPayload {
    /// A copy of this payload, equal to it.
    pub fn copy(&self) -> (r: CurrentSwInfoPayload)
        ensures
            r == *self,
    {
        CurrentSwInfoPayload {
            return_value: self.return_value,
            product_name: self.product_name.clone(),
            model_name: self.model_name.clone(),
            sw_type: self.sw_type.clone(),
            major_ver: self.major_ver.clone(),
            minor_ver: self.minor_ver.clone(),
            country: self.country.clone(),
            country_group: self.country_group.clone(),
            device_id: self.device_id.clone(),
            auth_flag: self.auth_flag.clone(),
            ignore_disable: self.ignore_disable.clone(),
            eco_info: self.eco_info.clone(),
            config_key: self.config_key.clone(),
            language_code: self.language_code.clone(),
        }
    }
}

impl ExternalInput {
    /// A copy of this input, equal to it.
    pub fn copy(&self) -> (r: ExternalInput)
        ensures
            r == *self,
    {
        ExternalInput {
            id: self.id.clone(),
            label: self.label.clone(),
            port: self.port,
            connected: self.connected,
            app_id: clone_opt_string(&self.app_id),
            icon: clone_opt_string(&self.icon),
            force_icon: self.force_icon,
            modified: self.modified,
            last_unique_id: self.last_unique_id,
            hdmi_plug_in: self.hdmi_plug_in,
            sub_count: self.sub_count,
            favorite: self.favorite,
        }
    }
}

/// A copy of a list of inputs, equal to it element by element.
pub fn copy_inputs(v: &Vec<ExternalInput>) -> (r: Vec<ExternalInput>)
    ensures
        r@ == v@,
{
    let mut out: Vec<ExternalInput> = Vec::new();
    let mut i: usize = 0;
    while i < v.len()
        invariant
            i <= v.len(),
            out@ == v@.subrange(0, i as int),
        decreases v.len() - i,
    {
        out.push(v[i].copy());
        i = i + 1;
        assert(out@ =~= v@.subrange(0, i as int));
    }
    assert(v@.subrange(0, v.len() as int) =~= v@);
    out
}

} // verus!
