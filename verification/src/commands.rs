//! LG TV control commands and the SSAP request text that carries each of them.

use vstd::prelude::*;

use crate::json::{json_bool, push_json_bool, push_str};
use crate::ssap_request::{request_json, request_text, LgTvRequestType};
use crate::text::{decimal, u64_to_decimal};

verus! {

/// Message id under which the volume subscription is registered with the TV.
pub const GET_VOLUME_SUBSCRIPTION_ID: &'static str = "get_volume_subscription";

/// Message id under which the power state subscription is registered with the TV.
pub const GET_POWER_STATE_SUBSCRIPTION_ID: &'static str = "get_power_state_subscription";

/// LG control commands.
#[derive(Debug, Clone, Copy, PartialEq, Eq, Hash, Structural)]
#[non_exhaustive]
pub enum TvCommand {
    /// Get current software information for the TV.
    GetCurrentSWInfo,
    /// Get the list of the TV's inputs (HDMI, etc).
    GetExternalInputList,
    /// Get the power status of the TV.
    GetPowerState,
    /// Get system information about the TV.
    GetSystemInfo,
    /// Get the current volume details, including mute.
    GetVolume,
    /// Set the mute value (`true` is muted, `false` is not muted).
    SetMute(bool),
    /// Set the screen on/off state (`true` is on, `false` is off).
    SetScreenOn(bool),
    /// Set the volume level.
    SetVolume(u8),
    /// Subscribe to volume updates, including mute.
    SubscribeGetVolume,
    /// Subscribe to power state updates.
    SubscribeGetPowerState,
    /// Turn off the TV.
    TurnOff,
    /// Decrease the volume level by one step.
    VolumeDown,
    /// Increase the volume level by one step.
    VolumeUp,
}

/// The SSAP URI that a command addresses.
pub open spec fn command_uri(c: TvCommand) -> Seq<char> {
    match c {
        TvCommand::GetCurrentSWInfo => "ssap://com.webos.service.update/getCurrentSWInformation"@,
        TvCommand::GetExternalInputList => "ssap://tv/getExternalInputList"@,
        TvCommand::GetPowerState => "ssap://com.webos.service.tvpower/power/getPowerState"@,
        TvCommand::GetSystemInfo => "ssap://system/getSystemInfo"@,
        TvCommand::GetVolume => "ssap://audio/getVolume"@,
        TvCommand::SetMute(_) => "ssap://audio/setMute"@,
        TvCommand::SetScreenOn(on) => "ssap://com.webos.service.tvpower/power/turn"@ + (if on {
            "On"@
        } else {
            "Off"@
        }) + "Screen"@,
        TvCommand::SetVolume(_) => "ssap://audio/setVolume"@,
        TvCommand::SubscribeGetVolume => "ssap://audio/getVolume"@,
        TvCommand::SubscribeGetPowerState => "ssap://com.webos.service.tvpower/power/getPowerState"@,
        TvCommand::TurnOff => "ssap://system/turnOff"@,
        TvCommand::VolumeDown => "ssap://audio/volumeDown"@,
        TvCommand::VolumeUp => "ssap://audio/volumeUp"@,
    }
}

/// The JSON payload object that a command carries, if any.
pub open spec fn command_payload(c: TvCommand) -> Option<Seq<char>> {
    match c {
        TvCommand::SetMute(m) => Some("{\"mute\":"@ + json_bool(m) + "}"@),
        TvCommand::SetScreenOn(_) => Some("{\"standbyMode\":\"active\"}"@),
        TvCommand::SetVolume(v) => Some("{\"volume\":"@ + decimal(v as nat) + "}"@),
        _ => None,
    }
}

/// The request kind of a command: the volume subscription subscribes, all others request.
pub open spec fn command_request_type(c: TvCommand) -> LgTvRequestType {
    match c {
        TvCommand::SubscribeGetVolume => LgTvRequestType::Subscribe,
        TvCommand::SubscribeGetPowerState => LgTvRequestType::Subscribe,
        _ => LgTvRequestType::Request,
    }
}

/// The message id a command is sent under: the fixed subscription id for the volume
/// subscription, otherwise the given fresh id.
pub open spec fn command_message_id(c: TvCommand, fresh_id: Seq<char>) -> Seq<char> {
    match c {
        TvCommand::SubscribeGetVolume => GET_VOLUME_SUBSCRIPTION_ID@,
        TvCommand::SubscribeGetPowerState => GET_POWER_STATE_SUBSCRIPTION_ID@,
        _ => fresh_id,
    }
}

/// The full SSAP request text for a command sent with the given fresh message id.
pub open spec fn command_json(c: TvCommand, fresh_id: Seq<char>) -> Seq<char> {
    request_text(
        command_request_type(c),
        command_message_id(c, fresh_id),
        Some(command_uri(c)),
        command_payload(c),
    )
}

/// The display text of a command: its name, with the argument in brackets where it has one.
pub open spec fn command_display(c: TvCommand) -> Seq<char> {
    match c {
        TvCommand::GetCurrentSWInfo => "GetCurrentSWInfo"@,
        TvCommand::GetPowerState => "GetPowerState"@,
        TvCommand::GetSystemInfo => "GetSystemInfo"@,
        TvCommand::GetVolume => "GetVolume"@,
        TvCommand::SetMute(b) => "SetMute("@ + json_bool(b) + ")"@,
        TvCommand::SetScreenOn(b) => "SetScreenOn("@ + json_bool(b) + ")"@,
        TvCommand::SetVolume(v) => "SetVolume("@ + decimal(v as nat) + ")"@,
        TvCommand::SubscribeGetVolume => "SubscribeGetVolume"@,
        TvCommand::SubscribeGetPowerState => "SubscribeGetPowerState"@,
        TvCommand::GetExternalInputList => "GetExternalInputList"@,
        TvCommand::TurnOff => "TurnOff"@,
        TvCommand::VolumeDown => "VolumeDown"@,
        TvCommand::VolumeUp => "VolumeUp"@,
    }
}

/// Whether `s` has the shape of a hyphenated UUID: 36 characters, `-` at positions 8, 13, 18
/// and 23, lower-case hexadecimal digits elsewhere.
pub open spec fn is_hyphenated_uuid(s: Seq<char>) -> bool {
    &&& s.len() == 36
    &&& forall|i: int|
        0 <= i < 36 ==> (if i == 8 || i == 13 || i == 18 || i == 23 {
            #[trigger] s[i] == '-'
        } else {
            ('0' <= s[i] <= '9') || ('a' <= s[i] <= 'f')
        })
}

/// A fresh random message id: `uuid::Uuid::new_v4()` rendered in its hyphenated form. The
/// contract claims only the shape that the `Hyphenated` formatter writes (lower-case hex); the
/// value itself is random.
#[verifier::external_body]
pub(crate) fn new_message_id() -> (id: String)
    ensures
        is_hyphenated_uuid(id@),
{
    uuid::Uuid::new_v4().hyphenated().to_string()
}

fn uri_text(c: TvCommand, out: &mut String)
    ensures
        final(out)@ == old(out)@ + command_uri(c),
{
    let ghost start = out@;
    match c {
        TvCommand::GetCurrentSWInfo => push_str(
            out,
            "ssap://com.webos.service.update/getCurrentSWInformation",
        ),
        TvCommand::GetPowerState => push_str(
            out,
            "ssap://com.webos.service.tvpower/power/getPowerState",
        ),
        TvCommand::GetSystemInfo => push_str(out, "ssap://system/getSystemInfo"),
        TvCommand::GetVolume => push_str(out, "ssap://audio/getVolume"),
        TvCommand::SetMute(_) => push_str(out, "ssap://audio/setMute"),
        TvCommand::SetScreenOn(on) => {
            push_str(out, "ssap://com.webos.service.tvpower/power/turn");
            if on {
                push_str(out, "On");
            } else {
                push_str(out, "Off");
            }
            push_str(out, "Screen");
        },
        TvCommand::SetVolume(_) => push_str(out, "ssap://audio/setVolume"),
        TvCommand::SubscribeGetVolume => push_str(out, "ssap://audio/getVolume"),
        TvCommand::SubscribeGetPowerState => push_str(
            out,
            "ssap://com.webos.service.tvpower/power/getPowerState",
        ),
        TvCommand::GetExternalInputList => push_str(out, "ssap://tv/getExternalInputList"),
        TvCommand::TurnOff => push_str(out, "ssap://system/turnOff"),
        TvCommand::VolumeDown => push_str(out, "ssap://audio/volumeDown"),
        TvCommand::VolumeUp => push_str(out, "ssap://audio/volumeUp"),
    }
    assert(out@ =~= start + command_uri(c));
}

fn payload_text(c: TvCommand) -> (r: Option<String>)
    ensures
        match r {
            Some(p) => command_payload(c) == Some(p@),
            None => command_payload(c) is None,
        },
{
    match c {
        TvCommand::SetMute(m) => {
            let mut out = String::new();
            push_str(&mut out, "{\"mute\":");
            push_json_bool(&mut out, m);
            push_str(&mut out, "}");
            assert(out@ =~= "{\"mute\":"@ + json_bool(m) + "}"@);
            Some(out)
        },
        TvCommand::SetScreenOn(_) => {
            let mut out = String::new();
            push_str(&mut out, "{\"standbyMode\":\"active\"}");
            assert(out@ =~= "{\"standbyMode\":\"active\"}"@);
            Some(out)
        },
        TvCommand::SetVolume(v) => {
            let mut out = String::new();
            push_str(&mut out, "{\"volume\":");
            let digits = u64_to_decimal(v as u64);
            push_str(&mut out, digits.as_str());
            push_str(&mut out, "}");
            assert(out@ =~= "{\"volume\":"@ + decimal(v as nat) + "}"@);
            Some(out)
        },
        _ => None,
    }
}

impl TvCommand {
    /// The SSAP request text for this command, sent under the message id `id` (the volume
    /// subscription always uses its own fixed id).
    pub fn to_payload_with_id(&self, id: &str) -> (r: String)
        ensures
            r@ == command_json(*self, id@),
    {
        let c = *self;
        let mut uri = String::new();
        uri_text(c, &mut uri);
        assert(uri@ =~= command_uri(c));
        let kind = match c {
            TvCommand::SubscribeGetVolume => LgTvRequestType::Subscribe,
            TvCommand::SubscribeGetPowerState => LgTvRequestType::Subscribe,
            _ => LgTvRequestType::Request,
        };
        let msg_id: &str = match c {
            TvCommand::SubscribeGetVolume => GET_VOLUME_SUBSCRIPTION_ID,
            TvCommand::SubscribeGetPowerState => GET_POWER_STATE_SUBSCRIPTION_ID,
            _ => id,
        };
        let payload = payload_text(c);
        match &payload {
            Some(p) => request_json(kind, msg_id, Some(uri.as_str()), Some(p.as_str())),
            None => request_json(kind, msg_id, Some(uri.as_str()), None),
        }
    }

    /// The SSAP request text for this command under a fresh random message id.
    pub fn into_payload(self) -> (r: String)
        ensures
            exists|id: Seq<char>| is_hyphenated_uuid(id) && r@ == command_json(self, id),
    {
        let id = new_message_id();
        self.to_payload_with_id(id.as_str())
    }

    /// The display text of this command, e.g. `SetVolume(10)`.
    pub fn to_display_string(&self) -> (r: String)
        ensures
            r@ == command_display(*self),
    {
        let mut out = String::new();
        match *self {
            TvCommand::GetCurrentSWInfo => push_str(&mut out, "GetCurrentSWInfo"),
            TvCommand::GetPowerState => push_str(&mut out, "GetPowerState"),
            TvCommand::GetSystemInfo => push_str(&mut out, "GetSystemInfo"),
            TvCommand::GetVolume => push_str(&mut out, "GetVolume"),
            TvCommand::SetMute(b) => {
                push_str(&mut out, "SetMute(");
                push_json_bool(&mut out, b);
                push_str(&mut out, ")");
            },
            TvCommand::SetScreenOn(b) => {
                push_str(&mut out, "SetScreenOn(");
                push_json_bool(&mut out, b);
                push_str(&mut out, ")");
            },
            TvCommand::SetVolume(v) => {
                push_str(&mut out, "SetVolume(");
                let digits = u64_to_decimal(v as u64);
                push_str(&mut out, digits.as_str());
                push_str(&mut out, ")");
            },
            TvCommand::SubscribeGetVolume => push_str(&mut out, "SubscribeGetVolume"),
            TvCommand::SubscribeGetPowerState => push_str(&mut out, "SubscribeGetPowerState"),
            TvCommand::GetExternalInputList => push_str(&mut out, "GetExternalInputList"),
            TvCommand::TurnOff => push_str(&mut out, "TurnOff"),
            TvCommand::VolumeDown => push_str(&mut out, "VolumeDown"),
            TvCommand::VolumeUp => push_str(&mut out, "VolumeUp"),
        }
        assert(out@ =~= command_display(*self));
        out
    }
}

} // verus!
