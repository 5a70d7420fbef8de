//! What the manager knows of the TV: last connection details, state and information.

use vstd::prelude::*;

use crate::discovery::opt_string_view;
use crate::net::MacAddress;
use crate::ssap_payloads::{clone_opt_string, GetSystemInfoPayload};

verus! {

/// Information on the TV last connected to by the Manager.
#[derive(Debug, Clone, PartialEq, Hash)]
pub struct LastSeenTv {
    pub websocket_url: Option<String>,
    pub client_key: Option<String>,
    pub mac_addr: Option<MacAddress>,
}

/// Mathematical view of a [`LastSeenTv`].
pub struct LastSeenTvView {
    pub websocket_url: Option<Seq<char>>,
    pub client_key: Option<Seq<char>>,
    pub mac_addr: Option<MacAddress>,
}

impl View for LastSeenTv {
    type V = LastSeenTvView;

    open spec fn view(&self) -> LastSeenTvView {
        LastSeenTvView {
            websocket_url: opt_string_view(self.websocket_url),
            client_key: opt_string_view(self.client_key),
            mac_addr: self.mac_addr,
        }
    }
}

impl Default for LastSeenTv {
    fn default() -> (r: Self)
        ensures
            r.websocket_url is None,
            r.client_key is None,
            r.mac_addr is None,
    {
        LastSeenTv { websocket_url: None, client_key: None, mac_addr: None }
    }
}

/// Current TV state for the managed LG TV.
#[derive(Debug, Clone, PartialEq, Hash)]
pub struct TvState {
    pub power_state: Option<String>,
    pub volume: Option<u8>,
    pub is_muted: Option<bool>,
    pub is_screen_on: Option<bool>,
    pub is_volume_settable: Option<bool>,
}

/// Whether a TV state knows nothing.
pub open spec fn tv_state_unknown(s: TvState) -> bool {
    &&& s.power_state is None
    &&& s.volume is None
    &&& s.is_muted is None
    &&& s.is_screen_on is None
    &&& s.is_volume_settable is None
}

impl Default for TvState {
    fn default() -> (r: Self)
        ensures
            tv_state_unknown(r),
    {
        TvState {
            power_state: None,
            volume: None,
            is_muted: None,
            is_screen_on: None,
            is_volume_settable: None,
        }
    }
}

impl TvState {
    /// A copy of this state, equal to it.
    pub fn copy(&self) -> (r: TvState)
        ensures
            r == *self,
    {
        TvState {
            power_state: clone_opt_string(&self.power_state),
            volume: self.volume,
            is_muted: self.is_muted,
            is_screen_on: self.is_screen_on,
            is_volume_settable: self.is_volume_settable,
        }
    }
}

/// TV information for the managed LG TV.
#[derive(Debug, Clone, PartialEq, Hash)]
pub struct TvInfo {
    pub receiver_type: String,
    pub model_name: String,
    pub serial_number: String,
    pub program_mode: bool,
}

/// Mathematical view of a [`TvInfo`].
pub struct TvInfoView {
    pub receiver_type: Seq<char>,
    pub model_name: Seq<char>,
    pub serial_number: Seq<char>,
    pub program_mode: bool,
}

impl View for TvInfo {
    type V = TvInfoView;

    open spec fn view(&self) -> TvInfoView {
        TvInfoView {
            receiver_type: self.receiver_type@,
            model_name: self.model_name@,
            serial_number: self.serial_number@,
            program_mode: self.program_mode,
        }
    }
}

/// The view of an optional TV information.
pub open spec fn opt_tv_info_view(o: Option<TvInfo>) -> Option<TvInfoView> {
    match o {
        Some(i) => Some(i@),
        None => None,
    }
}

/// TV information from a system information payload; a missing serial number becomes empty.
pub open spec fn spec_tv_info(p: GetSystemInfoPayload) -> TvInfoView {
    TvInfoView {
        receiver_type: p.receiver_type@,
        model_name: p.model_name@,
        serial_number: match p.serial_number {
            Some(s) => s@,
            None => Seq::empty(),
        },
        program_mode: p.program_mode,
    }
}

impl TvInfo {
    /// A copy of this information, equal to it.
    pub fn copy(&self) -> (r: TvInfo)
        ensures
            r == *self,
    {
        TvInfo {
            receiver_type: self.receiver_type.clone(),
            model_name: self.model_name.clone(),
            serial_number: self.serial_number.clone(),
            program_mode: self.program_mode,
        }
    }

    /// TV information from a system information payload; a missing serial number becomes
    /// empty.
    pub fn from_system_info(system_info: GetSystemInfoPayload) -> (r: TvInfo)
        ensures
            r@ == spec_tv_info(system_info),
    {
        let serial_number = match system_info.serial_number {
            Some(s) => s,
            None => String::new(),
        };
        TvInfo {
            receiver_type: system_info.receiver_type,
            model_name: system_info.model_name,
            serial_number,
            program_mode: system_info.program_mode,
        }
    }
}

} // verus!
