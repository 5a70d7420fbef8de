//! Helpers: TV WebSocket URLs, host and IP extraction, and the reconnect delay.

use vstd::prelude::*;
use vstd::arithmetic::power2::{lemma2_to64, lemma_pow2_strictly_increases, lemma_pow2_unfold, pow2};

use crate::connection_settings::{Connection, ConnectionView};
use crate::discovery::{LgTvDevice, LgTvDeviceView};
use crate::json::push_str;
use crate::text::{contains_seq, contains_str, str_eq};
use crate::url_parts::{
    url_host, url_host_str, url_parse, url_port, url_scheme, url_serialization, url_with_port,
    IpAddress, ParsedUrl, UrlHost, UrlHostView,
};

verus! {

/// The WebSocket scheme for a TLS choice.
pub open spec fn ws_scheme_text(is_tls: bool) -> Seq<char> {
    if is_tls {
        "wss"@
    } else {
        "ws"@
    }
}

/// The text to parse: `input` as it is when it names a scheme (holds `://`), otherwise
/// prefixed with the WebSocket scheme for the TLS choice.
pub open spec fn with_default_scheme(input: Seq<char>, is_tls: bool) -> Seq<char> {
    if contains_seq(input, "://"@) {
        input
    } else {
        ws_scheme_text(is_tls) + "://"@ + input
    }
}

/// The serialization of the URL parsed from `u`, with `port` set where it names none.
pub open spec fn with_default_port(u: Seq<char>, port: u16, err: Seq<char>) -> Result<
    Seq<char>,
    Seq<char>,
> {
    match url_port(u) {
        Some(_) => Ok(url_serialization(u)),
        None => match url_with_port(u, port) {
            Some(t) => Ok(t),
            None => Err(err),
        },
    }
}

/// The WebSocket URL generated for a host text and TLS choice, or the error message.
///
/// An empty input is refused. A missing scheme becomes `wss` (TLS) or `ws`; a missing port
/// becomes 3001 (`wss`) or 3000 (`ws`). The scheme must be `wss` with TLS and `ws` without.
pub open spec fn spec_websocket_url(input: Seq<char>, is_tls: bool) -> Result<
    Seq<char>,
    Seq<char>,
> {
    if input.len() == 0 {
        Err("No host specified"@)
    } else {
        let s = with_default_scheme(input, is_tls);
        match url_parse(s) {
            Err((dbg, _)) => Err("Could not parse host: "@ + dbg),
            Ok(_) => {
                if url_scheme(s) == "ws"@ {
                    if is_tls {
                        Err("Cannot use 'ws' scheme with TLS (must be wss)"@)
                    } else {
                        with_default_port(s, 3000, "Could not set URL to port 3000"@)
                    }
                } else if url_scheme(s) == "wss"@ {
                    if is_tls {
                        with_default_port(s, 3001, "Could not set URL to port 3001"@)
                    } else {
                        Err("Cannot use 'wss' scheme without TLS (must be ws)"@)
                    }
                } else {
                    Err("Invalid scheme: "@ + url_scheme(s) + " (must be 'wss' or 'ws')"@)
                }
            },
        }
    }
}

/// The IP address of the host of the URL in `u`, if the URL parses and its host is an IP.
pub open spec fn spec_url_ip_addr(u: Seq<char>) -> Option<IpAddress> {
    match url_parse(u) {
        Ok(_) => match url_host(u) {
            Some(UrlHostView::Ipv4(a)) => Some(IpAddress::V4(a)),
            Some(UrlHostView::Ipv6(a)) => Some(IpAddress::V6(a)),
            _ => None,
        },
        Err(_) => None,
    }
}

/// The host name of a discovered device, taken from its UPnP URL, or the error message.
pub open spec fn spec_device_host(d: LgTvDeviceView) -> Result<Seq<char>, Seq<char>> {
    match url_parse(d.url) {
        Ok(_) => match url_host_str(d.url) {
            Some(h) => Ok(h),
            None => Err("Could not determine hostname for UPnP device '"@ + d.friendly_name + "'"@),
        },
        Err((_, shown)) => Err("Could not determine hostname for UPnP device '"@ + d.friendly_name
            + "': "@ + shown),
    }
}

/// The WebSocket URL for a connection: from the host text with the TLS choice of its
/// settings, or from the device's host name, always with `wss` on port 3001.
pub open spec fn spec_websocket_url_for_connection(c: ConnectionView) -> Result<
    Seq<char>,
    Seq<char>,
> {
    match c {
        ConnectionView::Host(h, s) => spec_websocket_url(h, s.is_tls),
        ConnectionView::Device(d, _) => match spec_device_host(d) {
            Ok(h) => spec_websocket_url(h, true),
            Err(e) => Err(e),
        },
    }
}

/// A device connection always uses `wss` on port 3001: its URL is the one generated from the
/// device's host name with TLS, whatever its settings say.
pub proof fn law_device_url_uses_wss(
    d: LgTvDeviceView,
    s1: crate::connection_settings::ConnectionSettingsView,
    s2: crate::connection_settings::ConnectionSettingsView,
)
    ensures
        spec_websocket_url_for_connection(ConnectionView::Device(d, s1))
            == spec_websocket_url_for_connection(ConnectionView::Device(d, s2)),
        spec_device_host(d) matches Ok(h) ==> spec_websocket_url_for_connection(
            ConnectionView::Device(d, s1),
        ) == spec_websocket_url(h, true),
{
}

/// Extracts the IP address from the host of `url`.
pub fn url_ip_addr(url: &str) -> (r: Option<IpAddress>)
    ensures
        r == spec_url_ip_addr(url@),
{
    match ParsedUrl::parse(url) {
        Ok(parsed) => match parsed.host() {
            Some(UrlHost::Ipv4(a)) => Some(IpAddress::V4(a)),
            Some(UrlHost::Ipv6(a)) => Some(IpAddress::V6(a)),
            _ => None,
        },
        Err(_) => None,
    }
}

fn default_port_url(parsed: &ParsedUrl, port: u16, err: &str) -> (r: Result<String, String>)
    ensures
        match r {
            Ok(t) => with_default_port(parsed@, port, err@) == Ok::<Seq<char>, Seq<char>>(t@),
            Err(e) => with_default_port(parsed@, port, err@) == Err::<Seq<char>, Seq<char>>(e@),
        },
{
    match parsed.port() {
        Some(_) => Ok(parsed.serialization()),
        None => match parsed.serialization_with_port(port) {
            Some(t) => Ok(t),
            None => Err(String::from_str(err)),
        },
    }
}

/// Generates a WebSocket URL for connecting to an LG TV.
///
/// `in_str` should be at least a host name or IP address (IPv4 or IPv6). If no scheme or port is
/// given then `wss` and 3001 are assumed if `is_tls` is `true`, otherwise `ws` and 3000. A
/// given scheme must be `wss` or `ws`, matching `is_tls`.
///
/// `10.0.0.101` becomes `wss://10.0.0.101:3001/`; `ws://10.0.0.101` becomes
/// `ws://10.0.0.101:3000/`; `10.0.0.101:3333` becomes `wss://10.0.0.101:3333/`.
pub fn generate_possible_websocket_url(in_str: &str, is_tls: bool) -> (r: Result<String, String>)
    ensures
        match r {
            Ok(u) => spec_websocket_url(in_str@, is_tls) == Ok::<Seq<char>, Seq<char>>(u@),
            Err(e) => spec_websocket_url(in_str@, is_tls) == Err::<Seq<char>, Seq<char>>(e@),
        },
{
    if in_str.unicode_len() == 0 {
        return Err(String::from_str("No host specified"));
    }
    let mut in_with_scheme = String::new();
    if contains_str(in_str, "://") {
        push_str(&mut in_with_scheme, in_str);
    } else {
        push_str(&mut in_with_scheme, if is_tls { "wss" } else { "ws" });
        push_str(&mut in_with_scheme, "://");
        push_str(&mut in_with_scheme, in_str);
    }
    assert(in_with_scheme@ =~= with_default_scheme(in_str@, is_tls));
    match ParsedUrl::parse(in_with_scheme.as_str()) {
        Ok(parsed) => {
            let scheme = parsed.scheme();
            if str_eq(scheme.as_str(), "ws") {
                if is_tls {
                    Err(String::from_str("Cannot use 'ws' scheme with TLS (must be wss)"))
                } else {
                    default_port_url(&parsed, 3000, "Could not set URL to port 3000")
                }
            } else if str_eq(scheme.as_str(), "wss") {
                if is_tls {
                    default_port_url(&parsed, 3001, "Could not set URL to port 3001")
                } else {
                    Err(String::from_str("Cannot use 'wss' scheme without TLS (must be ws)"))
                }
            } else {
                let mut msg = String::new();
                push_str(&mut msg, "Invalid scheme: ");
                push_str(&mut msg, scheme.as_str());
                push_str(&mut msg, " (must be 'wss' or 'ws')");
                assert(msg@ =~= "Invalid scheme: "@ + scheme@ + " (must be 'wss' or 'ws')"@);
                Err(msg)
            }
        },
        Err(e) => {
            let mut msg = String::new();
            push_str(&mut msg, "Could not parse host: ");
            push_str(&mut msg, e.debug.as_str());
            Err(msg)
        },
    }
}

/// Extracts the host name from the UPnP URL of `device`.
pub fn device_host(device: &LgTvDevice) -> (r: Result<String, String>)
    ensures
        match r {
            Ok(h) => spec_device_host(device@) == Ok::<Seq<char>, Seq<char>>(h@),
            Err(e) => spec_device_host(device@) == Err::<Seq<char>, Seq<char>>(e@),
        },
{
    match ParsedUrl::parse(device.url.as_str()) {
        Ok(parsed) => match parsed.host_str() {
            Some(h) => Ok(h),
            None => {
                let mut msg = String::new();
                push_str(&mut msg, "Could not determine hostname for UPnP device '");
                push_str(&mut msg, device.friendly_name.as_str());
                push_str(&mut msg, "'");
                Err(msg)
            },
        },
        Err(e) => {
            let mut msg = String::new();
            push_str(&mut msg, "Could not determine hostname for UPnP device '");
            push_str(&mut msg, device.friendly_name.as_str());
            push_str(&mut msg, "': ");
            push_str(&mut msg, e.display.as_str());
            Err(msg)
        },
    }
}

/// Generates the LG WebSocket URL for `connection`. A device's URL always uses `wss` on port
/// 3001.
pub fn websocket_url_for_connection(connection: &Connection) -> (r: Result<String, String>)
    ensures
        match r {
            Ok(u) => spec_websocket_url_for_connection(connection@) == Ok::<Seq<char>, Seq<char>>(
                u@,
            ),
            Err(e) => spec_websocket_url_for_connection(connection@) == Err::<
                Seq<char>,
                Seq<char>,
            >(e@),
        },
{
    match connection {
        Connection::Host(host, settings) => generate_possible_websocket_url(
            host.as_str(),
            settings.is_tls,
        ),
        Connection::Device(device, _) => match device_host(device) {
            Ok(host) => generate_possible_websocket_url(host.as_str(), true),
            Err(e) => Err(e),
        },
    }
}

/// The exponential reconnect delay in milliseconds for attempt `attempt`: `2^(attempt + 6)`
/// (small values are skipped), capped at `max_delay` and then raised to at least `min_delay`.
pub open spec fn spec_reconnect_falloff(attempt: nat, min_delay: nat, max_delay: nat) -> nat {
    let grown = pow2(attempt + 6);
    let capped = if grown < max_delay {
        grown
    } else {
        max_delay
    };
    if capped < min_delay {
        min_delay
    } else {
        capped
    }
}

/// Calculates the exponential reconnect falloff in milliseconds.
pub fn reconnect_falloff(attempt: u64, min_delay: u64, max_delay: u64) -> (r: u128)
    requires
        attempt <= u64::MAX - 6,
    ensures
        r == spec_reconnect_falloff(attempt as nat, min_delay as nat, max_delay as nat),
{
    let exponent: u64 = attempt + 6;
    let capped: u128 = if exponent >= 64 {
        proof {
            lemma2_to64();
            if exponent > 64 {
                lemma_pow2_strictly_increases(64, exponent as nat);
            }
        }
        max_delay as u128
    } else {
        let mut grown: u128 = 1;
        let mut i: u64 = 0;
        proof {
            lemma2_to64();
        }
        while i < exponent
            invariant
                i <= exponent < 64,
                grown == pow2(i as nat),
            decreases exponent - i,
        {
            proof {
                lemma_pow2_unfold((i + 1) as nat);
                lemma2_to64();
                if i + 1 < 64 {
                    lemma_pow2_strictly_increases((i + 1) as nat, 64);
                }
            }
            grown = grown * 2;
            i = i + 1;
        }
        if grown < max_delay as u128 {
            grown
        } else {
            max_delay as u128
        }
    };
    if capped < min_delay as u128 {
        min_delay as u128
    } else {
        capped
    }
}

/// The reconnect delay always lies between the minimum and maximum delays.
pub proof fn law_falloff_within_bounds(attempt: nat, min_delay: nat, max_delay: nat)
    requires
        min_delay <= max_delay,
    ensures
        min_delay <= spec_reconnect_falloff(attempt, min_delay, max_delay) <= max_delay,
{
}

/// The reconnect delay never shrinks from one attempt to a later one.
pub proof fn law_falloff_monotone(a: nat, b: nat, min_delay: nat, max_delay: nat)
    requires
        a <= b,
    ensures
        spec_reconnect_falloff(a, min_delay, max_delay) <= spec_reconnect_falloff(
            b,
            min_delay,
            max_delay,
        ),
{
    if a < b {
        lemma_pow2_strictly_increases(a + 6, b + 6);
    }
}

} // verus!
