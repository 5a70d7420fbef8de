//! The outer shape of an SSAP request message: `{"type":..,"id":..,"uri":..,"payload":..}`.

use vstd::prelude::*;

use crate::json::{json_opt_raw, json_opt_string, json_string, push_json_null, push_json_string, push_str};

verus! {

/// The kind of an SSAP request.
#[derive(Debug, Clone, Copy, PartialEq, Eq, Structural)]
pub enum LgTvRequestType {
    Register,
    Request,
    Subscribe,
}

/// The `type` field's text for a request kind.
pub open spec fn request_type_text(t: LgTvRequestType) -> Seq<char> {
    match t {
        LgTvRequestType::Register => "register"@,
        LgTvRequestType::Request => "request"@,
        LgTvRequestType::Subscribe => "subscribe"@,
    }
}

/// The view of an optional string slice.
pub open spec fn opt_str_view(o: Option<&str>) -> Option<Seq<char>> {
    match o {
        Some(s) => Some(s@),
        None => None,
    }
}

/// The JSON text of an SSAP request: fields `type`, `id`, `uri` and `payload`, in that order.
/// `payload` is already-rendered JSON text.
pub open spec fn request_text(
    kind: LgTvRequestType,
    id: Seq<char>,
    uri: Option<Seq<char>>,
    payload: Option<Seq<char>>,
) -> Seq<char> {
    "{\"type\":"@ + json_string(request_type_text(kind)) + ",\"id\":"@ + json_string(id)
        + ",\"uri\":"@ + json_opt_string(uri) + ",\"payload\":"@ + json_opt_raw(payload) + "}"@
}

fn type_text(kind: LgTvRequestType) -> (r: &'static str)
    ensures
        r@ == request_type_text(kind),
{
    match kind {
        LgTvRequestType::Register => "register",
        LgTvRequestType::Request => "request",
        LgTvRequestType::Subscribe => "subscribe",
    }
}

/// Renders an SSAP request. `payload`, when present, is JSON text placed as it is.
pub fn request_json(
    kind: LgTvRequestType,
    id: &str,
    uri: Option<&str>,
    payload: Option<&str>,
) -> (r: String)
    ensures
        r@ == request_text(kind, id@, opt_str_view(uri), opt_str_view(payload)),
{
    let mut out = String::new();
    push_str(&mut out, "{\"type\":");
    push_json_string(&mut out, type_text(kind));
    push_str(&mut out, ",\"id\":");
    push_json_string(&mut out, id);
    push_str(&mut out, ",\"uri\":");
    match uri {
        Some(u) => push_json_string(&mut out, u),
        None => push_json_null(&mut out),
    }
    push_str(&mut out, ",\"payload\":");
    match payload {
        Some(p) => push_str(&mut out, p),
        None => push_json_null(&mut out),
    }
    push_str(&mut out, "}");
    assert(out@ =~= request_text(kind, id@, opt_str_view(uri), opt_str_view(payload)));
    out
}

} // verus!
