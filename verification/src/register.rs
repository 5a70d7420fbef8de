//! The registration request that opens every session with the TV.
//!
//! The request payload is the project's fixed registration object, with the client key (or
//! `null`) under `client-key` and the pairing choice under `forcePairing`. JSON objects are
//! handled by `serde_json`.

use vstd::prelude::*;

use crate::json::{json_bool, json_opt_string, push_str};
use crate::discovery::opt_string_view;
use crate::ssap_request::{request_json, request_text, LgTvRequestType};

verus! {

#[verifier::external_type_specification]
#[verifier::external_body]
pub struct ExJsonValue(serde_json::Value);

#[verifier::external_type_specification]
#[verifier::external_body]
#[verifier::reject_recursive_types(K)]
#[verifier::reject_recursive_types(V)]
pub struct ExJsonMap<K, V>(serde_json::Map<K, V>);

/// The entries of a JSON object: each key with the compact JSON text of its value.
pub uninterp spec fn json_map_entries(m: serde_json::Map<String, serde_json::Value>) -> Map<
    Seq<char>,
    Seq<char>,
>;

/// What `serde_json::from_str::<serde_json::Value>` makes of a text: the entries when it is a
/// JSON object, `None` for any other JSON value, or the `Debug` text of the error.
pub uninterp spec fn json_parse_object(text: Seq<char>) -> Result<
    Option<Map<Seq<char>, Seq<char>>>,
    Seq<char>,
>;

/// The compact JSON text `serde_json::to_string` writes for an object with these entries.
pub uninterp spec fn json_object_text(entries: Map<Seq<char>, Seq<char>>) -> Seq<char>;

/// Parses a JSON text (`serde_json::from_str::<serde_json::Value>`) and keeps it when it is an
/// object. The contract names the outcome; the JSON grammar is not stated.
#[verifier::external_body]
fn parse_json_object(text: &str) -> (r: Result<
    Option<serde_json::Map<String, serde_json::Value>>,
    String,
>)
    ensures
        match r {
            Ok(Some(m)) => json_parse_object(text@) == Ok::<
                Option<Map<Seq<char>, Seq<char>>>,
                Seq<char>,
            >(Some(json_map_entries(m))),
            Ok(None) => json_parse_object(text@) == Ok::<
                Option<Map<Seq<char>, Seq<char>>>,
                Seq<char>,
            >(None),
            Err(e) => json_parse_object(text@) == Err::<Option<Map<Seq<char>, Seq<char>>>, Seq<char>>(
                e@,
            ),
        },
{
    match serde_json::from_str::<serde_json::Value>(text) {
        Ok(serde_json::Value::Object(m)) => Ok(Some(m)),
        Ok(_) => Ok(None),
        Err(e) => Err(format!("{:?}", e)),
    }
}

/// Inserts `key` (`serde_json::Map::insert`) with a JSON string, or `null` when `value` is
/// `None`. A `serde_json` string value is written as a quoted string with the escapes of its
/// `ESCAPE` table, which is what `json_opt_string` states.
#[verifier::external_body]
fn json_insert_string_or_null(
    m: &mut serde_json::Map<String, serde_json::Value>,
    key: &str,
    value: Option<String>,
)
    ensures
        json_map_entries(*final(m)) == json_map_entries(*old(m)).insert(
            key@,
            json_opt_string(opt_string_view(value)),
        ),
{
    m.insert(
        key.to_string(),
        match value {
            Some(s) => serde_json::Value::String(s),
            None => serde_json::Value::Null,
        },
    );
}

/// Inserts `key` (`serde_json::Map::insert`) with a JSON boolean, written `true` or `false`.
#[verifier::external_body]
fn json_insert_bool(m: &mut serde_json::Map<String, serde_json::Value>, key: &str, value: bool)
    ensures
        json_map_entries(*final(m)) == json_map_entries(*old(m)).insert(key@, json_bool(value)),
{
    m.insert(key.to_string(), serde_json::Value::Bool(value));
}

/// Writes an object as compact JSON (`serde_json::to_string`): the named serialization of its
/// entries. `serde_json` fails only for a value whose serialization fails or for a map with
/// non-string keys; a `Map<String, Value>` has neither (every `Value` serializes), so the
/// contract claims success. The error, were it to occur, is given as its `Debug` text.
#[verifier::external_body]
fn json_object_to_string(m: &serde_json::Map<String, serde_json::Value>) -> (r: Result<
    String,
    String,
>)
    ensures
        r is Ok,
        r matches Ok(t) ==> t@ == json_object_text(json_map_entries(*m)),
{
    serde_json::to_string(m).map_err(|e| format!("{:?}", e))
}

/// The registration payload entries: the base object with the client key (or `null`) and
/// the pairing choice set.
pub open spec fn register_entries(
    base: Map<Seq<char>, Seq<char>>,
    client_key: Option<Seq<char>>,
    force_pairing: bool,
) -> Map<Seq<char>, Seq<char>> {
    base.insert("client-key"@, json_opt_string(client_key)).insert(
        "forcePairing"@,
        json_bool(force_pairing),
    )
}

/// The registration request text for a base payload whose text parses to `base`.
pub open spec fn register_request_text(
    base: Map<Seq<char>, Seq<char>>,
    client_key: Option<Seq<char>>,
    force_pairing: bool,
    id: Seq<char>,
) -> Seq<char> {
    request_text(
        LgTvRequestType::Register,
        id,
        None,
        Some(json_object_text(register_entries(base, client_key, force_pairing))),
    )
}

/// Generates the SSAP registration request from the base payload text `base_payload`.
///
/// The client key is injected (or `null`). With forced pairing the TV starts a fresh pair
/// flow whether or not the key is valid.
pub fn generate_register_request(
    base_payload: &str,
    client_key: Option<String>,
    force_pairing: bool,
    id: &str,
) -> (r: Result<String, String>)
    ensures
        match json_parse_object(base_payload@) {
            Err(e) => r is Err && r->Err_0@ == "Could not create register payload: "@ + e,
            Ok(None) => r is Err && r->Err_0@ == "Could not create register payload"@,
            Ok(Some(base)) => r is Ok && r->Ok_0@ == register_request_text(
                base,
                opt_string_view(client_key),
                force_pairing,
                id@,
            ),
        },
{
    match parse_json_object(base_payload) {
        Err(e) => {
            let mut msg = String::new();
            push_str(&mut msg, "Could not create register payload: ");
            push_str(&mut msg, e.as_str());
            Err(msg)
        },
        Ok(None) => Err(String::from_str("Could not create register payload")),
        Ok(Some(mut payload)) => {
            let ghost key_view = opt_string_view(client_key);
            json_insert_string_or_null(&mut payload, "client-key", client_key);
            json_insert_bool(&mut payload, "forcePairing", force_pairing);
            match json_object_to_string(&payload) {
                Ok(text) => Ok(request_json(LgTvRequestType::Register, id, None, Some(text.as_str()))),
                Err(e) => {
                    let mut msg = String::new();
                    push_str(&mut msg, "Could not generate register payload string: ");
                    push_str(&mut msg, e.as_str());
                    Err(msg)
                },
            }
        },
    }
}

/// The registration payload carries the client key (or `null`) and the pairing choice, and
/// keeps every other entry of the base payload.
pub proof fn law_register_entries(
    base: Map<Seq<char>, Seq<char>>,
    client_key: Option<Seq<char>>,
    force_pairing: bool,
    other: Seq<char>,
)
    ensures
        register_entries(base, client_key, force_pairing)["client-key"@] == json_opt_string(
            client_key,
        ),
        register_entries(base, client_key, force_pairing)["forcePairing"@] == json_bool(
            force_pairing,
        ),
        other != "client-key"@ && other != "forcePairing"@ ==> (register_entries(
            base,
            client_key,
            force_pairing,
        ).contains_key(other) == base.contains_key(other) && (base.contains_key(other)
            ==> register_entries(base, client_key, force_pairing)[other] == base[other])),
{
    reveal_strlit("client-key");
    reveal_strlit("forcePairing");
    assert("client-key"@ != "forcePairing"@) by {
        assert("client-key"@[0] != "forcePairing"@[0]);
    }
}

} // verus!
