use vstd::prelude::*;

use crate::dispatch::{HandlerError, Response};

verus! {

broadcast use vstd::string::to_string_from_display_ensures_for_str;

/// The text of the JSON object whose members are `entries`, each a key
/// and a string value, as serde_json writes it.
pub uninterp spec fn json_object_text(entries: Seq<(Seq<char>, Seq<char>)>) -> Seq<char>;

/// Relies on serde_json: `Value::Object` built from the entries as string
/// values, written out by its `Display` impl (compact form).
#[verifier::external_body]
fn encode_json_object(entries: &Vec<(String, String)>) -> (r: String)
    ensures
        r@ == json_object_text(entries@.map_values(|e: (String, String)| (e.0@, e.1@))),
{
    let object: serde_json::Map<String, serde_json::Value> = entries
        .iter()
        .map(|(k, v)| (k.clone(), serde_json::Value::String(v.clone())))
        .collect();
    serde_json::Value::Object(object).to_string()
}

/// Status code of a successful greeting.
pub const OK_STATUS: i32 = 200;

/// The members of the greeting payload, in the order they are listed.
pub open spec fn payload_entries(source_ip: Seq<char>, arch: Seq<char>, os: Seq<char>) -> Seq<(Seq<char>, Seq<char>)> {
    seq![
        ("message"@, "hello rust"@),
        ("source ip"@, source_ip),
        ("architecture"@, arch),
        ("operating system"@, os),
    ]
}

fn entry(key: &str, value: &str) -> (r: (String, String))
    ensures
        r.0@ == key@,
        r.1@ == value@,
{
    (key.to_string(), value.to_string())
}

/// The greeting payload as a list of members.
pub fn payload(source_ip: &str, arch: &str, os: &str) -> (r: Vec<(String, String)>)
    ensures
        r@.map_values(|e: (String, String)| (e.0@, e.1@)) == payload_entries(source_ip@, arch@, os@),
{
    let mut v: Vec<(String, String)> = Vec::new();
    v.push(entry("message", "hello rust"));
    v.push(entry("source ip", source_ip));
    v.push(entry("architecture", arch));
    v.push(entry("operating system", os));
    proof {
        reveal_strlit("message");
        reveal_strlit("hello rust");
        reveal_strlit("source ip");
        reveal_strlit("architecture");
        reveal_strlit("operating system");
    }
    assert(v@.map_values(|e: (String, String)| (e.0@, e.1@)) =~= payload_entries(source_ip@, arch@, os@));
    v
}

/// The kind of failure reported for a request without a caller address.
pub open spec fn missing_source_ip_kind() -> Seq<char> {
    "InvalidRequest"@
}

/// The successful response that carries `body`.
pub fn greeting_response(body: String) -> (r: Response)
    ensures
        r.status_code == OK_STATUS,
        r.body@ == body@,
{
    Response { status_code: OK_STATUS, body }
}

/// The greeting handler: answers with status 200 and a JSON body naming the
/// caller's network address, the machine architecture and the operating
/// system. A request that carries no caller address is a handler failure.
pub fn function_handler(source_ip: Option<String>, arch: &str, os: &str) -> (r: Result<Response, HandlerError>)
    ensures
        source_ip is None <==> r is Err,
        r matches Err(e) ==> e.kind@ == missing_source_ip_kind(),
        source_ip matches Some(ip) ==> r matches Ok(resp) && resp.status_code == OK_STATUS
            && resp.body@ == json_object_text(payload_entries(ip@, arch@, os@)),
{
    match source_ip {
        Some(ip) => {
            let entries = payload(ip.as_str(), arch, os);
            let body = encode_json_object(&entries);
            Ok(greeting_response(body))
        },
        None => {
            proof {
                reveal_strlit("InvalidRequest");
            }
            Err(
                HandlerError {
                    kind: "InvalidRequest".to_string(),
                    message: "the request context carries no source ip".to_string(),
                },
            )
        },
    }
}

} // verus!
