//! AWS IoT device-shadow access.
//!
//! Reading state is `GetThingShadow`. Sending a command mirrors the phone app:
//! **publish** the desired-state document to `$aws/things/{id}/shadow/update`.
//! (The Cognito identity is granted `iot:Publish` for this topic but NOT
//! `iot:UpdateThingShadow`, so the direct shadow-update API returns 403;
//! publishing is the authorized path.)

use crate::clock;
use crate::fault;
use crate::json;
use crate::text;
use fault::Fault;
use serde_json::Value;
use vstd::prelude::*;

verus! {

// ---------------------------------------------------------------------------
// reading
// ---------------------------------------------------------------------------

/// The shadow document in the payload of a `GetThingShadow` answer.
pub open spec fn shadow_in(payload: Option<Seq<u8>>) -> Result<json::Json, fault::FaultView> {
    match payload {
        None => Err(fault::plain("GetThingShadow returned empty payload"@)),
        Some(bytes) => match json::json_parsed_bytes(bytes) {
            Some(j) => Ok(j),
            None => Err(
                fault::wrapping("shadow payload was not valid JSON"@, fault::FaultView::Json),
            ),
        },
    }
}

/// Reads the full shadow document (`state.reported`, `state.desired` and so on).
pub fn get_shadow(payload: Option<&[u8]>) -> (r: Result<Value, Fault>)
    ensures
        (match r {
            Ok(v) => Ok(json::json_of(v)),
            Err(f) => Err(f@),
        }) == shadow_in(
            match payload {
                Some(b) => Some(b@),
                None => None,
            },
        ),
{
    match payload {
        None => Err(Fault::plain("GetThingShadow returned empty payload")),
        Some(bytes) => match json::parse_bytes(bytes) {
            Ok(v) => Ok(v),
            Err(e) => Err(Fault::Json(e).under("shadow payload was not valid JSON")),
        },
    }
}

// ---------------------------------------------------------------------------
// publishing
// ---------------------------------------------------------------------------

/// A message for a topic.
pub struct Publication {
    pub topic: String,
    pub payload: Vec<u8>,
}

pub open spec fn update_topic(thing: Seq<char>) -> Seq<char> {
    "$aws/things/"@ + thing + "/shadow/update"@
}

/// The document that asks a thing for a desired state, sent at a time in seconds.
pub open spec fn update_document(desired: json::Json, seconds: nat) -> json::Json {
    json::Json::Object(
        json::no_members().insert(
            "state"@,
            json::Json::Object(json::no_members().insert("desired"@, desired)),
        ).insert("clientToken"@, json::Json::Text("mobile_"@ + text::dec(seconds))),
    )
}

pub fn set_desired_at(thing: &str, desired: Value, seconds: u64) -> (r: Result<Publication, Fault>)
    ensures
        r is Ok,
        r matches Ok(p) ==> p.topic@ == update_topic(thing@) && p.payload@ == json::json_bytes(
            update_document(json::json_of(desired), seconds as nat),
        ),
{
    let number = text::dec_u64(seconds);
    let token = text::cat2("mobile_", number.as_str());
    let mut state = json::members();
    json::put(&mut state, "desired", desired);
    let mut m = json::members();
    json::put(&mut m, "state", json::object(state));
    json::put(&mut m, "clientToken", json::from_text(token.as_str()));
    let doc = json::object(m);
    match json::print_bytes(&doc) {
        Ok(payload) => Ok(
            Publication { topic: text::cat3("$aws/things/", thing, "/shadow/update"), payload },
        ),
        Err(e) => Err(Fault::Json(e)),
    }
}

/// The message that sends a desired-state patch to the shadow update topic (the
/// authorized, app-equivalent path), sent now.
pub fn set_desired(thing: &str, desired: Value) -> (r: Result<Publication, Fault>)
    ensures
        r is Ok,
        r matches Ok(p) ==> p.topic@ == update_topic(thing@) && exists|seconds: nat|
            p.payload@ == json::json_bytes(
                #[trigger] update_document(json::json_of(desired), seconds),
            ),
{
    set_desired_at(thing, desired, clock::unix_seconds())
}

// ---------------------------------------------------------------------------
// the endpoint
// ---------------------------------------------------------------------------

/// Whether a text starts with a scheme: something that ends in a colon, with the
/// first slash of the text and a second one behind it.
pub open spec fn has_scheme(s: Seq<char>) -> bool {
    let slash = text::before(s, '/').len() as int;
    1 < slash && slash + 1 < s.len() && s[slash - 1] == ':' && s[slash + 1] == '/'
}

/// An endpoint without the scheme, or schemes, before it.
pub open spec fn without_schemes(s: Seq<char>) -> Seq<char>
    decreases s.len(),
{
    if has_scheme(s) {
        without_schemes(s.skip(text::before(s, '/').len() as int + 2))
    } else {
        s
    }
}

fn strip_schemes(s: &str) -> (r: String)
    ensures
        r@ == without_schemes(s@),
{
    let v = text::chars_of(s);
    let mut from: usize = 0;
    assert(v@.skip(0) == s@);
    loop
        invariant
            v@ == s@,
            from <= v@.len(),
            without_schemes(v@.skip(from as int)) == without_schemes(s@),
        decreases v@.len() - from,
    {
        let rest = text::text_of(&v, from, v.len());
        assert(rest@ == v@.skip(from as int));
        let head = text::chars_of(text::take_before(rest.as_str(), '/').as_str());
        let n = head.len();
        if n > 1 && n < v.len() - from && v.len() - from - n > 1 && v[from + n - 1] == ':' && v[from
            + n + 1] == '/' {
            assert(v@.skip(from as int).skip(n + 2) == v@.skip(from + n + 2));
            from = from + n + 2;
        } else {
            return rest;
        }
    }
}

/// The bare host of an endpoint: without scheme, path and port.
pub open spec fn host_of(ep: Seq<char>) -> Option<Seq<char>> {
    let path = text::before(without_schemes(text::trimmed(ep)), '/');
    let host = text::trimmed(text::before(path, ':'));
    if host.len() == 0 {
        None
    } else {
        Some(host)
    }
}

/// Strip scheme, path, and port from an endpoint string, leaving a bare host.
pub fn normalise_host(ep: &str) -> (r: Option<String>)
    ensures
        text::view_option(r) == host_of(ep@),
{
    let s = text::trim(ep);
    let address = strip_schemes(s.as_str());
    let path = text::take_before(address.as_str(), '/');
    let port = text::take_before(path.as_str(), ':');
    let host = text::trim(port.as_str());
    if text::is_empty(host.as_str()) {
        None
    } else {
        Some(host)
    }
}

/// The URL of the data plane for an endpoint, where it has a host. TCL may hand
/// the endpoint back with a scheme and/or an MQTT port (:8883); the HTTPS
/// data-plane API needs a bare host on 443.
pub open spec fn endpoint_url_of(endpoint: Option<Seq<char>>) -> Option<Seq<char>> {
    match endpoint {
        Some(ep) => match host_of(ep) {
            Some(host) => Some("https://"@ + host),
            None => None,
        },
        None => None,
    }
}

pub fn endpoint_url(endpoint: &Option<String>) -> (r: Option<String>)
    ensures
        text::view_option(r) == endpoint_url_of(text::view_option(*endpoint)),
{
    match endpoint {
        Some(ep) => match normalise_host(ep.as_str()) {
            Some(host) => Some(text::cat2("https://", host.as_str())),
            None => None,
        },
        None => None,
    }
}

// ---------------------------------------------------------------------------
// errors of the service
// ---------------------------------------------------------------------------

/// How a call to the service failed.
pub enum ServiceFailure {
    /// The service refused, with a code and a message.
    Service { code: Option<String>, message: Option<String> },
    Timeout,
    Dispatch,
    Response,
    Construction,
    Other,
}

impl ServiceFailure {
    pub open spec fn shown(self) -> Seq<char> {
        match self {
            ServiceFailure::Service { code, message } => match code {
                Some(c) => match message {
                    Some(m) => if m@.len() == 0 {
                        c@
                    } else {
                        c@ + ": "@ + m@
                    },
                    None => c@,
                },
                None => "service error"@,
            },
            ServiceFailure::Timeout => "timed out"@,
            ServiceFailure::Dispatch => "connection failure (network/DNS)"@,
            ServiceFailure::Response => "unexpected response"@,
            ServiceFailure::Construction => "request construction failed"@,
            ServiceFailure::Other => "unknown error"@,
        }
    }
}

/// Concise, human-readable rendering of a failed call: code + message only.
pub fn service_error(e: &ServiceFailure) -> (r: String)
    ensures
        r@ == e.shown(),
{
    match e {
        ServiceFailure::Service { code, message } => match code {
            Some(c) => match message {
                Some(m) => if text::is_empty(m.as_str()) {
                    text::owned(c.as_str())
                } else {
                    text::cat3(c.as_str(), ": ", m.as_str())
                },
                None => text::owned(c.as_str()),
            },
            None => text::owned("service error"),
        },
        ServiceFailure::Timeout => text::owned("timed out"),
        ServiceFailure::Dispatch => text::owned("connection failure (network/DNS)"),
        ServiceFailure::Response => text::owned("unexpected response"),
        ServiceFailure::Construction => text::owned("request construction failed"),
        ServiceFailure::Other => text::owned("unknown error"),
    }
}

/// The failure of a shadow read.
pub fn read_failure(e: &ServiceFailure) -> (r: Fault)
    ensures
        r@ == fault::plain("read state: "@ + e.shown()),
{
    let shown = service_error(e);
    Fault::Plain(text::cat2("read state: ", shown.as_str()))
}

/// The failure of a command.
pub fn publish_failure(e: &ServiceFailure) -> (r: Fault)
    ensures
        r@ == fault::plain("publish command: "@ + e.shown()),
{
    let shown = service_error(e);
    Fault::Plain(text::cat2("publish command: ", shown.as_str()))
}

} // verus!
