//! Authenticated TCL REST calls (device discovery).
//!
//! Every call is signed with `md5(timestamp + nonce + saas_token)` carried in the
//! `timestamp` / `nonce` / `sign` headers, with the SaaS token in `accesstoken`.

use crate::auth;
use crate::clock;
use crate::fault;
use crate::http;
use crate::json;
use crate::text;
use auth::Session;
use fault::Fault;
use http::{Headers, Reply, Request};
use rand::Rng;
use serde_json::Value;
use vstd::prelude::*;

verus! {

/// A device (AC) as returned by the account's `get_things` listing.
pub struct Device {
    /// Cloud id == AWS IoT thingName; used directly for shadow read/write.
    pub device_id: String,
    pub nick_name: String,
    /// e.g. "Split AC": determines the command dialect.
    pub device_name: String,
    pub is_online: bool,
    pub firmware_version: String,
}

pub struct DeviceView {
    pub device_id: Seq<char>,
    pub nick_name: Seq<char>,
    pub device_name: Seq<char>,
    pub is_online: bool,
    pub firmware_version: Seq<char>,
}

impl View for Device {
    type V = DeviceView;

    open spec fn view(&self) -> DeviceView {
        DeviceView {
            device_id: self.device_id@,
            nick_name: self.nick_name@,
            device_name: self.device_name@,
            is_online: self.is_online,
            firmware_version: self.firmware_version@,
        }
    }
}

pub open spec fn device_views(v: Seq<Device>) -> Seq<DeviceView> {
    v.map_values(|d: Device| d@)
}

impl DeviceView {
    /// The name that the owner gave, or else the type.
    pub open spec fn shown_name(self) -> Seq<char> {
        if self.nick_name.len() == 0 {
            self.device_name
        } else {
            self.nick_name
        }
    }
}

pub fn display_name(d: &Device) -> (r: &str)
    ensures
        r@ == d@.shown_name(),
{
    if text::is_empty(d.nick_name.as_str()) {
        d.device_name.as_str()
    } else {
        d.nick_name.as_str()
    }
}

// ---------------------------------------------------------------------------
// signing
// ---------------------------------------------------------------------------

/// `Rng::gen_range` of `rand::thread_rng` over the numbers below `n`. Which one
/// comes is left to chance.
#[verifier::external_body]
pub(crate) fn random_below(n: u8) -> (r: u8)
    requires
        n > 0,
    ensures
        r < n,
{
    rand::thread_rng().gen_range(0..n)
}

/// The letter or digit at a place of the alphabet `a` to `z`, `0` to `9`.
pub open spec fn nonce_char_at(i: u8) -> char {
    if i < 26 {
        ('a' as u32 + i) as char
    } else {
        ('0' as u32 + (i - 26)) as char
    }
}

/// Sixteen places of that alphabet.
pub open spec fn are_draws(draws: Seq<u8>) -> bool {
    draws.len() == 16 && forall|i: int| 0 <= i < 16 ==> #[trigger] draws[i] < 36
}

/// The letters and digits at the places that were drawn.
pub open spec fn drawn(draws: Seq<u8>) -> Seq<char> {
    draws.map_values(|d: u8| nonce_char_at(d))
}

pub open spec fn is_nonce_char(c: char) -> bool {
    'a' <= c <= 'z' || '0' <= c <= '9'
}

/// 16 lower-case letters and digits.
pub open spec fn is_nonce(s: Seq<char>) -> bool {
    s.len() == 16 && forall|i: int| 0 <= i < 16 ==> is_nonce_char(#[trigger] s[i])
}

fn nonce_char(i: u8) -> (r: char)
    requires
        i < 36,
    ensures
        r == nonce_char_at(i),
        is_nonce_char(r),
{
    if i < 26 {
        (97 + i) as char
    } else {
        (48 + (i - 26)) as char
    }
}

/// The nonce of sixteen draws.
pub fn nonce_of(draws: &Vec<u8>) -> (r: String)
    requires
        are_draws(draws@),
    ensures
        r@ == drawn(draws@),
        is_nonce(r@),
{
    let mut out = String::new();
    let mut n: usize = 0;
    while n < 16
        invariant
            n <= 16,
            are_draws(draws@),
            out@ == drawn(draws@.take(n as int)),
            forall|i: int| 0 <= i < n ==> is_nonce_char(#[trigger] out@[i]),
        decreases 16 - n,
    {
        out.push(nonce_char(draws[n]));
        assert(out@ =~= drawn(draws@.take(n + 1)));
        n = n + 1;
    }
    assert(draws@.take(16) == draws@);
    out
}

/// A random 16-char `[a-z0-9]` nonce.
pub fn nonce() -> (r: String)
    ensures
        is_nonce(r@),
        exists|draws: Seq<u8>| are_draws(draws) && r@ == #[trigger] drawn(draws),
{
    let mut draws: Vec<u8> = Vec::new();
    while draws.len() < 16
        invariant
            draws@.len() <= 16,
            forall|i: int| 0 <= i < draws@.len() ==> #[trigger] draws@[i] < 36,
        decreases 16 - draws@.len(),
    {
        draws.push(random_below(36));
    }
    nonce_of(&draws)
}

/// The milliseconds of some reading of a clock, in decimal digits.
pub open spec fn is_timestamp(s: Seq<char>) -> bool {
    exists|t: Option<clock::SinceEpoch>|
        clock::readable(t) && s == text::dec(#[trigger] clock::millis_in(t))
}

/// Current time in milliseconds since the Unix epoch, as a string.
pub fn timestamp_ms() -> (r: String)
    ensures
        is_timestamp(r@),
{
    text::dec_u128(clock::unix_millis())
}

/// The full signed header set for an authenticated REST call made at a time
/// with a nonce.
pub open spec fn signed_headers(
    session: auth::SessionView,
    timestamp: Seq<char>,
    nonce: Seq<char>,
) -> Seq<(Seq<char>, Seq<char>)> {
    seq![
        ("platform"@, "android"@),
        ("appversion"@, "5.4.1"@),
        ("thomeversion"@, "4.8.1"@),
        ("accesstoken"@, session.saas_token),
        ("countrycode"@, session.country),
        ("accept-language"@, "en"@),
        ("timestamp"@, timestamp),
        ("nonce"@, nonce),
        ("sign"@, auth::md5_hex_of(timestamp + nonce + session.saas_token)),
        ("user-agent"@, "Android"@),
        ("content-type"@, "application/json; charset=UTF-8"@),
    ]
}

pub fn sign_at(session: &Session, timestamp: &str, nonce: &str) -> (r: Headers)
    ensures
        r@ == signed_headers(session@, timestamp@, nonce@),
{
    let signed = text::cat3(timestamp, nonce, session.saas_token.as_str());
    let signature = auth::md5_hex(signed.as_str());
    let mut h = Headers::new();
    h.add("platform", "android");
    h.add("appversion", "5.4.1");
    h.add("thomeversion", "4.8.1");
    h.add("accesstoken", session.saas_token.as_str());
    h.add("countrycode", session.country.as_str());
    h.add("accept-language", "en");
    h.add("timestamp", timestamp);
    h.add("nonce", nonce);
    h.add("sign", signature.as_str());
    h.add("user-agent", "Android");
    h.add("content-type", "application/json; charset=UTF-8");
    h
}

/// Whether headers are those of a call signed in a session, at some time and
/// with some nonce.
pub open spec fn is_signed(
    headers: Seq<(Seq<char>, Seq<char>)>,
    session: auth::SessionView,
) -> bool {
    exists|timestamp: Seq<char>, nonce: Seq<char>|
        #![trigger signed_headers(session, timestamp, nonce)]
        is_timestamp(timestamp) && is_nonce(nonce) && headers == signed_headers(
            session,
            timestamp,
            nonce,
        )
}

/// The full signed header set for an authenticated REST call.
pub fn sign(session: &Session) -> (r: Headers)
    ensures
        is_signed(r@, session@),
{
    let timestamp = timestamp_ms();
    let n = nonce();
    sign_at(session, timestamp.as_str(), n.as_str())
}

/// A signed authenticated GET. Used for the energy / work-time endpoints, which
/// are GETs rather than POSTs.
pub fn signed_get(session: &Session, url: &str) -> (r: Request)
    ensures
        r@.url == url@,
        r@.body is None,
        is_signed(r@.headers, session@),
{
    let h = sign(session);
    let r = Request { url: text::owned(url), headers: h.list, body: None };
    assert(r@.headers == h@);
    r
}

// ---------------------------------------------------------------------------
// the devices of an account
// ---------------------------------------------------------------------------

/// Where the devices of an account are listed.
pub open spec fn things_url(base: Seq<char>) -> Seq<char> {
    base + "/v3/user/get_things"@
}

/// The request for the devices of the logged-in account.
pub fn get_things_request(session: &Session) -> (r: Request)
    ensures
        r@.url == things_url(session@.device_url),
        r@.body == Some(json::Json::Object(json::no_members())),
        is_signed(r@.headers, session@),
{
    let h = sign(session);
    let r = Request {
        url: text::cat2(session.device_url.as_str(), "/v3/user/get_things"),
        headers: h.list,
        body: Some(json::object(json::members())),
    };
    assert(r@.headers == h@);
    r
}

/// The string in a member.
pub open spec fn text_member(j: json::Json, key: Seq<char>) -> Option<Seq<char>> {
    match json::member(j, key) {
        Some(x) => json::as_text(x),
        None => None,
    }
}

/// The first string that one of two members holds; else nothing.
pub open spec fn text_field(j: json::Json, first: Seq<char>, second: Seq<char>) -> Seq<char> {
    match text_member(j, first) {
        Some(s) => s,
        None => match text_member(j, second) {
            Some(s) => s,
            None => ""@,
        },
    }
}

fn text_of_member(v: &Value, key: &str) -> (r: Option<String>)
    ensures
        text::view_option(r) == text_member(json::json_of(*v), key@),
{
    match json::get(v, key) {
        Some(x) => match json::to_text(x) {
            Some(s) => Some(text::owned(s)),
            None => None,
        },
        None => None,
    }
}

pub fn str_field(v: &Value, first: &str, second: &str) -> (r: String)
    ensures
        r@ == text_field(json::json_of(*v), first@, second@),
{
    match text_of_member(v, first) {
        Some(s) => s,
        None => match text_of_member(v, second) {
            Some(s) => s,
            None => text::owned(""),
        },
    }
}

/// The integer that a member holds: a number that fits, `true` or `false`, or a
/// text that is one.
pub open spec fn int_member(j: json::Json, key: Seq<char>) -> Option<i64> {
    match json::member(j, key) {
        Some(x) => match json::as_int(x) {
            Some(n) => Some(n),
            None => match x {
                json::Json::Bool(b) => Some(
                    if b {
                        1
                    } else {
                        0
                    },
                ),
                json::Json::Text(s) => text::parsed_i64(s),
                _ => None,
            },
        },
        None => None,
    }
}

/// The first integer that one of two members holds.
pub open spec fn integer_field(j: json::Json, first: Seq<char>, second: Seq<char>) -> Option<i64> {
    match int_member(j, first) {
        Some(n) => Some(n),
        None => int_member(j, second),
    }
}

fn int_of_member(v: &Value, key: &str) -> (r: Option<i64>)
    ensures
        r == int_member(json::json_of(*v), key@),
{
    match json::get(v, key) {
        Some(x) => {
            if let Some(n) = json::to_int(x) {
                return Some(n);
            }
            if let Some(b) = json::to_bool(x) {
                return Some(
                    if b {
                        1
                    } else {
                        0
                    },
                );
            }
            match json::to_text(x) {
                Some(s) => text::parse_i64(s),
                None => None,
            }
        },
        None => None,
    }
}

pub fn int_field(v: &Value, first: &str, second: &str) -> (r: Option<i64>)
    ensures
        r == integer_field(json::json_of(*v), first@, second@),
{
    match int_of_member(v, first) {
        Some(n) => Some(n),
        None => int_of_member(v, second),
    }
}

/// The device that an item of the listing describes.
pub open spec fn device_in(item: json::Json) -> DeviceView {
    DeviceView {
        device_id: text_field(item, "device_id"@, "deviceId"@),
        nick_name: text_field(item, "nick_name"@, "nickName"@),
        device_name: text_field(item, "device_name"@, "deviceName"@),
        is_online: (match integer_field(item, "is_online"@, "isOnline"@) {
            Some(n) => n,
            None => 0,
        }) != 0,
        firmware_version: text_field(item, "firmware_version"@, "firmwareVersion"@),
    }
}

/// The devices that the items of a listing describe, in order, without those
/// that have no id.
pub open spec fn devices_in(items: Seq<json::Json>) -> Seq<DeviceView>
    decreases items.len(),
{
    if items.len() == 0 {
        seq![]
    } else {
        let rest = devices_in(items.drop_last());
        let d = device_in(items.last());
        if d.device_id.len() == 0 {
            rest
        } else {
            rest.push(d)
        }
    }
}

/// What a listing says.
pub open spec fn things_in(j: json::Json) -> Result<Seq<DeviceView>, fault::FaultView> {
    match json::member(j, "data"@) {
        Some(json::Json::Array(items)) => Ok(devices_in(items)),
        _ => Err(
            fault::plain("get_things response has no `data` array: "@ + json::json_text(j)),
        ),
    }
}

pub open spec fn things_outcome(r: Result<Vec<Device>, Fault>) -> Result<
    Seq<DeviceView>,
    fault::FaultView,
> {
    match r {
        Ok(v) => Ok(device_views(v@)),
        Err(f) => Err(f@),
    }
}

/// Reads a listing.
pub fn read_things(v: &Value) -> (r: Result<Vec<Device>, Fault>)
    ensures
        things_outcome(r) == things_in(json::json_of(*v)),
{
    let data = match json::get(v, "data") {
        Some(d) => json::to_list(d),
        None => None,
    };
    match data {
        None => {
            let whole = json::print(v);
            Err(
                Fault::Plain(
                    text::cat2("get_things response has no `data` array: ", whole.as_str()),
                ),
            )
        },
        Some(list) => {
            let ghost items = json::json_all(list@);
            let mut devices: Vec<Device> = Vec::new();
            let mut i: usize = 0;
            assert(device_views(devices@) =~= devices_in(items.take(0)));
            while i < list.len()
                invariant
                    items == json::json_all(list@),
                    i <= list@.len(),
                    device_views(devices@) == devices_in(items.take(i as int)),
                decreases list@.len() - i,
            {
                let item = &list[i];
                proof {
                    assert(items.take(i + 1).drop_last() == items.take(i as int));
                    assert(items.take(i + 1).last() == json::json_of(*item));
                }
                let device_id = str_field(item, "device_id", "deviceId");
                if !text::is_empty(device_id.as_str()) {
                    let online = match int_field(item, "is_online", "isOnline") {
                        Some(n) => n,
                        None => 0,
                    };
                    let d = Device {
                        device_id,
                        nick_name: str_field(item, "nick_name", "nickName"),
                        device_name: str_field(item, "device_name", "deviceName"),
                        is_online: online != 0,
                        firmware_version: str_field(item, "firmware_version", "firmwareVersion"),
                    };
                    let ghost before = devices@;
                    devices.push(d);
                    assert(device_views(devices@) =~= device_views(before).push(d@));
                }
                i = i + 1;
            }
            assert(items.take(items.len() as int) == items);
            Ok(devices)
        },
    }
}

/// What the reply to the request for the devices says.
pub open spec fn things_reply(reply: Reply) -> Result<Seq<DeviceView>, fault::FaultView> {
    if !reply.succeeded() {
        Err(
            fault::plain(
                "get_things returned HTTP "@ + http::status_shown(reply.status) + ": "@
                    + reply.body@,
            ),
        )
    } else {
        match json::json_parsed(reply.body@) {
            None => Err(
                fault::wrapping(
                    "get_things returned non-JSON: "@ + reply.body@,
                    fault::FaultView::Json,
                ),
            ),
            Some(j) => things_in(j),
        }
    }
}

/// List the ACs / devices attached to the logged-in account.
pub fn get_things(reply: &Reply) -> (r: Result<Vec<Device>, Fault>)
    requires
        reply.valid(),
    ensures
        things_outcome(r) == things_reply(*reply),
{
    if !reply.is_success() {
        let status = http::status_line(reply.status);
        return Err(
            Fault::Plain(
                text::cat4(
                    "get_things returned HTTP ",
                    status.as_str(),
                    ": ",
                    reply.body.as_str(),
                ),
            ),
        );
    }
    match json::parse(reply.body.as_str()) {
        Err(e) => {
            let message = text::cat2("get_things returned non-JSON: ", reply.body.as_str());
            Err(Fault::Json(e).under(message.as_str()))
        },
        Ok(v) => read_things(&v),
    }
}

/// The id of the device that is wanted. An empty one counts as none.
pub open spec fn asked_id(want: Option<Seq<char>>) -> Option<Seq<char>> {
    match want {
        Some(id) => if id.len() == 0 {
            None
        } else {
            Some(id)
        },
        None => None,
    }
}

pub fn ask_id(want: &Option<String>) -> (r: Option<&str>)
    ensures
        (match r {
            Some(id) => Some(id@),
            None => None,
        }) == asked_id(text::view_option(*want)),
{
    match want {
        Some(id) => if text::is_empty(id.as_str()) {
            None
        } else {
            Some(id.as_str())
        },
        None => None,
    }
}

/// Where the device with an id stands, first of those with it.
pub open spec fn place_of(devices: Seq<DeviceView>, id: Seq<char>) -> Option<int>
    decreases devices.len(),
{
    if devices.len() == 0 {
        None
    } else if devices[0].device_id == id {
        Some(0)
    } else {
        match place_of(devices.skip(1), id) {
            Some(i) => Some(i + 1),
            None => None,
        }
    }
}

/// The place of the first device with an id.
pub fn find_device(devices: &Vec<Device>, id: &str) -> (r: Option<usize>)
    ensures
        match place_of(device_views(devices@), id@) {
            Some(i) => r == Some(i as usize) && 0 <= i < devices@.len(),
            None => r is None,
        },
{
    let ghost all = device_views(devices@);
    let mut i: usize = 0;
    assert(all.skip(0) == all);
    while i < devices.len()
        invariant
            all == device_views(devices@),
            i <= devices@.len(),
            place_of(all, id@) == (match place_of(all.skip(i as int), id@) {
                Some(k) => Some(k + i),
                None => None,
            }),
        decreases devices@.len() - i,
    {
        proof {
            assert(all.skip(i as int)[0] == devices@[i as int]@);
            assert(all.skip(i as int).skip(1) == all.skip(i + 1));
        }
        if text::same(devices[i].device_id.as_str(), id) {
            return Some(i);
        }
        i = i + 1;
    }
    None
}

} // verus!
