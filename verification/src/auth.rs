//! TCL Home cloud authentication chain.
//!
//! ```text
//!   login            -> access token, username, country
//!   cloud_url_get    -> per-account regional endpoints + AWS region
//!   refresh_tokens   -> SaaS token (signs REST) + Cognito token + IoT endpoint
//!   GetCredentials   -> temporary AWS credentials (via Cognito Identity)
//! ```
//!
//! Each stage has a request to send and a reply to read. The resulting
//! [`Session`] carries everything the REST and IoT layers need.

use crate::double;
use crate::fault;
use crate::http;
use crate::json;
use crate::text;
use base64::Engine;
use fault::Fault;
use http::{Headers, Reply, Request};
use serde_json::Value;
use vstd::prelude::*;

verus! {

/// Everything needed to talk to the TCL cloud + AWS IoT for one logged-in account.
pub struct Session {
    /// Logged-in account name (kept for diagnostics).
    pub username: String,
    pub country: String,
    /// SaaS token: signs all authenticated TCL REST calls.
    pub saas_token: String,
    /// Base URL for device REST endpoints (e.g. https://prod-eu.aws.tcljd.com).
    pub device_url: String,
    /// AWS region for Cognito + IoT (e.g. eu-central-1).
    pub aws_region: String,
    /// AWS IoT data-plane endpoint host (account-specific ATS host).
    pub iot_endpoint: Option<String>,
    /// Temporary AWS credentials for signing IoT data-plane requests.
    pub aws: AwsCredentials,
}

pub struct AwsCredentials {
    pub access_key_id: String,
    pub secret_key: String,
    pub session_token: String,
    /// Unix epoch seconds when these credentials expire (best effort).
    pub expiration: Option<u64>,
}

pub struct AwsView {
    pub access_key_id: Seq<char>,
    pub secret_key: Seq<char>,
    pub session_token: Seq<char>,
    pub expiration: Option<u64>,
}

impl View for AwsCredentials {
    type V = AwsView;

    open spec fn view(&self) -> AwsView {
        AwsView {
            access_key_id: self.access_key_id@,
            secret_key: self.secret_key@,
            session_token: self.session_token@,
            expiration: self.expiration,
        }
    }
}

pub struct SessionView {
    pub username: Seq<char>,
    pub country: Seq<char>,
    pub saas_token: Seq<char>,
    pub device_url: Seq<char>,
    pub aws_region: Seq<char>,
    pub iot_endpoint: Option<Seq<char>>,
    pub aws: AwsView,
}

impl View for Session {
    type V = SessionView;

    open spec fn view(&self) -> SessionView {
        SessionView {
            username: self.username@,
            country: self.country@,
            saas_token: self.saas_token@,
            device_url: self.device_url@,
            aws_region: self.aws_region@,
            iot_endpoint: text::view_option(self.iot_endpoint),
            aws: self.aws@,
        }
    }
}

// ---------------------------------------------------------------------------
// helpers
// ---------------------------------------------------------------------------

/// The document of a reply to the request `stage`.
pub open spec fn document_of(reply: Reply, stage: Seq<char>) -> Result<
    json::Json,
    fault::FaultView,
> {
    if !reply.succeeded() {
        Err(
            fault::plain(
                stage + " returned HTTP "@ + http::status_shown(reply.status) + ": "@
                    + text::shortened(reply.body@, 400),
            ),
        )
    } else {
        match json::json_parsed(reply.body@) {
            Some(j) => Ok(j),
            None => Err(
                fault::wrapping(
                    stage + " returned non-JSON body: "@ + text::shortened(reply.body@, 400),
                    fault::FaultView::Json,
                ),
            ),
        }
    }
}

/// A value, or a failure, by their views.
pub open spec fn document_outcome(r: Result<Value, Fault>) -> Result<json::Json, fault::FaultView> {
    match r {
        Ok(v) => Ok(json::json_of(v)),
        Err(f) => Err(f@),
    }
}

/// Parse a JSON response, surfacing HTTP + body detail on non-success.
pub fn json_or_err(reply: &Reply, stage: &str) -> (r: Result<Value, Fault>)
    requires
        reply.valid(),
    ensures
        document_outcome(r) == document_of(*reply, stage@),
{
    if !reply.is_success() {
        let status = http::status_line(reply.status);
        let body = text::shorten(reply.body.as_str(), 400);
        let message = text::cat5(stage, " returned HTTP ", status.as_str(), ": ", body.as_str());
        return Err(Fault::Plain(message));
    }
    match json::parse(reply.body.as_str()) {
        Ok(v) => Ok(v),
        Err(e) => {
            let body = text::shorten(reply.body.as_str(), 400);
            let message = text::cat3(stage, " returned non-JSON body: ", body.as_str());
            Err(Fault::Json(e).under(message.as_str()))
        },
    }
}

/// What stands in a document at a path of keys.
pub open spec fn at_path(j: json::Json, path: Seq<Seq<char>>) -> Option<json::Json>
    decreases path.len(),
{
    if path.len() == 0 {
        Some(j)
    } else {
        json::member_of(at_path(j, path.drop_last()), path.last())
    }
}

/// The string in a document at a path of keys.
pub open spec fn text_at(j: json::Json, path: Seq<Seq<char>>) -> Result<
    Seq<char>,
    fault::FaultView,
> {
    match at_path(j, path) {
        Some(x) => match json::as_text(x) {
            Some(s) => Ok(s),
            None => Err(
                fault::plain("field `"@ + text::joined(path, "."@) + "` is not a string"@),
            ),
        },
        None => Err(fault::plain("missing field `"@ + text::joined(path, "."@) + "`"@)),
    }
}

/// Pull a nested string out of a JSON value by a path of keys.
pub fn get_str(v: &Value, path: &Vec<String>) -> (r: Result<String, Fault>)
    ensures
        fault::outcome(r) == text_at(json::json_of(*v), text::view_all(path@)),
{
    let ghost keys = text::view_all(path@);
    let mut at: Option<&Value> = Some(v);
    let mut i: usize = 0;
    while i < path.len()
        invariant
            keys == text::view_all(path@),
            i <= path@.len(),
            json::json_option(at) == at_path(json::json_of(*v), keys.take(i as int)),
        decreases path@.len() - i,
    {
        proof {
            assert(keys.take(i + 1).drop_last() == keys.take(i as int));
            assert(keys.take(i + 1).last() == path@[i as int]@);
        }
        at = match at {
            Some(x) => json::get(x, path[i].as_str()),
            None => None,
        };
        i = i + 1;
    }
    assert(keys.take(keys.len() as int) == keys);
    match at {
        Some(x) => match json::to_text(x) {
            Some(s) => Ok(text::owned(s)),
            None => {
                let name = text::join(path, ".");
                Err(Fault::Plain(text::cat3("field `", name.as_str(), "` is not a string")))
            },
        },
        None => {
            let name = text::join(path, ".");
            Err(Fault::Plain(text::cat3("missing field `", name.as_str(), "`")))
        },
    }
}

fn path1(a: &str) -> (r: Vec<String>)
    ensures
        text::view_all(r@) == seq![a@],
{
    let mut v: Vec<String> = Vec::new();
    v.push(text::owned(a));
    assert(text::view_all(v@) =~= seq![a@]);
    v
}

fn path2(a: &str, b: &str) -> (r: Vec<String>)
    ensures
        text::view_all(r@) == seq![a@, b@],
{
    let mut v: Vec<String> = Vec::new();
    v.push(text::owned(a));
    v.push(text::owned(b));
    assert(text::view_all(v@) =~= seq![a@, b@]);
    v
}

/// The string in the member `key`.
pub open spec fn text_in(j: json::Json, key: Seq<char>) -> Result<Seq<char>, fault::FaultView> {
    text_at(j, seq![key])
}

fn get_text(v: &Value, key: &str) -> (r: Result<String, Fault>)
    ensures
        fault::outcome(r) == text_in(json::json_of(*v), key@),
{
    get_str(v, &path1(key))
}

/// The string in the member `first`, or else in the member `second`.
pub open spec fn text_in_either(j: json::Json, first: Seq<char>, second: Seq<char>) -> Result<
    Seq<char>,
    fault::FaultView,
> {
    match text_in(j, first) {
        Ok(s) => Ok(s),
        Err(_) => text_in(j, second),
    }
}

fn get_either(v: &Value, first: &str, second: &str) -> (r: Result<String, Fault>)
    ensures
        fault::outcome(r) == text_in_either(json::json_of(*v), first@, second@),
{
    match get_text(v, first) {
        Ok(s) => Ok(s),
        Err(_) => get_text(v, second),
    }
}

/// A result with its failure under a message.
pub open spec fn told<T>(r: Result<T, fault::FaultView>, message: Seq<char>) -> Result<
    T,
    fault::FaultView,
> {
    match r {
        Ok(x) => Ok(x),
        Err(f) => Err(fault::wrapping(message, f)),
    }
}

fn tell(r: Result<String, Fault>, message: &str) -> (t: Result<String, Fault>)
    ensures
        fault::outcome(t) == told(fault::outcome(r), message@),
{
    match r {
        Ok(s) => Ok(s),
        Err(f) => Err(f.under(message)),
    }
}

// ---------------------------------------------------------------------------
// Stage 1: login
// ---------------------------------------------------------------------------

/// The MD5 digest of a text, in lower-case hexadecimal.
pub uninterp spec fn md5_hex_of(s: Seq<char>) -> Seq<char>;

pub open spec fn is_hex(c: char) -> bool {
    '0' <= c <= '9' || 'a' <= c <= 'f'
}

/// `md5::compute` of the UTF-8 bytes of a text, printed by `LowerHex`: two
/// digits for each of its 16 bytes.
#[verifier::external_body]
pub(crate) fn md5_hex(s: &str) -> (r: String)
    ensures
        r@ == md5_hex_of(s@),
        r@.len() == 32,
        forall|i: int| 0 <= i < 32 ==> is_hex(#[trigger] r@[i]),
{
    format!("{:x}", md5::compute(s.as_bytes()))
}

pub struct LoginResult {
    pub token: String,
    pub username: String,
    pub country: String,
}

pub struct LoginView {
    pub token: Seq<char>,
    pub username: Seq<char>,
    pub country: Seq<char>,
}

impl View for LoginResult {
    type V = LoginView;

    open spec fn view(&self) -> LoginView {
        LoginView { token: self.token@, username: self.username@, country: self.country@ }
    }
}

pub open spec fn login_body(username: Seq<char>, password: Seq<char>) -> json::Json {
    json::Json::Object(
        json::no_members().insert("equipment"@, json::whole(2)).insert(
            "password"@,
            json::Json::Text(md5_hex_of(password)),
        ).insert("osType"@, json::whole(1)).insert("username"@, json::Json::Text(username)).insert(
            "clientVersion"@,
            json::Json::Text("4.8.1"@),
        ).insert("osVersion"@, json::Json::Text("6.0"@)).insert(
            "deviceModel"@,
            json::Json::Text("AndroidAndroid SDK built for x86"@),
        ).insert("captchaRule"@, json::whole(2)).insert("channel"@, json::Json::Text("app"@)),
    )
}

pub open spec fn login_headers() -> Seq<(Seq<char>, Seq<char>)> {
    seq![
        ("th_platform"@, "android"@),
        ("th_version"@, "4.8.1"@),
        ("th_appbulid"@, "830"@),
        ("user-agent"@, "Android"@),
        ("content-type"@, "application/json; charset=UTF-8"@),
    ]
}

/// The login request. The password travels as its MD5 digest.
pub open spec fn login_sent(username: Seq<char>, password: Seq<char>) -> http::RequestView {
    http::RequestView {
        url: "https://pa.account.tcl.com/account/login?clientId=54148614"@,
        headers: login_headers(),
        body: Some(login_body(username, password)),
    }
}

pub fn login_request(username: &str, password: &str) -> (r: Request)
    ensures
        r@ == login_sent(username@, password@),
{
    let digest = md5_hex(password);
    let mut m = json::members();
    json::put(&mut m, "equipment", json::from_int(2));
    json::put(&mut m, "password", json::from_text(digest.as_str()));
    json::put(&mut m, "osType", json::from_int(1));
    json::put(&mut m, "username", json::from_text(username));
    json::put(&mut m, "clientVersion", json::from_text("4.8.1"));
    json::put(&mut m, "osVersion", json::from_text("6.0"));
    json::put(&mut m, "deviceModel", json::from_text("AndroidAndroid SDK built for x86"));
    json::put(&mut m, "captchaRule", json::from_int(2));
    json::put(&mut m, "channel", json::from_text("app"));
    let mut h = Headers::new();
    h.add("th_platform", "android");
    h.add("th_version", "4.8.1");
    h.add("th_appbulid", "830");  // literal misspelling required by the API
    h.add("user-agent", "Android");
    h.add("content-type", "application/json; charset=UTF-8");
    assert(h@ == login_headers());
    Request {
        url: text::owned("https://pa.account.tcl.com/account/login?clientId=54148614"),
        headers: h.list,
        body: Some(json::object(m)),
    }
}

/// The message that the server sent with a refusal, if any.
pub open spec fn refusal_text(j: json::Json) -> Option<Seq<char>> {
    let found = match json::member(j, "msg"@) {
        Some(m) => Some(m),
        None => match json::member(j, "message"@) {
            Some(m) => Some(m),
            None => json::member(j, "errorMessage"@),
        },
    };
    match found {
        Some(m) => json::as_text(m),
        None => None,
    }
}

fn refusal(v: &Value) -> (r: Option<String>)
    ensures
        text::view_option(r) == refusal_text(json::json_of(*v)),
{
    let found = match json::get(v, "msg") {
        Some(m) => Some(m),
        None => match json::get(v, "message") {
            Some(m) => Some(m),
            None => json::get(v, "errorMessage"),
        },
    };
    match found {
        Some(m) => match json::to_text(m) {
            Some(s) => Some(text::owned(s)),
            None => None,
        },
        None => None,
    }
}

/// The integer in the member `key`, or 0.
pub open spec fn int_in(j: json::Json, key: Seq<char>) -> i64 {
    match json::member(j, key) {
        Some(x) => match json::as_int(x) {
            Some(n) => n,
            None => 0,
        },
        None => 0,
    }
}

/// What a login answer says. Status 1 is success, and status 3 stands for a
/// wrong username or password; a refusal is told with the message of the server
/// or, where there is none, with the start of the answer.
pub open spec fn logged_in(j: json::Json, username: Seq<char>) -> Result<
    LoginView,
    fault::FaultView,
> {
    let status = int_in(j, "status"@);
    if status != 1 {
        let message = match refusal_text(j) {
            Some(m) => m,
            None => text::shortened(json::json_text(j), 300),
        };
        let hint = if status == 3 {
            " (check email/password)"@
        } else {
            ""@
        };
        Err(
            fault::plain(
                "login rejected (status="@ + text::dec_int(status as int) + ")"@ + hint + ": "@
                    + message,
            ),
        )
    } else {
        match told(text_in(j, "token"@), "login response missing `token`"@) {
            Ok(token) => Ok(
                LoginView {
                    token,
                    username: match text_at(j, seq!["user"@, "username"@]) {
                        Ok(s) => s,
                        Err(_) => username,
                    },
                    country: match text_at(j, seq!["user"@, "country_abbr"@]) {
                        Ok(s) => s,
                        Err(_) => match text_at(j, seq!["user"@, "countryAbbr"@]) {
                            Ok(s) => s,
                            Err(_) => ""@,
                        },
                    },
                },
            ),
            Err(f) => Err(f),
        }
    }
}

fn get_int(v: &Value, key: &str) -> (r: i64)
    ensures
        r == int_in(json::json_of(*v), key@),
{
    match json::get(v, key) {
        Some(x) => match json::to_int(x) {
            Some(n) => n,
            None => 0,
        },
        None => 0,
    }
}

/// Reads a login answer.
pub fn read_login(v: &Value, username: &str) -> (r: Result<LoginResult, Fault>)
    ensures
        fault::outcome(r) == logged_in(json::json_of(*v), username@),
{
    let status = get_int(v, "status");
    if status != 1 {
        let message = match refusal(v) {
            Some(m) => m,
            None => {
                let whole = json::print(v);
                text::shorten(whole.as_str(), 300)
            },
        };
        let hint = if status == 3 {
            " (check email/password)"
        } else {
            ""
        };
        let number = text::dec_i64(status);
        let start = text::cat4("login rejected (status=", number.as_str(), ")", hint);
        return Err(Fault::Plain(text::cat3(start.as_str(), ": ", message.as_str())));
    }
    match tell(get_text(v, "token"), "login response missing `token`") {
        Ok(token) => {
            let name = match get_str(v, &path2("user", "username")) {
                Ok(s) => s,
                Err(_) => text::owned(username),
            };
            let country = match get_str(v, &path2("user", "country_abbr")) {
                Ok(s) => s,
                Err(_) => match get_str(v, &path2("user", "countryAbbr")) {
                    Ok(s) => s,
                    Err(_) => text::owned(""),
                },
            };
            Ok(LoginResult { token, username: name, country })
        },
        Err(f) => Err(f),
    }
}

/// What the reply to a login request says.
pub open spec fn login_reply(reply: Reply, username: Seq<char>) -> Result<
    LoginView,
    fault::FaultView,
> {
    match document_of(reply, "login"@) {
        Ok(j) => logged_in(j, username),
        Err(f) => Err(f),
    }
}

pub fn do_login(reply: &Reply, username: &str) -> (r: Result<LoginResult, Fault>)
    requires
        reply.valid(),
    ensures
        fault::outcome(r) == login_reply(*reply, username@),
{
    match json_or_err(reply, "login") {
        Ok(v) => read_login(&v, username),
        Err(f) => Err(f),
    }
}

// ---------------------------------------------------------------------------
// Stage 2: cloud_url_get (region + endpoint discovery)
// ---------------------------------------------------------------------------

pub struct CloudUrls {
    pub cloud_url: String,
    pub device_url: String,
    pub cloud_region: String,
}

pub struct CloudUrlsView {
    pub cloud_url: Seq<char>,
    pub device_url: Seq<char>,
    pub cloud_region: Seq<char>,
}

impl View for CloudUrls {
    type V = CloudUrlsView;

    open spec fn view(&self) -> CloudUrlsView {
        CloudUrlsView {
            cloud_url: self.cloud_url@,
            device_url: self.device_url@,
            cloud_region: self.cloud_region@,
        }
    }
}

pub open spec fn android_headers() -> Seq<(Seq<char>, Seq<char>)> {
    seq![
        ("user-agent"@, "Android"@),
        ("content-type"@, "application/json; charset=UTF-8"@),
    ]
}

fn android() -> (r: Headers)
    ensures
        r@ == android_headers(),
{
    let mut h = Headers::new();
    h.add("user-agent", "Android");
    h.add("content-type", "application/json; charset=UTF-8");
    h
}

pub open spec fn cloud_urls_sent(username: Seq<char>, sso_token: Seq<char>) -> http::RequestView {
    http::RequestView {
        url: "https://prod-center.aws.tcljd.com/v3/global/cloud_url_get"@,
        headers: android_headers(),
        body: Some(
            json::Json::Object(
                json::no_members().insert("ssoId"@, json::Json::Text(username)).insert(
                    "ssoToken"@,
                    json::Json::Text(sso_token),
                ),
            ),
        ),
    }
}

pub fn cloud_urls_request(username: &str, sso_token: &str) -> (r: Request)
    ensures
        r@ == cloud_urls_sent(username@, sso_token@),
{
    let mut m = json::members();
    json::put(&mut m, "ssoId", json::from_text(username));
    json::put(&mut m, "ssoToken", json::from_text(sso_token));
    Request {
        url: text::owned("https://prod-center.aws.tcljd.com/v3/global/cloud_url_get"),
        headers: android().list,
        body: Some(json::object(m)),
    }
}

/// The member `data` of an answer, or null.
pub open spec fn data_of(j: json::Json) -> json::Json {
    match json::member(j, "data"@) {
        Some(d) => d,
        None => json::Json::Null,
    }
}

fn data(v: &Value) -> (r: Value)
    ensures
        json::json_of(r) == data_of(json::json_of(*v)),
{
    match json::get(v, "data") {
        Some(d) => json::copy(d),
        None => json::null(),
    }
}

/// What the `data` of a `cloud_url_get` answer says. URLs lose their final
/// slashes.
pub open spec fn cloud_urls_in(d: json::Json) -> Result<CloudUrlsView, fault::FaultView> {
    match told(text_in(d, "cloud_url"@), "cloud_url_get response missing data.cloud_url"@) {
        Ok(cloud) => match told(
            text_in(d, "device_url"@),
            "cloud_url_get response missing data.device_url"@,
        ) {
            Ok(device) => match told(
                text_in(d, "cloud_region"@),
                "cloud_url_get response missing data.cloud_region"@,
            ) {
                Ok(region) => Ok(
                    CloudUrlsView {
                        cloud_url: text::without_end(cloud, '/'),
                        device_url: text::without_end(device, '/'),
                        cloud_region: region,
                    },
                ),
                Err(f) => Err(f),
            },
            Err(f) => Err(f),
        },
        Err(f) => Err(f),
    }
}

fn read_cloud_urls(d: &Value) -> (r: Result<CloudUrls, Fault>)
    ensures
        fault::outcome(r) == cloud_urls_in(json::json_of(*d)),
{
    match tell(get_text(d, "cloud_url"), "cloud_url_get response missing data.cloud_url") {
        Ok(cloud) => match tell(
            get_text(d, "device_url"),
            "cloud_url_get response missing data.device_url",
        ) {
            Ok(device) => match tell(
                get_text(d, "cloud_region"),
                "cloud_url_get response missing data.cloud_region",
            ) {
                Ok(region) => Ok(
                    CloudUrls {
                        cloud_url: text::strip_end(cloud.as_str(), '/'),
                        device_url: text::strip_end(device.as_str(), '/'),
                        cloud_region: region,
                    },
                ),
                Err(f) => Err(f),
            },
            Err(f) => Err(f),
        },
        Err(f) => Err(f),
    }
}

pub open spec fn cloud_urls_reply(reply: Reply) -> Result<CloudUrlsView, fault::FaultView> {
    match document_of(reply, "cloud_url_get"@) {
        Ok(j) => cloud_urls_in(data_of(j)),
        Err(f) => Err(f),
    }
}

pub fn get_cloud_urls(reply: &Reply) -> (r: Result<CloudUrls, Fault>)
    requires
        reply.valid(),
    ensures
        fault::outcome(r) == cloud_urls_reply(*reply),
{
    match json_or_err(reply, "cloud_url_get") {
        Ok(v) => {
            let d = data(&v);
            read_cloud_urls(&d)
        },
        Err(f) => Err(f),
    }
}

// ---------------------------------------------------------------------------
// Stage 3: refresh_tokens (SaaS + Cognito tokens)
// ---------------------------------------------------------------------------

pub struct Tokens {
    pub saas_token: String,
    pub cognito_token: String,
    pub mqtt_endpoint: Option<String>,
}

pub struct TokensView {
    pub saas_token: Seq<char>,
    pub cognito_token: Seq<char>,
    pub mqtt_endpoint: Option<Seq<char>>,
}

impl View for Tokens {
    type V = TokensView;

    open spec fn view(&self) -> TokensView {
        TokensView {
            saas_token: self.saas_token@,
            cognito_token: self.cognito_token@,
            mqtt_endpoint: text::view_option(self.mqtt_endpoint),
        }
    }
}

pub open spec fn tokens_sent(
    cloud_url: Seq<char>,
    username: Seq<char>,
    sso_token: Seq<char>,
) -> http::RequestView {
    http::RequestView {
        url: cloud_url + "/v3/auth/refresh_tokens"@,
        headers: android_headers(),
        body: Some(
            json::Json::Object(
                json::no_members().insert("userId"@, json::Json::Text(username)).insert(
                    "ssoToken"@,
                    json::Json::Text(sso_token),
                ).insert("appId"@, json::Json::Text("wx6e1af3fa84fbe523"@)),
            ),
        ),
    }
}

pub fn tokens_request(cloud_url: &str, username: &str, sso_token: &str) -> (r: Request)
    ensures
        r@ == tokens_sent(cloud_url@, username@, sso_token@),
{
    let mut m = json::members();
    json::put(&mut m, "userId", json::from_text(username));
    json::put(&mut m, "ssoToken", json::from_text(sso_token));
    json::put(&mut m, "appId", json::from_text("wx6e1af3fa84fbe523"));
    Request {
        url: text::cat2(cloud_url, "/v3/auth/refresh_tokens"),
        headers: android().list,
        body: Some(json::object(m)),
    }
}

/// What the `data` of a `refresh_tokens` answer says.
pub open spec fn tokens_in(d: json::Json) -> Result<TokensView, fault::FaultView> {
    match told(
        text_in_either(d, "saas_token"@, "saasToken"@),
        "refresh_tokens response missing saas_token"@,
    ) {
        Ok(saas) => match told(
            text_in_either(d, "cognito_token"@, "cognitoToken"@),
            "refresh_tokens response missing cognito_token"@,
        ) {
            Ok(cognito) => Ok(
                TokensView {
                    saas_token: saas,
                    cognito_token: cognito,
                    mqtt_endpoint: match text_in_either(d, "mqtt_endpoint"@, "mqttEndpoint"@) {
                        Ok(s) => if s.len() == 0 {
                            None
                        } else {
                            Some(s)
                        },
                        Err(_) => None,
                    },
                },
            ),
            Err(f) => Err(f),
        },
        Err(f) => Err(f),
    }
}

fn read_tokens(d: &Value) -> (r: Result<Tokens, Fault>)
    ensures
        fault::outcome(r) == tokens_in(json::json_of(*d)),
{
    match tell(
        get_either(d, "saas_token", "saasToken"),
        "refresh_tokens response missing saas_token",
    ) {
        Ok(saas) => match tell(
            get_either(d, "cognito_token", "cognitoToken"),
            "refresh_tokens response missing cognito_token",
        ) {
            Ok(cognito) => {
                let endpoint = match get_either(d, "mqtt_endpoint", "mqttEndpoint") {
                    Ok(s) => if text::is_empty(s.as_str()) {
                        None
                    } else {
                        Some(s)
                    },
                    Err(_) => None,
                };
                Ok(Tokens { saas_token: saas, cognito_token: cognito, mqtt_endpoint: endpoint })
            },
            Err(f) => Err(f),
        },
        Err(f) => Err(f),
    }
}

pub open spec fn tokens_reply(reply: Reply) -> Result<TokensView, fault::FaultView> {
    match document_of(reply, "refresh_tokens"@) {
        Ok(j) => tokens_in(data_of(j)),
        Err(f) => Err(f),
    }
}

pub fn refresh_tokens(reply: &Reply) -> (r: Result<Tokens, Fault>)
    requires
        reply.valid(),
    ensures
        fault::outcome(r) == tokens_reply(*reply),
{
    match json_or_err(reply, "refresh_tokens") {
        Ok(v) => {
            let d = data(&v);
            read_tokens(&d)
        },
        Err(f) => Err(f),
    }
}

// ---------------------------------------------------------------------------
// Stage 4: AWS credentials via Cognito Identity (enhanced/developer flow)
// ---------------------------------------------------------------------------

/// The bytes that a text encodes in the URL-safe base64 alphabet, without
/// padding.
pub uninterp spec fn base64url_decoded(s: Seq<char>) -> Option<Seq<u8>>;

/// `Engine::decode` of `base64::engine::general_purpose::URL_SAFE_NO_PAD`.
#[verifier::external_body]
pub(crate) fn decode_base64url(s: &str) -> (r: Result<Vec<u8>, base64::DecodeError>)
    ensures
        (match r {
            Ok(b) => Some(b@),
            Err(_) => None,
        }) == base64url_decoded(s@),
{
    base64::engine::general_purpose::URL_SAFE_NO_PAD.decode(s)
}

/// The second of the parts of a text that full stops separate.
pub open spec fn second_part(token: Seq<char>) -> Option<Seq<char>> {
    match text::after(token, '.') {
        Some(rest) => Some(text::before(rest, '.')),
        None => None,
    }
}

/// A string claim in a payload.
pub open spec fn claim_in(payload: json::Json, claim: Seq<char>) -> Result<
    Seq<char>,
    fault::FaultView,
> {
    match json::member(payload, claim) {
        Some(json::Json::Text(s)) => Ok(s),
        _ => Err(fault::plain("JWT missing claim `"@ + claim + "`"@)),
    }
}

pub fn read_claim(payload: &Value, claim: &str) -> (r: Result<String, Fault>)
    ensures
        fault::outcome(r) == claim_in(json::json_of(*payload), claim@),
{
    let found = match json::get(payload, claim) {
        Some(c) => json::to_text(c),
        None => None,
    };
    match found {
        Some(s) => Ok(text::owned(s)),
        None => Err(Fault::Plain(text::cat3("JWT missing claim `", claim, "`"))),
    }
}

/// A string claim of a JWT, whose payload is its second part.
pub open spec fn claim_of(token: Seq<char>, claim: Seq<char>) -> Result<
    Seq<char>,
    fault::FaultView,
> {
    match second_part(token) {
        None => Err(fault::plain("malformed JWT"@)),
        Some(part) => match base64url_decoded(part) {
            None => Err(
                fault::wrapping("JWT payload is not valid base64url"@, fault::FaultView::Base64),
            ),
            Some(bytes) => match json::json_parsed_bytes(bytes) {
                None => Err(fault::wrapping("JWT payload is not JSON"@, fault::FaultView::Json)),
                Some(payload) => claim_in(payload, claim),
            },
        },
    }
}

/// Decode a JWT payload (no signature verification) and return a string claim.
pub fn jwt_claim(token: &str, claim: &str) -> (r: Result<String, Fault>)
    ensures
        fault::outcome(r) == claim_of(token@, claim@),
{
    match text::take_after(token, '.') {
        None => Err(Fault::plain("malformed JWT")),
        Some(rest) => {
            let part = text::take_before(rest.as_str(), '.');
            match decode_base64url(part.as_str()) {
                Err(e) => Err(Fault::Base64(e).under("JWT payload is not valid base64url")),
                Ok(bytes) => match json::parse_bytes(bytes.as_slice()) {
                    Err(e) => Err(Fault::Json(e).under("JWT payload is not JSON")),
                    Ok(payload) => read_claim(&payload, claim),
                },
            }
        },
    }
}

pub open spec fn cognito_headers() -> Seq<(Seq<char>, Seq<char>)> {
    seq![
        (
            "user-agent"@,
            "aws-sdk-android/2.22.6 Linux/6.1.23-android14-4-00257-g7e35917775b8-ab9964412 Dalvik/2.1.0/0 en_US"@,
        ),
        ("x-amz-target"@, "AWSCognitoIdentityService.GetCredentialsForIdentity"@),
        ("content-type"@, "application/x-amz-json-1.1"@),
    ]
}

pub open spec fn credentials_body(identity: Seq<char>, cognito_token: Seq<char>) -> json::Json {
    json::Json::Object(
        json::no_members().insert("IdentityId"@, json::Json::Text(identity)).insert(
            "Logins"@,
            json::Json::Object(
                json::no_members().insert(
                    "cognito-identity.amazonaws.com"@,
                    json::Json::Text(cognito_token),
                ),
            ),
        ),
    )
}

/// The request for AWS credentials, made in the name of the `sub` claim of the
/// Cognito token.
pub open spec fn credentials_sent(region: Seq<char>, cognito_token: Seq<char>) -> Result<
    http::RequestView,
    fault::FaultView,
> {
    match told(
        claim_of(cognito_token, "sub"@),
        "could not read `sub` claim from cognito_token"@,
    ) {
        Ok(identity) => Ok(
            http::RequestView {
                url: "https://cognito-identity."@ + region + ".amazonaws.com/"@,
                headers: cognito_headers(),
                body: Some(credentials_body(identity, cognito_token)),
            },
        ),
        Err(f) => Err(f),
    }
}

pub fn credentials_request(region: &str, cognito_token: &str) -> (r: Result<Request, Fault>)
    ensures
        fault::outcome(r) == credentials_sent(region@, cognito_token@),
{
    match tell(
        jwt_claim(cognito_token, "sub"),
        "could not read `sub` claim from cognito_token",
    ) {
        Ok(identity) => {
            let mut logins = json::members();
            json::put(
                &mut logins,
                "cognito-identity.amazonaws.com",
                json::from_text(cognito_token),
            );
            let mut m = json::members();
            json::put(&mut m, "IdentityId", json::from_text(identity.as_str()));
            json::put(&mut m, "Logins", json::object(logins));
            let mut h = Headers::new();
            h.add(
                "user-agent",
                "aws-sdk-android/2.22.6 Linux/6.1.23-android14-4-00257-g7e35917775b8-ab9964412 Dalvik/2.1.0/0 en_US",
            );
            h.add("x-amz-target", "AWSCognitoIdentityService.GetCredentialsForIdentity");
            h.add("content-type", "application/x-amz-json-1.1");
            assert(h@ == cognito_headers());
            Ok(
                Request {
                    url: text::cat3("https://cognito-identity.", region, ".amazonaws.com/"),
                    headers: h.list,
                    body: Some(json::object(m)),
                },
            )
        },
        Err(f) => Err(f),
    }
}

/// The seconds in the member `Expiration`, without their fraction.
pub open spec fn expiration_in(creds: json::Json) -> Option<u64> {
    match json::member(creds, "Expiration"@) {
        Some(e) => match json::as_bits(e) {
            Some(b) => Some(double::truncated_unsigned_of(b)),
            None => None,
        },
        None => None,
    }
}

/// What a `GetCredentialsForIdentity` answer says.
pub open spec fn credentials_in(j: json::Json) -> Result<AwsView, fault::FaultView> {
    match json::member(j, "Credentials"@) {
        None => Err(fault::plain("Cognito response missing Credentials"@)),
        Some(creds) => match text_in(creds, "AccessKeyId"@) {
            Ok(key) => match text_in(creds, "SecretKey"@) {
                Ok(secret) => match text_in(creds, "SessionToken"@) {
                    Ok(token) => Ok(
                        AwsView {
                            access_key_id: key,
                            secret_key: secret,
                            session_token: token,
                            expiration: expiration_in(creds),
                        },
                    ),
                    Err(f) => Err(f),
                },
                Err(f) => Err(f),
            },
            Err(f) => Err(f),
        },
    }
}

pub fn read_credentials(v: &Value) -> (r: Result<AwsCredentials, Fault>)
    ensures
        fault::outcome(r) == credentials_in(json::json_of(*v)),
{
    match json::get(v, "Credentials") {
        None => Err(Fault::plain("Cognito response missing Credentials")),
        Some(creds) => match get_text(creds, "AccessKeyId") {
            Ok(key) => match get_text(creds, "SecretKey") {
                Ok(secret) => match get_text(creds, "SessionToken") {
                    Ok(token) => {
                        let expiration = match json::get(creds, "Expiration") {
                            Some(e) => match json::to_bits(e) {
                                Some(b) => Some(double::truncated_unsigned(b)),
                                None => None,
                            },
                            None => None,
                        };
                        Ok(
                            AwsCredentials {
                                access_key_id: key,
                                secret_key: secret,
                                session_token: token,
                                expiration,
                            },
                        )
                    },
                    Err(f) => Err(f),
                },
                Err(f) => Err(f),
            },
            Err(f) => Err(f),
        },
    }
}

pub open spec fn credentials_reply(reply: Reply) -> Result<AwsView, fault::FaultView> {
    match document_of(reply, "GetCredentialsForIdentity"@) {
        Ok(j) => credentials_in(j),
        Err(f) => Err(f),
    }
}

pub fn get_aws_credentials(reply: &Reply) -> (r: Result<AwsCredentials, Fault>)
    requires
        reply.valid(),
    ensures
        fault::outcome(r) == credentials_reply(*reply),
{
    match json_or_err(reply, "GetCredentialsForIdentity") {
        Ok(v) => read_credentials(&v),
        Err(f) => Err(f),
    }
}

// ---------------------------------------------------------------------------
// the chain
// ---------------------------------------------------------------------------

/// How far the chain has come: what the stages so far have brought. The reply
/// to the request of the next stage moves it on.
pub enum Stage {
    Login { username: String },
    CloudUrls { login: LoginResult },
    Tokens { login: LoginResult, urls: CloudUrls },
    Credentials { login: LoginResult, urls: CloudUrls, tokens: Tokens },
}

pub enum StageView {
    Login { username: Seq<char> },
    CloudUrls { login: LoginView },
    Tokens { login: LoginView, urls: CloudUrlsView },
    Credentials { login: LoginView, urls: CloudUrlsView, tokens: TokensView },
}

impl View for Stage {
    type V = StageView;

    open spec fn view(&self) -> StageView {
        match self {
            Stage::Login { username } => StageView::Login { username: username@ },
            Stage::CloudUrls { login } => StageView::CloudUrls { login: login@ },
            Stage::Tokens { login, urls } => StageView::Tokens { login: login@, urls: urls@ },
            Stage::Credentials { login, urls, tokens } => StageView::Credentials {
                login: login@,
                urls: urls@,
                tokens: tokens@,
            },
        }
    }
}

/// What to do next: send a request and wait for its reply, or use the session.
pub enum Progress {
    Send(Stage, Request),
    Done(Session),
}

pub enum ProgressView {
    Send(StageView, http::RequestView),
    Done(SessionView),
}

impl View for Progress {
    type V = ProgressView;

    open spec fn view(&self) -> ProgressView {
        match self {
            Progress::Send(stage, request) => ProgressView::Send(stage@, request@),
            Progress::Done(session) => ProgressView::Done(session@),
        }
    }
}

/// The session that the four stages make together.
pub open spec fn session_of(
    login: LoginView,
    urls: CloudUrlsView,
    tokens: TokensView,
    aws: AwsView,
) -> SessionView {
    SessionView {
        username: login.username,
        country: login.country,
        saas_token: tokens.saas_token,
        device_url: urls.device_url,
        aws_region: urls.cloud_region,
        iot_endpoint: tokens.mqtt_endpoint,
        aws,
    }
}

/// Where the reply to its request leads a stage.
pub open spec fn advanced(stage: StageView, reply: Reply) -> Result<
    ProgressView,
    fault::FaultView,
> {
    match stage {
        StageView::Login { username } => match login_reply(reply, username) {
            Ok(login) => Ok(
                ProgressView::Send(
                    StageView::CloudUrls { login },
                    cloud_urls_sent(login.username, login.token),
                ),
            ),
            Err(f) => Err(f),
        },
        StageView::CloudUrls { login } => match cloud_urls_reply(reply) {
            Ok(urls) => Ok(
                ProgressView::Send(
                    StageView::Tokens { login, urls },
                    tokens_sent(urls.cloud_url, login.username, login.token),
                ),
            ),
            Err(f) => Err(f),
        },
        StageView::Tokens { login, urls } => match tokens_reply(reply) {
            Ok(tokens) => match credentials_sent(urls.cloud_region, tokens.cognito_token) {
                Ok(request) => Ok(
                    ProgressView::Send(StageView::Credentials { login, urls, tokens }, request),
                ),
                Err(f) => Err(f),
            },
            Err(f) => Err(f),
        },
        StageView::Credentials { login, urls, tokens } => match credentials_reply(reply) {
            Ok(aws) => Ok(ProgressView::Done(session_of(login, urls, tokens, aws))),
            Err(f) => Err(f),
        },
    }
}

/// Starts the authentication chain.
pub fn login(username: &str, password: &str) -> (r: Progress)
    ensures
        r@ == ProgressView::Send(
            StageView::Login { username: username@ },
            login_sent(username@, password@),
        ),
{
    Progress::Send(
        Stage::Login { username: text::owned(username) },
        login_request(username, password),
    )
}

/// Moves the authentication chain on by one reply.
pub fn advance(stage: Stage, reply: &Reply) -> (r: Result<Progress, Fault>)
    requires
        reply.valid(),
    ensures
        fault::outcome(r) == advanced(stage@, *reply),
{
    match stage {
        Stage::Login { username } => match do_login(reply, username.as_str()) {
            Ok(login) => {
                let request = cloud_urls_request(login.username.as_str(), login.token.as_str());
                Ok(Progress::Send(Stage::CloudUrls { login }, request))
            },
            Err(f) => Err(f),
        },
        Stage::CloudUrls { login } => match get_cloud_urls(reply) {
            Ok(urls) => {
                let request = tokens_request(
                    urls.cloud_url.as_str(),
                    login.username.as_str(),
                    login.token.as_str(),
                );
                Ok(Progress::Send(Stage::Tokens { login, urls }, request))
            },
            Err(f) => Err(f),
        },
        Stage::Tokens { login, urls } => match refresh_tokens(reply) {
            Ok(tokens) => match credentials_request(
                urls.cloud_region.as_str(),
                tokens.cognito_token.as_str(),
            ) {
                Ok(request) => Ok(
                    Progress::Send(Stage::Credentials { login, urls, tokens }, request),
                ),
                Err(f) => Err(f),
            },
            Err(f) => Err(f),
        },
        Stage::Credentials { login, urls, tokens } => match get_aws_credentials(reply) {
            Ok(aws) => Ok(
                Progress::Done(
                    Session {
                        username: login.username,
                        country: login.country,
                        saas_token: tokens.saas_token,
                        device_url: urls.device_url,
                        aws_region: urls.cloud_region,
                        iot_endpoint: tokens.mqtt_endpoint,
                        aws,
                    },
                ),
            ),
            Err(f) => Err(f),
        },
    }
}

impl Stage {
    /// The message for a request of this stage that could not be sent.
    pub open spec fn failure_text(self) -> Seq<char> {
        match self {
            Stage::Login { .. } => "login request failed"@,
            Stage::CloudUrls { .. } => "cloud_url_get request failed"@,
            Stage::Tokens { .. } => "refresh_tokens request failed"@,
            Stage::Credentials { .. } => "Cognito GetCredentialsForIdentity request failed"@,
        }
    }

    pub fn failure(&self) -> (r: &'static str)
        ensures
            r@ == self.failure_text(),
    {
        match self {
            Stage::Login { .. } => "login request failed",
            Stage::CloudUrls { .. } => "cloud_url_get request failed",
            Stage::Tokens { .. } => "refresh_tokens request failed",
            Stage::Credentials { .. } => "Cognito GetCredentialsForIdentity request failed",
        }
    }
}

} // verus!
