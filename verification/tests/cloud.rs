use base64::Engine;
use serde_json::Value;
use tclac::auth::{self, AwsCredentials, Progress, Session, Stage};
use tclac::cache;
use tclac::config::{self, Config, ConfigFile, Environment, Loaded, PasswordKey, PasswordStep};
use tclac::device::{self, AcState};
use tclac::fault::Fault;
use tclac::http::{Header, Reply, Request};
use tclac::iot::{self, ServiceFailure};
use tclac::rest::{self, Device};

fn parse(s: &str) -> Value {
    serde_json::from_str(s).unwrap()
}

fn reply(status: u16, body: &str) -> Reply {
    Reply { status, body: body.to_string() }
}

fn session() -> Session {
    Session {
        username: "u".to_string(),
        country: "DE".to_string(),
        saas_token: "tok".to_string(),
        device_url: "https://dev".to_string(),
        aws_region: "eu".to_string(),
        iot_endpoint: None,
        aws: AwsCredentials {
            access_key_id: "a".to_string(),
            secret_key: "s".to_string(),
            session_token: "t".to_string(),
            expiration: Some(1000),
        },
    }
}

fn messages(f: &Fault) -> Vec<String> {
    match f {
        Fault::Plain(m) => vec![m.clone()],
        Fault::Wrapping(m, inner) => {
            let mut v = vec![m.clone()];
            v.extend(messages(inner));
            v
        }
        Fault::Json(_) => vec!["<json>".to_string()],
        Fault::Base64(_) => vec!["<base64>".to_string()],
    }
}

fn message<T>(r: Result<T, Fault>) -> String {
    match r {
        Ok(_) => panic!("no failure"),
        Err(f) => messages(&f).join(" / "),
    }
}

fn header<'a>(headers: &'a [Header], name: &str) -> &'a str {
    headers.iter().find(|h| h.name == name).map(|h| h.value.as_str()).unwrap_or("<none>")
}

fn jwt(payload: &str) -> String {
    let b64 = base64::engine::general_purpose::URL_SAFE_NO_PAD.encode(payload);
    format!("head.{b64}.sig")
}

fn sent(p: Result<Progress, Fault>) -> (Stage, Request) {
    match p {
        Ok(Progress::Send(s, r)) => (s, r),
        Ok(Progress::Done(_)) => panic!("done"),
        Err(f) => panic!("{:?}", messages(&f)),
    }
}

#[test]
fn login_request_carries_the_digest() {
    let r = auth::login_request("me", "abcdefghijklmnopqrstuvwxyz");
    assert_eq!(r.url, "https://pa.account.tcl.com/account/login?clientId=54148614");
    let body = r.body.unwrap();
    assert_eq!(body["password"], "c3fcd3d76192e4007dfb496cca67e13b");
    assert_eq!(body["username"], "me");
    assert_eq!(body["equipment"], 2);
    assert_eq!(body["captchaRule"], 2);
    assert_eq!(body.as_object().unwrap().len(), 9);
    assert_eq!(header(&r.headers, "th_appbulid"), "830");
    assert_eq!(r.headers.len(), 5);
}

#[test]
fn authentication_chain_runs_to_a_session() {
    let (stage, request) = sent(Ok(auth::login("me", "pw")));
    assert_eq!(request.body.unwrap()["username"], "me");
    assert_eq!(stage.failure(), "login request failed");
    let body = r#"{"status":1,"token":"T","user":{"username":"you","countryAbbr":"DE"}}"#;
    let (stage, request) = sent(auth::advance(stage, &reply(200, body)));
    assert_eq!(request.url, "https://prod-center.aws.tcljd.com/v3/global/cloud_url_get");
    assert_eq!(request.body.unwrap(), parse(r#"{"ssoId":"you","ssoToken":"T"}"#));
    assert_eq!(stage.failure(), "cloud_url_get request failed");
    let body = r#"{"data":{"cloud_url":"https://c//","device_url":"https://d/","cloud_region":"eu-1"}}"#;
    let (stage, request) = sent(auth::advance(stage, &reply(200, body)));
    assert_eq!(request.url, "https://c/v3/auth/refresh_tokens");
    assert_eq!(
        request.body.unwrap(),
        parse(r#"{"userId":"you","ssoToken":"T","appId":"wx6e1af3fa84fbe523"}"#)
    );
    assert_eq!(stage.failure(), "refresh_tokens request failed");
    let token = jwt(r#"{"sub":"identity"}"#);
    let body = format!(r#"{{"data":{{"saasToken":"S","cognito_token":"{token}","mqtt_endpoint":"h:8883"}}}}"#);
    let (stage, request) = sent(auth::advance(stage, &reply(200, &body)));
    assert_eq!(request.url, "https://cognito-identity.eu-1.amazonaws.com/");
    let sent_body = request.body.unwrap();
    assert_eq!(sent_body["IdentityId"], "identity");
    assert_eq!(sent_body["Logins"]["cognito-identity.amazonaws.com"], token.as_str());
    assert_eq!(
        header(&request.headers, "x-amz-target"),
        "AWSCognitoIdentityService.GetCredentialsForIdentity"
    );
    assert_eq!(stage.failure(), "Cognito GetCredentialsForIdentity request failed");
    let body = r#"{"Credentials":{"AccessKeyId":"A","SecretKey":"K","SessionToken":"X","Expiration":1.7e9}}"#;
    match auth::advance(stage, &reply(200, body)) {
        Ok(Progress::Done(s)) => {
            assert_eq!(s.username, "you");
            assert_eq!(s.country, "DE");
            assert_eq!(s.saas_token, "S");
            assert_eq!(s.device_url, "https://d");
            assert_eq!(s.aws_region, "eu-1");
            assert_eq!(s.iot_endpoint.as_deref(), Some("h:8883"));
            assert_eq!(s.aws.access_key_id, "A");
            assert_eq!(s.aws.secret_key, "K");
            assert_eq!(s.aws.session_token, "X");
            assert_eq!(s.aws.expiration, Some(1_700_000_000));
        }
        _ => panic!("no session"),
    }
}

#[test]
fn login_refusals_are_told() {
    let say = |body: &str| message(auth::do_login(&reply(200, body), "me"));
    assert_eq!(
        say(r#"{"status":3,"msg":"wrong"}"#),
        "login rejected (status=3) (check email/password): wrong"
    );
    assert_eq!(say(r#"{"status":9,"message":"m"}"#), "login rejected (status=9): m");
    assert_eq!(say(r#"{"errorMessage":"e"}"#), "login rejected (status=0): e");
    // the first of the members decides, though it is no string
    assert_eq!(
        say(r#"{"msg":5,"message":"m"}"#),
        r#"login rejected (status=0): {"message":"m","msg":5}"#
    );
    assert_eq!(
        say(r#"{"status":1}"#),
        "login response missing `token` / missing field `token`"
    );
    assert_eq!(
        say(r#"{"status":1,"token":7}"#),
        "login response missing `token` / field `token` is not a string"
    );
    let long = format!(r#"{{"x":"{}"}}"#, "a".repeat(400));
    let told = say(&long);
    assert!(told.ends_with("aa…"));
    assert_eq!(told.len(), "login rejected (status=0): ".len() + 300 + "…".len());
    let wide = format!(r#"{{"x":"{}"}}"#, "é".repeat(400));
    assert!(say(&wide).ends_with("é…"));
    let shifted = format!(r#"{{"xy":"{}"}}"#, "é".repeat(400));
    let cut = say(&shifted);
    assert!(cut.ends_with("é…"));
    assert_eq!(cut.len(), "login rejected (status=0): ".len() + 299 + "…".len());
}

#[test]
fn login_falls_back_to_the_given_name() {
    let r = auth::do_login(&reply(200, r#"{"status":1,"token":"T"}"#), "me").ok().unwrap();
    assert_eq!((r.token.as_str(), r.username.as_str(), r.country.as_str()), ("T", "me", ""));
    let r = auth::do_login(
        &reply(200, r#"{"status":1,"token":"T","user":{"country_abbr":"FR","countryAbbr":"DE"}}"#),
        "me",
    )
    .ok()
    .unwrap();
    assert_eq!(r.country, "FR");
}

#[test]
fn http_failures_are_told() {
    assert_eq!(
        message(auth::json_or_err(&reply(404, "gone"), "login")),
        "login returned HTTP 404 Not Found: gone"
    );
    assert_eq!(
        message(auth::json_or_err(&reply(599, ""), "x")),
        "x returned HTTP 599 <unknown status code>: "
    );
    assert_eq!(
        message(auth::json_or_err(&reply(200, "<html>"), "x")),
        "x returned non-JSON body: <html> / <json>"
    );
    assert_eq!(message(auth::json_or_err(&reply(500, &"é".repeat(300)), "x")).len(), "x returned HTTP 500 Internal Server Error: ".len() + 400 + 3);
    let shifted = format!("a{}", "é".repeat(300));
    assert_eq!(
        message(auth::json_or_err(&reply(500, &shifted), "x")),
        format!("x returned HTTP 500 Internal Server Error: a{}…", "é".repeat(199))
    );
    assert_eq!(
        message(auth::json_or_err(&reply(200, &shifted), "x")),
        format!("x returned non-JSON body: a{}… / <json>", "é".repeat(199))
    );
}

#[test]
fn missing_urls_and_tokens_are_told() {
    assert_eq!(
        message(auth::get_cloud_urls(&reply(200, "{}"))),
        "cloud_url_get response missing data.cloud_url / missing field `cloud_url`"
    );
    assert_eq!(
        message(auth::get_cloud_urls(&reply(200, r#"{"data":{"cloud_url":"a"}}"#))),
        "cloud_url_get response missing data.device_url / missing field `device_url`"
    );
    assert_eq!(
        message(auth::get_cloud_urls(&reply(200, r#"{"data":{"cloud_url":"a","device_url":"b"}}"#))),
        "cloud_url_get response missing data.cloud_region / missing field `cloud_region`"
    );
    assert_eq!(
        message(auth::refresh_tokens(&reply(200, "{}"))),
        "refresh_tokens response missing saas_token / missing field `saasToken`"
    );
    assert_eq!(
        message(auth::refresh_tokens(&reply(200, r#"{"data":{"saas_token":"s"}}"#))),
        "refresh_tokens response missing cognito_token / missing field `cognitoToken`"
    );
    let t = auth::refresh_tokens(&reply(200, r#"{"data":{"saas_token":"s","cognitoToken":"c","mqttEndpoint":""}}"#))
        .ok()
        .unwrap();
    assert_eq!(t.mqtt_endpoint, None);
    assert_eq!(
        message(auth::get_aws_credentials(&reply(200, "{}"))),
        "Cognito response missing Credentials"
    );
    assert_eq!(
        message(auth::get_aws_credentials(&reply(200, r#"{"Credentials":{"AccessKeyId":"a"}}"#))),
        "missing field `SecretKey`"
    );
}

#[test]
fn claims_are_read() {
    assert_eq!(auth::jwt_claim(&jwt(r#"{"sub":"x?y"}"#), "sub").ok().unwrap(), "x?y");
    assert_eq!(message(auth::jwt_claim("nodots", "sub")), "malformed JWT");
    assert_eq!(
        message(auth::jwt_claim("a.b!.c", "sub")),
        "JWT payload is not valid base64url / <base64>"
    );
    assert_eq!(message(auth::jwt_claim(&jwt("nope"), "sub")), "JWT payload is not JSON / <json>");
    assert_eq!(message(auth::jwt_claim(&jwt(r#"{"sub":1}"#), "sub")), "JWT missing claim `sub`");
    assert_eq!(
        message(auth::credentials_request("eu", "nodots")),
        "could not read `sub` claim from cognito_token / malformed JWT"
    );
}

#[test]
fn nested_strings_are_found() {
    let v = parse(r#"{"a":{"b":"x","c":1}}"#);
    let path = |p: &[&str]| p.iter().map(|s| s.to_string()).collect::<Vec<_>>();
    assert_eq!(auth::get_str(&v, &path(&["a", "b"])).ok().unwrap(), "x");
    assert_eq!(message(auth::get_str(&v, &path(&["a", "d"]))), "missing field `a.d`");
    assert_eq!(message(auth::get_str(&v, &path(&["a", "c"]))), "field `a.c` is not a string");
    assert_eq!(message(auth::get_str(&v, &path(&[]))), "field `` is not a string");
}

#[test]
fn calls_are_signed() {
    let h = rest::sign_at(&session(), "1700000000000", "abcdefghijklmnop").list;
    assert_eq!(h.len(), 11);
    assert_eq!(header(&h, "accesstoken"), "tok");
    assert_eq!(header(&h, "countrycode"), "DE");
    assert_eq!(header(&h, "timestamp"), "1700000000000");
    assert_eq!(header(&h, "nonce"), "abcdefghijklmnop");
    let digest = format!("{:x}", md5::compute("1700000000000abcdefghijklmnoptok"));
    assert_eq!(header(&h, "sign"), digest);
    let r = rest::signed_get(&session(), "https://x");
    assert_eq!(r.url, "https://x");
    assert!(r.body.is_none());
    let ts = header(&r.headers, "timestamp").to_string();
    let nonce = header(&r.headers, "nonce").to_string();
    assert!(ts.parse::<u128>().is_ok());
    assert_eq!(
        header(&r.headers, "sign"),
        format!("{:x}", md5::compute(format!("{ts}{nonce}tok")))
    );
}

#[test]
fn a_nonce_follows_its_draws() {
    let draws = vec![0, 1, 25, 26, 27, 35, 2, 34, 12, 12, 13, 30, 9, 20, 31, 0];
    assert_eq!(rest::nonce_of(&draws), "abz019c8mmn4ju5a");
    assert_eq!(rest::nonce_of(&vec![35; 16]), "9999999999999999");
}

#[test]
fn nonces_are_random_letters_and_digits() {
    let a = rest::nonce();
    let b = rest::nonce();
    assert_ne!(a, b);
    for n in [a, b] {
        assert_eq!(n.len(), 16);
        assert!(n.chars().all(|c| c.is_ascii_lowercase() || c.is_ascii_digit()));
    }
    assert!(rest::timestamp_ms().parse::<u128>().unwrap() > 1_600_000_000_000);
}

#[test]
fn devices_are_read() {
    let req = rest::get_things_request(&session());
    assert_eq!(req.url, "https://dev/v3/user/get_things");
    assert_eq!(req.body, Some(parse("{}")));
    let body = r#"{"data":[
        {"deviceId":"a","nick_name":"Den","device_name":"Split AC","is_online":"1","firmwareVersion":"2"},
        {"nick_name":"no id"},
        {"device_id":"b","isOnline":true},
        {"device_id":"c","is_online":"x","isOnline":0}
    ]}"#;
    let d = rest::get_things(&reply(200, body)).ok().unwrap();
    assert_eq!(d.len(), 3);
    assert_eq!(
        (d[0].device_id.as_str(), d[0].nick_name.as_str(), d[0].device_name.as_str()),
        ("a", "Den", "Split AC")
    );
    assert!(d[0].is_online);
    assert_eq!(d[0].firmware_version, "2");
    assert_eq!(rest::display_name(&d[0]), "Den");
    assert!(d[1].is_online);
    assert!(!d[2].is_online);
    assert_eq!(rest::display_name(&d[2]), "");
    assert_eq!(rest::find_device(&d, "b"), Some(1));
    assert_eq!(rest::find_device(&d, "x"), None);
}

#[test]
fn listing_failures_are_told() {
    assert_eq!(
        message(rest::get_things(&reply(503, "busy"))),
        "get_things returned HTTP 503 Service Unavailable: busy"
    );
    assert_eq!(
        message(rest::get_things(&reply(200, "x"))),
        "get_things returned non-JSON: x / <json>"
    );
    assert_eq!(
        message(rest::get_things(&reply(200, r#"{"data":{}}"#))),
        r#"get_things response has no `data` array: {"data":{}}"#
    );
}

#[test]
fn lenient_fields() {
    let v = parse(r#"{"a":5,"b":"7","c":true,"d":"x","e":1.5,"f":"s"}"#);
    assert_eq!(rest::int_field(&v, "a", "b"), Some(5));
    assert_eq!(rest::int_field(&v, "z", "b"), Some(7));
    assert_eq!(rest::int_field(&v, "c", "b"), Some(1));
    assert_eq!(rest::int_field(&v, "d", "b"), Some(7));
    assert_eq!(rest::int_field(&v, "e", "d"), None);
    assert_eq!(rest::str_field(&v, "a", "f"), "s");
    assert_eq!(rest::str_field(&v, "a", "z"), "");
}

#[test]
fn hosts_are_bare() {
    for (ep, host) in [
        ("abc.iot.eu.amazonaws.com", Some("abc.iot.eu.amazonaws.com")),
        ("https://abc.com/", Some("abc.com")),
        (" ssl://abc.com:8883/mqtt ", Some("abc.com")),
        ("mqtt://tls://abc", Some("abc")),
        ("mqtts://abc.example.com:8883", Some("abc.example.com")),
        ("https://abc/x?u=http://y", Some("abc")),
        ("://abc", None),
        ("wss://mqtt://abc", Some("abc")),
        ("https://https://abc", Some("abc")),
        ("abc :80", Some("abc")),
        ("", None),
        ("https://", None),
        (":8883", None),
    ] {
        let h = iot::normalise_host(ep);
        assert_eq!(h.as_deref(), host, "{ep}");
        if let Some(h) = h {
            assert_eq!(iot::normalise_host(&h), Some(h));
        }
    }
    assert_eq!(iot::endpoint_url(&Some("ssl://h:8883".to_string())).as_deref(), Some("https://h"));
    assert_eq!(iot::endpoint_url(&Some(" ".to_string())), None);
    assert_eq!(iot::endpoint_url(&None), None);
}

#[test]
fn commands_are_published() {
    let p = iot::set_desired_at("thing1", parse(r#"{"powerSwitch":1}"#), 1700000000).ok().unwrap();
    assert_eq!(p.topic, "$aws/things/thing1/shadow/update");
    assert_eq!(
        String::from_utf8(p.payload).unwrap(),
        r#"{"clientToken":"mobile_1700000000","state":{"desired":{"powerSwitch":1}}}"#
    );
    let now = iot::set_desired("t", parse("{}")).ok().unwrap();
    let doc: Value = serde_json::from_slice(&now.payload).unwrap();
    assert!(doc["clientToken"].as_str().unwrap().starts_with("mobile_1"));
}

#[test]
fn published_commands_read_back() {
    let p = iot::set_desired_at("t", device::cmd_temp(21, 16, 31), 5).ok().unwrap();
    let doc = iot::get_shadow(Some(&p.payload[..])).ok().unwrap();
    let s = AcState::from_shadow(&doc);
    assert_eq!(f64::from_bits(s.target_temp.unwrap().bits()), 21.0);
    assert_eq!(s.target_f, Some(70));
}

#[test]
fn shadows_are_read_from_payloads() {
    assert_eq!(iot::get_shadow(Some(&b"{\"a\":1}"[..])).ok().unwrap(), parse(r#"{"a":1}"#));
    assert_eq!(message(iot::get_shadow(None)), "GetThingShadow returned empty payload");
    assert_eq!(
        message(iot::get_shadow(Some(&b"x"[..]))),
        "shadow payload was not valid JSON / <json>"
    );
}

#[test]
fn service_failures_are_told() {
    let svc = |code: Option<&str>, message: Option<&str>| {
        iot::service_error(&ServiceFailure::Service {
            code: code.map(|s| s.to_string()),
            message: message.map(|s| s.to_string()),
        })
    };
    assert_eq!(svc(Some("C"), Some("m")), "C: m");
    assert_eq!(svc(Some("C"), Some("")), "C");
    assert_eq!(svc(Some("C"), None), "C");
    assert_eq!(svc(None, Some("m")), "service error");
    assert_eq!(iot::service_error(&ServiceFailure::Timeout), "timed out");
    assert_eq!(iot::service_error(&ServiceFailure::Dispatch), "connection failure (network/DNS)");
    assert_eq!(iot::service_error(&ServiceFailure::Response), "unexpected response");
    assert_eq!(iot::service_error(&ServiceFailure::Construction), "request construction failed");
    assert_eq!(iot::service_error(&ServiceFailure::Other), "unknown error");
    assert_eq!(messages(&iot::read_failure(&ServiceFailure::Timeout)), vec!["read state: timed out"]);
    assert_eq!(messages(&iot::publish_failure(&ServiceFailure::Timeout)), vec!["publish command: timed out"]);
}

fn env(u: Option<&str>, p: Option<&str>, d: Option<&str>) -> Environment {
    Environment {
        username: u.map(|s| s.to_string()),
        password: p.map(|s| s.to_string()),
        device_id: d.map(|s| s.to_string()),
    }
}

fn file(u: &str, p: &str) -> ConfigFile {
    ConfigFile::Read(Config {
        username: u.to_string(),
        password: p.to_string(),
        device_id: Some("f".to_string()),
    })
}

#[test]
fn environment_wins_over_the_file() {
    match Config::load(env(Some("u"), Some("p"), Some("")), file("x", "y")) {
        Loaded::Found(c) => {
            assert_eq!((c.username.as_str(), c.password.as_str()), ("u", "p"));
            assert_eq!(c.device_id, None);
        }
        _ => panic!("not found"),
    }
    assert!(matches!(Config::load(env(Some("u"), None, None), ConfigFile::Unread), Loaded::ReadFile));
    match Config::load(env(Some("u"), Some(""), None), file("x", "y")) {
        Loaded::Found(c) => assert_eq!(c.device_id.as_deref(), Some("f")),
        _ => panic!("not found"),
    }
    assert!(matches!(Config::load(env(None, None, None), file("x", "")), Loaded::Ask));
    assert!(matches!(Config::load(env(None, None, None), ConfigFile::Missing), Loaded::Ask));
}

#[test]
fn prompts_are_read() {
    let c = Config::prompted("  me \t", " pw ");
    assert_eq!((c.username.as_str(), c.password.as_str()), ("me", " pw "));
    assert_eq!(c.device_id, None);
    assert!(config::wants_save(" Y \n"));
    assert!(!config::wants_save("yes"));
    assert!(!config::wants_save(""));
}

#[test]
fn passwords_are_typed() {
    let mut pw: Vec<char> = Vec::new();
    let key = |c: char, ctrl: bool| PasswordKey::Char { c, ctrl };
    assert_eq!(config::type_password(&mut pw, PasswordKey::Backspace), PasswordStep::More);
    assert_eq!(config::type_password(&mut pw, key('ä', false)), PasswordStep::More);
    assert_eq!(config::type_password(&mut pw, key('c', false)), PasswordStep::More);
    assert_eq!(config::type_password(&mut pw, key('x', true)), PasswordStep::More);
    assert_eq!(config::type_password(&mut pw, PasswordKey::Backspace), PasswordStep::More);
    assert_eq!(config::type_password(&mut pw, PasswordKey::Other), PasswordStep::More);
    assert_eq!(pw, vec!['ä', 'c']);
    assert_eq!(config::type_password(&mut pw, key('c', true)), PasswordStep::Cancelled);
    assert_eq!(config::type_password(&mut pw, PasswordKey::Enter), PasswordStep::Done);
    assert_eq!(pw.len(), 2);
}

#[test]
fn cached_sessions_expire() {
    let d = || Device {
        device_id: "a".to_string(),
        nick_name: "".to_string(),
        device_name: "".to_string(),
        is_online: false,
        firmware_version: "".to_string(),
    };
    assert!(cache::load_valid_at(session(), d(), 939).is_some());
    assert!(cache::load_valid_at(session(), d(), 940).is_none());
    assert!(cache::load_valid_at(session(), d(), u64::MAX).is_none());
    let mut s = session();
    s.aws.expiration = None;
    assert!(cache::load_valid_at(s, d(), 0).is_none());
    assert!(cache::load_valid(session(), d()).is_none());
    let mut s = session();
    s.aws.expiration = Some(u64::MAX);
    assert_eq!(cache::load_valid(s, d()).unwrap().1.device_id, "a");
}
