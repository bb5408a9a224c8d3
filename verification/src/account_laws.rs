//! Laws of the account: what the replies of the cloud are read as, what the
//! requests carry, and what the command line and the settings ask for.

use crate::auth;
use crate::cli;
use crate::cloud_laws;
use crate::config;
use crate::device;
use crate::double;
use crate::fault;
use crate::iot;
use crate::json;
use crate::launch;
use crate::laws;
use crate::rest;
use crate::text;
use json::{Json, JsonNumber};
use rest::DeviceView;
use vstd::prelude::*;

verus! {

// ---------------------------------------------------------------------------
// replies of the authentication chain
// ---------------------------------------------------------------------------

proof fn lemma_text_in(m: Map<Seq<char>, Json>, key: Seq<char>, s: Seq<char>)
    requires
        m.contains_key(key),
        m[key] == Json::Text(s),
    ensures
        auth::text_in(Json::Object(m), key) == Ok::<Seq<char>, fault::FaultView>(s),
{
    reveal_with_fuel(auth::at_path, 2);
    assert(seq![key].drop_last() =~= Seq::<Seq<char>>::empty());
    assert(seq![key].last() == key);
}

proof fn lemma_no_text_in(m: Map<Seq<char>, Json>, key: Seq<char>)
    requires
        !m.contains_key(key),
    ensures
        auth::text_in(Json::Object(m), key) is Err,
{
    reveal_with_fuel(auth::at_path, 2);
    assert(seq![key].drop_last() =~= Seq::<Seq<char>>::empty());
    assert(seq![key].last() == key);
}

proof fn lemma_text_within(
    m: Map<Seq<char>, Json>,
    outer: Seq<char>,
    inner: Map<Seq<char>, Json>,
    key: Seq<char>,
)
    requires
        m.contains_key(outer),
        m[outer] == Json::Object(inner),
    ensures
        inner.contains_key(key) ==> (inner[key] matches Json::Text(s) ==> auth::text_at(
            Json::Object(m),
            seq![outer, key],
        ) == Ok::<Seq<char>, fault::FaultView>(s)),
        !inner.contains_key(key) ==> auth::text_at(Json::Object(m), seq![outer, key]) is Err,
{
    reveal_with_fuel(auth::at_path, 3);
    assert(seq![outer, key].drop_last() =~= seq![outer]);
    assert(seq![outer].drop_last() =~= Seq::<Seq<char>>::empty());
    assert(seq![outer, key].last() == key);
    assert(seq![outer].last() == outer);
}

/// A login that worked gives the token, and the name and the country of the
/// user; the name that was typed stands in where the answer has none.
pub proof fn law_login_is_read(
    m: Map<Seq<char>, Json>,
    user: Map<Seq<char>, Json>,
    token: Seq<char>,
    name: Seq<char>,
    country: Seq<char>,
    typed: Seq<char>,
)
    ensures
        ({
            let doc = |u: Map<Seq<char>, Json>|
                Json::Object(
                    m.insert("status"@, json::whole(1)).insert("token"@, Json::Text(token)).insert(
                        "user"@,
                        Json::Object(u),
                    ),
                );
            let full = user.insert("username"@, Json::Text(name)).insert(
                "country_abbr"@,
                Json::Text(country),
            );
            let bare = json::no_members().insert("countryAbbr"@, Json::Text(country));
            &&& auth::logged_in(doc(full), typed) == Ok::<auth::LoginView, fault::FaultView>(
                auth::LoginView { token, username: name, country },
            )
            &&& auth::logged_in(doc(bare), typed) == Ok::<auth::LoginView, fault::FaultView>(
                auth::LoginView { token, username: typed, country },
            )
        }),
{
    reveal_strlit("status");
    reveal_strlit("token");
    reveal_strlit("user");
    reveal_strlit("username");
    reveal_strlit("country_abbr");
    reveal_strlit("countryAbbr");
    assert("status"@.len() == 6);
    assert("token"@.len() == 5);
    assert("user"@.len() == 4);
    assert("username"@.len() == 8);
    assert("country_abbr"@.len() == 12);
    assert("countryAbbr"@.len() == 11);
    let full = user.insert("username"@, Json::Text(name)).insert(
        "country_abbr"@,
        Json::Text(country),
    );
    let bare = json::no_members().insert("countryAbbr"@, Json::Text(country));
    let base = m.insert("status"@, json::whole(1)).insert("token"@, Json::Text(token));
    let d1 = base.insert("user"@, Json::Object(full));
    let d2 = base.insert("user"@, Json::Object(bare));
    lemma_text_in(d1, "token"@, token);
    lemma_text_in(d2, "token"@, token);
    lemma_text_within(d1, "user"@, full, "username"@);
    lemma_text_within(d1, "user"@, full, "country_abbr"@);
    lemma_text_within(d2, "user"@, bare, "username"@);
    lemma_text_within(d2, "user"@, bare, "country_abbr"@);
    lemma_text_within(d2, "user"@, bare, "countryAbbr"@);
}

/// A login with any other status than 1 is rejected, with that status and the
/// message of the server; status 3 comes with a hint.
pub proof fn law_login_is_rejected(
    m: Map<Seq<char>, Json>,
    status: i64,
    message: Seq<char>,
    typed: Seq<char>,
)
    requires
        status != 1,
    ensures
        auth::logged_in(
            Json::Object(
                m.insert("status"@, json::whole(status as int)).insert("msg"@, Json::Text(message)),
            ),
            typed,
        ) == Err::<auth::LoginView, fault::FaultView>(
            fault::FaultView::Plain(
                "login rejected (status="@ + text::dec_int(status as int) + ")"@ + (if status == 3 {
                    " (check email/password)"@
                } else {
                    ""@
                }) + ": "@ + message,
            ),
        ),
        auth::logged_in(Json::Object(m.remove("status"@)), typed) is Err,
{
    reveal_strlit("status");
    reveal_strlit("msg");
    assert("status"@.len() != "msg"@.len());
}

/// The addresses and the region of an account are those of the answer, each
/// under its own name; an address loses the slashes at its end.
pub proof fn law_cloud_urls_are_read(
    m: Map<Seq<char>, Json>,
    cloud: Seq<char>,
    device: Seq<char>,
    region: Seq<char>,
)
    ensures
        auth::cloud_urls_in(
            Json::Object(
                m.insert("cloud_url"@, Json::Text(cloud)).insert(
                    "device_url"@,
                    Json::Text(device),
                ).insert("cloud_region"@, Json::Text(region)),
            ),
        ) == Ok::<auth::CloudUrlsView, fault::FaultView>(
            auth::CloudUrlsView {
                cloud_url: text::without_end(cloud, '/'),
                device_url: text::without_end(device, '/'),
                cloud_region: region,
            },
        ),
{
    reveal_strlit("cloud_url");
    reveal_strlit("device_url");
    reveal_strlit("cloud_region");
    assert("cloud_url"@.len() == 9);
    assert("device_url"@.len() == 10);
    assert("cloud_region"@.len() == 12);
    let d = m.insert("cloud_url"@, Json::Text(cloud)).insert(
        "device_url"@,
        Json::Text(device),
    ).insert("cloud_region"@, Json::Text(region));
    lemma_text_in(d, "cloud_url"@, cloud);
    lemma_text_in(d, "device_url"@, device);
    lemma_text_in(d, "cloud_region"@, region);
}

/// Characters at the end go, all of them, and nothing else does.
pub proof fn law_end_is_stripped(s: Seq<char>, c: char)
    ensures
        text::without_end(s.push(c), c) == text::without_end(s, c),
        s.len() == 0 || s.last() != c ==> text::without_end(s, c) == s,
{
    assert(s.push(c).drop_last() =~= s);
}

/// The tokens of a session are those of the answer, each under its own name, in
/// either spelling; an empty endpoint counts as none.
pub proof fn law_tokens_are_read(
    m: Map<Seq<char>, Json>,
    saas: Seq<char>,
    cognito: Seq<char>,
    endpoint: Seq<char>,
)
    ensures
        ({
            let view = Ok::<auth::TokensView, fault::FaultView>(
                auth::TokensView {
                    saas_token: saas,
                    cognito_token: cognito,
                    mqtt_endpoint: if endpoint.len() > 0 {
                        Some(endpoint)
                    } else {
                        None
                    },
                },
            );
            &&& auth::tokens_in(
                Json::Object(
                    m.insert("saas_token"@, Json::Text(saas)).insert(
                        "cognito_token"@,
                        Json::Text(cognito),
                    ).insert("mqtt_endpoint"@, Json::Text(endpoint)),
                ),
            ) == view
            &&& auth::tokens_in(
                Json::Object(
                    json::no_members().insert("saasToken"@, Json::Text(saas)).insert(
                        "cognitoToken"@,
                        Json::Text(cognito),
                    ).insert("mqttEndpoint"@, Json::Text(endpoint)),
                ),
            ) == view
        }),
{
    reveal_strlit("saas_token");
    reveal_strlit("cognito_token");
    reveal_strlit("mqtt_endpoint");
    reveal_strlit("saasToken");
    reveal_strlit("cognitoToken");
    reveal_strlit("mqttEndpoint");
    assert("saas_token"@.len() == 10);
    assert("cognito_token"@.len() == 13);
    assert("mqtt_endpoint"@.len() == 13);
    assert("saasToken"@.len() == 9);
    assert("cognitoToken"@.len() == 12);
    assert("mqttEndpoint"@.len() == 12);
    assert("cognito_token"@[0] != "mqtt_endpoint"@[0]);
    assert("cognitoToken"@[0] != "mqttEndpoint"@[0]);
    let d = m.insert("saas_token"@, Json::Text(saas)).insert(
        "cognito_token"@,
        Json::Text(cognito),
    ).insert("mqtt_endpoint"@, Json::Text(endpoint));
    lemma_text_in(d, "saas_token"@, saas);
    lemma_text_in(d, "cognito_token"@, cognito);
    lemma_text_in(d, "mqtt_endpoint"@, endpoint);
    let e = json::no_members().insert("saasToken"@, Json::Text(saas)).insert(
        "cognitoToken"@,
        Json::Text(cognito),
    ).insert("mqttEndpoint"@, Json::Text(endpoint));
    lemma_no_text_in(e, "saas_token"@);
    lemma_no_text_in(e, "cognito_token"@);
    lemma_no_text_in(e, "mqtt_endpoint"@);
    lemma_text_in(e, "saasToken"@, saas);
    lemma_text_in(e, "cognitoToken"@, cognito);
    lemma_text_in(e, "mqttEndpoint"@, endpoint);
}

/// The AWS credentials are those of the answer, each under its own name; they
/// expire at the whole second that it gives.
pub proof fn law_credentials_are_read(
    m: Map<Seq<char>, Json>,
    c: Map<Seq<char>, Json>,
    key: Seq<char>,
    secret: Seq<char>,
    token: Seq<char>,
    until: u64,
)
    ensures
        auth::credentials_in(
            Json::Object(
                m.insert(
                    "Credentials"@,
                    Json::Object(
                        c.insert("AccessKeyId"@, Json::Text(key)).insert(
                            "SecretKey"@,
                            Json::Text(secret),
                        ).insert("SessionToken"@, Json::Text(token)).insert(
                            "Expiration"@,
                            Json::Number(JsonNumber::Float(until)),
                        ),
                    ),
                ),
            ),
        ) == Ok::<auth::AwsView, fault::FaultView>(
            auth::AwsView {
                access_key_id: key,
                secret_key: secret,
                session_token: token,
                expiration: Some(double::truncated_unsigned_of(until)),
            },
        ),
{
    reveal_strlit("AccessKeyId");
    reveal_strlit("SecretKey");
    reveal_strlit("SessionToken");
    reveal_strlit("Expiration");
    assert("AccessKeyId"@.len() == 11);
    assert("SecretKey"@.len() == 9);
    assert("SessionToken"@.len() == 12);
    assert("Expiration"@.len() == 10);
    let creds = c.insert("AccessKeyId"@, Json::Text(key)).insert(
        "SecretKey"@,
        Json::Text(secret),
    ).insert("SessionToken"@, Json::Text(token)).insert(
        "Expiration"@,
        Json::Number(JsonNumber::Float(until)),
    );
    lemma_text_in(creds, "AccessKeyId"@, key);
    lemma_text_in(creds, "SecretKey"@, secret);
    lemma_text_in(creds, "SessionToken"@, token);
}

// ---------------------------------------------------------------------------
// requests of the authentication chain
// ---------------------------------------------------------------------------

/// The login carries the name as typed and the password as its digest, under
/// their own names. Nothing else of it rests on the password.
pub proof fn law_login_request(username: Seq<char>, password: Seq<char>, other: Seq<char>)
    ensures
        ({
            let m = laws::members(auth::login_sent(username, password).body);
            &&& m["username"@] == Json::Text(username)
            &&& m["password"@] == Json::Text(auth::md5_hex_of(password))
            &&& m.remove("password"@) == laws::members(
                auth::login_sent(username, other).body,
            ).remove("password"@)
            &&& auth::login_sent(username, password).url == auth::login_sent(username, other).url
            &&& auth::login_sent(username, password).headers == auth::login_sent(
                username,
                other,
            ).headers
        }),
{
    reveal_strlit("equipment");
    reveal_strlit("password");
    reveal_strlit("osType");
    reveal_strlit("username");
    reveal_strlit("clientVersion");
    reveal_strlit("osVersion");
    reveal_strlit("deviceModel");
    reveal_strlit("captchaRule");
    reveal_strlit("channel");
    assert("equipment"@.len() == 9);
    assert("password"@.len() == 8);
    assert("osType"@.len() == 6);
    assert("username"@.len() == 8);
    assert("clientVersion"@.len() == 13);
    assert("osVersion"@.len() == 9);
    assert("deviceModel"@.len() == 11);
    assert("captchaRule"@.len() == 11);
    assert("channel"@.len() == 7);
    assert("equipment"@[0] != "osVersion"@[0]);
    assert("password"@[0] != "username"@[0]);
    assert("deviceModel"@[0] != "captchaRule"@[0]);
    let a = laws::members(auth::login_sent(username, password).body);
    let b = laws::members(auth::login_sent(username, other).body);
    assert(a.remove("password"@) =~= b.remove("password"@));
}

/// The requests between carry the user and the token of the login, under their
/// own names, and go where the account lives.
pub proof fn law_token_requests(cloud: Seq<char>, username: Seq<char>, token: Seq<char>)
    ensures
        ({
            let m = laws::members(auth::cloud_urls_sent(username, token).body);
            &&& m.dom() == set!["ssoId"@, "ssoToken"@]
            &&& m["ssoId"@] == Json::Text(username)
            &&& m["ssoToken"@] == Json::Text(token)
        }),
        ({
            let r = auth::tokens_sent(cloud, username, token);
            let m = laws::members(r.body);
            &&& r.url == cloud + "/v3/auth/refresh_tokens"@
            &&& m.dom() == set!["userId"@, "ssoToken"@, "appId"@]
            &&& m["userId"@] == Json::Text(username)
            &&& m["ssoToken"@] == Json::Text(token)
        }),
{
    reveal_strlit("ssoId");
    reveal_strlit("ssoToken");
    reveal_strlit("userId");
    reveal_strlit("appId");
    assert("ssoId"@.len() == 5);
    assert("ssoToken"@.len() == 8);
    assert("userId"@.len() == 6);
    assert("appId"@.len() == 5);
    assert("ssoId"@[0] != "appId"@[0]);
    assert(laws::members(auth::cloud_urls_sent(username, token).body).dom() =~= set![
        "ssoId"@,
        "ssoToken"@,
    ]);
    assert(laws::members(auth::tokens_sent(cloud, username, token).body).dom() =~= set![
        "userId"@,
        "ssoToken"@,
        "appId"@,
    ]);
}

/// The credentials are asked for in the region of the account, in the name of
/// the identity in the token, with the token itself.
pub proof fn law_credentials_request(region: Seq<char>, token: Seq<char>, identity: Seq<char>)
    requires
        auth::claim_of(token, "sub"@) == Ok::<Seq<char>, fault::FaultView>(identity),
    ensures
        auth::credentials_sent(region, token) matches Ok(r) && r.url
            == "https://cognito-identity."@ + region + ".amazonaws.com/"@ && laws::members(
            r.body,
        )["IdentityId"@] == Json::Text(identity) && laws::members(r.body)["Logins"@]
            == Json::Object(
            json::no_members().insert("cognito-identity.amazonaws.com"@, Json::Text(token)),
        ),
{
    reveal_strlit("IdentityId");
    reveal_strlit("Logins");
    assert("IdentityId"@.len() != "Logins"@.len());
}

/// A session holds what each stage brought, in its own place.
pub proof fn law_session_places(
    login: auth::LoginView,
    urls: auth::CloudUrlsView,
    tokens: auth::TokensView,
    aws: auth::AwsView,
)
    ensures
        ({
            let s = auth::session_of(login, urls, tokens, aws);
            &&& s.username == login.username
            &&& s.country == login.country
            &&& s.saas_token == tokens.saas_token
            &&& s.device_url == urls.device_url
            &&& s.aws_region == urls.cloud_region
            &&& s.iot_endpoint == tokens.mqtt_endpoint
            &&& s.aws == aws
        }),
{
}

/// A reply that is no success is told with its status and what it says, whatever
/// stage it is of; so is one that is no JSON.
pub proof fn law_bad_replies_are_told(reply: crate::http::Reply, stage: Seq<char>)
    ensures
        !(200 <= reply.status < 300) ==> auth::document_of(reply, stage) == Err::<
            Json,
            fault::FaultView,
        >(
            fault::FaultView::Plain(
                stage + " returned HTTP "@ + crate::http::status_shown(reply.status) + ": "@
                    + text::shortened(reply.body@, 400),
            ),
        ),
        200 <= reply.status < 300 ==> (json::json_parsed(reply.body@) matches Some(j)
            ==> auth::document_of(reply, stage) == Ok::<Json, fault::FaultView>(j)),
        200 <= reply.status < 300 && json::json_parsed(reply.body@) is None ==> auth::document_of(
            reply,
            stage,
        ) is Err,
{
}

/// The text in a claim of a token is that of its payload, which stands between
/// its first two full stops.
pub proof fn law_claim_is_read(
    head: Seq<char>,
    body: Seq<char>,
    tail: Seq<char>,
    bytes: Seq<u8>,
    payload: Map<Seq<char>, Json>,
    claim: Seq<char>,
    s: Seq<char>,
)
    requires
        cloud_laws::lacks(head, '.'),
        cloud_laws::lacks(body, '.'),
        auth::base64url_decoded(body) == Some(bytes),
        json::json_parsed_bytes(bytes) == Some(Json::Object(payload)),
        payload.contains_key(claim),
        payload[claim] == Json::Text(s),
    ensures
        auth::claim_of(head + seq!['.'] + body + seq!['.'] + tail, claim) == Ok::<
            Seq<char>,
            fault::FaultView,
        >(s),
{
    let token = head + seq!['.'] + body + seq!['.'] + tail;
    lemma_after(token, head.len() as int, '.');
    let rest = token.skip(head.len() as int + 1);
    assert(rest =~= body + seq!['.'] + tail);
    lemma_before(rest, body.len() as int, '.');
    assert(rest.take(body.len() as int) =~= body);
}

proof fn lemma_after(s: Seq<char>, n: int, c: char)
    requires
        0 <= n < s.len(),
        s[n] == c,
        forall|i: int| 0 <= i < n ==> #[trigger] s[i] != c,
    ensures
        text::after(s, c) == Some(s.skip(n + 1)),
    decreases n,
{
    if n > 0 {
        assert(s.skip(1)[n - 1] == c);
        assert forall|i: int| 0 <= i < n - 1 implies #[trigger] s.skip(1)[i] != c by {
            assert(s.skip(1)[i] == s[i + 1]);
        }
        lemma_after(s.skip(1), n - 1, c);
        assert(s.skip(1).skip(n) =~= s.skip(n + 1));
    } else {
        assert(s.skip(1) =~= s.skip(n + 1));
    }
}

proof fn lemma_before(s: Seq<char>, n: int, c: char)
    requires
        0 <= n < s.len(),
        s[n] == c,
        forall|i: int| 0 <= i < n ==> #[trigger] s[i] != c,
    ensures
        text::before(s, c) == s.take(n),
    decreases n,
{
    if n > 0 {
        assert(s.skip(1)[n - 1] == c);
        assert forall|i: int| 0 <= i < n - 1 implies #[trigger] s.skip(1)[i] != c by {
            assert(s.skip(1)[i] == s[i + 1]);
        }
        lemma_before(s.skip(1), n - 1, c);
        assert(seq![s[0]] + s.skip(1).take(n - 1) =~= s.take(n));
    } else {
        assert(s.take(0) =~= Seq::<char>::empty());
    }
}

// ---------------------------------------------------------------------------
// devices
// ---------------------------------------------------------------------------

/// A device is what its item in the listing says, each under its own name.
pub proof fn law_device_is_read(
    m: Map<Seq<char>, Json>,
    id: Seq<char>,
    nick: Seq<char>,
    name: Seq<char>,
    online: i64,
    firmware: Seq<char>,
)
    ensures
        rest::device_in(
            Json::Object(
                m.insert("device_id"@, Json::Text(id)).insert("nick_name"@, Json::Text(nick)).insert(
                    "device_name"@,
                    Json::Text(name),
                ).insert("is_online"@, json::whole(online as int)).insert(
                    "firmware_version"@,
                    Json::Text(firmware),
                ),
            ),
        ) == (DeviceView {
            device_id: id,
            nick_name: nick,
            device_name: name,
            is_online: online != 0,
            firmware_version: firmware,
        }),
        rest::device_in(
            Json::Object(
                json::no_members().insert("deviceId"@, Json::Text(id)).insert(
                    "nickName"@,
                    Json::Text(nick),
                ).insert("deviceName"@, Json::Text(name)).insert(
                    "isOnline"@,
                    json::whole(online as int),
                ).insert("firmwareVersion"@, Json::Text(firmware)),
            ),
        ) == (DeviceView {
            device_id: id,
            nick_name: nick,
            device_name: name,
            is_online: online != 0,
            firmware_version: firmware,
        }),
{
    reveal_strlit("device_id");
    reveal_strlit("nick_name");
    reveal_strlit("device_name");
    reveal_strlit("is_online");
    reveal_strlit("firmware_version");
    reveal_strlit("deviceId");
    reveal_strlit("nickName");
    reveal_strlit("deviceName");
    reveal_strlit("isOnline");
    reveal_strlit("firmwareVersion");
    assert("device_id"@.len() == 9);
    assert("nick_name"@.len() == 9);
    assert("device_name"@.len() == 11);
    assert("is_online"@.len() == 9);
    assert("firmware_version"@.len() == 16);
    assert("deviceId"@.len() == 8);
    assert("nickName"@.len() == 8);
    assert("deviceName"@.len() == 10);
    assert("isOnline"@.len() == 8);
    assert("firmwareVersion"@.len() == 15);
    assert("device_id"@[0] != "nick_name"@[0]);
    assert("device_id"@[0] != "is_online"@[0]);
    assert("nick_name"@[0] != "is_online"@[0]);
    assert("deviceId"@[0] != "nickName"@[0]);
    assert("deviceId"@[0] != "isOnline"@[0]);
    assert("nickName"@[0] != "isOnline"@[0]);
}

/// A listing gives its devices in its order, and leaves out those without an id.
pub proof fn law_listing_keeps_its_order(items: Seq<Json>, item: Json, m: Map<Seq<char>, Json>)
    ensures
        ({
            let d = rest::device_in(item);
            &&& d.device_id.len() > 0 ==> rest::devices_in(items.push(item)) == rest::devices_in(
                items,
            ).push(d)
            &&& d.device_id.len() == 0 ==> rest::devices_in(items.push(item))
                == rest::devices_in(items)
            &&& rest::things_in(Json::Object(m.insert("data"@, Json::Array(items)))) == Ok::<
                Seq<DeviceView>,
                fault::FaultView,
            >(rest::devices_in(items))
            &&& rest::things_in(Json::Object(m.remove("data"@))) is Err
        }),
{
    assert(items.push(item).drop_last() =~= items);
}

/// A signed call carries the token, the country, the time and the nonce under
/// their own names, and a signature over time, nonce and token.
pub proof fn law_signed_call(s: auth::SessionView, timestamp: Seq<char>, nonce: Seq<char>)
    ensures
        ({
            let h = rest::signed_headers(s, timestamp, nonce);
            &&& h.contains(("accesstoken"@, s.saas_token))
            &&& h.contains(("countrycode"@, s.country))
            &&& h.contains(("timestamp"@, timestamp))
            &&& h.contains(("nonce"@, nonce))
            &&& h.contains(("sign"@, auth::md5_hex_of(timestamp + nonce + s.saas_token)))
            &&& h.len() == 11
        }),
{
    let h = rest::signed_headers(s, timestamp, nonce);
    assert(h[3] == ("accesstoken"@, s.saas_token));
    assert(h[4] == ("countrycode"@, s.country));
    assert(h[6] == ("timestamp"@, timestamp));
    assert(h[7] == ("nonce"@, nonce));
    assert(h[8] == ("sign"@, auth::md5_hex_of(timestamp + nonce + s.saas_token)));
}

/// The device of a command, and that of the dashboard, is the first one with the
/// wanted id; without a wanted id, or with an empty one, the first of all. A
/// wanted id that no device has is refused by name.
pub proof fn law_wanted_device(devices: Seq<DeviceView>, id: Seq<char>)
    ensures
        id.len() > 0 ==> match cli::selected(devices, Some(id)) {
            Ok(i) => 0 <= i < devices.len() && devices[i].device_id == id && forall|k: int|
                0 <= k < i ==> (#[trigger] devices[k]).device_id != id,
            Err(f) => f == fault::FaultView::Plain("device `"@ + id + "` not found on account"@)
                && forall|k: int|
                0 <= k < devices.len() ==> (#[trigger] devices[k]).device_id != id,
        },
        devices.len() > 0 ==> cli::selected(devices, None) == Ok::<int, fault::FaultView>(0),
        devices.len() > 0 ==> cli::selected(devices, Some(Seq::empty())) == Ok::<
            int,
            fault::FaultView,
        >(0),
        devices.len() == 0 ==> cli::selected(devices, None) is Err,
        devices.len() > 0 ==> (launch::chosen(devices, Some(id)) is Ok <==> cli::selected(
            devices,
            Some(id),
        ) is Ok),
        devices.len() > 0 && launch::chosen(devices, Some(id)) is Ok ==> launch::chosen(
            devices,
            Some(id),
        )->Ok_0 == cli::selected(devices, Some(id))->Ok_0,
        devices.len() > 0 ==> launch::chosen(devices, None) == Ok::<int, fault::FaultView>(0),
        devices.len() == 0 ==> launch::chosen(devices, Some(id)) is Err,
{
    cloud_laws::law_first_device_with_id(devices, id);
}

// ---------------------------------------------------------------------------
// publishing
// ---------------------------------------------------------------------------

/// A command goes to the topic of its device, and a shadow that takes the
/// message over asks for exactly what was sent.
pub proof fn law_publication(thing: Seq<char>, desired: Json, seconds: nat)
    ensures
        iot::update_topic(thing) == "$aws/things/"@ + thing + "/shadow/update"@,
        device::desired(iot::update_document(desired, seconds)) == Some(desired),
        device::reported(iot::update_document(desired, seconds)) is None,
        json::member(iot::update_document(desired, seconds), "clientToken"@) == Some(
            Json::Text("mobile_"@ + text::dec(seconds)),
        ),
{
    reveal_strlit("state");
    reveal_strlit("desired");
    reveal_strlit("reported");
    reveal_strlit("clientToken");
    assert("state"@.len() == 5);
    assert("desired"@.len() == 7);
    assert("reported"@.len() == 8);
    assert("clientToken"@.len() == 11);
}

/// An endpoint is reduced to its host, behind `https://`, whatever scheme stands
/// before it and whatever port or path behind it.
pub proof fn law_endpoint_is_reduced(
    scheme: Seq<char>,
    host: Seq<char>,
    port: Seq<char>,
    path: Seq<char>,
)
    requires
        host.len() > 0,
        cloud_laws::is_trimmed(host),
        cloud_laws::lacks(host, '/'),
        cloud_laws::lacks(host, ':'),
        cloud_laws::lacks(port, '/'),
        port.len() > 0,
        cloud_laws::is_trimmed(port),
        scheme.len() > 0,
        !text::is_space(scheme[0]),
        cloud_laws::lacks(scheme, '/'),
        path.len() > 0,
        cloud_laws::is_trimmed(path),
    ensures
        iot::endpoint_url_of(Some(host + seq!['/'] + path)) == Some("https://"@ + host),
        iot::endpoint_url_of(Some(host)) == Some("https://"@ + host),
        iot::endpoint_url_of(Some(host + seq![':'] + port)) == Some("https://"@ + host),
        iot::endpoint_url_of(Some(scheme + "://"@ + (host + seq![':'] + port))) == Some(
            "https://"@ + host,
        ),
        iot::endpoint_url_of(Some(scheme + "://"@ + host)) == Some("https://"@ + host),
        iot::endpoint_url_of(None) is None,
{
    let with_path = host + seq!['/'] + path;
    assert(with_path[0] == host[0]);
    assert(with_path.last() == path.last());
    assert(text::trimmed(with_path) == with_path);
    lemma_before(with_path, host.len() as int, '/');
    assert(with_path.take(host.len() as int) =~= host);
    assert(with_path[host.len() - 1] == host[host.len() - 1]);
    assert(!iot::has_scheme(with_path));
    let with_port = host + seq![':'] + port;
    assert(with_port[0] == host[0]);
    assert(with_port.last() == port.last());
    assert(text::trimmed(with_port) == with_port);
    assert forall|i: int| 0 <= i < with_port.len() implies #[trigger] with_port[i] != '/' by {
        if i > host.len() {
            assert(with_port[i] == port[i - host.len() - 1]);
        }
    }
    cloud_laws::lemma_before_whole(with_port, '/');
    lemma_before(with_port, host.len() as int, ':');
    assert(with_port.take(host.len() as int) =~= host);
    assert(text::trimmed(host) == host);
    cloud_laws::lemma_before_whole(host, '/');
    cloud_laws::lemma_before_whole(host, ':');
    cloud_laws::law_scheme_is_stripped(scheme, with_port);
    cloud_laws::law_scheme_is_stripped(scheme, host);
}

// ---------------------------------------------------------------------------
// settings
// ---------------------------------------------------------------------------

/// Whether the environment lacks a name or a password.
pub open spec fn lacks_some(env: config::Environment) -> bool {
    ||| env.username is None
    ||| env.password is None
    ||| env.username->0@.len() == 0
    ||| env.password->0@.len() == 0
}

/// The settings come from the environment where it has a name and a password, and
/// from the file where only that has both; else they are asked for.
pub proof fn law_settings_sources(env: config::Environment, c: config::Config)
    ensures
        env.username is Some && env.password is Some && env.username->0@.len() > 0
            && env.password->0@.len() > 0 ==> config::loaded(env, config::ConfigFile::Read(c))
            == config::LoadedView::Found(
            config::ConfigView {
                username: env.username->0@,
                password: env.password->0@,
                device_id: match env.device_id {
                    Some(d) => if d@.len() > 0 {
                        Some(d@)
                    } else {
                        None
                    },
                    None => None,
                },
            },
        ),
        lacks_some(env) ==> config::loaded(env, config::ConfigFile::Unread)
            == config::LoadedView::ReadFile,
        lacks_some(env) ==> config::loaded(env, config::ConfigFile::Missing)
            == config::LoadedView::Ask,
        lacks_some(env) && c@.username.len() > 0 && c@.password.len() > 0 ==> config::loaded(
            env,
            config::ConfigFile::Read(c),
        ) == config::LoadedView::Found(c@),
        lacks_some(env) && (c@.username.len() == 0 || c@.password.len() == 0) ==> config::loaded(
            env,
            config::ConfigFile::Read(c),
        ) == config::LoadedView::Ask,
{
}

/// At the password prompt a character that is typed is added at the end,
/// Backspace takes the last one back, Enter keeps what was typed, and Ctrl-C
/// gives up.
pub proof fn law_password_keys(typed: Seq<char>, c: char, ctrl: bool)
    ensures
        ({
            let key = config::PasswordKey::Char { c, ctrl };
            let (after, step) = config::typed(typed, key);
            &&& c != 'c' || !ctrl ==> after == typed.push(c) && step == config::PasswordStep::More
                && config::typed(after, config::PasswordKey::Backspace) == (
                typed,
                config::PasswordStep::More,
            )
            &&& c == 'c' && ctrl ==> step == config::PasswordStep::Cancelled
            &&& config::typed(typed, config::PasswordKey::Enter) == (
                typed,
                config::PasswordStep::Done,
            )
            &&& config::typed(typed, config::PasswordKey::Other).0 == typed
        }),
{
    assert(typed.push(c).drop_last() =~= typed);
}

// ---------------------------------------------------------------------------
// the command line
// ---------------------------------------------------------------------------

/// Whether an argument is no flag.
pub open spec fn is_plain(s: Seq<char>) -> bool {
    s != "--json"@ && s != "--wait"@ && s != "--no-cache"@ && s != "--fresh"@ && s != "--device"@
        && s != "-D"@
}

pub open spec fn all_plain(args: Seq<Seq<char>>) -> bool {
    forall|i: int| 0 <= i < args.len() ==> is_plain(#[trigger] args[i])
}

proof fn lemma_options_after(o: cli::OptsView, a: Seq<Seq<char>>, b: Seq<Seq<char>>)
    requires
        all_plain(a),
    ensures
        cli::options_with(o, a + b) == cli::options_with(
            cli::OptsView { pos: o.pos + a, ..o },
            b,
        ),
    decreases a.len(),
{
    if a.len() == 0 {
        assert(a + b =~= b);
        assert(o.pos + a =~= o.pos);
    } else {
        let next = cli::OptsView { pos: o.pos.push(a[0]), ..o };
        let tail = a.skip(1);
        assert((a + b)[0] == a[0]);
        assert((a + b).skip(1) =~= tail + b);
        assert forall|i: int| 0 <= i < tail.len() implies is_plain(#[trigger] tail[i]) by {
            assert(tail[i] == a[i + 1]);
        }
        lemma_options_after(next, tail, b);
        assert(o.pos.push(a[0]) + tail =~= o.pos + a);
        assert(is_plain(a[0]));
    }
}

/// A flag counts wherever it stands, sets its own option and no other, and is no
/// argument; `--device` and `-D` take the argument behind them.
pub proof fn law_flags(a: Seq<Seq<char>>, b: Seq<Seq<char>>, id: Seq<char>)
    requires
        all_plain(a),
        all_plain(b),
    ensures
        ({
            let none = cli::OptsView {
                json: false,
                wait: false,
                no_cache: false,
                device: None,
                pos: a + b,
            };
            let with = |flags: Seq<Seq<char>>| cli::options_with(cli::no_options(), a + (flags + b));
            &&& with(Seq::empty()) == none
            &&& with(seq!["--json"@]) == (cli::OptsView { json: true, ..none })
            &&& with(seq!["--wait"@]) == (cli::OptsView { wait: true, ..none })
            &&& with(seq!["--no-cache"@]) == (cli::OptsView { no_cache: true, ..none })
            &&& with(seq!["--fresh"@]) == (cli::OptsView { no_cache: true, ..none })
            &&& with(seq!["--device"@, id]) == (cli::OptsView { device: Some(id), ..none })
            &&& with(seq!["-D"@, id]) == (cli::OptsView { device: Some(id), ..none })
        }),
{
    reveal_strlit("--json");
    reveal_strlit("--wait");
    reveal_strlit("--no-cache");
    reveal_strlit("--fresh");
    reveal_strlit("--device");
    reveal_strlit("-D");
    assert("--json"@.len() == 6);
    assert("--wait"@.len() == 6);
    assert("--no-cache"@.len() == 10);
    assert("--fresh"@.len() == 7);
    assert("--device"@.len() == 8);
    assert("-D"@.len() == 2);
    assert("--json"@[2] != "--wait"@[2]);
    let o = cli::no_options();
    assert(o.pos + a =~= a);
    let from = cli::OptsView { pos: a, ..o };
    lemma_options_after(o, a, Seq::<Seq<char>>::empty() + b);
    lemma_options_after(o, a, seq!["--json"@] + b);
    lemma_options_after(o, a, seq!["--wait"@] + b);
    lemma_options_after(o, a, seq!["--no-cache"@] + b);
    lemma_options_after(o, a, seq!["--fresh"@] + b);
    lemma_options_after(o, a, seq!["--device"@, id] + b);
    lemma_options_after(o, a, seq!["-D"@, id] + b);
    assert((Seq::<Seq<char>>::empty() + b) =~= b);
    assert((seq!["--json"@] + b).skip(1) =~= b);
    assert((seq!["--wait"@] + b).skip(1) =~= b);
    assert((seq!["--no-cache"@] + b).skip(1) =~= b);
    assert((seq!["--fresh"@] + b).skip(1) =~= b);
    assert((seq!["--device"@, id] + b).skip(2) =~= b);
    assert((seq!["-D"@, id] + b).skip(2) =~= b);
    assert(b + Seq::<Seq<char>>::empty() =~= b);
    lemma_options_after(from, b, Seq::empty());
    lemma_options_after(cli::OptsView { json: true, ..from }, b, Seq::empty());
    lemma_options_after(cli::OptsView { wait: true, ..from }, b, Seq::empty());
    lemma_options_after(cli::OptsView { no_cache: true, ..from }, b, Seq::empty());
    lemma_options_after(cli::OptsView { device: Some(id), ..from }, b, Seq::empty());
}

/// A command is named by its first argument, and takes those behind it in their
/// order.
#[verifier::rlimit(60)]
pub proof fn law_commands(word: Seq<char>, x: Seq<char>, y: Seq<char>, more: Seq<Seq<char>>)
    ensures
        ({
            let c = cli::command_of(seq![word, x, y] + more);
            &&& word == "status"@ ==> c == cli::CommandView::Status
            &&& word == "state"@ ==> c == cli::CommandView::Status
            &&& word == "get"@ ==> c == cli::CommandView::Get(Some(x))
            &&& word == "power"@ ==> c == cli::CommandView::Power(Some(x))
            &&& word == "mode"@ ==> c == cli::CommandView::Mode(Some(x))
            &&& word == "temp"@ ==> c == cli::CommandView::Temp(Some(x))
            &&& word == "temperature"@ ==> c == cli::CommandView::Temp(Some(x))
            &&& word == "fan"@ ==> c == cli::CommandView::Fan(Some(x))
            &&& word == "swing"@ ==> c == (cli::CommandView::Swing { arg: Some(x), horizontal: false })
            &&& word == "hswing"@ ==> c == (cli::CommandView::Swing { arg: Some(x), horizontal: true })
            &&& word == "vent"@ ==> c == cli::CommandView::Vent(Some(x), Some(y))
            &&& word == "aim"@ ==> c == cli::CommandView::Vent(Some(x), Some(y))
            &&& word == "feature"@ ==> c == cli::CommandView::Feature(Some(x), Some(y))
            &&& word == "set"@ ==> c == cli::CommandView::Feature(Some(x), Some(y))
            &&& word == "telemetry"@ ==> c == cli::CommandView::Telemetry
            &&& word == "telem"@ ==> c == cli::CommandView::Telemetry
            &&& word == "energy"@ ==> c == cli::CommandView::Energy
            &&& word == "power-usage"@ ==> c == cli::CommandView::Energy
            &&& word == "probe"@ ==> c == cli::CommandView::Probe
            &&& word == "list"@ ==> c == cli::CommandView::List
            &&& word == "dump"@ ==> c == cli::CommandView::Dump
            &&& c matches cli::CommandView::Usage(t) ==> t == "unknown command: "@ + word
                + "\n\nRun `tclac help` for usage."@
        }),
{
    let pos = seq![word, x, y] + more;
    assert(pos[0] == word && pos[1] == x && pos[2] == y);
    reveal_strlit("status");
    reveal_strlit("state");
    reveal_strlit("get");
    reveal_strlit("on");
    reveal_strlit("off");
    reveal_strlit("power");
    reveal_strlit("mode");
    reveal_strlit("temp");
    reveal_strlit("temperature");
    reveal_strlit("fan");
    reveal_strlit("swing");
    reveal_strlit("hswing");
    reveal_strlit("vent");
    reveal_strlit("aim");
    reveal_strlit("feature");
    reveal_strlit("set");
    reveal_strlit("telemetry");
    reveal_strlit("telem");
    reveal_strlit("energy");
    reveal_strlit("power-usage");
    reveal_strlit("probe");
    reveal_strlit("list");
    reveal_strlit("dump");
    assert("status"@.len() == 6);
    assert("state"@.len() == 5);
    assert("get"@.len() == 3);
    assert("on"@.len() == 2);
    assert("off"@.len() == 3);
    assert("power"@.len() == 5);
    assert("mode"@.len() == 4);
    assert("temp"@.len() == 4);
    assert("temperature"@.len() == 11);
    assert("fan"@.len() == 3);
    assert("swing"@.len() == 5);
    assert("hswing"@.len() == 6);
    assert("vent"@.len() == 4);
    assert("aim"@.len() == 3);
    assert("feature"@.len() == 7);
    assert("set"@.len() == 3);
    assert("telemetry"@.len() == 9);
    assert("telem"@.len() == 5);
    assert("energy"@.len() == 6);
    assert("power-usage"@.len() == 11);
    assert("probe"@.len() == 5);
    assert("list"@.len() == 4);
    assert("dump"@.len() == 4);
    assert("status"@[0] != "hswing"@[0]);
    assert("status"@[0] != "energy"@[0]);
    assert("state"@[0] != "power"@[0]);
    assert("state"@[1] != "swing"@[1]);
    assert("state"@[0] != "telem"@[0]);
    assert("state"@[0] != "probe"@[0]);
    assert("get"@[0] != "off"@[0]);
    assert("get"@[0] != "fan"@[0]);
    assert("get"@[0] != "aim"@[0]);
    assert("get"@[0] != "set"@[0]);
    assert("off"@[0] != "fan"@[0]);
    assert("off"@[0] != "aim"@[0]);
    assert("off"@[0] != "set"@[0]);
    assert("power"@[0] != "swing"@[0]);
    assert("power"@[0] != "telem"@[0]);
    assert("power"@[1] != "probe"@[1]);
    assert("mode"@[0] != "temp"@[0]);
    assert("mode"@[0] != "vent"@[0]);
    assert("mode"@[0] != "list"@[0]);
    assert("mode"@[0] != "dump"@[0]);
    assert("temp"@[0] != "vent"@[0]);
    assert("temp"@[0] != "list"@[0]);
    assert("temp"@[0] != "dump"@[0]);
    assert("temperature"@[0] != "power-usage"@[0]);
    assert("fan"@[0] != "aim"@[0]);
    assert("fan"@[0] != "set"@[0]);
    assert("swing"@[0] != "telem"@[0]);
    assert("swing"@[0] != "probe"@[0]);
    assert("hswing"@[0] != "energy"@[0]);
    assert("vent"@[0] != "list"@[0]);
    assert("vent"@[0] != "dump"@[0]);
    assert("aim"@[0] != "set"@[0]);
    assert("telem"@[0] != "probe"@[0]);
    assert("list"@[0] != "dump"@[0]);
}

/// A command without its arguments still is that command, so that it can tell
/// what is missing.
#[verifier::rlimit(60)]
pub proof fn law_commands_without_arguments(word: Seq<char>)
    ensures
        ({
            let c = cli::command_of(seq![word]);
            &&& word == "get"@ ==> c == cli::CommandView::Get(None)
            &&& word == "power"@ ==> c == cli::CommandView::Power(None)
            &&& word == "mode"@ ==> c == cli::CommandView::Mode(None)
            &&& word == "temp"@ ==> c == cli::CommandView::Temp(None)
            &&& word == "fan"@ ==> c == cli::CommandView::Fan(None)
            &&& word == "vent"@ ==> c == cli::CommandView::Vent(None, None)
            &&& word == "feature"@ ==> c == cli::CommandView::Feature(None, None)
        }),
{
    reveal_strlit("status");
    reveal_strlit("state");
    reveal_strlit("get");
    reveal_strlit("on");
    reveal_strlit("off");
    reveal_strlit("power");
    reveal_strlit("mode");
    reveal_strlit("temp");
    reveal_strlit("temperature");
    reveal_strlit("fan");
    reveal_strlit("swing");
    reveal_strlit("hswing");
    reveal_strlit("vent");
    reveal_strlit("aim");
    reveal_strlit("feature");
    reveal_strlit("set");
    reveal_strlit("telemetry");
    reveal_strlit("telem");
    reveal_strlit("energy");
    reveal_strlit("power-usage");
    reveal_strlit("probe");
    reveal_strlit("list");
    reveal_strlit("dump");
    assert("status"@.len() == 6);
    assert("state"@.len() == 5);
    assert("get"@.len() == 3);
    assert("on"@.len() == 2);
    assert("off"@.len() == 3);
    assert("power"@.len() == 5);
    assert("mode"@.len() == 4);
    assert("temp"@.len() == 4);
    assert("temperature"@.len() == 11);
    assert("fan"@.len() == 3);
    assert("swing"@.len() == 5);
    assert("hswing"@.len() == 6);
    assert("vent"@.len() == 4);
    assert("aim"@.len() == 3);
    assert("feature"@.len() == 7);
    assert("set"@.len() == 3);
    assert("telemetry"@.len() == 9);
    assert("telem"@.len() == 5);
    assert("energy"@.len() == 6);
    assert("power-usage"@.len() == 11);
    assert("probe"@.len() == 5);
    assert("list"@.len() == 4);
    assert("dump"@.len() == 4);
    assert("status"@[0] != "hswing"@[0]);
    assert("status"@[0] != "energy"@[0]);
    assert("state"@[0] != "power"@[0]);
    assert("state"@[1] != "swing"@[1]);
    assert("state"@[0] != "telem"@[0]);
    assert("state"@[0] != "probe"@[0]);
    assert("get"@[0] != "off"@[0]);
    assert("get"@[0] != "fan"@[0]);
    assert("get"@[0] != "aim"@[0]);
    assert("get"@[0] != "set"@[0]);
    assert("off"@[0] != "fan"@[0]);
    assert("off"@[0] != "aim"@[0]);
    assert("off"@[0] != "set"@[0]);
    assert("power"@[0] != "swing"@[0]);
    assert("power"@[0] != "telem"@[0]);
    assert("power"@[1] != "probe"@[1]);
    assert("mode"@[0] != "temp"@[0]);
    assert("mode"@[0] != "vent"@[0]);
    assert("mode"@[0] != "list"@[0]);
    assert("mode"@[0] != "dump"@[0]);
    assert("temp"@[0] != "vent"@[0]);
    assert("temp"@[0] != "list"@[0]);
    assert("temp"@[0] != "dump"@[0]);
    assert("temperature"@[0] != "power-usage"@[0]);
    assert("fan"@[0] != "aim"@[0]);
    assert("fan"@[0] != "set"@[0]);
    assert("swing"@[0] != "telem"@[0]);
    assert("swing"@[0] != "probe"@[0]);
    assert("hswing"@[0] != "energy"@[0]);
    assert("vent"@[0] != "list"@[0]);
    assert("vent"@[0] != "dump"@[0]);
    assert("aim"@[0] != "set"@[0]);
    assert("telem"@[0] != "probe"@[0]);
    assert("list"@[0] != "dump"@[0]);
}

/// The cache serves where it is not switched off, for the device that is asked
/// for, or for any where none is.
pub proof fn law_cache_use(o: cli::OptsView, id: Seq<char>)
    ensures
        o.no_cache ==> !cli::cache_serves(o, id),
        !o.no_cache && o.device is None ==> cli::cache_serves(o, id),
        !o.no_cache ==> (o.device matches Some(w) ==> (cli::cache_serves(o, id) <==> w == id)),
{
}

/// A call that fails is tried once more after a fresh login, and then given up.
pub proof fn law_one_more_try(tries: nat)
    ensures
        cli::recovery_of(true, tries) == cli::Recovery::Use,
        cli::recovery_of(false, 1) == cli::Recovery::Relogin,
        tries != 1 ==> cli::recovery_of(false, tries) == cli::Recovery::GiveUp,
{
}

/// The words that do not name a command: none and `tui` open the dashboard, and
/// help and version have three spellings each. Anything else is a command, with
/// its arguments as they are.
pub proof fn law_launch(args: Seq<Seq<char>>)
    ensures
        args.len() == 0 ==> launch::launched(args) == launch::LaunchView::Tui,
        args.len() > 0 && args[0] == "tui"@ ==> launch::launched(args) == launch::LaunchView::Tui,
        args.len() > 0 && (args[0] == "-h"@ || args[0] == "--help"@ || args[0] == "help"@)
            ==> launch::launched(args) == launch::LaunchView::Help,
        args.len() > 0 && (args[0] == "-V"@ || args[0] == "--version"@ || args[0] == "version"@)
            ==> launch::launched(args) == launch::LaunchView::Version,
        args.len() > 0 && args[0] == "--list"@ ==> launch::launched(args)
            == launch::LaunchView::Command(seq!["list"@]),
        args.len() > 0 && args[0] == "--dump"@ ==> launch::launched(args)
            == launch::LaunchView::Command(seq!["dump"@]),
        launch::launched(args) matches launch::LaunchView::Command(c) ==> c == args || args[0]
            == "--list"@ || args[0] == "--dump"@,
{
    reveal_strlit("");
    reveal_strlit("tui");
    reveal_strlit("-h");
    reveal_strlit("--help");
    reveal_strlit("help");
    reveal_strlit("-V");
    reveal_strlit("--version");
    reveal_strlit("version");
    reveal_strlit("--list");
    reveal_strlit("--dump");
    assert("tui"@.len() == 3);
    assert("-h"@.len() == 2);
    assert("--help"@.len() == 6);
    assert("help"@.len() == 4);
    assert("-V"@.len() == 2);
    assert("--version"@.len() == 9);
    assert("version"@.len() == 7);
    assert("--list"@.len() == 6);
    assert("--dump"@.len() == 6);
    assert("-h"@[1] != "-V"@[1]);
    assert("--help"@[2] != "--list"@[2]);
    assert("--help"@[2] != "--dump"@[2]);
    assert("--list"@[2] != "--dump"@[2]);
}

/// The value of a flag is the argument behind its first mention.
pub proof fn law_flag_value(a: Seq<Seq<char>>, flag: Seq<char>, v: Seq<char>, b: Seq<Seq<char>>)
    requires
        forall|i: int| 0 <= i < a.len() ==> #[trigger] a[i] != flag,
    ensures
        launch::value_after(a + seq![flag, v] + b, flag) == Some(v),
        launch::value_after(a, flag) is None,
        launch::value_after(a + seq![flag], flag) is None,
    decreases a.len(),
{
    let x = a + seq![flag, v] + b;
    let y = a + seq![flag];
    if a.len() == 0 {
        assert(x[0] == flag && x[1] == v);
        assert(y[0] == flag);
    } else {
        let tail = a.skip(1);
        assert forall|i: int| 0 <= i < tail.len() implies #[trigger] tail[i] != flag by {
            assert(tail[i] == a[i + 1]);
        }
        law_flag_value(tail, flag, v, b);
        assert(x.skip(1) =~= tail + seq![flag, v] + b);
        assert(y.skip(1) =~= tail + seq![flag]);
        assert(x[0] == a[0] && y[0] == a[0]);
    }
}

/// The option wins over the settings, in the command line and in the dashboard;
/// the long form of the option over the short one.
pub proof fn law_option_wins(
    o: cli::OptsView,
    cfg: config::ConfigView,
    args: Seq<Seq<char>>,
    id: Seq<char>,
)
    ensures
        o.device is Some ==> cli::wanted_id(o, cfg) == o.device,
        o.device is None ==> cli::wanted_id(o, cfg) == cfg.device_id,
        launch::value_after(args, "--device"@) == Some(id) ==> launch::override_in(args) == Some(
            id,
        ),
        launch::value_after(args, "--device"@) is None ==> launch::override_in(args)
            == launch::value_after(args, "-D"@),
{
}

/// The answers to the prompts make the settings: the name without the space
/// around it, and the password as it was typed. Only a `y` saves them.
pub proof fn law_prompted_settings(username: Seq<char>, password: Seq<char>)
    ensures
        config::answered(username, password).password == password,
        config::answered(username, password).device_id is None,
        cloud_laws::is_trimmed(username) ==> config::answered(username, password).username
            == username,
        cloud_laws::is_trimmed(config::answered(username, password).username),
        config::asks_to_save("y"@),
        config::asks_to_save("Y"@),
        !config::asks_to_save("n"@),
        !config::asks_to_save(""@),
{
    cloud_laws::lemma_trimmed(username, 'y');
    reveal_strlit("y");
    reveal_strlit("Y");
    reveal_strlit("n");
    reveal_strlit("");
    assert(text::trimmed("y"@) == "y"@);
    assert(text::trimmed("Y"@) == "Y"@);
    assert(text::trimmed("n"@) == "n"@);
    assert(text::trimmed(""@) == ""@);
    assert(text::lower("y"@) =~= "y"@);
    assert(text::lower("Y"@) =~= "y"@);
    assert(text::lower("n"@)[0] == 'n');
    assert(text::lower(""@).len() == 0);
}

/// A cached session serves up to a minute before it expires, and not after.
pub proof fn law_cache_margin(t: u64, now: int)
    ensures
        now + 60 < t ==> crate::cache::fresh(Some(t), now),
        t <= now + 60 ==> !crate::cache::fresh(Some(t), now),
{
}

/// The listing is asked for where the account lives. A reply that is no success
/// is told with its status and all that it says.
pub proof fn law_listing_replies(base: Seq<char>, reply: crate::http::Reply)
    ensures
        rest::things_url(base) == base + "/v3/user/get_things"@,
        !(200 <= reply.status < 300) ==> rest::things_reply(reply) == Err::<
            Seq<DeviceView>,
            fault::FaultView,
        >(
            fault::FaultView::Plain(
                "get_things returned HTTP "@ + crate::http::status_shown(reply.status) + ": "@
                    + reply.body@,
            ),
        ),
        200 <= reply.status < 300 && json::json_parsed(reply.body@) is None ==> rest::things_reply(
            reply,
        ) is Err,
        200 <= reply.status < 300 ==> (json::json_parsed(reply.body@) matches Some(j)
            ==> rest::things_reply(reply) == rest::things_in(j)),
{
}

/// Whether a device is online is read from each form that the cloud gives it.
pub proof fn law_online_is_read_in_every_form(m: Map<Seq<char>, Json>, n: i64, b: bool)
    ensures
        rest::device_in(Json::Object(m.insert("is_online"@, json::whole(n as int)))).is_online
            == (n != 0),
        rest::device_in(Json::Object(m.insert("is_online"@, Json::Bool(b)))).is_online == b,
        rest::device_in(
            Json::Object(m.insert("is_online"@, Json::Text(text::dec_int(n as int)))),
        ).is_online == (n != 0),
        !rest::device_in(Json::Object(json::no_members())).is_online,
{
    text::law_decimal_round_trip(n);
}

/// A shadow is what its payload says; without a payload, or with one that is no
/// JSON, there is none.
pub proof fn law_shadow_payload(bytes: Seq<u8>)
    ensures
        json::json_parsed_bytes(bytes) matches Some(j) ==> iot::shadow_in(Some(bytes)) == Ok::<
            Json,
            fault::FaultView,
        >(j),
        json::json_parsed_bytes(bytes) is None ==> iot::shadow_in(Some(bytes)) is Err,
        iot::shadow_in(None) is Err,
{
}

/// A refusal of the service is told by its code, with the message where there is
/// one; other failures by what went wrong.
pub proof fn law_service_failures(code: String, message: String)
    ensures
        message@.len() > 0 ==> (iot::ServiceFailure::Service {
            code: Some(code),
            message: Some(message),
        }).shown() == code@ + ": "@ + message@,
        message@.len() == 0 ==> (iot::ServiceFailure::Service {
            code: Some(code),
            message: Some(message),
        }).shown() == code@,
        (iot::ServiceFailure::Service { code: Some(code), message: None }).shown() == code@,
        (iot::ServiceFailure::Service { code: None, message: Some(message) }).shown()
            == "service error"@,
        iot::ServiceFailure::Timeout.shown() == "timed out"@,
        iot::ServiceFailure::Dispatch.shown() == "connection failure (network/DNS)"@,
{
}

/// The login and the search for the account go to fixed places, as the app for
/// phones asks for them.
pub proof fn law_fixed_addresses(username: Seq<char>, secret: Seq<char>)
    ensures
        auth::login_sent(username, secret).url
            == "https://pa.account.tcl.com/account/login?clientId=54148614"@,
        auth::cloud_urls_sent(username, secret).url
            == "https://prod-center.aws.tcljd.com/v3/global/cloud_url_get"@,
        auth::login_sent(username, secret).headers.contains(("th_appbulid"@, "830"@)),
        auth::login_sent(username, secret).headers.contains(("th_platform"@, "android"@)),
        auth::login_sent(username, secret).headers.contains(("th_version"@, "4.8.1"@)),
        auth::cognito_headers().contains(
            ("x-amz-target"@, "AWSCognitoIdentityService.GetCredentialsForIdentity"@),
        ),
        auth::cognito_headers().contains(("content-type"@, "application/x-amz-json-1.1"@)),
{
    let h = auth::login_sent(username, secret).headers;
    assert(h[0] == ("th_platform"@, "android"@));
    assert(h[1] == ("th_version"@, "4.8.1"@));
    assert(h[2] == ("th_appbulid"@, "830"@));
    let c = auth::cognito_headers();
    assert(c[1] == ("x-amz-target"@, "AWSCognitoIdentityService.GetCredentialsForIdentity"@));
    assert(c[2] == ("content-type"@, "application/x-amz-json-1.1"@));
}

/// A word that names no command is told so.
pub proof fn law_other_words_are_no_commands(word: Seq<char>, more: Seq<Seq<char>>)
    ensures
        ({
            let known = word == "status"@ || word == "state"@ || word == "get"@ || word == "on"@ || word == "off"@ || word == "power"@ || word == "mode"@ || word == "temp"@ || word == "temperature"@ || word == "fan"@ || word == "swing"@ || word == "hswing"@ || word == "vent"@ || word == "aim"@ || word == "feature"@ || word == "set"@ || word == "telemetry"@ || word == "telem"@ || word == "energy"@ || word == "power-usage"@ || word == "probe"@ || word == "list"@ || word == "dump"@;
            &&& known <==> !(cli::command_of(seq![word] + more) is Usage)
            &&& !known ==> cli::command_of(seq![word] + more) == cli::CommandView::Usage(
                "unknown command: "@ + word + "\n\nRun `tclac help` for usage."@,
            )
        }),
        cli::command_of(Seq::empty()) is Usage,
{
    assert((seq![word] + more)[0] == word);
    reveal_strlit("");
    reveal_strlit("status");
    assert("status"@.len() == 6);
    reveal_strlit("state");
    assert("state"@.len() == 5);
    reveal_strlit("get");
    assert("get"@.len() == 3);
    reveal_strlit("on");
    assert("on"@.len() == 2);
    reveal_strlit("off");
    assert("off"@.len() == 3);
    reveal_strlit("power");
    assert("power"@.len() == 5);
    reveal_strlit("mode");
    assert("mode"@.len() == 4);
    reveal_strlit("temp");
    assert("temp"@.len() == 4);
    reveal_strlit("temperature");
    assert("temperature"@.len() == 11);
    reveal_strlit("fan");
    assert("fan"@.len() == 3);
    reveal_strlit("swing");
    assert("swing"@.len() == 5);
    reveal_strlit("hswing");
    assert("hswing"@.len() == 6);
    reveal_strlit("vent");
    assert("vent"@.len() == 4);
    reveal_strlit("aim");
    assert("aim"@.len() == 3);
    reveal_strlit("feature");
    assert("feature"@.len() == 7);
    reveal_strlit("set");
    assert("set"@.len() == 3);
    reveal_strlit("telemetry");
    assert("telemetry"@.len() == 9);
    reveal_strlit("telem");
    assert("telem"@.len() == 5);
    reveal_strlit("energy");
    assert("energy"@.len() == 6);
    reveal_strlit("power-usage");
    assert("power-usage"@.len() == 11);
    reveal_strlit("probe");
    assert("probe"@.len() == 5);
    reveal_strlit("list");
    assert("list"@.len() == 4);
    reveal_strlit("dump");
    assert("dump"@.len() == 4);
}

/// The line for the device that is controlled names it, by the name of its owner
/// or else by its type, and tells its id.
pub proof fn law_controlled_device(d: DeviceView)
    ensures
        d.nick_name.len() > 0 ==> launch::controlled(d) == "Controlling: "@ + d.nick_name + " ("@
            + d.device_id + ")"@,
        d.nick_name.len() == 0 ==> launch::controlled(d) == "Controlling: "@ + d.device_name
            + " ("@ + d.device_id + ")"@,
{
}

/// Every draw of a nonce has its place and its own character: the letters for the
/// first 26, the digits for the other ten.
pub proof fn law_nonce_draws(draws: Seq<u8>, i: int, other: u8)
    requires
        rest::are_draws(draws),
        0 <= i < 16,
        other < 36,
    ensures
        rest::drawn(draws).len() == 16,
        draws[i] < 26 ==> rest::drawn(draws)[i] as u32 == 97 + draws[i],
        draws[i] >= 26 ==> rest::drawn(draws)[i] as u32 == 48 + (draws[i] - 26),
        rest::drawn(draws)[i] == rest::nonce_char_at(other) <==> draws[i] == other,
        rest::is_nonce(rest::drawn(draws)),
{
    assert forall|k: int| 0 <= k < 16 implies rest::is_nonce_char(
        #[trigger] rest::drawn(draws)[k],
    ) by {
        assert(draws[k] < 36);
    }
    assert(draws[i] < 36);
}

/// The milliseconds of a clock are its seconds, and up to 999 more.
pub proof fn law_clock_units(t: crate::clock::SinceEpoch)
    requires
        t.valid(),
    ensures
        crate::clock::millis_in(Some(t)) / 1000 == crate::clock::seconds_in(Some(t)),
        crate::clock::millis_in(Some(t)) % 1000 == t.nanos / 1_000_000,
        crate::clock::seconds_in(Some(t)) == t.secs,
        crate::clock::millis_in(None) == 0 && crate::clock::seconds_in(None) == 0,
{
    assert(t.nanos / 1_000_000 < 1000);
}

/// The message of a refusal is looked for under three names, in that order; where
/// there is none, the answer itself is told, up to 300 bytes of it.
pub proof fn law_refusal_message(
    m: Map<Seq<char>, Json>,
    message: Seq<char>,
    typed: Seq<char>,
)
    requires
        !m.contains_key("msg"@),
    ensures
        auth::refusal_text(Json::Object(m.insert("message"@, Json::Text(message)))) == Some(
            message,
        ),
        !m.contains_key("message"@) ==> auth::refusal_text(
            Json::Object(m.insert("errorMessage"@, Json::Text(message))),
        ) == Some(message),
        auth::logged_in(Json::Object(json::no_members()), typed) == Err::<
            auth::LoginView,
            fault::FaultView,
        >(
            fault::FaultView::Plain(
                "login rejected (status="@ + text::dec_int(0) + ")"@ + ""@ + ": "@
                    + text::shortened(json::json_text(Json::Object(json::no_members())), 300),
            ),
        ),
{
    reveal_strlit("msg");
    reveal_strlit("message");
    reveal_strlit("errorMessage");
    assert("msg"@.len() == 3 && "message"@.len() == 7 && "errorMessage"@.len() == 12);
}

/// A device option without a value asks for no device.
pub proof fn law_device_option_without_value(a: Seq<Seq<char>>, flag: Seq<char>)
    requires
        all_plain(a),
        flag == "--device"@ || flag == "-D"@,
    ensures
        cli::options_with(cli::no_options(), a + seq![flag]) == (cli::OptsView {
            pos: a,
            ..cli::no_options()
        }),
{
    reveal_strlit("--json");
    reveal_strlit("--wait");
    reveal_strlit("--no-cache");
    reveal_strlit("--fresh");
    reveal_strlit("--device");
    reveal_strlit("-D");
    assert("--json"@.len() == 6 && "--wait"@.len() == 6 && "--no-cache"@.len() == 10);
    assert("--fresh"@.len() == 7 && "--device"@.len() == 8 && "-D"@.len() == 2);
    let o = cli::no_options();
    lemma_options_after(o, a, seq![flag]);
    assert(o.pos + a =~= a);
}

} // verus!
