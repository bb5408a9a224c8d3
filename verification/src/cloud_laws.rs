//! Laws of the cloud layers and of the command line.

use crate::auth;
use crate::cache;
use crate::cli;
use crate::config;
use crate::device;
use crate::fault;
use crate::http;
use crate::iot;
use crate::json;
use crate::orders;
use crate::rest;
use crate::text;
use device::AcState;
use vstd::prelude::*;

verus! {

// ---------------------------------------------------------------------------
// hosts
// ---------------------------------------------------------------------------

/// Whether a character does not occur in a text.
pub open spec fn lacks(s: Seq<char>, c: char) -> bool {
    forall|i: int| 0 <= i < s.len() ==> #[trigger] s[i] != c
}

proof fn lemma_before_lacks(s: Seq<char>, c: char)
    ensures
        lacks(text::before(s, c), c),
        text::before(s, c).len() <= s.len(),
        forall|i: int|
            0 <= i < text::before(s, c).len() ==> #[trigger] text::before(s, c)[i] == s[i],
    decreases s.len(),
{
    if s.len() > 0 && s[0] != c {
        lemma_before_lacks(s.skip(1), c);
        let rest = text::before(s.skip(1), c);
        let all = text::before(s, c);
        assert forall|i: int| 0 <= i < all.len() implies #[trigger] all[i] == s[i] && all[i]
            != c by {
            if i > 0 {
                assert(all[i] == rest[i - 1]);
                assert(rest[i - 1] == s.skip(1)[i - 1]);
            }
        }
    }
}

proof fn lemma_before_slash(s: Seq<char>, n: int)
    requires
        0 <= n < s.len(),
        s[n] == '/',
        lacks(s.take(n), '/'),
    ensures
        text::before(s, '/') == s.take(n),
    decreases n,
{
    if n > 0 {
        assert(s.take(n)[0] == s[0]);
        assert forall|i: int| 0 <= i < n - 1 implies #[trigger] s.skip(1).take(n - 1)[i] != '/' by {
            assert(s.skip(1).take(n - 1)[i] == s.take(n)[i + 1]);
        }
        lemma_before_slash(s.skip(1), n - 1);
        assert(seq![s[0]] + s.skip(1).take(n - 1) =~= s.take(n));
    } else {
        assert(s.take(0) =~= Seq::<char>::empty());
    }
}

pub proof fn lemma_before_whole(s: Seq<char>, c: char)
    requires
        lacks(s, c),
    ensures
        text::before(s, c) == s,
    decreases s.len(),
{
    if s.len() > 0 {
        assert(s[0] != c);
        assert forall|i: int| 0 <= i < s.skip(1).len() implies #[trigger] s.skip(1)[i] != c by {
            assert(s.skip(1)[i] == s[i + 1]);
        }
        lemma_before_whole(s.skip(1), c);
        assert(seq![s[0]] + s.skip(1) =~= s);
    }
}

/// Whether neither end of a text is white space.
pub open spec fn is_trimmed(s: Seq<char>) -> bool {
    s.len() > 0 ==> !text::is_space(s[0]) && !text::is_space(s.last())
}

proof fn lemma_trimmed_start(s: Seq<char>, c: char)
    ensures
        ({
            let t = text::trimmed_start(s);
            &&& t.len() > 0 ==> !text::is_space(t[0])
            &&& lacks(s, c) ==> lacks(t, c)
            &&& t.len() > 0 ==> t.last() == s.last()
        }),
    decreases s.len(),
{
    if s.len() > 0 && text::is_space(s[0]) {
        lemma_trimmed_start(s.skip(1), c);
        if lacks(s, c) {
            assert forall|i: int| 0 <= i < s.skip(1).len() implies #[trigger] s.skip(1)[i] != c by {
                assert(s.skip(1)[i] == s[i + 1]);
            }
        }
    }
}

proof fn lemma_trimmed_end(s: Seq<char>, c: char)
    ensures
        ({
            let t = text::trimmed_end(s);
            &&& t.len() > 0 ==> !text::is_space(t.last())
            &&& lacks(s, c) ==> lacks(t, c)
            &&& t.len() > 0 ==> t[0] == s[0]
        }),
    decreases s.len(),
{
    if s.len() > 0 && text::is_space(s.last()) {
        lemma_trimmed_end(s.drop_last(), c);
        if lacks(s, c) {
            assert forall|i: int| 0 <= i < s.drop_last().len() implies #[trigger] s.drop_last()[i]
                != c by {
                assert(s.drop_last()[i] == s[i]);
            }
        }
    }
}

pub proof fn lemma_trimmed(s: Seq<char>, c: char)
    ensures
        is_trimmed(text::trimmed(s)),
        lacks(s, c) ==> lacks(text::trimmed(s), c),
{
    lemma_trimmed_start(s, c);
    lemma_trimmed_end(text::trimmed_start(s), c);
}

/// The host of an endpoint is bare: it holds no slash and no colon, is trimmed,
/// and is its own host.
pub proof fn law_host_is_bare(ep: Seq<char>)
    requires
        iot::host_of(ep) is Some,
    ensures
        ({
            let host = iot::host_of(ep)->0;
            &&& host.len() > 0
            &&& lacks(host, '/')
            &&& lacks(host, ':')
            &&& is_trimmed(host)
            &&& iot::host_of(host) == Some(host)
        }),
{
    let rest = iot::without_schemes(text::trimmed(ep));
    let path = text::before(rest, '/');
    let port = text::before(path, ':');
    let host = text::trimmed(port);
    lemma_before_lacks(rest, '/');
    lemma_before_lacks(path, ':');
    assert forall|i: int| 0 <= i < port.len() implies #[trigger] port[i] != '/' by {
        assert(port[i] == path[i]);
    }
    lemma_trimmed(port, '/');
    lemma_trimmed(port, ':');
    assert(text::trimmed(host) == host);
    lemma_before_whole(host, '/');
    lemma_before_whole(host, ':');
}

/// Whatever the scheme of an endpoint is, its host is that of what follows.
pub proof fn law_scheme_is_stripped(scheme: Seq<char>, ep: Seq<char>)
    requires
        scheme.len() > 0,
        !text::is_space(scheme[0]),
        lacks(scheme, '/'),
        ep.len() > 0,
        is_trimmed(ep),
    ensures
        iot::host_of(scheme + "://"@ + ep) == iot::host_of(ep),
{
    reveal_strlit("://");
    let all = scheme + "://"@ + ep;
    let head = scheme + seq![':'];
    let n = head.len() as int;
    lemma_before_slash(all, n);
    assert(text::trimmed(all) == all);
    assert(text::trimmed(ep) == ep);
    assert(all.skip(n + 2) =~= ep);
}

// ---------------------------------------------------------------------------
// devices
// ---------------------------------------------------------------------------

/// Every device of a listing has an id, and there are at most as many as items.
pub proof fn law_listed_devices_have_ids(items: Seq<json::Json>)
    ensures
        rest::devices_in(items).len() <= items.len(),
        forall|i: int|
            0 <= i < rest::devices_in(items).len() ==> (#[trigger] rest::devices_in(
                items,
            )[i]).device_id.len() > 0,
    decreases items.len(),
{
    if items.len() > 0 {
        law_listed_devices_have_ids(items.drop_last());
    }
}

/// The device that is found has the id, and none before it has; where none is
/// found, none has it.
pub proof fn law_first_device_with_id(devices: Seq<rest::DeviceView>, id: Seq<char>)
    ensures
        match rest::place_of(devices, id) {
            Some(p) => {
                &&& 0 <= p < devices.len()
                &&& devices[p].device_id == id
                &&& forall|i: int| 0 <= i < p ==> (#[trigger] devices[i]).device_id != id
            },
            None => forall|i: int|
                0 <= i < devices.len() ==> (#[trigger] devices[i]).device_id != id,
        },
    decreases devices.len(),
{
    if devices.len() > 0 && devices[0].device_id != id {
        let tail = devices.skip(1);
        law_first_device_with_id(tail, id);
        match rest::place_of(tail, id) {
            Some(p) => {
                assert(tail[p] == devices[p + 1]);
                assert forall|i: int| 0 <= i < p + 1 implies (#[trigger] devices[i]).device_id
                    != id by {
                    if i > 0 {
                        assert(tail[i - 1] == devices[i]);
                    }
                }
            },
            None => {
                assert forall|i: int| 0 <= i < devices.len() implies (
                #[trigger] devices[i]).device_id != id by {
                    if i > 0 {
                        assert(tail[i - 1] == devices[i]);
                    }
                }
            },
        }
    }
}

/// Two calls signed at the same time with the same nonce by sessions with the
/// same token carry the same signature.
pub proof fn law_signature_rests_on_the_token(
    a: auth::SessionView,
    b: auth::SessionView,
    timestamp: Seq<char>,
    nonce: Seq<char>,
)
    requires
        a.saas_token == b.saas_token,
    ensures
        rest::signed_headers(a, timestamp, nonce)[8] == rest::signed_headers(
            b,
            timestamp,
            nonce,
        )[8],
        rest::signed_headers(a, timestamp, nonce)[8] == (
            "sign"@,
            auth::md5_hex_of(timestamp + nonce + a.saas_token),
        ),
{
}

/// Where replies lead the authentication chain, each taken in turn until it ends.
pub open spec fn chain(
    p: Result<auth::ProgressView, fault::FaultView>,
    replies: Seq<http::Reply>,
) -> Result<auth::ProgressView, fault::FaultView>
    decreases replies.len(),
{
    if replies.len() == 0 {
        p
    } else {
        match p {
            Ok(auth::ProgressView::Send(stage, _)) => chain(
                auth::advanced(stage, replies[0]),
                replies.skip(1),
            ),
            _ => p,
        }
    }
}

/// The authentication chain ends with its fourth reply at the latest, in a
/// failure or in a session. Where every stage works, the session carries what the
/// four of them brought.
pub proof fn law_chain_ends_in_a_session(
    username: Seq<char>,
    password: Seq<char>,
    r1: http::Reply,
    r2: http::Reply,
    r3: http::Reply,
    r4: http::Reply,
)
    ensures
        ({
            let start = auth::ProgressView::Send(
                auth::StageView::Login { username },
                auth::login_sent(username, password),
            );
            let end = chain(Ok(start), seq![r1, r2, r3, r4]);
            &&& end is Err || end->Ok_0 is Done
            &&& match (
                auth::login_reply(r1, username),
                auth::cloud_urls_reply(r2),
                auth::tokens_reply(r3),
                auth::credentials_reply(r4),
            ) {
                (Ok(login), Ok(urls), Ok(tokens), Ok(aws)) => auth::credentials_sent(
                    urls.cloud_region,
                    tokens.cognito_token,
                ) is Ok ==> end == Ok::<_, fault::FaultView>(
                    auth::ProgressView::Done(auth::session_of(login, urls, tokens, aws)),
                ),
                _ => true,
            }
        }),
{
    let all = seq![r1, r2, r3, r4];
    assert(all.skip(1) =~= seq![r2, r3, r4]);
    assert(seq![r2, r3, r4].skip(1) =~= seq![r3, r4]);
    assert(seq![r3, r4].skip(1) =~= seq![r4]);
    assert(seq![r4].skip(1) =~= Seq::<http::Reply>::empty());
    reveal_with_fuel(chain, 5);
}

/// A cached session that serves at a time served at every earlier one, and one
/// without a known expiry never does.
pub proof fn law_cache_expires(expiration: Option<u64>, earlier: int, later: int)
    requires
        earlier <= later,
    ensures
        cache::fresh(expiration, later) ==> cache::fresh(expiration, earlier),
        expiration is None ==> !cache::fresh(expiration, later),
        expiration matches Some(t) ==> !cache::fresh(expiration, t as int),
{
}

/// The environment wins over the config file, whatever that holds.
pub proof fn law_environment_wins(
    env: config::Environment,
    file: config::ConfigFile,
    other: config::ConfigFile,
)
    requires
        env.config() is Some,
    ensures
        config::loaded(env, file) == config::LoadedView::Found(env.config()->0),
        config::loaded(env, file) == config::loaded(env, other),
{
}

// ---------------------------------------------------------------------------
// the command line
// ---------------------------------------------------------------------------

/// The words for a switch read back as it.
pub proof fn law_switch_words_read_back(on: bool)
    ensures
        cli::switch_of(cli::on_off(on)) == Some(on),
{
    reveal_strlit("on");
    reveal_strlit("off");
    reveal_strlit("1");
    reveal_strlit("0");
    reveal_strlit("true");
    reveal_strlit("yes");
    assert(text::lower("on"@) =~= "on"@);
    assert(text::lower("off"@) =~= "off"@);
    assert("off"@.len() != "on"@.len());
    assert("off"@.len() != "1"@.len());
    assert("off"@.len() != "true"@.len());
    assert("off"@[0] != "yes"@[0]);
}

/// Whatever temperature is asked for, what is sent lies within the limits of the
/// device.
pub proof fn law_sent_temperature_in_limits(arg: Seq<char>, s: AcState)
    requires
        s.t_min <= s.t_max,
    ensures
        orders::temp_order(arg, s) matches Ok(o) ==> exists|c: int|
            s.t_min <= c <= s.t_max && o.desired == #[trigger] device::temp_patch(
                c,
                s.t_min as int,
                s.t_max as int,
            ),
{
}

/// A relative temperature undoes the opposite one, within the limits.
pub proof fn law_relative_temperature(digits: Seq<char>, target: int, n: i64)
    requires
        text::parsed_i64(digits) == Some(n),
        digits.len() > 0,
    ensures
        orders::asked_temp(seq!['+'] + digits, target) == Ok::<int, fault::FaultView>(target + n),
        orders::asked_temp(seq!['-'] + digits, target + n) == Ok::<int, fault::FaultView>(target),
{
    assert((seq!['+'] + digits).skip(1) =~= digits);
    assert((seq!['-'] + digits).skip(1) =~= digits);
}

proof fn lemma_undashed_plain(s: Seq<char>)
    requires
        lacks(s, '-'),
        lacks(s, '_'),
    ensures
        text::undashed(s) == s,
    decreases s.len(),
{
    reveal(Seq::filter);
    if s.len() > 0 {
        let t = s.drop_last();
        assert forall|i: int| 0 <= i < t.len() implies #[trigger] t[i] != '-' && t[i] != '_' by {
            assert(t[i] == s[i]);
        }
        lemma_undashed_plain(t);
        assert(s.last() == s[s.len() - 1]);
        assert(t.push(s.last()) =~= s);
    }
}

proof fn lemma_undashed_pair(a: Seq<char>, b: Seq<char>)
    requires
        lacks(a, '-'),
        lacks(a, '_'),
        lacks(b, '-'),
        lacks(b, '_'),
    ensures
        text::undashed(a + seq!['-'] + b) == a + b,
{
    reveal(Seq::filter);
    let keep = |c: char| c != '-' && c != '_';
    lemma_undashed_plain(a);
    lemma_undashed_plain(b);
    Seq::filter_distributes_over_add(a + seq!['-'], b, keep);
    Seq::filter_distributes_over_add(a, seq!['-'], keep);
    let dash = seq!['-'];
    assert(dash.drop_last() =~= Seq::<char>::empty());
    assert(Seq::<char>::empty().filter(keep) =~= Seq::<char>::empty());
    assert(dash.filter(keep) =~= Seq::<char>::empty());
    assert(a + Seq::<char>::empty() =~= a);
}

/// The label of every aim point names it.
pub proof fn law_vent_labels_read_back(horizontal: bool, i: nat)
    requires
        i < 5,
    ensures
        orders::vent_of(horizontal, orders::vent_name(horizontal, i as int)) == Some(i),
{
    reveal_strlit("left");
    reveal_strlit("mid-left");
    reveal_strlit("center");
    reveal_strlit("mid-right");
    reveal_strlit("right");
    reveal_strlit("top");
    reveal_strlit("upper");
    reveal_strlit("middle");
    reveal_strlit("lower");
    reveal_strlit("bottom");
    let name = orders::vent_name(horizontal, i as int);
    assert(text::lower(name) =~= name);
    lemma_undashed_plain("left"@);
    lemma_undashed_plain("center"@);
    lemma_undashed_plain("right"@);
    lemma_undashed_plain("top"@);
    lemma_undashed_plain("upper"@);
    lemma_undashed_plain("middle"@);
    lemma_undashed_plain("lower"@);
    lemma_undashed_plain("bottom"@);
    let mid = seq!['m', 'i', 'd'];
    lemma_undashed_pair(mid, "left"@);
    lemma_undashed_pair(mid, "right"@);
    assert(mid + seq!['-'] + "left"@ =~= "mid-left"@);
    assert(mid + seq!['-'] + "right"@ =~= "mid-right"@);
    let w = text::undashed(name);
    assert(name.len() > 0 && !text::is_digit(name[0]) && name[0] != '+');
    assert(text::parsed_unsigned(name, u64::MAX as int) is None);
    reveal_with_fuel(orders::vent_labelled, 6);
    if horizontal {
        assert("left"@.len() == 4 && "center"@.len() == 6 && "right"@.len() == 5);
        assert((mid + "left"@).len() == 7 && (mid + "right"@).len() == 8);
    } else {
        assert("top"@.len() == 3 && "upper"@[0] != "lower"@[0] && "middle"@[0] != "bottom"@[0]);
        assert("upper"@.len() == 5 && "middle"@.len() == 6);
    }
}

/// Arguments that are no flags stay as they are.
pub proof fn law_plain_arguments_are_kept(args: Seq<Seq<char>>, o: cli::OptsView)
    requires
        forall|i: int|
            0 <= i < args.len() ==> (#[trigger] args[i]) != "--json"@ && args[i] != "--wait"@
                && args[i] != "--no-cache"@ && args[i] != "--fresh"@ && args[i] != "--device"@
                && args[i] != "-D"@,
    ensures
        cli::options_with(o, args) == (cli::OptsView { pos: o.pos + args, ..o }),
    decreases args.len(),
{
    if args.len() > 0 {
        let next = cli::OptsView { pos: o.pos.push(args[0]), ..o };
        let tail = args.skip(1);
        assert forall|i: int| 0 <= i < tail.len() implies (#[trigger] tail[i]) != "--json"@
            && tail[i] != "--wait"@ && tail[i] != "--no-cache"@ && tail[i] != "--fresh"@ && tail[i]
            != "--device"@ && tail[i] != "-D"@ by {
            assert(tail[i] == args[i + 1]);
        }
        law_plain_arguments_are_kept(tail, next);
        assert(o.pos.push(args[0]) + tail =~= o.pos + args);
    } else {
        assert(o.pos + args =~= o.pos);
    }
}

// ---------------------------------------------------------------------------
// shortened messages
// ---------------------------------------------------------------------------

proof fn lemma_fitting(s: Seq<char>, n: nat)
    ensures
        text::fitting(s, n) <= s.len(),
        text::byte_len(s.take(text::fitting(s, n) as int)) <= n,
        text::byte_len(s) > n ==> n < text::byte_len(s.take(text::fitting(s, n) as int)) + 4,
    decreases s.len(),
{
    let k = text::fitting(s, n);
    if s.len() == 0 || text::width(s[0]) > n {
        assert(text::byte_len(s.take(0)) == 0);
    } else {
        lemma_fitting(s.skip(1), (n - text::width(s[0])) as nat);
        assert(s.take(k as int).skip(1) =~= s.skip(1).take(k - 1));
        assert(s.take(k as int)[0] == s[0]);
    }
}

/// A message that is too long is shown up to the limit, in bytes, or less than
/// four bytes short of it, with a mark at its end. No other is changed.
pub proof fn law_shortened_to_the_limit(s: Seq<char>, n: nat)
    ensures
        text::byte_len(s) <= n ==> text::shortened(s, n) == s,
        text::byte_len(s) > n ==> exists|k: int|
            0 <= k <= s.len() && text::shortened(s, n) == #[trigger] s.take(k) + "…"@
                && text::byte_len(s.take(k)) <= n < text::byte_len(s.take(k)) + 4,
{
    lemma_fitting(s, n);
    if text::byte_len(s) > n {
        assert(text::shortened(s, n) == s.take(text::fitting(s, n) as int) + "…"@);
    }
}

} // verus!
