//! Laws of the dashboard: what each key and each answer of the cloud does.

use crate::app;
use crate::device;
use crate::double;
use crate::json;
use crate::laws;
use crate::text;
use app::{ActionView, AppView, CloudError, Key, Moment, PendingCmd, PendingKind};
use device::{AcState, Fan, Mode};
use json::Json;
use vstd::prelude::*;

verus! {

// ---------------------------------------------------------------------------
// modes
// ---------------------------------------------------------------------------

/// Whether a mode is what the dashboard shows: the one that waits or, where none
/// does, the one that the device is in.
pub open spec fn shows_mode(a: AppView, m: Mode) -> bool {
    match a.pending {
        Some(PendingCmd { kind: PendingKind::Mode(p), .. }) => p == m,
        _ => a.state matches Some(s) && s.work_mode == m.code(),
    }
}

/// The key `m` queues the mode after the one that is shown: the one with the
/// next value, and the first after the last.
#[verifier::rlimit(40)]
pub proof fn law_mode_key(a: AppView, m: Mode, ctrl: bool, at: Moment)
    requires
        !a.aim_open,
        shows_mode(a, m),
    ensures
        ({
            let b = a.pressed(Key::Char('m'), ctrl, at).0;
            &&& b.pending is Some
            &&& b.pending->0.kind is Mode
            &&& b.pending->0.kind->Mode_0.code() == (m.code() + 1) % 5
            &&& a.pending is None ==> b.status == "queued: mode "@ + b.pending->0.kind->Mode_0.name()
            &&& !b.aim_open
            &&& b.state == a.state
        }),
{
}

/// Five presses of `m` come back to the mode that was shown.
pub proof fn law_mode_key_comes_round(
    a: AppView,
    m: Mode,
    t1: Moment,
    t2: Moment,
    t3: Moment,
    t4: Moment,
    t5: Moment,
)
    requires
        !a.aim_open,
        shows_mode(a, m),
    ensures
        ({
            let k = Key::Char('m');
            let b = a.pressed(k, false, t1).0.pressed(k, false, t2).0.pressed(k, false, t3).0;
            let c = b.pressed(k, false, t4).0.pressed(k, false, t5).0;
            c.pending matches Some(PendingCmd { kind: PendingKind::Mode(n), .. }) && n == m
        }),
{
    let k = Key::Char('m');
    let a1 = a.pressed(k, false, t1).0;
    law_mode_key(a, m, false, t1);
    let m1 = a1.pending->0.kind->Mode_0;
    let a2 = a1.pressed(k, false, t2).0;
    law_mode_key(a1, m1, false, t2);
    let m2 = a2.pending->0.kind->Mode_0;
    let a3 = a2.pressed(k, false, t3).0;
    law_mode_key(a2, m2, false, t3);
    let m3 = a3.pending->0.kind->Mode_0;
    let a4 = a3.pressed(k, false, t4).0;
    law_mode_key(a3, m3, false, t4);
    let m4 = a4.pending->0.kind->Mode_0;
    let a5 = a4.pressed(k, false, t5).0;
    law_mode_key(a4, m4, false, t5);
    laws::law_mode_code(m, a5.pending->0.kind->Mode_0.code() as int);
}

/// The keys `1` to `5` queue the modes by their values, 0 to 4.
#[verifier::rlimit(40)]
pub proof fn law_number_keys(a: AppView, c: char, ctrl: bool, at: Moment)
    requires
        !a.aim_open,
        '1' <= c <= '5',
    ensures
        a.pressed(Key::Char(c), ctrl, at).0.pending matches Some(
            PendingCmd { kind: PendingKind::Mode(m), .. },
        ) && m.code() == c as u32 - '1' as u32,
{
}

// ---------------------------------------------------------------------------
// fan speeds
// ---------------------------------------------------------------------------

/// Whether a speed is what the dashboard shows.
pub open spec fn shows_fan(a: AppView, f: Fan) -> bool {
    match a.pending {
        Some(PendingCmd { kind: PendingKind::Fan(p), .. }) => p == f,
        _ => match a.state {
            Some(s) => s.fan == f,
            None => f == Fan::Auto,
        },
    }
}

/// The key `f` queues the next level of the fan, and `F` the one before: auto,
/// the six gears, turbo, and round again.
#[verifier::rlimit(40)]
pub proof fn law_fan_keys(a: AppView, f: Fan, ctrl: bool, at: Moment)
    requires
        !a.aim_open,
        f.valid(),
        shows_fan(a, f),
    ensures
        ({
            let up = a.pressed(Key::Char('f'), ctrl, at).0.pending;
            let down = a.pressed(Key::Char('F'), ctrl, at).0.pending;
            &&& up matches Some(PendingCmd { kind: PendingKind::Fan(g), .. }) && g.valid()
                && g.level() == (f.level() + 1) % 8
            &&& down matches Some(PendingCmd { kind: PendingKind::Fan(g), .. }) && g.valid()
                && g.level() == (f.level() + 7) % 8
        }),
{
}

// ---------------------------------------------------------------------------
// temperatures
// ---------------------------------------------------------------------------

/// Whether a target is what the dashboard shows. A device without one counts as
/// set to 24.
pub open spec fn shows_target(a: AppView, c: int) -> bool {
    match a.pending {
        Some(PendingCmd { kind: PendingKind::Temp(p), .. }) => p == c,
        _ => match a.state {
            Some(s) => match json::reading_bits(s.target_temp) {
                Some(b) => b == double::integer_pattern(c),
                None => c == 24,
            },
            None => c == 24,
        },
    }
}

/// Whether a key raises the temperature.
pub open spec fn is_up(key: Key) -> bool {
    key == Key::Char('+') || key == Key::Char('=') || key == Key::Up
}

/// Whether a key lowers the temperature.
pub open spec fn is_down(key: Key) -> bool {
    key == Key::Char('-') || key == Key::Char('_') || key == Key::Down
}

/// The keys for the temperature queue one degree more or less than is shown, and
/// stop at the limits of the device, 16 and 31 where it has not told any.
#[verifier::rlimit(60)]
pub proof fn law_temperature_keys(a: AppView, c: int, lo: int, hi: int, key: Key, ctrl: bool, at: Moment)
    requires
        !a.aim_open,
        is_up(key) || is_down(key),
        -0x100_0000_0000 < c < 0x100_0000_0000,
        -0x100_0000_0000 < lo <= c <= hi < 0x100_0000_0000,
        shows_target(a, c),
        a.state matches Some(s) ==> s.t_min == lo && s.t_max == hi,
        a.state is None ==> lo == 16 && hi == 31,
    ensures
        a.pressed(key, ctrl, at).0.pending matches Some(
            PendingCmd { kind: PendingKind::Temp(n), .. },
        ) && (is_up(key) ==> n == if c < hi {
            c + 1
        } else {
            hi
        }) && (is_down(key) ==> n == if c > lo {
            c - 1
        } else {
            lo
        }),
{
    laws::law_integers_round_to_themselves(c);
}

// ---------------------------------------------------------------------------
// settled intents
// ---------------------------------------------------------------------------

/// Whether a step publishes one desired state, says so, and changes nothing else
/// of what the dashboard shows.
pub open spec fn publishes(a: AppView, step: app::Step, desc: Seq<char>, desired: Json) -> bool {
    &&& step.1 == Some(ActionView::Publish { desc, payload: json::json_text(desired), desired })
    &&& step.0 == (AppView { busy: true, status: "Sending: "@ + desc, ..a })
}

/// A mode that has settled is published as its value.
pub proof fn law_settled_mode_is_sent(a: AppView, m: Mode, due: u64, now: u64)
    requires
        a.pending == Some(PendingCmd { kind: PendingKind::Mode(m), due }),
        due <= now,
    ensures
        publishes(
            AppView { pending: None, ..a },
            a.flushed(now),
            "mode "@ + m.name(),
            Json::Object(json::no_members().insert("workMode"@, json::whole(m.code() as int))),
        ),
{
}

/// A speed that has settled is published in the dialect of the device, the
/// seven-gear one where none is known.
pub proof fn law_settled_fan_is_sent(a: AppView, f: Fan, due: u64, now: u64)
    requires
        a.pending == Some(PendingCmd { kind: PendingKind::Fan(f), due }),
        due <= now,
    ensures
        publishes(
            AppView { pending: None, ..a },
            a.flushed(now),
            "fan "@ + f.name(),
            Json::Object(
                f.patch(
                    match a.state {
                        Some(s) => s.dialect,
                        None => device::FanDialect::SevenGear,
                    },
                ),
            ),
        ),
{
}

/// A temperature that has settled is published in both units.
pub proof fn law_settled_temperature_is_sent(a: AppView, c: i64, due: u64, now: u64)
    requires
        a.pending == Some(PendingCmd { kind: PendingKind::Temp(c), due }),
        due <= now,
        -0x100_0000_0000 <= c <= 0x100_0000_0000,
        a.state matches Some(s) ==> s.t_min <= c <= s.t_max,
        a.state is None ==> 16 <= c <= 31,
    ensures
        publishes(
            AppView { pending: None, ..a },
            a.flushed(now),
            "temp "@ + text::dec_int(c as int) + "°C"@,
            Json::Object(
                json::no_members().insert("targetTemperature"@, json::whole(c as int)).insert(
                    "targetFahrenheitTemp"@,
                    json::whole((18 * c + 325) / 10),
                ),
            ),
        ),
{
    laws::law_fahrenheit(c as int);
}

/// What waits and has not settled, or does not wait at all, is not published.
pub proof fn law_unsettled_waits(a: AppView, now: u64)
    requires
        a.pending matches Some(p) ==> now < p.due,
    ensures
        a.flushed(now) == (a, None::<ActionView>),
{
}

// ---------------------------------------------------------------------------
// switches
// ---------------------------------------------------------------------------

/// The desired state that a step publishes.
pub open spec fn asked_by(step: app::Step) -> Map<Seq<char>, Json> {
    match step.1 {
        Some(ActionView::Publish { desired, .. }) => laws::members(Some(desired)),
        _ => json::no_members(),
    }
}

/// Whether a key switches a setting at once.
pub open spec fn is_switch(key: Key, ctrl: bool) -> bool {
    ||| key == Key::Char('p')
    ||| key == Key::Char('s')
    ||| key == Key::Char('h')
    ||| key == Key::Char('e')
    ||| key == Key::Char('d')
    ||| key == Key::Char('b')
    ||| key == Key::Char('g')
    ||| (key == Key::Char('c') && !ctrl)
    ||| key == Key::Char('n')
    ||| key == Key::Char('8')
}

/// A key for a switch publishes at once, and a unit that takes it up is read
/// with that switch, and no other, turned over.
#[verifier::rlimit(100)]
pub proof fn law_switch_keys(
    a: AppView,
    st: AcState,
    key: Key,
    ctrl: bool,
    at: Moment,
    shadow: Json,
    after: AcState,
)
    requires
        !a.aim_open,
        a.state == Some(st),
        is_switch(key, ctrl),
        after.reads(laws::patched(shadow, asked_by(a.pressed(key, ctrl, at)))),
    ensures
        a.pressed(key, ctrl, at).1 matches Some(ActionView::Publish { desc, payload, desired })
            && publishes(a, a.pressed(key, ctrl, at), desc, desired),
        asked_by(a.pressed(key, ctrl, at)).dom().len() == 1,
        key == Key::Char('p') ==> after.power == !st.power,
        key == Key::Char('s') ==> (1 <= after.v_dir <= 3) == !(1 <= st.v_dir <= 3),
        key == Key::Char('h') ==> (1 <= after.h_dir <= 4) == !(1 <= st.h_dir <= 4),
        key == Key::Char('e') ==> after.eco == !st.eco,
        key == Key::Char('d') ==> after.screen == !st.screen,
        key == Key::Char('b') ==> after.beep == !st.beep,
        key == Key::Char('g') ==> after.healthy == !st.healthy,
        key == Key::Char('c') ==> after.self_clean == !st.self_clean,
        key == Key::Char('n') ==> after.anti_mold == !st.anti_mold,
        key == Key::Char('8') ==> after.eight_heat == !st.eight_heat,
{
    let step = a.pressed(key, ctrl, at);
    let desired = step.1->0->desired;
    let (field, n): (Seq<char>, int) = if key == Key::Char('p') {
        ("powerSwitch"@, device::bit(!st.power))
    } else if key == Key::Char('s') {
        (
            "verticalDirection"@,
            if 1 <= st.v_dir <= 3 {
                8
            } else {
                1
            },
        )
    } else if key == Key::Char('h') {
        (
            "horizontalDirection"@,
            if 1 <= st.h_dir <= 4 {
                8
            } else {
                1
            },
        )
    } else {
        let t = AppView::toggle_for(key)->0;
        (t.field_name(), device::bit(!t.state_in(st)))
    };
    assert(desired == device::patch1(field, n));
    assert(asked_by(step).dom() =~= Set::empty().insert(field));
    laws::law_patch_is_read(shadow, asked_by(step), field);
}

/// Before the first read a key for a switch turns it on.
#[verifier::rlimit(100)]
pub proof fn law_switch_keys_without_state(
    a: AppView,
    key: Key,
    ctrl: bool,
    at: Moment,
    shadow: Json,
    after: AcState,
)
    requires
        !a.aim_open,
        a.state is None,
        is_switch(key, ctrl),
        after.reads(laws::patched(shadow, asked_by(a.pressed(key, ctrl, at)))),
    ensures
        key == Key::Char('p') ==> after.power,
        key == Key::Char('s') ==> 1 <= after.v_dir <= 3,
        key == Key::Char('h') ==> 1 <= after.h_dir <= 4,
        key == Key::Char('e') ==> after.eco,
        key == Key::Char('d') ==> after.screen,
        key == Key::Char('b') ==> after.beep,
        key == Key::Char('g') ==> after.healthy,
        key == Key::Char('c') ==> after.self_clean,
        key == Key::Char('n') ==> after.anti_mold,
        key == Key::Char('8') ==> after.eight_heat,
{
    let step = a.pressed(key, ctrl, at);
    let desired = step.1->0->desired;
    let field = if key == Key::Char('p') {
        "powerSwitch"@
    } else if key == Key::Char('s') {
        "verticalDirection"@
    } else if key == Key::Char('h') {
        "horizontalDirection"@
    } else {
        AppView::toggle_for(key)->0.field_name()
    };
    assert(desired == device::patch1(field, 1));
    laws::law_patch_is_read(shadow, asked_by(step), field);
}

/// The words for what a key switches tell which setting, and whether it goes on
/// or off.
#[verifier::rlimit(60)]
pub proof fn law_switch_keys_are_told(a: AppView, st: AcState, key: Key, at: Moment)
    requires
        !a.aim_open,
        a.state == Some(st),
        is_switch(key, false),
    ensures
        ({
            let told = a.pressed(key, false, at).1->0->desc;
            let word = |on: bool|
                if on {
                    "ON"@
                } else {
                    "OFF"@
                };
            &&& key == Key::Char('p') ==> told == if st.power {
                "power off"@
            } else {
                "power on"@
            }
            &&& key == Key::Char('s') ==> told == if 1 <= st.v_dir <= 3 {
                "v-swing off"@
            } else {
                "v-swing on"@
            }
            &&& key == Key::Char('h') ==> told == if 1 <= st.h_dir <= 4 {
                "h-swing off"@
            } else {
                "h-swing on"@
            }
            &&& key == Key::Char('e') ==> told == "eco"@ + " "@ + word(!st.eco)
            &&& key == Key::Char('d') ==> told == "display"@ + " "@ + word(!st.screen)
            &&& key == Key::Char('b') ==> told == "beep"@ + " "@ + word(!st.beep)
            &&& key == Key::Char('g') ==> told == "health"@ + " "@ + word(!st.healthy)
            &&& key == Key::Char('c') ==> told == "self-clean"@ + " "@ + word(!st.self_clean)
            &&& key == Key::Char('n') ==> told == "anti-mold"@ + " "@ + word(!st.anti_mold)
            &&& key == Key::Char('8') ==> told == "8°C-heat"@ + " "@ + word(!st.eight_heat)
        }),
{
}

/// The key `z` asks for the next sleep level, and for the first after the last.
#[verifier::rlimit(60)]
pub proof fn law_sleep_key(
    a: AppView,
    st: AcState,
    ctrl: bool,
    at: Moment,
    shadow: Json,
    after: AcState,
)
    requires
        !a.aim_open,
        a.state == Some(st),
        0 <= st.sleep <= 3,
        after.reads(laws::patched(shadow, asked_by(a.pressed(Key::Char('z'), ctrl, at)))),
    ensures
        after.sleep == (st.sleep + 1) % 4,
        a.pressed(Key::Char('z'), ctrl, at).1->0->desc == "sleep "@ + (if st.sleep == 0 {
            "Standard"@
        } else if st.sleep == 1 {
            "Elderly"@
        } else if st.sleep == 2 {
            "Child"@
        } else {
            "Off"@
        }),
{
    let step = a.pressed(Key::Char('z'), ctrl, at);
    assert(step.1->0->desired == device::patch1("sleep"@, (st.sleep + 1) % 4));
    laws::law_patch_is_read(shadow, asked_by(step), "sleep"@);
}

// ---------------------------------------------------------------------------
// other keys
// ---------------------------------------------------------------------------

/// `q`, Escape and Ctrl-C quit, and nothing else does. `a` turns the animations
/// over, `r` reads the shadow at once, `v` opens the aim overlay; a key without a
/// meaning changes nothing.
#[verifier::rlimit(100)]
pub proof fn law_other_keys(a: AppView, key: Key, ctrl: bool, at: Moment)
    requires
        !a.aim_open,
    ensures
        ({
            let (b, action) = a.pressed(key, ctrl, at);
            let quits = key == Key::Char('q') || key == Key::Esc || (key == Key::Char('c')
                && ctrl);
            let queues = is_up(key) || is_down(key) || key == Key::Char('m') || key == Key::Char(
                'f',
            ) || key == Key::Char('F') || (key matches Key::Char(c) && '1' <= c <= '5');
            let sends = is_switch(key, ctrl) || key == Key::Char('z');
            &&& b.should_quit == (a.should_quit || quits)
            &&& quits ==> b == (AppView { should_quit: true, ..a }) && action is None
            &&& b.anim == (if key == Key::Char('a') {
                !a.anim
            } else {
                a.anim
            })
            &&& key == Key::Char('r') ==> action == (if a.refresh_inflight {
                None::<ActionView>
            } else {
                Some(ActionView::Refresh { delay_ms: 0 })
            })
            &&& b.aim_open == (key == Key::Char('v'))
            &&& b.state == a.state
            &&& sends <==> action is Some && action->0 is Publish && !queues
            &&& !(queues) ==> b.pending == a.pending
            &&& !(quits || queues || sends || key == Key::Char('a') || key == Key::Char('r')
                || key == Key::Char('v')) ==> b == a && action is None
        }),
{
}

// ---------------------------------------------------------------------------
// answers of the cloud
// ---------------------------------------------------------------------------

/// A read shows the new state and its time, and notes the indoor temperature
/// last in the history, of which the oldest goes where it is full.
pub proof fn law_read_is_shown(a: AppView, st: AcState, at: Moment)
    requires
        a.temp_hist.len() <= 600,
    ensures
        ({
            let (b, action) = a.refreshed(st, at);
            &&& b.state == Some(st)
            &&& b.last_refresh == Some(at.nanos)
            &&& b.pending == a.pending
            &&& !a.refresh_queued ==> !b.refresh_inflight && action is None
            &&& a.refresh_queued ==> action == Some(ActionView::Refresh { delay_ms: 300 })
            &&& json::reading_bits(st.current_temp) is None ==> b.temp_hist == a.temp_hist
            &&& json::reading_bits(st.current_temp) matches Some(t) ==> b.temp_hist.last() == t
                && (a.temp_hist.len() < 600 ==> b.temp_hist == a.temp_hist.push(t)) && (
            a.temp_hist.len() == 600 ==> b.temp_hist == a.temp_hist.skip(1).push(t))
        }),
{
    let (b, action) = a.refreshed(st, at);
    if let Some(t) = json::reading_bits(st.current_temp) {
        if a.temp_hist.len() == 600 {
            assert(b.temp_hist =~= a.temp_hist.skip(1).push(t));
        } else {
            assert(b.temp_hist =~= a.temp_hist.push(t));
        }
    }
}

/// The status after a read is "Connected" where it was a passing or a bad one;
/// other words stay.
pub proof fn law_read_clears_passing_words(a: AppView, st: AcState, at: Moment)
    ensures
        a.status == "Connecting…"@ || a.status == "Refreshing…"@ || a.status == "Starting…"@
            || a.status.len() == 0 ==> a.refreshed(st, at).0.status == "Connected"@,
        text::has_part(a.status, "error"@) ==> a.refreshed(st, at).0.status == "Connected"@,
        a.refreshed(st, at).0.status == "Connected"@ || a.refreshed(st, at).0.status == a.status,
{
    reveal_strlit("Connecting…");
    reveal_strlit("Refreshing…");
    reveal_strlit("Connecting");
    reveal_strlit("Refreshing");
    assert("Connecting…"@.subrange(0, 10) =~= "Connecting"@);
    assert("Refreshing…"@.subrange(0, 10) =~= "Refreshing"@);
}

/// Whether two states are alike in what the log tells of.
pub open spec fn alike(a: AcState, b: AcState) -> bool {
    &&& a.power == b.power
    &&& a.work_mode == b.work_mode
    &&& json::reading_bits(a.target_temp) == json::reading_bits(b.target_temp)
    &&& (json::reading_bits(a.target_temp) matches Some(t) ==> double::equal(t, t))
    &&& a.fan == b.fan
    &&& a.v_dir == b.v_dir
    &&& a.h_dir == b.h_dir
}

/// The log tells of a change, and of no other: of states that differ in one
/// setting it names that one, with the value before and the value after.
pub proof fn law_changes_are_told(a: AcState, b: AcState)
    ensures
        alike(a, b) ==> app::changes(a, b).len() == 0,
        a.power != b.power && alike(AcState { power: b.power, ..a }, b) ==> app::changes(a, b)
            == seq![
            "power"@ + " "@ + (if a.power {
                "ON"@
            } else {
                "OFF"@
            }) + "→"@ + (if b.power {
                "ON"@
            } else {
                "OFF"@
            }),
        ],
        a.work_mode != b.work_mode && alike(AcState { work_mode: b.work_mode, ..a }, b)
            ==> app::changes(a, b) == seq![
            "mode"@ + " "@ + a.mode_name() + "→"@ + b.mode_name(),
        ],
        a.fan != b.fan && alike(AcState { fan: b.fan, ..a }, b) ==> app::changes(a, b) == seq![
            "fan"@ + " "@ + a.fan.name() + "→"@ + b.fan.name(),
        ],
        a.v_dir != b.v_dir && alike(AcState { v_dir: b.v_dir, ..a }, b) ==> app::changes(a, b)
            == seq![
            "v-swing"@ + " "@ + text::dec_int(a.v_dir as int) + "→"@ + text::dec_int(
                b.v_dir as int,
            ),
        ],
        a.h_dir != b.h_dir && alike(AcState { h_dir: b.h_dir, ..a }, b) ==> app::changes(a, b)
            == seq![
            "h-swing"@ + " "@ + text::dec_int(a.h_dir as int) + "→"@ + text::dec_int(
                b.h_dir as int,
            ),
        ],
        app::differ(
            json::reading_bits(a.target_temp),
            json::reading_bits(b.target_temp),
        ) && a.power == b.power && a.work_mode == b.work_mode && a.fan == b.fan && a.v_dir
            == b.v_dir && a.h_dir == b.h_dir ==> app::changes(a, b) == seq![
            "target"@ + " "@ + app::temp_text(json::reading_bits(a.target_temp)) + "→"@
                + app::temp_text(json::reading_bits(b.target_temp)),
        ],
{
    let c = app::changes(a, b);
    assert(c.len() == 1 ==> c =~= seq![c[0]]);
}

/// The changes of a read stand in the log, with the time of day before them; a
/// first read, and one without news, leave it as it is.
pub proof fn law_changes_are_logged(a: AppView, st: AcState, at: Moment)
    ensures
        a.state is None ==> a.refreshed(st, at).0.log == a.log,
        a.state matches Some(s) ==> (app::changes(s, st).len() == 0 ==> a.refreshed(st, at).0.log
            == a.log),
        a.state matches Some(s) ==> (app::changes(s, st).len() > 0 ==> a.refreshed(
            st,
            at,
        ).0.log.last() == at.stamp@ + " "@ + text::clipped(
            "◆ state: "@ + text::joined(app::changes(s, st), ", "@),
            220,
        )),
{
}

/// A command that was taken ends the wait and a pause, is noted in the log with
/// what was sent, and is read back after 0.8 seconds.
pub proof fn law_taken_command(a: AppView, desc: Seq<char>, payload: Seq<char>, at: Moment)
    ensures
        ({
            let (b, action) = a.confirmed(desc, payload, at);
            &&& !b.busy
            &&& b.backoff_until is None
            &&& b.status == "Sent: "@ + desc
            &&& b.log.last() == at.stamp@ + " "@ + text::clipped(
                "→ "@ + desc + "  "@ + payload,
                220,
            )
            &&& !a.refresh_inflight ==> action == Some(ActionView::Refresh { delay_ms: 800 })
            &&& a.refresh_inflight ==> action is None && b.refresh_queued
            &&& b.state == a.state && b.pending == a.pending
        }),
{
}

/// A failed command ends the wait, and a failed read the read; either is told,
/// and noted in the log.
pub proof fn law_failures_are_told(a: AppView, desc: Seq<char>, e: Seq<char>, at: Moment)
    requires
        app::kind_of_error(e) == CloudError::Other,
    ensures
        ({
            let (b, action) = a.command_failed(desc, e, at);
            &&& !b.busy && action is None
            &&& b.status == "Error: "@ + e
            &&& b.log.last() == at.stamp@ + " "@ + text::clipped("✗ "@ + desc + ": "@ + e, 220)
            &&& b.state == a.state && b.pending == a.pending
        }),
        ({
            let (b, action) = a.refresh_failed(e, at);
            &&& !b.refresh_inflight && !b.refresh_queued && action is None
            &&& b.status == "Refresh error: "@ + e
            &&& b.log.last() == at.stamp@ + " "@ + text::clipped("✗ refresh: "@ + e, 220)
            &&& b.state == a.state && b.pending == a.pending
        }),
{
}

/// A failure about permission asks for a login, whichever call it was of, unless
/// one was asked for in the last 45 seconds; one about too many calls pauses the
/// reads for 15 seconds.
pub proof fn law_failures_are_answered(a: AppView, desc: Seq<char>, e: Seq<char>, at: Moment)
    requires
        at.valid(),
    ensures
        app::kind_of_error(e) == CloudError::Unauthorized && (a.last_reauth matches Some(t) ==> t
            + 45_000_000_000 <= at.nanos) ==> a.command_failed(desc, e, at).1 == Some(
            ActionView::Login,
        ) && a.refresh_failed(e, at).1 == Some(ActionView::Login),
        app::kind_of_error(e) == CloudError::Unauthorized && (a.last_reauth matches Some(t)
            && at.nanos < t + 45_000_000_000) ==> a.command_failed(desc, e, at).1 is None
            && a.refresh_failed(e, at).1 is None,
        app::kind_of_error(e) == CloudError::Throttled ==> a.command_failed(
            desc,
            e,
            at,
        ).0.backoff_until == Some((at.nanos + 15_000_000_000) as u64) && a.refresh_failed(
            e,
            at,
        ).0.backoff_until == Some((at.nanos + 15_000_000_000) as u64),
{
}

/// What a failure is about shows in its words, in any mix of upper and lower
/// case; too many calls weigh more than permission.
pub proof fn law_failures_are_told_apart(
    e: Seq<char>,
    before: Seq<char>,
    word: Seq<char>,
    after: Seq<char>,
)
    requires
        text::unicode_lowered(e) == before + word + after,
    ensures
        word == "throttl"@ || word == "too many"@ || word == "rate"@ ==> app::kind_of_error(e)
            == CloudError::Throttled,
        word == "forbidden"@ || word == "unauthorized"@ || word == "expired"@ || word
            == "security token"@ || word == "credential"@ || word == "403"@
            ==> app::kind_of_error(e) != CloudError::Other,
        (word == "forbidden"@ || word == "unauthorized"@ || word == "expired"@ || word
            == "security token"@ || word == "credential"@ || word == "403"@)
            && app::kind_of_error(e) == CloudError::Throttled ==> app::is_throttled(e),
{
    let low = text::unicode_lowered(e);
    assert(low.subrange(before.len() as int, (before.len() + word.len()) as int) =~= word);
    assert(text::stands_at(low, word, before.len() as int));
}

/// A failure that speaks of nothing of the kind is none of both.
pub proof fn law_plain_failures(e: Seq<char>)
    requires
        forall|w: Seq<char>|
            #![trigger text::has_part(text::unicode_lowered(e), w)]
            !text::has_part(text::unicode_lowered(e), w) || !(w == "throttl"@ || w == "too many"@
                || w == "rate"@ || w == "forbidden"@ || w == "unauthorized"@ || w == "expired"@
                || w == "security token"@ || w == "credential"@ || w == "403"@),
    ensures
        app::kind_of_error(e) == CloudError::Other,
{
}

// ---------------------------------------------------------------------------
// clocks and clicks
// ---------------------------------------------------------------------------

/// The regular read comes where no call runs and no pause lasts, and only there.
pub proof fn law_regular_read(a: AppView, now: u64)
    ensures
        a.refresh_due(now).1 == (if a.busy || a.refresh_inflight || (a.backoff_until matches Some(
            t,
        ) && now < t) {
            None::<ActionView>
        } else {
            Some(ActionView::Refresh { delay_ms: 0 })
        }),
{
}

/// The first thing that the dashboard does is to read the shadow.
pub proof fn law_first_read(d: crate::rest::DeviceView)
    ensures
        app::App::initial(d).started().1 == Some(ActionView::Refresh { delay_ms: 0 }),
        app::App::initial(d).started().0.status == "Connecting…"@,
        app::App::initial(d).state is None,
        app::App::initial(d).pending is None,
        app::App::initial(d).anim,
        app::App::initial(d).aim_h == 2 && app::App::initial(d).aim_v == 2,
{
}

/// The animation moves by one frame at a time while it is on, and stands still
/// while it is off.
pub proof fn law_frames(a: AppView, now: u64)
    ensures
        !a.anim ==> a.ticked(now).0.frame == a.frame,
        a.anim && a.frame < u64::MAX ==> a.ticked(now).0.frame == a.frame + 1,
        a.ticked(now).1 == a.flushed(now).1,
{
}

/// A click in the aim overlay sends the aim point that it hit, and closes the
/// overlay; one beside the grid only closes it; without the overlay it does
/// nothing.
pub proof fn law_click(a: AppView, h: int, v: int)
    requires
        0 <= h <= 4,
        0 <= v <= 4,
    ensures
        !a.aim_open ==> a.clicked(Some((h, v))) == (a, None::<ActionView>),
        a.aim_open ==> !a.clicked(Some((h, v))).0.aim_open && asked_by(
            a.clicked(Some((h, v))),
        ) == json::no_members().insert("horizontalDirection"@, json::whole(9 + h)).insert(
            "verticalDirection"@,
            json::whole(9 + v),
        ),
        a.aim_open ==> a.clicked(None).1 is None && !a.clicked(None).0.aim_open,
{
    reveal_strlit("horizontalDirection");
    reveal_strlit("verticalDirection");
    assert("horizontalDirection"@.len() != "verticalDirection"@.len());
}

/// Applying the aim overlay sends its crosshair, across and down, and tells by
/// its labels where it is, down first, and whether it ends a sweep.
pub proof fn law_aim_is_sent(a: AppView)
    requires
        a.aim_h < 5,
        a.aim_v < 5,
    ensures
        a.aim_applied().1 matches Some(ActionView::Publish { desc, desired, .. }) && json::member(
            desired,
            "horizontalDirection"@,
        ) == Some(json::whole(9 + a.aim_h)) && json::member(desired, "verticalDirection"@) == Some(
            json::whole(9 + a.aim_v),
        ) && desc == "aim "@ + device::v_name(a.aim_v as int) + " · "@ + device::h_name(
            a.aim_h as int,
        ) + (if a.state matches Some(s) && (1 <= s.v_dir <= 3 || 1 <= s.h_dir <= 4) {
            " (stops swing)"@
        } else {
            ""@
        }),
{
    reveal_strlit("horizontalDirection");
    reveal_strlit("verticalDirection");
    reveal_strlit("");
    assert("horizontalDirection"@.len() != "verticalDirection"@.len());
    let point = "aim "@ + device::v_name(a.aim_v as int) + " · "@ + device::h_name(a.aim_h as int);
    assert(point + ""@ =~= point);
}

/// The age of the last read is told in whole seconds.
pub proof fn law_age_of_the_read(t: u64, now: u64, n: nat)
    requires
        t + n * 1_000_000_000 <= now < t + (n + 1) * 1_000_000_000,
    ensures
        app::App::age_text(Some(t), now) == text::dec(n) + "s ago"@,
        app::App::age_text(None, now) == "never"@,
{
    let span = now - t;
    assert(span / 1_000_000_000 == n) by (nonlinear_arith)
        requires
            n * 1_000_000_000 <= span < (n + 1) * 1_000_000_000,
    ;
}

/// An intent settles in 450 milliseconds.
pub proof fn law_intents_settle(a: AppView, kind: PendingKind, now: u64, later: u64)
    requires
        now + 450_000_000 <= u64::MAX,
        a.pending is None,
    ensures
        a.queued(kind, now).1 is None,
        later < now + 450_000_000 ==> a.queued(kind, now).0.flushed(later).1 is None,
        later >= now + 450_000_000 ==> a.queued(kind, now).0.flushed(later).1 is Some,
        a.queued(kind, now).0.pending is Some && a.queued(kind, now).0.pending->0.kind == kind,
{
}

/// The log keeps 200 lines, each with its time, and no more than 220 characters
/// of what it tells.
pub proof fn law_log_is_bounded(a: AppView, line: Seq<char>, stamp: Seq<char>)
    ensures
        a.log.len() < 200 ==> a.logged(line, stamp).log.len() == a.log.len() + 1,
        a.log.len() >= 200 ==> a.logged(line, stamp).log.len() == 200,
        line.len() <= 220 ==> a.logged(line, stamp).log.last() == stamp + " "@ + line,
        line.len() > 220 ==> a.logged(line, stamp).log.last() == stamp + " "@ + (line.take(220)
            + "…"@),
{
}

/// A login that worked is told and followed by a read; one that failed is told.
pub proof fn law_login_results(a: AppView, e: Seq<char>, at: Moment)
    ensures
        !a.refresh_inflight ==> a.logged_in(at).1 == Some(ActionView::Refresh { delay_ms: 0 }),
        a.logged_in(at).0.log.last() == at.stamp@ + " "@ + text::clipped(
            "↻ re-authenticated"@,
            220,
        ),
        a.login_failed(e, at).1 is None,
        a.login_failed(e, at).0.log.last() == at.stamp@ + " "@ + text::clipped(
            "✗ re-auth: "@ + e,
            220,
        ),
{
}

/// The aim overlay opens with the crosshair where each vane is fixed, and in the
/// middle of an axis whose vane is not.
pub proof fn law_aim_opens(a: AppView, st: AcState, ctrl: bool, at: Moment)
    requires
        !a.aim_open,
        a.state == Some(st),
    ensures
        ({
            let b = a.pressed(Key::Char('v'), ctrl, at).0;
            &&& 9 <= st.h_dir <= 13 ==> b.aim_h == st.h_dir - 9
            &&& !(9 <= st.h_dir <= 13) ==> b.aim_h == 2
            &&& 9 <= st.v_dir <= 13 ==> b.aim_v == st.v_dir - 9
            &&& !(9 <= st.v_dir <= 13) ==> b.aim_v == 2
        }),
{
}

/// Two intents are about the same setting exactly where both are about the
/// temperature, both about the fan, or both about the mode.
pub proof fn law_same_setting(a: PendingKind, b: PendingKind)
    ensures
        a.same_kind(b) <==> (a is Temp && b is Temp) || (a is Fan && b is Fan) || (a is Mode
            && b is Mode),
{
}

/// A whole temperature is told in the log by its digits.
pub proof fn law_temperature_in_the_log(n: int)
    requires
        -0x20_0000_0000_0000 < n < 0x20_0000_0000_0000,
    ensures
        app::temp_text(Some(double::integer_pattern(n))) == text::dec_int(n) + "°"@,
        app::temp_text(None) == "—"@,
{
    crate::number_laws::law_integers_print_as_digits(n);
}

} // verus!
