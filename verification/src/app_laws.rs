//! Laws of the application state: what its events keep, and what follows from
//! several of them together.

use crate::app;
use crate::device;
use crate::text;
use app::{ActionView, AppView, Key, Moment, PendingCmd, PendingKind};
use device::AcState;
use vstd::prelude::*;

verus! {

/// What can happen to the dashboard.
pub enum Event {
    Start,
    Key { key: Key, ctrl: bool },
    Click { cell: Option<(int, int)> },
    RefreshTick,
    UiTick,
    Read { st: AcState },
    ReadFailed { e: Seq<char> },
    Sent { desc: Seq<char>, payload: Seq<char> },
    SendFailed { desc: Seq<char>, e: Seq<char> },
    LoggedIn,
    LoginFailed { e: Seq<char> },
}

/// What an event does at a time.
pub open spec fn step(a: AppView, event: Event, at: Moment) -> app::Step {
    match event {
        Event::Start => a.started(),
        Event::Key { key, ctrl } => a.pressed(key, ctrl, at),
        Event::Click { cell } => a.clicked(cell),
        Event::RefreshTick => a.refresh_due(at.nanos),
        Event::UiTick => a.ticked(at.nanos),
        Event::Read { st } => a.refreshed(st, at),
        Event::ReadFailed { e } => a.refresh_failed(e, at),
        Event::Sent { desc, payload } => a.confirmed(desc, payload, at),
        Event::SendFailed { desc, e } => a.command_failed(desc, e, at),
        Event::LoggedIn => a.logged_in(at),
        Event::LoginFailed { e } => a.login_failed(e, at),
    }
}

/// Whether a step keeps the guard on shadow reads: it starts one only where none
/// was in flight, and afterwards one is in flight exactly if one was or was
/// started.
pub open spec fn guards_reads(inflight: bool, step: app::Step) -> bool {
    &&& step.1 is Some && step.1->0 is Refresh ==> !inflight
    &&& step.0.refresh_inflight == (inflight || (step.1 is Some && step.1->0 is Refresh))
}

proof fn lemma_queue_guards_reads(a: AppView, kind: PendingKind, now: u64)
    ensures
        guards_reads(a.refresh_inflight, a.queued(kind, now)),
{
}

#[verifier::rlimit(50)]
proof fn lemma_keys_guard_reads(a: AppView, key: Key, ctrl: bool, at: Moment)
    ensures
        guards_reads(a.refresh_inflight, a.pressed(key, ctrl, at)),
{
    if !a.aim_open && AppView::queues(key) {
        assert forall|b: AppView, kind: PendingKind|
            #![trigger b.queued(kind, at.nanos)]
            guards_reads(b.refresh_inflight, b.queued(kind, at.nanos)) by {
            lemma_queue_guards_reads(b, kind, at.nanos);
        }
    }
}

/// Shadow reads never overlap: every event starts a read only where none is in
/// flight. The answer to a read ends it.
pub proof fn law_reads_never_overlap(a: AppView, event: Event, at: Moment)
    ensures
        guards_reads(
            a.refresh_inflight && !(event is Read || event is ReadFailed),
            step(a, event, at),
        ),
{
    if let Event::Key { key, ctrl } = event {
        lemma_keys_guard_reads(a, key, ctrl, at);
    }
}

/// A read that is asked for while one is in flight is not lost: it is noted, and
/// follows when that one comes back.
pub proof fn law_asked_read_follows(a: AppView, delay_ms: u64, st: AcState, at: Moment)
    requires
        a.refresh_inflight,
    ensures
        a.refreshing(delay_ms).1 is None,
        a.refreshing(delay_ms).0.refreshed(st, at).1 == Some(
            ActionView::Refresh { delay_ms: 300 },
        ),
        !a.refreshing(delay_ms).0.refreshed(st, at).0.refresh_queued,
{
}

/// The state after intents that come one after the other, each with its time.
pub open spec fn after_intents(a: AppView, intents: Seq<(PendingKind, u64)>) -> AppView
    decreases intents.len(),
{
    if intents.len() == 0 {
        a
    } else {
        let (kind, now) = intents.last();
        after_intents(a, intents.drop_last()).queued(kind, now).0
    }
}

proof fn lemma_intents_wait(a: AppView, intents: Seq<(PendingKind, u64)>, kind: PendingKind, n: nat)
    requires
        n <= intents.len(),
        a.pending matches Some(p) ==> p.kind.same_kind(kind),
        forall|i: int| 0 <= i < intents.len() ==> (#[trigger] intents[i]).0.same_kind(kind),
    ensures
        n == 0 ==> after_intents(a, intents.take(n as int)) == a,
        n > 0 ==> after_intents(a, intents.take(n as int)) == (AppView {
            pending: Some(
                PendingCmd {
                    kind: intents[n - 1].0,
                    due: (intents[n - 1].1 + app::DEBOUNCE) as u64,
                },
            ),
            ..a
        }),
    decreases n,
{
    if n > 0 {
        lemma_intents_wait(a, intents, kind, (n - 1) as nat);
        assert(intents.take(n as int).drop_last() =~= intents.take(n - 1));
        assert(intents.take(n as int).last() == intents[n - 1]);
    }
}

/// However many intents about one setting come, each before the last has settled,
/// none of them asks for a call, and of all only the last waits. It is published
/// once it has settled, and only once. Nothing else changes meanwhile.
pub proof fn law_debounce(a: AppView, intents: Seq<(PendingKind, u64)>, i: int, later: u64)
    requires
        0 <= i < intents.len(),
        a.pending matches Some(p) ==> p.kind.same_kind(intents[0].0),
        forall|k: int| 0 <= k < intents.len() ==> (#[trigger] intents[k]).0.same_kind(intents[0].0),
        intents.last().1 + app::DEBOUNCE <= u64::MAX,
    ensures
        after_intents(a, intents.take(i)).queued(intents[i].0, intents[i].1).1 is None,
        ({
            let (kind, now) = intents.last();
            let end = after_intents(a, intents);
            let flushed = end.flushed(later);
            &&& end == (AppView {
                pending: Some(PendingCmd { kind, due: (now + app::DEBOUNCE) as u64 }),
                ..a
            })
            &&& later < now + app::DEBOUNCE ==> flushed == (end, None::<ActionView>)
            &&& later >= now + app::DEBOUNCE ==> flushed == (AppView {
                pending: None,
                ..a
            }).dispatched(kind) && flushed.1 is Some && flushed.0.flushed(later) == (
                flushed.0,
                None::<ActionView>,
            )
        }),
{
    let first = intents[0].0;
    lemma_intents_wait(a, intents, first, i as nat);
    lemma_intents_wait(a, intents, first, intents.len());
    assert(intents.take(intents.len() as int) =~= intents);
    let end = after_intents(a, intents);
    assert(AppView { pending: None, ..end } =~= AppView { pending: None, ..a });
}

/// An intent that waits is not lost to one about another setting: it is published
/// at once, and the new one waits.
pub proof fn law_other_intent_is_sent(a: AppView, p: PendingCmd, kind: PendingKind, now: u64)
    requires
        a.pending == Some(p),
        !p.kind.same_kind(kind),
        now + app::DEBOUNCE <= u64::MAX,
    ensures
        a.queued(kind, now).1 == a.dispatched(p.kind).1,
        a.queued(kind, now).1 is Some,
        a.queued(kind, now).0.pending == Some(
            PendingCmd { kind, due: (now + app::DEBOUNCE) as u64 },
        ),
{
}

/// A failure from too many calls starts a pause of 15 seconds, in which the
/// regular reads stop, and never a login, whatever else it says.
pub proof fn law_throttling_pauses(a: AppView, e: Seq<char>, at: Moment, later: u64)
    requires
        app::is_throttled(e),
        at.valid(),
        at.nanos <= later < at.nanos + app::THROTTLE_BACKOFF,
    ensures
        a.troubled(e, at).1 is None,
        a.troubled(e, at).0.backing_off(later),
        a.troubled(e, at).0.refresh_due(later) == (a.troubled(e, at).0, None::<ActionView>),
{
}

/// The state after events that come one after the other, each with its time.
pub open spec fn after_events(a: AppView, events: Seq<(Event, Moment)>) -> AppView
    decreases events.len(),
{
    if events.len() == 0 {
        a
    } else {
        step(after_events(a, events.drop_last()), events.last().0, events.last().1).0
    }
}

/// Whether a step leaves the time of the last login as it was, or asks for a
/// login and notes its time.
pub open spec fn notes_logins(a: AppView, step: app::Step, now: u64) -> bool {
    if step.1 == Some(ActionView::Login) {
        step.0.last_reauth == Some(now)
    } else {
        step.0.last_reauth == a.last_reauth
    }
}

#[verifier::rlimit(60)]
proof fn lemma_keys_note_logins(a: AppView, key: Key, ctrl: bool, at: Moment)
    ensures
        notes_logins(a, a.pressed(key, ctrl, at), at.nanos),
        a.pressed(key, ctrl, at).1 != Some(ActionView::Login),
{
}

/// Every event that does not ask for a login keeps the time of the last one. One
/// that does notes the time, whatever comes of the login, and comes at least 45
/// seconds after the last.
pub proof fn law_logins_are_noted(a: AppView, event: Event, at: Moment)
    ensures
        notes_logins(a, step(a, event, at), at.nanos),
        step(a, event, at).1 == Some(ActionView::Login) ==> (a.last_reauth matches Some(t)
            ==> t + app::REAUTH_COOLDOWN <= at.nanos),
{
    if let Event::Key { key, ctrl } = event {
        lemma_keys_note_logins(a, key, ctrl, at);
    }
}

#[verifier::rlimit(60)]
proof fn lemma_last_login_stands(a: AppView, events: Seq<(Event, Moment)>, i: int, n: int)
    requires
        0 <= i < n <= events.len(),
        forall|j: int, k: int|
            0 <= j <= k < events.len() ==> (#[trigger] events[j]).1.nanos <= (
            #[trigger] events[k]).1.nanos,
        step(after_events(a, events.take(i)), events[i].0, events[i].1).1 == Some(
            ActionView::Login,
        ),
    ensures
        after_events(a, events.take(n)).last_reauth matches Some(t) && t >= events[i].1.nanos,
    decreases n,
{
    let before = after_events(a, events.take(n - 1));
    assert(events.take(n).drop_last() =~= events.take(n - 1));
    assert(events.take(n).last() == events[n - 1]);
    law_logins_are_noted(before, events[n - 1].0, events[n - 1].1);
    if i < n - 1 {
        lemma_last_login_stands(a, events, i, n - 1);
    }
}

/// Whatever happens, two logins are never asked for less than 45 seconds apart.
pub proof fn law_login_cooldown(a: AppView, events: Seq<(Event, Moment)>, i: int, k: int)
    requires
        0 <= i < k < events.len(),
        forall|j: int, k: int|
            0 <= j <= k < events.len() ==> (#[trigger] events[j]).1.nanos <= (
            #[trigger] events[k]).1.nanos,
        step(after_events(a, events.take(i)), events[i].0, events[i].1).1 == Some(
            ActionView::Login,
        ),
        step(after_events(a, events.take(k)), events[k].0, events[k].1).1 == Some(
            ActionView::Login,
        ),
    ensures
        events[i].1.nanos + app::REAUTH_COOLDOWN <= events[k].1.nanos,
{
    lemma_last_login_stands(a, events, i, k);
    law_logins_are_noted(after_events(a, events.take(k)), events[k].0, events[k].1);
}

/// The log keeps the last lines: a new one stands at the end, and at most as many
/// as there is room for.
pub proof fn law_log_keeps_the_last(a: AppView, line: Seq<char>, stamp: Seq<char>)
    ensures
        ({
            let log = a.logged(line, stamp).log;
            &&& 0 < log.len() <= app::LOG_LINES
            &&& log.last() == stamp + " "@ + text::clipped(line, app::LOG_WIDTH as nat)
            &&& forall|i: int|
                0 <= i < log.len() - 1 ==> #[trigger] log[i] == a.log[a.log.len() - log.len() + 1
                    + i]
        }),
{
}

/// Opening the aim overlay on vanes that are fixed, and applying it, asks for the
/// directions that they have.
pub proof fn law_aim_starts_where_the_vanes_are(a: AppView, st: AcState)
    requires
        a.state == Some(st),
        9 <= st.h_dir <= 13,
        9 <= st.v_dir <= 13,
    ensures
        a.aim_opened().aim_applied().1 matches Some(ActionView::Publish { desired, .. }) && desired
            == device::patch2(
            "horizontalDirection"@,
            st.h_dir as int,
            "verticalDirection"@,
            st.v_dir as int,
        ),
{
}

/// The crosshair stays within the grid, whatever the keys.
#[verifier::rlimit(60)]
pub proof fn law_crosshair_stays_in_the_grid(a: AppView, key: Key, ctrl: bool, at: Moment)
    requires
        a.aim_h < 5,
        a.aim_v < 5,
    ensures
        a.pressed(key, ctrl, at).0.aim_h < 5,
        a.pressed(key, ctrl, at).0.aim_v < 5,
{
}

/// A number moved by one within 0 to 4, and not beyond.
pub open spec fn moved(n: usize, up: bool) -> usize {
    if up {
        if n < 4 {
            (n + 1) as usize
        } else {
            4
        }
    } else {
        if n > 0 {
            (n - 1) as usize
        } else {
            0
        }
    }
}

/// While the aim overlay is open, only Enter and Space publish: the aim point, once,
/// and the overlay closes. Escape and `v` close it, the arrows and `wasd` move the
/// crosshair by one on their axis, `q` and Ctrl-C quit, and every other key, a plain
/// `c` too, changes nothing.
pub proof fn law_aim_keys(a: AppView, key: Key, ctrl: bool, at: Moment)
    requires
        a.aim_open,
        a.aim_h < 5,
        a.aim_v < 5,
    ensures
        ({
            let (b, action) = a.pressed(key, ctrl, at);
            let sends = key == Key::Enter || key == Key::Char(' ');
            let closes = key == Key::Esc || key == Key::Char('v');
            let quits = key == Key::Char('q') || (key == Key::Char('c') && ctrl);
            let left = key == Key::Left || key == Key::Char('a');
            let right = key == Key::Right || key == Key::Char('d');
            let up = key == Key::Up || key == Key::Char('w');
            let down = key == Key::Down || key == Key::Char('s');
            &&& action is Some == sends
            &&& sends ==> action->0 is Publish && action->0->desired == device::vent_patch(
                a.aim_h as int,
                a.aim_v as int,
            ) && !b.aim_open
            &&& closes ==> !b.aim_open && b == (AppView {
                aim_open: false,
                status: b.status,
                ..a
            })
            &&& quits ==> b == (AppView { should_quit: true, ..a })
            &&& left ==> b == (AppView { aim_h: moved(a.aim_h, false), ..a })
            &&& right ==> b == (AppView { aim_h: moved(a.aim_h, true), ..a })
            &&& up ==> b == (AppView { aim_v: moved(a.aim_v, false), ..a })
            &&& down ==> b == (AppView { aim_v: moved(a.aim_v, true), ..a })
            &&& !(sends || closes || quits || left || right || up || down) ==> b == a
        }),
{
}

/// A queued temperature lies within the limits of the device.
pub proof fn law_queued_temperature_in_limits(a: AppView, delta: int, now: u64)
    requires
        a.limits_ordered(),
    ensures
        a.temp_adjusted(delta, now).0.pending matches Some(
            PendingCmd { kind: PendingKind::Temp(c), .. },
        ) && a.limits().0 <= c <= a.limits().1,
{
}

} // verus!
