//! TUI application state and its reactions to events.
//!
//! Every event (a key, a click, a tick, an answer of the cloud) changes the
//! state and may ask for one cloud call: a shadow read, a command publish or a
//! login. The calls run in the background and report back as messages.
//!
//! Anti-throttling:
//!  - Rapid temp/fan/mode keypresses are **debounced** (450 ms): the UI shows the
//!    pending value immediately, but only one command is published.
//!  - Shadow reads never overlap (in-flight guard + coalescing).
//!  - A `Throttling` error triggers a 15 s cool-down, not a re-login. Re-auth is
//!    reserved for auth-shaped errors and rate-limited to once per 45 s.

use crate::clock;
use crate::device;
use crate::double;
use crate::json;
use crate::rest;
use crate::style;
use crate::text;
use crate::ui;
use device::{AcState, Fan, FanDialect, Mode};
use json::Reading;
use rest::Device;
use serde_json::Value;
use style::Rect;
use vstd::prelude::*;

verus! {

/// Times and spans are counted in nanoseconds.
pub const DEBOUNCE: u64 = 450_000_000;

pub const THROTTLE_BACKOFF: u64 = 15_000_000_000;

pub const REAUTH_COOLDOWN: u64 = 45_000_000_000;

pub const LOG_LINES: usize = 200;

pub const HISTORY_POINTS: usize = 600;

/// The longest text of a log line.
pub const LOG_WIDTH: usize = 220;

// ---------------------------------------------------------------------------
// events and actions
// ---------------------------------------------------------------------------

/// When an event came: on a steady clock, and as the local time of day.
pub struct Moment {
    pub nanos: u64,
    pub stamp: String,
}

impl Moment {
    /// Whether the deadlines that an event sets can be told on the clock.
    pub open spec fn valid(self) -> bool {
        self.nanos + THROTTLE_BACKOFF <= u64::MAX
    }

    /// The time of the steady clock, with the local time of day.
    pub fn now(nanos: u64) -> (r: Moment)
        ensures
            r.nanos == nanos,
            clock::time_of_day(r.stamp@),
    {
        Moment { nanos, stamp: clock::local_time() }
    }
}

/// Result of a background cloud task. Failures come as their messages.
pub enum Msg {
    Shadow(Result<Value, String>),
    Cmd { desc: String, payload: String, result: Result<(), String> },
}

/// A cloud call to make.
pub enum Action {
    /// Read the shadow, after a settle delay.
    Refresh { delay_ms: u64 },
    /// Publish a desired state. `payload` is its text, for the log.
    Publish { desc: String, payload: String, desired: Value },
    /// Run the authentication chain again.
    Login,
}

pub enum ActionView {
    Refresh { delay_ms: u64 },
    Publish { desc: Seq<char>, payload: Seq<char>, desired: json::Json },
    Login,
}

pub open spec fn action_view(a: Option<Action>) -> Option<ActionView> {
    match a {
        None => None,
        Some(Action::Refresh { delay_ms }) => Some(ActionView::Refresh { delay_ms }),
        Some(Action::Publish { desc, payload, desired }) => Some(
            ActionView::Publish {
                desc: desc@,
                payload: payload@,
                desired: json::json_of(desired),
            },
        ),
        Some(Action::Login) => Some(ActionView::Login),
    }
}

/// A key, as far as the dashboard tells keys apart.
#[derive(Debug, Clone, Copy, PartialEq, Eq, Structural)]
pub enum Key {
    Char(char),
    Esc,
    Enter,
    Left,
    Right,
    Up,
    Down,
    Other,
}

/// A debounced, not-yet-sent user intent.
#[derive(Debug, Clone, Copy, PartialEq, Eq, Structural)]
pub enum PendingKind {
    Temp(i64),
    Fan(Fan),
    Mode(Mode),
}

impl PendingKind {
    /// Whether two intents are about the same setting.
    pub open spec fn same_kind(self, other: PendingKind) -> bool {
        match self {
            PendingKind::Temp(_) => other is Temp,
            PendingKind::Fan(_) => other is Fan,
            PendingKind::Mode(_) => other is Mode,
        }
    }

    fn is_like(&self, other: &PendingKind) -> (r: bool)
        ensures
            r == self.same_kind(*other),
    {
        match self {
            PendingKind::Temp(_) => matches!(other, PendingKind::Temp(_)),
            PendingKind::Fan(_) => matches!(other, PendingKind::Fan(_)),
            PendingKind::Mode(_) => matches!(other, PendingKind::Mode(_)),
        }
    }
}

#[derive(Debug, Clone, Copy, PartialEq, Eq, Structural)]
pub struct PendingCmd {
    pub kind: PendingKind,
    pub due: u64,
}

/// A setting that is on or off.
#[derive(Debug, Clone, Copy, PartialEq, Eq, Structural)]
pub enum Toggle {
    Eco,
    Screen,
    Beep,
    Health,
    SelfClean,
    AntiMold,
    EightHeat,
}

impl Toggle {
    pub open spec fn state_in(self, s: AcState) -> bool {
        match self {
            Toggle::Eco => s.eco,
            Toggle::Screen => s.screen,
            Toggle::Beep => s.beep,
            Toggle::Health => s.healthy,
            Toggle::SelfClean => s.self_clean,
            Toggle::AntiMold => s.anti_mold,
            Toggle::EightHeat => s.eight_heat,
        }
    }

    /// The field of the shadow that holds a setting.
    pub open spec fn field_name(self) -> Seq<char> {
        match self {
            Toggle::Eco => "ECO"@,
            Toggle::Screen => "screen"@,
            Toggle::Beep => "beepSwitch"@,
            Toggle::Health => "healthy"@,
            Toggle::SelfClean => "selfClean"@,
            Toggle::AntiMold => "antiMoldew"@,
            Toggle::EightHeat => "eightAddHot"@,
        }
    }

    pub open spec fn label_text(self) -> Seq<char> {
        match self {
            Toggle::Eco => "eco"@,
            Toggle::Screen => "display"@,
            Toggle::Beep => "beep"@,
            Toggle::Health => "health"@,
            Toggle::SelfClean => "self-clean"@,
            Toggle::AntiMold => "anti-mold"@,
            Toggle::EightHeat => "8°C-heat"@,
        }
    }

    fn is_on(self, s: &AcState) -> (r: bool)
        ensures
            r == self.state_in(*s),
    {
        match self {
            Toggle::Eco => s.eco,
            Toggle::Screen => s.screen,
            Toggle::Beep => s.beep,
            Toggle::Health => s.healthy,
            Toggle::SelfClean => s.self_clean,
            Toggle::AntiMold => s.anti_mold,
            Toggle::EightHeat => s.eight_heat,
        }
    }

    fn field(self) -> (r: &'static str)
        ensures
            r@ == self.field_name(),
    {
        match self {
            Toggle::Eco => "ECO",
            Toggle::Screen => "screen",
            Toggle::Beep => "beepSwitch",
            Toggle::Health => "healthy",
            Toggle::SelfClean => "selfClean",
            Toggle::AntiMold => "antiMoldew",
            Toggle::EightHeat => "eightAddHot",
        }
    }

    fn label(self) -> (r: &'static str)
        ensures
            r@ == self.label_text(),
    {
        match self {
            Toggle::Eco => "eco",
            Toggle::Screen => "display",
            Toggle::Beep => "beep",
            Toggle::Health => "health",
            Toggle::SelfClean => "self-clean",
            Toggle::AntiMold => "anti-mold",
            Toggle::EightHeat => "8°C-heat",
        }
    }
}

// ---------------------------------------------------------------------------
// state
// ---------------------------------------------------------------------------

pub struct App {
    pub device: Device,
    pub state: Option<AcState>,
    pub status: String,
    pub last_refresh: Option<u64>,
    pub busy: bool,
    pub log: Vec<String>,
    pub should_quit: bool,
    pub pending: Option<PendingCmd>,
    pub refresh_inflight: bool,
    pub refresh_queued: bool,
    pub backoff_until: Option<u64>,
    pub last_reauth: Option<u64>,
    pub anim: bool,
    pub frame: u64,
    /// Indoor temperatures, oldest first, as bit patterns of doubles.
    pub temp_hist: Vec<u64>,
    /// Aim-airflow overlay: open flag + crosshair grid position (0..=4 each).
    pub aim_open: bool,
    pub aim_h: usize,
    pub aim_v: usize,
}

#[verifier::ext_equal]
pub struct AppView {
    pub device: rest::DeviceView,
    pub state: Option<AcState>,
    pub status: Seq<char>,
    pub last_refresh: Option<u64>,
    pub busy: bool,
    pub log: Seq<Seq<char>>,
    pub should_quit: bool,
    pub pending: Option<PendingCmd>,
    pub refresh_inflight: bool,
    pub refresh_queued: bool,
    pub backoff_until: Option<u64>,
    pub last_reauth: Option<u64>,
    pub anim: bool,
    pub frame: u64,
    pub temp_hist: Seq<u64>,
    pub aim_open: bool,
    pub aim_h: usize,
    pub aim_v: usize,
}

impl View for App {
    type V = AppView;

    open spec fn view(&self) -> AppView {
        AppView {
            device: self.device@,
            state: self.state,
            status: self.status@,
            last_refresh: self.last_refresh,
            busy: self.busy,
            log: text::view_all(self.log@),
            should_quit: self.should_quit,
            pending: self.pending,
            refresh_inflight: self.refresh_inflight,
            refresh_queued: self.refresh_queued,
            backoff_until: self.backoff_until,
            last_reauth: self.last_reauth,
            anim: self.anim,
            frame: self.frame,
            temp_hist: self.temp_hist@,
            aim_open: self.aim_open,
            aim_h: self.aim_h,
            aim_v: self.aim_v,
        }
    }
}

/// The last `n` of a sequence.
pub open spec fn recent<T>(s: Seq<T>, n: nat) -> Seq<T> {
    if s.len() > n {
        s.skip(s.len() - n)
    } else {
        s
    }
}

/// The time from one moment to a later one; none where the clock went back.
pub open spec fn since(t: u64, now: u64) -> int {
    if now >= t {
        now - t
    } else {
        0
    }
}

pub open spec fn on_off(b: bool) -> Seq<char> {
    if b {
        "ON"@
    } else {
        "OFF"@
    }
}

fn onoff(b: bool) -> (r: &'static str)
    ensures
        r@ == on_off(b),
{
    if b {
        "ON"
    } else {
        "OFF"
    }
}

/// A temperature without decimals.
pub open spec fn temp_text(t: Option<u64>) -> Seq<char> {
    match t {
        Some(b) => double::fixed_text(b, 0) + "°"@,
        None => "—"@,
    }
}

pub fn fmt_temp(t: &Option<Reading>) -> (r: String)
    ensures
        r@ == temp_text(json::reading_bits(*t)),
{
    match t {
        Some(x) => {
            let number = double::fixed(x.bits(), 0);
            text::cat2(number.as_str(), "°")
        },
        None => text::owned("—"),
    }
}

/// Whether two readings differ, as doubles compare: not a number differs from
/// everything.
pub open spec fn differ(a: Option<u64>, b: Option<u64>) -> bool {
    match a {
        Some(x) => match b {
            Some(y) => !double::equal(x, y),
            None => true,
        },
        None => b is Some,
    }
}

fn are_different(a: &Option<Reading>, b: &Option<Reading>) -> (r: bool)
    ensures
        r == differ(json::reading_bits(*a), json::reading_bits(*b)),
{
    match a {
        Some(x) => match b {
            Some(y) => !double::are_equal(x.bits(), y.bits()),
            None => true,
        },
        None => b.is_some(),
    }
}

/// `s`, with `x` at its end where a condition holds.
pub open spec fn push_if<T>(s: Seq<T>, condition: bool, x: T) -> Seq<T> {
    if condition {
        s.push(x)
    } else {
        s
    }
}

/// The change of a value.
pub open spec fn change(name: Seq<char>, before: Seq<char>, after: Seq<char>) -> Seq<char> {
    name + " "@ + before + "→"@ + after
}

/// What differs between two states, of what the log tells.
pub open spec fn changes(a: AcState, b: AcState) -> Seq<Seq<char>> {
    let s0 = Seq::<Seq<char>>::empty();
    let s1 = push_if(s0, a.power != b.power, change("power"@, on_off(a.power), on_off(b.power)));
    let s2 = push_if(
        s1,
        a.work_mode != b.work_mode,
        change("mode"@, a.mode_name(), b.mode_name()),
    );
    let at = json::reading_bits(a.target_temp);
    let bt = json::reading_bits(b.target_temp);
    let s3 = push_if(s2, differ(at, bt), change("target"@, temp_text(at), temp_text(bt)));
    let s4 = push_if(s3, a.fan != b.fan, change("fan"@, a.fan.name(), b.fan.name()));
    let s5 = push_if(
        s4,
        a.v_dir != b.v_dir,
        change("v-swing"@, text::dec_int(a.v_dir as int), text::dec_int(b.v_dir as int)),
    );
    push_if(
        s5,
        a.h_dir != b.h_dir,
        change("h-swing"@, text::dec_int(a.h_dir as int), text::dec_int(b.h_dir as int)),
    )
}

/// Whether a cloud failure is about too many calls.
pub open spec fn is_throttled(e: Seq<char>) -> bool {
    let low = text::unicode_lowered(e);
    text::has_part(low, "throttl"@) || text::has_part(low, "too many"@) || text::has_part(
        low,
        "rate"@,
    )
}

/// Whether a cloud failure is about permission.
pub open spec fn is_unauthorized(e: Seq<char>) -> bool {
    let low = text::unicode_lowered(e);
    ||| text::has_part(low, "forbidden"@)
    ||| text::has_part(low, "unauthorized"@)
    ||| text::has_part(low, "expired"@)
    ||| text::has_part(low, "security token"@)
    ||| text::has_part(low, "credential"@)
    ||| text::has_part(low, "403"@)
}

/// A kind of cloud failure.
#[derive(Debug, Clone, Copy, PartialEq, Eq, Structural)]
pub enum CloudError {
    Throttled,
    Unauthorized,
    Other,
}

/// The kind of a cloud failure. One about too many calls is that, whatever else
/// it says.
pub open spec fn kind_of_error(e: Seq<char>) -> CloudError {
    if is_throttled(e) {
        CloudError::Throttled
    } else if is_unauthorized(e) {
        CloudError::Unauthorized
    } else {
        CloudError::Other
    }
}

/// Classify a cloud failure.
pub fn classify(e: &str) -> (r: CloudError)
    ensures
        r == kind_of_error(e@),
{
    let lowered = text::unicode_lower(e);
    let low = lowered.as_str();
    if text::contains(low, "throttl") || text::contains(low, "too many") || text::contains(
        low,
        "rate",
    ) {
        CloudError::Throttled
    } else if text::contains(low, "forbidden") || text::contains(low, "unauthorized")
        || text::contains(low, "expired") || text::contains(low, "security token")
        || text::contains(low, "credential") || text::contains(low, "403") {
        CloudError::Unauthorized
    } else {
        CloudError::Other
    }
}

// ---------------------------------------------------------------------------
// what events do
// ---------------------------------------------------------------------------

/// A state, and the call that it asks for.
pub type Step = (AppView, Option<ActionView>);

impl AppView {
    /// What every state keeps: a crosshair within the grid, fan speeds that the
    /// device has, and bounded logs.
    pub open spec fn inv(self) -> bool {
        &&& self.aim_h < 5
        &&& self.aim_v < 5
        &&& self.state matches Some(s) ==> s.fan.valid()
        &&& self.pending matches Some(PendingCmd { kind: PendingKind::Fan(f), .. }) ==> f.valid()
        &&& self.log.len() <= LOG_LINES
        &&& self.temp_hist.len() <= HISTORY_POINTS
    }

    /// The state after one more log line.
    pub open spec fn logged(self, line: Seq<char>, stamp: Seq<char>) -> AppView {
        AppView {
            log: recent(
                self.log.push(stamp + " "@ + text::clipped(line, LOG_WIDTH as nat)),
                LOG_LINES as nat,
            ),
            ..self
        }
    }

    /// A shadow read is asked for. While one is in flight it is only noted.
    pub open spec fn refreshing(self, delay_ms: u64) -> Step {
        if self.refresh_inflight {
            (AppView { refresh_queued: true, ..self }, None)
        } else {
            (
                AppView { refresh_inflight: true, ..self },
                Some(ActionView::Refresh { delay_ms }),
            )
        }
    }

    /// A command is published.
    pub open spec fn sent(self, desc: Seq<char>, desired: json::Json) -> Step {
        (
            AppView { busy: true, status: "Sending: "@ + desc, ..self },
            Some(ActionView::Publish { desc, payload: json::json_text(desired), desired }),
        )
    }

    /// The lowest and the highest temperature that the device takes.
    pub open spec fn limits(self) -> (i64, i64) {
        match self.state {
            Some(s) => (s.t_min, s.t_max),
            None => (device::FALLBACK_TEMP_MIN, device::FALLBACK_TEMP_MAX),
        }
    }

    pub open spec fn limits_ordered(self) -> bool {
        self.limits().0 <= self.limits().1
    }

    pub open spec fn dialect(self) -> FanDialect {
        match self.state {
            Some(s) => s.dialect,
            None => FanDialect::SevenGear,
        }
    }

    /// An intent is published.
    pub open spec fn dispatched(self, kind: PendingKind) -> Step {
        match kind {
            PendingKind::Temp(c) => self.sent(
                "temp "@ + text::dec_int(c as int) + "°C"@,
                device::temp_patch(c as int, self.limits().0 as int, self.limits().1 as int),
            ),
            PendingKind::Fan(f) => self.sent(
                "fan "@ + f.name(),
                json::Json::Object(f.patch(self.dialect())),
            ),
            PendingKind::Mode(m) => self.sent(
                "mode "@ + m.name(),
                device::patch1("workMode"@, m.code() as int),
            ),
        }
    }

    /// Whether the pending intent could be published.
    pub open spec fn dispatchable(self) -> bool {
        self.pending matches Some(p) ==> p.kind is Temp ==> self.limits_ordered()
    }

    /// Whether an intent can be noted: one about another setting that waits could
    /// be published.
    pub open spec fn queueable(self, kind: PendingKind) -> bool {
        self.pending matches Some(p) ==> !p.kind.same_kind(kind) ==> self.dispatchable()
    }

    /// An intent is noted, to be published once it has settled. One about
    /// another setting that was waiting is published right away.
    pub open spec fn queued(self, kind: PendingKind, now: u64) -> Step {
        let (s, action) = match self.pending {
            Some(p) => if p.kind.same_kind(kind) {
                (self, None)
            } else {
                self.dispatched(p.kind)
            },
            None => (self, None),
        };
        (
            AppView { pending: Some(PendingCmd { kind, due: (now + DEBOUNCE) as u64 }), ..s },
            action,
        )
    }

    /// Whether the pending intent, where it has settled, could be published.
    pub open spec fn flushable(self, now: u64) -> bool {
        self.pending matches Some(p) ==> p.due <= now ==> self.dispatchable()
    }

    /// The pending intent is published where it has settled.
    pub open spec fn flushed(self, now: u64) -> Step {
        match self.pending {
            Some(p) => if p.due <= now {
                AppView { pending: None, ..self }.dispatched(p.kind)
            } else {
                (self, None)
            },
            None => (self, None),
        }
    }

    // ---- answers of the cloud --------------------------------------------

    /// The status after a good read: news only where there was none.
    pub open spec fn connected_status(self) -> Seq<char> {
        if self.status.len() == 0 || text::has_part(self.status, "error"@) || text::has_prefix(
            self.status,
            "Refreshing"@,
        ) || text::has_prefix(self.status, "Connecting"@) || self.status == "Starting…"@ {
            "Connected"@
        } else {
            self.status
        }
    }

    /// The changes to a new device state are logged, if there are any.
    pub open spec fn told(self, st: AcState, at: Moment) -> AppView {
        let news = match self.state {
            Some(before) => changes(before, st),
            None => seq![],
        };
        if news.len() == 0 {
            self
        } else {
            self.logged("◆ state: "@ + text::joined(news, ", "@), at.stamp@)
        }
    }

    /// The history with the indoor temperature of a new device state.
    pub open spec fn history_with(self, st: AcState) -> Seq<u64> {
        match json::reading_bits(st.current_temp) {
            Some(b) => recent(self.temp_hist.push(b), HISTORY_POINTS as nat),
            None => self.temp_hist,
        }
    }

    /// A new device state was read. Changes are logged, whoever made them.
    pub open spec fn applied(self, st: AcState, at: Moment) -> AppView {
        AppView {
            state: Some(st),
            last_refresh: Some(at.nanos),
            temp_hist: self.history_with(st),
            status: self.connected_status(),
            ..self.told(st, at)
        }
    }

    /// A read came back. One that was asked for meanwhile follows.
    pub open spec fn refreshed(self, st: AcState, at: Moment) -> Step {
        let s = AppView { refresh_inflight: false, ..self }.applied(st, at);
        if s.refresh_queued {
            AppView { refresh_queued: false, ..s }.refreshing(300)
        } else {
            (s, None)
        }
    }

    /// A login is asked for, unless the last was a short time ago.
    pub open spec fn reauthenticating(self, at: Moment) -> Step {
        if self.last_reauth matches Some(t) && since(t, at.nanos) < REAUTH_COOLDOWN {
            (self, None)
        } else {
            (AppView { last_reauth: Some(at.nanos), ..self }, Some(ActionView::Login))
        }
    }

    /// A login worked. The shadow is read anew.
    pub open spec fn logged_in(self, at: Moment) -> Step {
        self.logged("↻ re-authenticated"@, at.stamp@).refreshing(0)
    }

    /// A login failed.
    pub open spec fn login_failed(self, e: Seq<char>, at: Moment) -> Step {
        (self.logged("✗ re-auth: "@ + e, at.stamp@), None)
    }

    /// A cloud call failed: too many calls lead to a pause, and a lack of
    /// permission to a login.
    pub open spec fn troubled(self, e: Seq<char>, at: Moment) -> Step {
        match kind_of_error(e) {
            CloudError::Throttled => (
                AppView {
                    backoff_until: Some((at.nanos + THROTTLE_BACKOFF) as u64),
                    status: "Cloud rate-limit — cooling down 15s"@,
                    ..self
                }.logged("· backing off 15s (rate-limited)"@, at.stamp@),
                None,
            ),
            CloudError::Unauthorized => self.reauthenticating(at),
            CloudError::Other => (self, None),
        }
    }

    /// A read failed.
    pub open spec fn refresh_failed(self, e: Seq<char>, at: Moment) -> Step {
        AppView {
            refresh_inflight: false,
            refresh_queued: false,
            status: "Refresh error: "@ + e,
            ..self
        }.logged("✗ refresh: "@ + e, at.stamp@).troubled(e, at)
    }

    /// A command was taken. The state is read back after the device settles.
    pub open spec fn confirmed(self, desc: Seq<char>, payload: Seq<char>, at: Moment) -> Step {
        let told = AppView { busy: false, backoff_until: None, ..self }.logged(
            "→ "@ + desc + "  "@ + payload,
            at.stamp@,
        );
        AppView { status: "Sent: "@ + desc, ..told }.refreshing(800)
    }

    /// A command failed.
    pub open spec fn command_failed(self, desc: Seq<char>, e: Seq<char>, at: Moment) -> Step {
        AppView { busy: false, status: "Error: "@ + e, ..self }.logged(
            "✗ "@ + desc + ": "@ + e,
            at.stamp@,
        ).troubled(e, at)
    }

    // ---- keys ------------------------------------------------------------

    /// The temperature that the next step starts from.
    pub open spec fn base_temp(self) -> i64 {
        match self.pending {
            Some(PendingCmd { kind: PendingKind::Temp(c), .. }) => c,
            _ => match self.state {
                Some(s) => match json::reading_bits(s.target_temp) {
                    Some(b) => double::rounded_of(b),
                    None => 24,
                },
                None => 24,
            },
        }
    }

    pub open spec fn temp_adjusted(self, delta: int, now: u64) -> Step {
        let next = device::clamped(
            self.base_temp() + delta,
            self.limits().0 as int,
            self.limits().1 as int,
        ) as i64;
        AppView { status: "queued: temp "@ + text::dec_int(next as int) + "°C"@, ..self }.queued(
            PendingKind::Temp(next),
            now,
        )
    }

    pub open spec fn mode_queued(self, m: Mode, now: u64) -> Step {
        AppView { status: "queued: mode "@ + m.name(), ..self }.queued(PendingKind::Mode(m), now)
    }

    /// The mode that the next step starts from.
    pub open spec fn base_mode(self) -> Mode {
        match self.pending {
            Some(PendingCmd { kind: PendingKind::Mode(m), .. }) => m,
            _ => match self.state {
                Some(s) => match Mode::of_code(s.work_mode as int) {
                    Some(m) => m,
                    None => Mode::Cool,
                },
                None => Mode::Cool,
            },
        }
    }

    /// The fan speed that the next step starts from.
    pub open spec fn base_fan(self) -> Fan {
        match self.pending {
            Some(PendingCmd { kind: PendingKind::Fan(f), .. }) => f,
            _ => match self.state {
                Some(s) => s.fan,
                None => Fan::Auto,
            },
        }
    }

    pub open spec fn fan_stepped(self, forward: bool, now: u64) -> Step {
        let next = Fan::of_level(
            (self.base_fan().place() + if forward {
                1int
            } else {
                7int
            }) % 8,
        );
        AppView { status: "queued: fan "@ + next.name(), ..self }.queued(
            PendingKind::Fan(next),
            now,
        )
    }

    pub open spec fn power_toggled(self) -> Step {
        let on = match self.state {
            Some(s) => !s.power,
            None => true,
        };
        self.sent(
            if on {
                "power on"@
            } else {
                "power off"@
            },
            device::patch1("powerSwitch"@, device::bit(on)),
        )
    }

    pub open spec fn v_swing_toggled(self) -> Step {
        let on = match self.state {
            Some(s) => !(1 <= s.v_dir <= 3),
            None => true,
        };
        if on {
            self.sent("v-swing on"@, device::patch1("verticalDirection"@, 1))
        } else {
            self.sent("v-swing off"@, device::patch1("verticalDirection"@, 8))
        }
    }

    pub open spec fn h_swing_toggled(self) -> Step {
        let on = match self.state {
            Some(s) => !(1 <= s.h_dir <= 4),
            None => true,
        };
        if on {
            self.sent("h-swing on"@, device::patch1("horizontalDirection"@, 1))
        } else {
            self.sent("h-swing off"@, device::patch1("horizontalDirection"@, 8))
        }
    }

    pub open spec fn flag_toggled(self, t: Toggle) -> Step {
        let on = match self.state {
            Some(s) => !t.state_in(s),
            None => true,
        };
        self.sent(
            t.label_text() + " "@ + on_off(on),
            device::patch1(t.field_name(), device::bit(on)),
        )
    }

    pub open spec fn sleep_level(self) -> i64 {
        match self.state {
            Some(s) => s.sleep,
            None => 0,
        }
    }

    /// Whether the sleep level has a next one.
    pub open spec fn sleep_steps(self) -> bool {
        let n = self.sleep_level();
        n < i64::MAX && (n >= -1 || (n + 1) % 4 == 0)
    }

    pub open spec fn sleep_cycled(self) -> Step {
        let next = (self.sleep_level() + 1) % 4;
        self.sent("sleep "@ + device::sleep_name(next), device::patch1("sleep"@, next))
    }

    pub open spec fn anim_toggled(self, stamp: Seq<char>) -> AppView {
        let msg = if self.anim {
            "animations off"@
        } else {
            "animations on"@
        };
        AppView { anim: !self.anim, status: msg, ..self }.logged("· "@ + msg, stamp)
    }

    /// The aim overlay opens, with the crosshair at the fixed vane position, or
    /// at the center of an axis that swings or is not set.
    pub open spec fn aim_opened(self) -> AppView {
        AppView {
            aim_open: true,
            status: "aim: pick a point, Enter to apply"@,
            aim_h: match self.state {
                Some(s) => match device::fixed_at(s.h_dir) {
                    Some(i) => i,
                    None => 2,
                },
                None => self.aim_h,
            },
            aim_v: match self.state {
                Some(s) => match device::fixed_at(s.v_dir) {
                    Some(i) => i,
                    None => 2,
                },
                None => self.aim_v,
            },
            ..self
        }
    }

    pub open spec fn aim_closed(self) -> AppView {
        AppView { aim_open: false, status: "aim cancelled"@, ..self }
    }

    /// Whether a vane swings.
    pub open spec fn swinging(self) -> bool {
        match self.state {
            Some(s) => 1 <= s.v_dir <= 3 || 1 <= s.h_dir <= 4,
            None => false,
        }
    }

    /// The crosshair position is sent as fixed vane directions.
    pub open spec fn aim_applied(self) -> Step {
        let point = "aim "@ + device::v_name(self.aim_v as int) + " · "@ + device::h_name(
            self.aim_h as int,
        );
        let desc = if self.swinging() {
            point + " (stops swing)"@
        } else {
            point
        };
        let (s, action) = self.sent(
            desc,
            device::vent_patch(self.aim_h as int, self.aim_v as int),
        );
        (AppView { aim_open: false, ..s }, action)
    }

    /// A key while the aim overlay is open.
    pub open spec fn aim_pressed(self, key: Key, ctrl: bool) -> Step {
        if key == Key::Esc || key == Key::Char('v') {
            (self.aim_closed(), None)
        } else if key == Key::Char('q') || (key == Key::Char('c') && ctrl) {
            (AppView { should_quit: true, ..self }, None)
        } else if key == Key::Left || key == Key::Char('a') {
            (
                AppView {
                    aim_h: if self.aim_h > 0 {
                        (self.aim_h - 1) as usize
                    } else {
                        0
                    },
                    ..self
                },
                None,
            )
        } else if key == Key::Right || key == Key::Char('d') {
            (
                AppView {
                    aim_h: if self.aim_h < 4 {
                        (self.aim_h + 1) as usize
                    } else {
                        4
                    },
                    ..self
                },
                None,
            )
        } else if key == Key::Up || key == Key::Char('w') {
            (
                AppView {
                    aim_v: if self.aim_v > 0 {
                        (self.aim_v - 1) as usize
                    } else {
                        0
                    },
                    ..self
                },
                None,
            )
        } else if key == Key::Down || key == Key::Char('s') {
            (
                AppView {
                    aim_v: if self.aim_v < 4 {
                        (self.aim_v + 1) as usize
                    } else {
                        4
                    },
                    ..self
                },
                None,
            )
        } else if key == Key::Enter || key == Key::Char(' ') {
            self.aim_applied()
        } else {
            (self, None)
        }
    }

    /// The on/off setting that a key stands for.
    pub open spec fn toggle_for(key: Key) -> Option<Toggle> {
        if key == Key::Char('e') {
            Some(Toggle::Eco)
        } else if key == Key::Char('d') {
            Some(Toggle::Screen)
        } else if key == Key::Char('b') {
            Some(Toggle::Beep)
        } else if key == Key::Char('g') {
            Some(Toggle::Health)
        } else if key == Key::Char('c') {
            Some(Toggle::SelfClean)
        } else if key == Key::Char('n') {
            Some(Toggle::AntiMold)
        } else if key == Key::Char('8') {
            Some(Toggle::EightHeat)
        } else {
            None
        }
    }

    pub open spec fn raises(key: Key) -> bool {
        key == Key::Char('+') || key == Key::Char('=') || key == Key::Up
    }

    pub open spec fn lowers(key: Key) -> bool {
        key == Key::Char('-') || key == Key::Char('_') || key == Key::Down
    }

    /// The mode that a number key stands for.
    pub open spec fn mode_for(key: Key) -> Option<Mode> {
        match key {
            Key::Char(c) => if '1' <= c <= '5' {
                Mode::of_code(c as u32 - '1' as u32)
            } else {
                None
            },
            _ => None,
        }
    }

    /// A key.
    pub open spec fn pressed(self, key: Key, ctrl: bool, at: Moment) -> Step {
        if self.aim_open {
            self.aim_pressed(key, ctrl)
        } else if key == Key::Char('q') || key == Key::Esc || (key == Key::Char('c') && ctrl) {
            (AppView { should_quit: true, ..self }, None)
        } else if key == Key::Char('v') {
            (self.aim_opened(), None)
        } else if key == Key::Char('p') {
            self.power_toggled()
        } else if AppView::raises(key) {
            self.temp_adjusted(1, at.nanos)
        } else if AppView::lowers(key) {
            self.temp_adjusted(-1, at.nanos)
        } else if key == Key::Char('m') {
            self.mode_queued(self.base_mode().following(), at.nanos)
        } else if AppView::mode_for(key) is Some {
            self.mode_queued(AppView::mode_for(key)->0, at.nanos)
        } else if key == Key::Char('f') {
            self.fan_stepped(true, at.nanos)
        } else if key == Key::Char('F') {
            self.fan_stepped(false, at.nanos)
        } else if key == Key::Char('s') {
            self.v_swing_toggled()
        } else if key == Key::Char('h') {
            self.h_swing_toggled()
        } else if key == Key::Char('z') {
            self.sleep_cycled()
        } else if AppView::toggle_for(key) is Some {
            self.flag_toggled(AppView::toggle_for(key)->0)
        } else if key == Key::Char('a') {
            (self.anim_toggled(at.stamp@), None)
        } else if key == Key::Char('r') {
            AppView { status: "Refreshing…"@, ..self }.refreshing(0)
        } else {
            (self, None)
        }
    }

    /// Whether a key queues an intent.
    pub open spec fn queues(key: Key) -> bool {
        AppView::raises(key) || AppView::lowers(key) || key == Key::Char('m') || AppView::mode_for(
            key,
        ) is Some || key == Key::Char('f') || key == Key::Char('F')
    }

    /// Whether what a key asks for can be computed from what the device reports:
    /// its temperature limits are in order where a temperature is set, the next
    /// temperature is a number, and the sleep level has a next one.
    pub open spec fn accepting(self, key: Key) -> bool {
        self.aim_open || {
            &&& AppView::raises(key) ==> self.limits_ordered() && self.base_temp() < i64::MAX
            &&& AppView::lowers(key) ==> self.limits_ordered() && self.base_temp() > i64::MIN
            &&& AppView::queues(key) ==> self.dispatchable()
            &&& key == Key::Char('z') ==> self.sleep_steps()
        }
    }

    /// A click, at the cell of the grid that it hit, if any.
    pub open spec fn clicked(self, cell: Option<(int, int)>) -> Step {
        if !self.aim_open {
            (self, None)
        } else {
            match cell {
                Some((h, v)) => AppView {
                    aim_h: h as usize,
                    aim_v: v as usize,
                    ..self
                }.aim_applied(),
                None => (self.aim_closed(), None),
            }
        }
    }

    // ---- clocks ----------------------------------------------------------

    /// The first read is asked for.
    pub open spec fn started(self) -> Step {
        AppView { status: "Connecting…"@, ..self }.refreshing(0)
    }

    pub open spec fn backing_off(self, now: u64) -> bool {
        self.backoff_until matches Some(t) && now < t
    }

    /// The regular read, left out while a call runs or after too many.
    pub open spec fn refresh_due(self, now: u64) -> Step {
        if !self.busy && !self.refresh_inflight && !self.backing_off(now) {
            self.refreshing(0)
        } else {
            (self, None)
        }
    }

    /// The animation moves on, and a settled intent is published.
    pub open spec fn ticked(self, now: u64) -> Step {
        AppView {
            frame: if self.anim {
                if self.frame == u64::MAX {
                    0
                } else {
                    (self.frame + 1) as u64
                }
            } else {
                self.frame
            },
            ..self
        }.flushed(now)
    }
}

impl App {
    /// The state before the first read.
    pub open spec fn initial(device: rest::DeviceView) -> AppView {
        AppView {
            device,
            state: None,
            status: "Starting…"@,
            last_refresh: None,
            busy: false,
            log: seq![],
            should_quit: false,
            pending: None,
            refresh_inflight: false,
            refresh_queued: false,
            backoff_until: None,
            last_reauth: None,
            anim: true,
            frame: 0,
            temp_hist: seq![],
            aim_open: false,
            aim_h: 2,
            aim_v: 2,
        }
    }

    pub fn new(device: Device) -> (r: App)
        ensures
            r@ == App::initial(device@),
            r@.inv(),
    {
        let r = App {
            device,
            state: None,
            status: text::owned("Starting…"),
            last_refresh: None,
            busy: false,
            log: Vec::new(),
            should_quit: false,
            pending: None,
            refresh_inflight: false,
            refresh_queued: false,
            backoff_until: None,
            last_reauth: None,
            anim: true,
            frame: 0,
            temp_hist: Vec::new(),
            aim_open: false,
            aim_h: 2,
            aim_v: 2,
        };
        assert(r@ =~= App::initial(device@));
        r
    }

    /// How long ago the last read was.
    pub open spec fn age_text(last: Option<u64>, now: u64) -> Seq<char> {
        match last {
            Some(t) => text::dec((since(t, now) / 1_000_000_000) as nat) + "s ago"@,
            None => "never"@,
        }
    }

    pub fn refresh_age(&self, now: u64) -> (r: String)
        ensures
            r@ == App::age_text(self@.last_refresh, now),
    {
        match self.last_refresh {
            Some(t) => {
                let span: u64 = if now >= t {
                    now - t
                } else {
                    0
                };
                let seconds = text::dec_u64(span / 1_000_000_000);
                text::cat2(seconds.as_str(), "s ago")
            },
            None => text::owned("never"),
        }
    }

    pub fn backoff_active(&self, now: u64) -> (r: bool)
        ensures
            r == self@.backing_off(now),
    {
        match self.backoff_until {
            Some(t) => now < t,
            None => false,
        }
    }

    // Pending accessors for the UI (instant feedback before the publish).
    pub fn pending_temp(&self) -> (r: Option<i64>)
        ensures
            r == (match self@.pending {
                Some(PendingCmd { kind: PendingKind::Temp(c), .. }) => Some(c),
                _ => None,
            }),
    {
        match self.pending {
            Some(PendingCmd { kind: PendingKind::Temp(c), .. }) => Some(c),
            _ => None,
        }
    }

    pub fn pending_fan(&self) -> (r: Option<Fan>)
        ensures
            r == (match self@.pending {
                Some(PendingCmd { kind: PendingKind::Fan(f), .. }) => Some(f),
                _ => None,
            }),
    {
        match self.pending {
            Some(PendingCmd { kind: PendingKind::Fan(f), .. }) => Some(f),
            _ => None,
        }
    }

    pub fn pending_mode(&self) -> (r: Option<Mode>)
        ensures
            r == (match self@.pending {
                Some(PendingCmd { kind: PendingKind::Mode(m), .. }) => Some(m),
                _ => None,
            }),
    {
        match self.pending {
            Some(PendingCmd { kind: PendingKind::Mode(m), .. }) => Some(m),
            _ => None,
        }
    }

    fn push_log(&mut self, line: &str, stamp: &str)
        requires
            old(self)@.inv(),
        ensures
            final(self)@ == old(self)@.logged(line@, stamp@),
            final(self)@.inv(),
    {
        let clipped = text::clip(line, LOG_WIDTH);
        let stamped = text::cat3(stamp, " ", clipped.as_str());
        let ghost before = self.log@;
        self.log.push(stamped);
        assert(text::view_all(self.log@) =~= text::view_all(before).push(stamped@));
        if self.log.len() > LOG_LINES {
            let ghost longer = self.log@;
            let _ = self.log.remove(0);
            assert(text::view_all(self.log@) =~= text::view_all(longer).skip(1));
        }
        assert(self@ =~= old(self)@.logged(line@, stamp@));
    }

    // ---- cloud calls -----------------------------------------------------

    /// Ask for a shadow read (optionally after a settle delay). Reads never
    /// overlap: a second request while one is in flight is coalesced.
    pub fn spawn_refresh(&mut self, delay_ms: u64) -> (r: Option<Action>)
        ensures
            (final(self)@, action_view(r)) == old(self)@.refreshing(delay_ms),
    {
        if self.refresh_inflight {
            self.refresh_queued = true;
            return None;
        }
        self.refresh_inflight = true;
        Some(Action::Refresh { delay_ms })
    }

    /// Ask for a command publish.
    fn spawn_cmd(&mut self, desc: String, desired: Value) -> (r: Option<Action>)
        ensures
            (final(self)@, action_view(r)) == old(self)@.sent(desc@, json::json_of(desired)),
    {
        self.busy = true;
        self.status = text::cat2("Sending: ", desc.as_str());
        let payload = json::print(&desired);
        Some(Action::Publish { desc, payload, desired })
    }

    // ---- debounced commands ----------------------------------------------

    /// Note an intent, to be published once it has settled. A different kind already
    /// queued is sent right away so it isn't lost.
    pub fn set_pending(&mut self, kind: PendingKind, now: u64) -> (r: Option<Action>)
        requires
            old(self)@.queueable(kind),
            now + DEBOUNCE <= u64::MAX,
        ensures
            (final(self)@, action_view(r)) == old(self)@.queued(kind, now),
    {
        let mut action = None;
        if let Some(prev) = self.pending {
            if !prev.kind.is_like(&kind) {
                action = self.dispatch(prev.kind);
            }
        }
        self.pending = Some(PendingCmd { kind, due: now + DEBOUNCE });
        action
    }

    /// Whether the device reports what publishing a settled intent takes.
    pub fn can_flush(&self, now: u64) -> (r: bool)
        ensures
            r == self@.flushable(now),
    {
        let (t_min, t_max): (i64, i64) = match &self.state {
            Some(s) => (s.t_min, s.t_max),
            None => (device::FALLBACK_TEMP_MIN, device::FALLBACK_TEMP_MAX),
        };
        match self.pending {
            Some(PendingCmd { kind: PendingKind::Temp(_), due }) => due > now || t_min <= t_max,
            _ => true,
        }
    }

    /// Called on every UI tick: publish the pending intent once it settles.
    pub fn flush_pending(&mut self, now: u64) -> (r: Option<Action>)
        requires
            old(self)@.flushable(now),
        ensures
            (final(self)@, action_view(r)) == old(self)@.flushed(now),
    {
        match self.pending {
            Some(p) => if p.due <= now {
                self.pending = None;
                self.dispatch(p.kind)
            } else {
                None
            },
            None => None,
        }
    }

    fn dispatch(&mut self, kind: PendingKind) -> (r: Option<Action>)
        requires
            kind is Temp ==> old(self)@.limits_ordered(),
        ensures
            (final(self)@, action_view(r)) == old(self)@.dispatched(kind),
    {
        match kind {
            PendingKind::Temp(c) => {
                let (t_min, t_max): (i64, i64) = match &self.state {
                    Some(s) => (s.t_min, s.t_max),
                    None => (device::FALLBACK_TEMP_MIN, device::FALLBACK_TEMP_MAX),
                };
                let number = text::dec_i64(c);
                let desc = text::cat3("temp ", number.as_str(), "°C");
                self.spawn_cmd(desc, device::cmd_temp(c, t_min, t_max))
            },
            PendingKind::Fan(f) => {
                let dialect = match &self.state {
                    Some(s) => s.dialect,
                    None => FanDialect::SevenGear,
                };
                let label = f.label();
                self.spawn_cmd(text::cat2("fan ", label.as_str()), f.desired(dialect))
            },
            PendingKind::Mode(m) => self.spawn_cmd(
                text::cat2("mode ", m.label()),
                device::cmd_mode(m),
            ),
        }
    }

    // ---- message handling ------------------------------------------------

    /// Takes the result of a background task.
    pub fn handle_msg(&mut self, msg: Msg, at: &Moment) -> (r: Option<Action>)
        requires
            old(self)@.inv(),
            at.valid(),
        ensures
            final(self)@.inv(),
            match msg {
                Msg::Shadow(Ok(shadow)) => {
                    &&& final(self)@.state matches Some(st) && st.reads(json::json_of(shadow))
                        && st.online == old(self)@.device.is_online
                    &&& (final(self)@, action_view(r)) == old(self)@.refreshed(
                        final(self)@.state->0,
                        *at,
                    )
                },
                Msg::Shadow(Err(e)) => (final(self)@, action_view(r)) == old(
                    self,
                )@.refresh_failed(e@, *at),
                Msg::Cmd { desc, payload, result: Ok(()) } => (final(self)@, action_view(r))
                    == old(self)@.confirmed(desc@, payload@, *at),
                Msg::Cmd { desc, payload, result: Err(e) } => (final(self)@, action_view(r))
                    == old(self)@.command_failed(desc@, e@, *at),
            },
    {
        match msg {
            Msg::Shadow(Ok(shadow)) => self.shadow_read(&shadow, at),
            Msg::Shadow(Err(e)) => self.shadow_failed(e.as_str(), at),
            Msg::Cmd { desc, payload, result: Ok(()) } => self.command_taken(
                desc.as_str(),
                payload.as_str(),
                at,
            ),
            Msg::Cmd { desc, payload: _, result: Err(e) } => self.command_refused(
                desc.as_str(),
                e.as_str(),
                at,
            ),
        }
    }

    fn shadow_read(&mut self, shadow: &Value, at: &Moment) -> (r: Option<Action>)
        requires
            old(self)@.inv(),
        ensures
            final(self)@.state matches Some(st) && st.reads(json::json_of(*shadow)) && st.online
                == old(self)@.device.is_online,
            (final(self)@, action_view(r)) == old(self)@.refreshed(final(self)@.state->0, *at),
            final(self)@.inv(),
    {
        self.refresh_inflight = false;
        self.apply_shadow(shadow, at);
        if self.refresh_queued {
            self.refresh_queued = false;
            self.spawn_refresh(300)
        } else {
            None
        }
    }

    fn shadow_failed(&mut self, e: &str, at: &Moment) -> (r: Option<Action>)
        requires
            old(self)@.inv(),
            at.valid(),
        ensures
            (final(self)@, action_view(r)) == old(self)@.refresh_failed(e@, *at),
            final(self)@.inv(),
    {
        self.refresh_inflight = false;
        self.refresh_queued = false;
        self.status = text::cat2("Refresh error: ", e);
        let line = text::cat2("✗ refresh: ", e);
        self.push_log(line.as_str(), at.stamp.as_str());
        self.handle_cloud_error(e, at)
    }

    fn command_taken(&mut self, desc: &str, payload: &str, at: &Moment) -> (r: Option<Action>)
        requires
            old(self)@.inv(),
        ensures
            (final(self)@, action_view(r)) == old(self)@.confirmed(desc@, payload@, *at),
            final(self)@.inv(),
    {
        self.busy = false;
        self.backoff_until = None;
        let line = text::cat4("→ ", desc, "  ", payload);
        self.push_log(line.as_str(), at.stamp.as_str());
        self.status = text::cat2("Sent: ", desc);
        // read back after the device settles
        self.spawn_refresh(800)
    }

    fn command_refused(&mut self, desc: &str, e: &str, at: &Moment) -> (r: Option<Action>)
        requires
            old(self)@.inv(),
            at.valid(),
        ensures
            (final(self)@, action_view(r)) == old(self)@.command_failed(desc@, e@, *at),
            final(self)@.inv(),
    {
        self.busy = false;
        self.status = text::cat2("Error: ", e);
        let line = text::cat4("✗ ", desc, ": ", e);
        self.push_log(line.as_str(), at.stamp.as_str());
        self.handle_cloud_error(e, at)
    }

    /// Throttling leads to a back-off; an auth-shaped failure to a re-login.
    fn handle_cloud_error(&mut self, msg: &str, at: &Moment) -> (r: Option<Action>)
        requires
            old(self)@.inv(),
            at.valid(),
        ensures
            (final(self)@, action_view(r)) == old(self)@.troubled(msg@, *at),
            final(self)@.inv(),
    {
        match classify(msg) {
            CloudError::Throttled => {
                self.backoff_until = Some(at.nanos + THROTTLE_BACKOFF);
                self.status = text::owned("Cloud rate-limit — cooling down 15s");
                self.push_log("· backing off 15s (rate-limited)", at.stamp.as_str());
                None
            },
            CloudError::Unauthorized => self.maybe_reauth(at),
            CloudError::Other => None,
        }
    }

    /// The externally observed changes from the last state to a new one.
    fn diffs(&self, st: &AcState) -> (r: Vec<String>)
        ensures
            text::view_all(r@) == (match self.state {
                Some(before) => changes(before, *st),
                None => seq![],
            }),
    {
        let mut out: Vec<String> = Vec::new();
        assert(text::view_all(out@) =~= Seq::<Seq<char>>::empty());
        if let Some(before) = &self.state {
            if before.power != st.power {
                note(&mut out, "power", onoff(before.power), onoff(st.power));
            }
            if before.work_mode != st.work_mode {
                let a = before.mode_label();
                let b = st.mode_label();
                note(&mut out, "mode", a.as_str(), b.as_str());
            }
            if are_different(&before.target_temp, &st.target_temp) {
                let a = fmt_temp(&before.target_temp);
                let b = fmt_temp(&st.target_temp);
                note(&mut out, "target", a.as_str(), b.as_str());
            }
            if before.fan != st.fan {
                let a = before.fan.label();
                let b = st.fan.label();
                note(&mut out, "fan", a.as_str(), b.as_str());
            }
            if before.v_dir != st.v_dir {
                let a = text::dec_i64(before.v_dir);
                let b = text::dec_i64(st.v_dir);
                note(&mut out, "v-swing", a.as_str(), b.as_str());
            }
            if before.h_dir != st.h_dir {
                let a = text::dec_i64(before.h_dir);
                let b = text::dec_i64(st.h_dir);
                note(&mut out, "h-swing", a.as_str(), b.as_str());
            }
        }
        out
    }

    /// Logs the externally observed changes from the last state to a new one
    /// (app, remote, another tclac), not just those of our own commands.
    fn tell_changes(&mut self, st: &AcState, at: &Moment)
        requires
            old(self)@.inv(),
        ensures
            final(self)@ == old(self)@.told(*st, *at),
            final(self)@.inv(),
    {
        let news = self.diffs(st);
        if news.len() > 0 {
            let list = text::join(&news, ", ");
            let line = text::cat2("◆ state: ", list.as_str());
            self.push_log(line.as_str(), at.stamp.as_str());
        }
    }

    /// Adds the indoor temperature to the history.
    fn record(&mut self, st: &AcState)
        requires
            old(self)@.inv(),
        ensures
            final(self)@ == (AppView { temp_hist: old(self)@.history_with(*st), ..old(self)@ }),
            final(self)@.inv(),
    {
        if let Some(t) = &st.current_temp {
            let b = t.bits();
            self.temp_hist.push(b);
            if self.temp_hist.len() > HISTORY_POINTS {
                let ghost longer = self.temp_hist@;
                let _ = self.temp_hist.remove(0);
                assert(self.temp_hist@ =~= longer.skip(1));
            }
        }
    }

    fn settle_status(&mut self)
        ensures
            final(self)@ == (AppView { status: old(self)@.connected_status(), ..old(self)@ }),
    {
        let s = self.status.as_str();
        let fresh = text::is_empty(s) || text::contains(s, "error") || text::starts_with(
            s,
            "Refreshing",
        ) || text::starts_with(s, "Connecting") || text::same(s, "Starting…");
        if fresh {
            self.status = text::owned("Connected");
        }
    }

    fn apply_shadow(&mut self, shadow: &Value, at: &Moment)
        requires
            old(self)@.inv(),
        ensures
            final(self)@.state matches Some(st) && st.reads(json::json_of(*shadow)) && st.online
                == old(self)@.device.is_online,
            final(self)@ == old(self)@.applied(final(self)@.state->0, *at),
            final(self)@.inv(),
    {
        let mut st = AcState::from_shadow(shadow);
        st.online = self.device.is_online;
        self.tell_changes(&st, at);
        self.record(&st);
        self.settle_status();
        self.state = Some(st);
        self.last_refresh = Some(at.nanos);
    }

    /// Re-run the auth chain (rare: only on credential expiry) with a cooldown so
    /// a persistent permission error can't trigger a re-login storm.
    pub fn maybe_reauth(&mut self, at: &Moment) -> (r: Option<Action>)
        ensures
            (final(self)@, action_view(r)) == old(self)@.reauthenticating(*at),
    {
        if let Some(t) = self.last_reauth {
            if at.nanos < t || at.nanos - t < REAUTH_COOLDOWN {
                return None;
            }
        }
        self.last_reauth = Some(at.nanos);
        Some(Action::Login)
    }

    /// Takes the result of a login that [`Action::Login`] asked for.
    pub fn reauthenticated(&mut self, result: Result<(), String>, at: &Moment) -> (r: Option<
        Action,
    >)
        requires
            old(self)@.inv(),
        ensures
            final(self)@.inv(),
            match result {
                Ok(()) => (final(self)@, action_view(r)) == old(self)@.logged_in(*at),
                Err(e) => (final(self)@, action_view(r)) == old(self)@.login_failed(e@, *at),
            },
    {
        match result {
            Ok(()) => {
                self.push_log("↻ re-authenticated", at.stamp.as_str());
                self.spawn_refresh(0)
            },
            Err(e) => {
                let line = text::cat2("✗ re-auth: ", e.as_str());
                self.push_log(line.as_str(), at.stamp.as_str());
                None
            },
        }
    }

    // ---- key handling ----------------------------------------------------

    /// Whether a key can be handled in the state that the device reports.
    pub fn accepts(&self, key: Key) -> (r: bool)
        ensures
            r == self@.accepting(key),
    {
        if self.aim_open {
            return true;
        }
        let (t_min, t_max): (i64, i64) = match &self.state {
            Some(s) => (s.t_min, s.t_max),
            None => (device::FALLBACK_TEMP_MIN, device::FALLBACK_TEMP_MAX),
        };
        let ordered = t_min <= t_max;
        let up = key == Key::Char('+') || key == Key::Char('=') || key == Key::Up;
        let down = key == Key::Char('-') || key == Key::Char('_') || key == Key::Down;
        let queues = up || down || key == Key::Char('m') || mode_key(key).is_some() || key
            == Key::Char('f') || key == Key::Char('F');
        let temp_waits = self.pending_temp().is_some();
        let base = self.start_temp();
        let n: i64 = match &self.state {
            Some(s) => s.sleep,
            None => 0,
        };
        let sleeps = n < i64::MAX && (n >= -1 || (n + 1) % 4 == 0);
        (!up || (ordered && base < i64::MAX)) && (!down || (ordered && base > i64::MIN)) && (!queues
            || !temp_waits || ordered) && (key != Key::Char('z') || sleeps)
    }

    pub fn handle_key(&mut self, key: Key, ctrl: bool, at: &Moment) -> (r: Option<Action>)
        requires
            old(self)@.inv(),
            old(self)@.accepting(key),
            at.valid(),
        ensures
            (final(self)@, action_view(r)) == old(self)@.pressed(key, ctrl, *at),
            final(self)@.inv(),
    {
        if self.aim_open {
            return self.handle_aim_key(key, ctrl);
        }
        if key == Key::Char('q') || key == Key::Esc || (key == Key::Char('c') && ctrl) {
            self.should_quit = true;
            return None;
        }
        if key == Key::Char('v') {
            self.open_aim();
            return None;
        }
        if key == Key::Char('p') {
            return self.toggle_power();
        }
        if key == Key::Char('+') || key == Key::Char('=') || key == Key::Up {
            return self.adjust_temp(1, at.nanos);
        }
        if key == Key::Char('-') || key == Key::Char('_') || key == Key::Down {
            return self.adjust_temp(-1, at.nanos);
        }
        if key == Key::Char('m') {
            return self.cycle_mode(at.nanos);
        }
        if let Some(mode) = mode_key(key) {
            self.status = text::cat2("queued: mode ", mode.label());
            return self.set_pending(PendingKind::Mode(mode), at.nanos);
        }
        if key == Key::Char('f') {
            return self.step_fan(true, at.nanos);
        }
        if key == Key::Char('F') {
            return self.step_fan(false, at.nanos);
        }
        if key == Key::Char('s') {
            return self.toggle_vswing();
        }
        if key == Key::Char('h') {
            return self.toggle_hswing();
        }
        if key == Key::Char('z') {
            return self.cycle_sleep();
        }
        if let Some(t) = toggle_key(key) {
            return self.toggle_flag(t);
        }
        if key == Key::Char('a') {
            self.anim = !self.anim;
            let msg = if self.anim {
                "animations on"
            } else {
                "animations off"
            };
            self.status = text::owned(msg);
            let line = text::cat2("· ", msg);
            self.push_log(line.as_str(), at.stamp.as_str());
            return None;
        }
        if key == Key::Char('r') {
            self.status = text::owned("Refreshing…");
            return self.spawn_refresh(0);
        }
        None
    }

    /// Open the aim overlay, seeding the crosshair from the current fixed
    /// vane position (or center if swinging / unset).
    fn open_aim(&mut self)
        requires
            old(self)@.inv(),
        ensures
            final(self)@ == old(self)@.aim_opened(),
            final(self)@.inv(),
    {
        let seed = match &self.state {
            Some(s) => {
                let h = match s.h_fix() {
                    Some(i) => i,
                    None => 2,
                };
                let v = match s.v_fix() {
                    Some(i) => i,
                    None => 2,
                };
                Some((h, v))
            },
            None => None,
        };
        if let Some((h, v)) = seed {
            self.aim_h = h;
            self.aim_v = v;
        }
        self.aim_open = true;
        self.status = text::owned("aim: pick a point, Enter to apply");
    }

    /// A key while the aim overlay is open.
    pub fn handle_aim_key(&mut self, key: Key, ctrl: bool) -> (r: Option<Action>)
        requires
            old(self)@.inv(),
        ensures
            (final(self)@, action_view(r)) == old(self)@.aim_pressed(key, ctrl),
            final(self)@.inv(),
    {
        if key == Key::Esc || key == Key::Char('v') {
            self.aim_open = false;
            self.status = text::owned("aim cancelled");
            None
        } else if key == Key::Char('q') || (key == Key::Char('c') && ctrl) {
            self.should_quit = true;
            None
        } else if key == Key::Left || key == Key::Char('a') {
            if self.aim_h > 0 {
                self.aim_h = self.aim_h - 1;
            }
            None
        } else if key == Key::Right || key == Key::Char('d') {
            if self.aim_h < 4 {
                self.aim_h = self.aim_h + 1;
            }
            None
        } else if key == Key::Up || key == Key::Char('w') {
            if self.aim_v > 0 {
                self.aim_v = self.aim_v - 1;
            }
            None
        } else if key == Key::Down || key == Key::Char('s') {
            if self.aim_v < 4 {
                self.aim_v = self.aim_v + 1;
            }
            None
        } else if key == Key::Enter || key == Key::Char(' ') {
            self.apply_aim()
        } else {
            None
        }
    }

    /// Whether a vane swings.
    pub fn is_swinging(&self) -> (r: bool)
        ensures
            r == self@.swinging(),
    {
        match &self.state {
            Some(s) => s.v_swinging() || s.h_swinging(),
            None => false,
        }
    }

    /// Send the crosshair position as fixed vane directions.
    fn apply_aim(&mut self) -> (r: Option<Action>)
        requires
            old(self)@.inv(),
        ensures
            (final(self)@, action_view(r)) == old(self)@.aim_applied(),
            final(self)@.inv(),
    {
        let was_swinging = self.is_swinging();
        let mut desc = text::cat4(
            "aim ",
            device::v_label(self.aim_v),
            " · ",
            device::h_label(self.aim_h),
        );
        if was_swinging {
            desc.append(" (stops swing)");
        }
        let (h, v): (i64, i64) = (self.aim_h as i64, self.aim_v as i64);
        let action = self.spawn_cmd(desc, device::cmd_vent(h, v));
        self.aim_open = false;
        action
    }

    /// Mouse click at terminal cell (x, y): inside the aim grid → aim there
    /// and apply; anywhere else while the overlay is open → close it.
    pub fn handle_click(&mut self, x: u16, y: u16, term: Rect) -> (r: Option<Action>)
        requires
            old(self)@.inv(),
            old(self)@.aim_open ==> ui::aim_fits(term),
        ensures
            (final(self)@, action_view(r)) == old(self)@.clicked(
                ui::cell_of(term, x as int, y as int),
            ),
            final(self)@.inv(),
    {
        if !self.aim_open {
            return None;
        }
        match ui::aim_cell_at(term, x, y) {
            Some((h, v)) => {
                self.aim_h = h;
                self.aim_v = v;
                self.apply_aim()
            },
            None => {
                self.aim_open = false;
                self.status = text::owned("aim cancelled");
                None
            },
        }
    }

    fn toggle_power(&mut self) -> (r: Option<Action>)
        ensures
            (final(self)@, action_view(r)) == old(self)@.power_toggled(),
    {
        let on = match &self.state {
            Some(s) => !s.power,
            None => true,
        };
        let desc = if on {
            "power on"
        } else {
            "power off"
        };
        self.spawn_cmd(text::owned(desc), device::cmd_power(on))
    }

    /// The temperature that the next step starts from.
    fn start_temp(&self) -> (r: i64)
        ensures
            r == self@.base_temp(),
    {
        match self.pending_temp() {
            Some(c) => c,
            None => match &self.state {
                Some(s) => match &s.target_temp {
                    Some(t) => double::rounded(t.bits()),
                    None => 24,
                },
                None => 24,
            },
        }
    }

    fn adjust_temp(&mut self, delta: i64, now: u64) -> (r: Option<Action>)
        requires
            old(self)@.limits_ordered(),
            i64::MIN <= old(self)@.base_temp() + delta <= i64::MAX,
            now + DEBOUNCE <= u64::MAX,
        ensures
            (final(self)@, action_view(r)) == old(self)@.temp_adjusted(delta as int, now),
    {
        let (t_min, t_max): (i64, i64) = match &self.state {
            Some(s) => (s.t_min, s.t_max),
            None => (device::FALLBACK_TEMP_MIN, device::FALLBACK_TEMP_MAX),
        };
        let next = device::clamp(self.start_temp() + delta, t_min, t_max);
        let number = text::dec_i64(next);
        self.status = text::cat3("queued: temp ", number.as_str(), "°C");
        self.set_pending(PendingKind::Temp(next), now)
    }

    fn cycle_mode(&mut self, now: u64) -> (r: Option<Action>)
        requires
            old(self)@.dispatchable(),
            now + DEBOUNCE <= u64::MAX,
        ensures
            (final(self)@, action_view(r)) == old(self)@.mode_queued(
                old(self)@.base_mode().following(),
                now,
            ),
    {
        let cur = match self.pending_mode() {
            Some(m) => m,
            None => match &self.state {
                Some(s) => match s.mode() {
                    Some(m) => m,
                    None => Mode::Cool,
                },
                None => Mode::Cool,
            },
        };
        let next = cur.next();
        self.status = text::cat2("queued: mode ", next.label());
        self.set_pending(PendingKind::Mode(next), now)
    }

    fn step_fan(&mut self, forward: bool, now: u64) -> (r: Option<Action>)
        requires
            old(self)@.dispatchable(),
            now + DEBOUNCE <= u64::MAX,
        ensures
            (final(self)@, action_view(r)) == old(self)@.fan_stepped(forward, now),
    {
        let cur = match self.pending_fan() {
            Some(f) => f,
            None => match &self.state {
                Some(s) => s.fan,
                None => Fan::Auto,
            },
        };
        let next = if forward {
            cur.next()
        } else {
            cur.prev()
        };
        let label = next.label();
        self.status = text::cat2("queued: fan ", label.as_str());
        self.set_pending(PendingKind::Fan(next), now)
    }

    fn toggle_vswing(&mut self) -> (r: Option<Action>)
        ensures
            (final(self)@, action_view(r)) == old(self)@.v_swing_toggled(),
    {
        let on = match &self.state {
            Some(s) => !s.v_swinging(),
            None => true,
        };
        let desc = if on {
            "v-swing on"
        } else {
            "v-swing off"
        };
        self.spawn_cmd(text::owned(desc), device::cmd_vswing(on))
    }

    fn toggle_hswing(&mut self) -> (r: Option<Action>)
        ensures
            (final(self)@, action_view(r)) == old(self)@.h_swing_toggled(),
    {
        let on = match &self.state {
            Some(s) => !s.h_swinging(),
            None => true,
        };
        let desc = if on {
            "h-swing on"
        } else {
            "h-swing off"
        };
        self.spawn_cmd(text::owned(desc), device::cmd_hswing(on))
    }

    fn toggle_flag(&mut self, t: Toggle) -> (r: Option<Action>)
        ensures
            (final(self)@, action_view(r)) == old(self)@.flag_toggled(t),
    {
        let on = match &self.state {
            Some(s) => !t.is_on(s),
            None => true,
        };
        let desc = text::cat3(t.label(), " ", onoff(on));
        self.spawn_cmd(desc, device::cmd_flag(t.field(), on))
    }

    fn cycle_sleep(&mut self) -> (r: Option<Action>)
        requires
            old(self)@.sleep_steps(),
        ensures
            (final(self)@, action_view(r)) == old(self)@.sleep_cycled(),
    {
        let cur: i64 = match &self.state {
            Some(s) => s.sleep,
            None => 0,
        };
        let next: i64 = if cur >= -1 {
            (cur + 1) % 4
        } else {
            0
        };
        let desc = text::cat2("sleep ", device::sleep_label(next as usize));
        self.spawn_cmd(desc, device::cmd_sleep(next))
    }

    // ---- event loop ------------------------------------------------------

    /// The first step: connect.
    pub fn start(&mut self) -> (r: Option<Action>)
        ensures
            (final(self)@, action_view(r)) == old(self)@.started(),
    {
        self.status = text::owned("Connecting…");
        self.spawn_refresh(0)
    }

    /// The ten-second tick: read the shadow unless a call runs or must wait.
    pub fn refresh_tick(&mut self, now: u64) -> (r: Option<Action>)
        ensures
            (final(self)@, action_view(r)) == old(self)@.refresh_due(now),
    {
        if !self.busy && !self.refresh_inflight && !self.backoff_active(now) {
            self.spawn_refresh(0)
        } else {
            None
        }
    }

    /// The UI tick: move the animation on and publish a settled intent.
    pub fn ui_tick(&mut self, now: u64) -> (r: Option<Action>)
        requires
            old(self)@.flushable(now),
        ensures
            (final(self)@, action_view(r)) == old(self)@.ticked(now),
    {
        if self.anim {
            self.frame = self.frame.wrapping_add(1);
        }
        self.flush_pending(now)
    }
}

fn note(out: &mut Vec<String>, name: &str, before: &str, after: &str)
    ensures
        text::view_all(final(out)@) == text::view_all(old(out)@).push(
            change(name@, before@, after@),
        ),
{
    let line = text::cat5(name, " ", before, "→", after);
    out.push(line);
    assert(text::view_all(out@) =~= text::view_all(old(out)@).push(line@));
}

fn mode_key(key: Key) -> (r: Option<Mode>)
    ensures
        r == AppView::mode_for(key),
{
    if key == Key::Char('1') {
        Some(Mode::Auto)
    } else if key == Key::Char('2') {
        Some(Mode::Cool)
    } else if key == Key::Char('3') {
        Some(Mode::Dry)
    } else if key == Key::Char('4') {
        Some(Mode::Fan)
    } else if key == Key::Char('5') {
        Some(Mode::Heat)
    } else {
        None
    }
}

fn toggle_key(key: Key) -> (r: Option<Toggle>)
    ensures
        r == AppView::toggle_for(key),
{
    if key == Key::Char('e') {
        Some(Toggle::Eco)
    } else if key == Key::Char('d') {
        Some(Toggle::Screen)
    } else if key == Key::Char('b') {
        Some(Toggle::Beep)
    } else if key == Key::Char('g') {
        Some(Toggle::Health)
    } else if key == Key::Char('c') {
        Some(Toggle::SelfClean)
    } else if key == Key::Char('n') {
        Some(Toggle::AntiMold)
    } else if key == Key::Char('8') {
        Some(Toggle::EightHeat)
    } else {
        None
    }
}

} // verus!
