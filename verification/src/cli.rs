//! Non-interactive, scriptable command line, designed for shell scripts and
//! agents. Every command performs one action and prints a result. `--json` gives
//! machine output.

use crate::config;
use crate::device;
use crate::double;
use crate::fault;
use crate::json;
use crate::rest;
use crate::text;
use device::{AcState, Mode};
use fault::Fault;
use json::Reading;
use rest::Device;
use serde_json::Value;
use vstd::prelude::*;

verus! {

// ---------------------------------------------------------------------------
// options and commands
// ---------------------------------------------------------------------------

pub struct Opts {
    pub json: bool,
    pub wait: bool,
    pub no_cache: bool,
    pub device: Option<String>,
    pub pos: Vec<String>,
}

pub struct OptsView {
    pub json: bool,
    pub wait: bool,
    pub no_cache: bool,
    pub device: Option<Seq<char>>,
    pub pos: Seq<Seq<char>>,
}

impl View for Opts {
    type V = OptsView;

    open spec fn view(&self) -> OptsView {
        OptsView {
            json: self.json,
            wait: self.wait,
            no_cache: self.no_cache,
            device: text::view_option(self.device),
            pos: text::view_all(self.pos@),
        }
    }
}

pub open spec fn no_options() -> OptsView {
    OptsView { json: false, wait: false, no_cache: false, device: None, pos: seq![] }
}

/// What arguments add to options, from left to right. `--device` and `-D` take
/// the argument after them; the last one counts.
pub open spec fn options_with(o: OptsView, args: Seq<Seq<char>>) -> OptsView
    decreases args.len(),
{
    if args.len() == 0 {
        o
    } else if args[0] == "--json"@ {
        options_with(OptsView { json: true, ..o }, args.skip(1))
    } else if args[0] == "--wait"@ {
        options_with(OptsView { wait: true, ..o }, args.skip(1))
    } else if args[0] == "--no-cache"@ || args[0] == "--fresh"@ {
        options_with(OptsView { no_cache: true, ..o }, args.skip(1))
    } else if args[0] == "--device"@ || args[0] == "-D"@ {
        if args.len() > 1 {
            options_with(OptsView { device: Some(args[1]), ..o }, args.skip(2))
        } else {
            OptsView { device: None, ..o }
        }
    } else {
        options_with(OptsView { pos: o.pos.push(args[0]), ..o }, args.skip(1))
    }
}

pub fn parse_opts(args: &Vec<String>) -> (r: Opts)
    ensures
        r@ == options_with(no_options(), text::view_all(args@)),
{
    let ghost all = text::view_all(args@);
    let mut o = Opts {
        json: false,
        wait: false,
        no_cache: false,
        device: None,
        pos: Vec::new(),
    };
    let mut i: usize = 0;
    let n = args.len();
    assert(o@.pos =~= no_options().pos);
    assert(all.skip(0) == all);
    while i < n
        invariant
            all == text::view_all(args@),
            n == args@.len(),
            i <= n,
            options_with(o@, all.skip(i as int)) == options_with(no_options(), all),
        decreases n - i,
    {
        let a = args[i].as_str();
        proof {
            assert(all.skip(i as int)[0] == args@[i as int]@);
            assert(all.skip(i as int).skip(1) == all.skip(i + 1));
        }
        if text::same(a, "--json") {
            o.json = true;
        } else if text::same(a, "--wait") {
            o.wait = true;
        } else if text::same(a, "--no-cache") || text::same(a, "--fresh") {
            o.no_cache = true;
        } else if text::same(a, "--device") || text::same(a, "-D") {
            if i + 1 < n {
                proof {
                    assert(all.skip(i as int)[1] == args@[i + 1]@);
                    assert(all.skip(i as int).skip(2) == all.skip(i + 2));
                }
                o.device = Some(text::owned(args[i + 1].as_str()));
                i = i + 1;
            } else {
                o.device = None;
                assert(all.skip(i + 1).len() == 0);
            }
        } else {
            let ghost before = o.pos@;
            o.pos.push(text::owned(a));
            assert(text::view_all(o.pos@) =~= text::view_all(before).push(a@));
        }
        i = i + 1;
    }
    o
}

/// A command, with its arguments.
pub enum Command {
    Status,
    Get(Option<String>),
    Power(Option<String>),
    Mode(Option<String>),
    Temp(Option<String>),
    Fan(Option<String>),
    Swing { arg: Option<String>, horizontal: bool },
    Vent(Option<String>, Option<String>),
    Feature(Option<String>, Option<String>),
    Telemetry,
    Energy,
    Probe,
    List,
    Dump,
    /// No command, with the message for the user.
    Usage(String),
}

pub enum CommandView {
    Status,
    Get(Option<Seq<char>>),
    Power(Option<Seq<char>>),
    Mode(Option<Seq<char>>),
    Temp(Option<Seq<char>>),
    Fan(Option<Seq<char>>),
    Swing { arg: Option<Seq<char>>, horizontal: bool },
    Vent(Option<Seq<char>>, Option<Seq<char>>),
    Feature(Option<Seq<char>>, Option<Seq<char>>),
    Telemetry,
    Energy,
    Probe,
    List,
    Dump,
    Usage(Seq<char>),
}

impl View for Command {
    type V = CommandView;

    open spec fn view(&self) -> CommandView {
        match self {
            Command::Status => CommandView::Status,
            Command::Get(a) => CommandView::Get(text::view_option(*a)),
            Command::Power(a) => CommandView::Power(text::view_option(*a)),
            Command::Mode(a) => CommandView::Mode(text::view_option(*a)),
            Command::Temp(a) => CommandView::Temp(text::view_option(*a)),
            Command::Fan(a) => CommandView::Fan(text::view_option(*a)),
            Command::Swing { arg, horizontal } => CommandView::Swing {
                arg: text::view_option(*arg),
                horizontal: *horizontal,
            },
            Command::Vent(a, b) => CommandView::Vent(text::view_option(*a), text::view_option(*b)),
            Command::Feature(a, b) => CommandView::Feature(
                text::view_option(*a),
                text::view_option(*b),
            ),
            Command::Telemetry => CommandView::Telemetry,
            Command::Energy => CommandView::Energy,
            Command::Probe => CommandView::Probe,
            Command::List => CommandView::List,
            Command::Dump => CommandView::Dump,
            Command::Usage(m) => CommandView::Usage(m@),
        }
    }
}

/// The positional argument at a place.
pub open spec fn argument(pos: Seq<Seq<char>>, i: int) -> Option<Seq<char>> {
    if 0 <= i < pos.len() {
        Some(pos[i])
    } else {
        None
    }
}

/// The command that positional arguments name.
pub open spec fn command_of(pos: Seq<Seq<char>>) -> CommandView {
    let cmd = if pos.len() > 0 {
        pos[0]
    } else {
        ""@
    };
    let a1 = argument(pos, 1);
    let a2 = argument(pos, 2);
    if cmd == "status"@ || cmd == "state"@ {
        CommandView::Status
    } else if cmd == "get"@ {
        CommandView::Get(a1)
    } else if cmd == "on"@ {
        CommandView::Power(Some("on"@))
    } else if cmd == "off"@ {
        CommandView::Power(Some("off"@))
    } else if cmd == "power"@ {
        CommandView::Power(a1)
    } else if cmd == "mode"@ {
        CommandView::Mode(a1)
    } else if cmd == "temp"@ || cmd == "temperature"@ {
        CommandView::Temp(a1)
    } else if cmd == "fan"@ {
        CommandView::Fan(a1)
    } else if cmd == "swing"@ {
        CommandView::Swing { arg: a1, horizontal: false }
    } else if cmd == "hswing"@ {
        CommandView::Swing { arg: a1, horizontal: true }
    } else if cmd == "vent"@ || cmd == "aim"@ {
        CommandView::Vent(a1, a2)
    } else if cmd == "feature"@ || cmd == "set"@ {
        CommandView::Feature(a1, a2)
    } else if cmd == "telemetry"@ || cmd == "telem"@ {
        CommandView::Telemetry
    } else if cmd == "energy"@ || cmd == "power-usage"@ {
        CommandView::Energy
    } else if cmd == "probe"@ {
        CommandView::Probe
    } else if cmd == "list"@ {
        CommandView::List
    } else if cmd == "dump"@ {
        CommandView::Dump
    } else {
        CommandView::Usage("unknown command: "@ + cmd + "\n\nRun `tclac help` for usage."@)
    }
}

fn argument_at(pos: &Vec<String>, i: usize) -> (r: Option<String>)
    ensures
        text::view_option(r) == argument(text::view_all(pos@), i as int),
{
    if i < pos.len() {
        assert(text::view_all(pos@)[i as int] == pos@[i as int]@);
        Some(text::owned(pos[i].as_str()))
    } else {
        None
    }
}

/// Which command the options ask for.
pub fn run(o: &Opts) -> (r: Command)
    ensures
        r@ == command_of(o@.pos),
{
    let first = match argument_at(&o.pos, 0) {
        Some(s) => s,
        None => text::owned(""),
    };
    let cmd = first.as_str();
    let a1 = argument_at(&o.pos, 1);
    if text::same(cmd, "status") || text::same(cmd, "state") {
        Command::Status
    } else if text::same(cmd, "get") {
        Command::Get(a1)
    } else if text::same(cmd, "on") {
        Command::Power(Some(text::owned("on")))
    } else if text::same(cmd, "off") {
        Command::Power(Some(text::owned("off")))
    } else if text::same(cmd, "power") {
        Command::Power(a1)
    } else if text::same(cmd, "mode") {
        Command::Mode(a1)
    } else if text::same(cmd, "temp") || text::same(cmd, "temperature") {
        Command::Temp(a1)
    } else if text::same(cmd, "fan") {
        Command::Fan(a1)
    } else if text::same(cmd, "swing") {
        Command::Swing { arg: a1, horizontal: false }
    } else if text::same(cmd, "hswing") {
        Command::Swing { arg: a1, horizontal: true }
    } else if text::same(cmd, "vent") || text::same(cmd, "aim") {
        Command::Vent(a1, argument_at(&o.pos, 2))
    } else if text::same(cmd, "feature") || text::same(cmd, "set") {
        Command::Feature(a1, argument_at(&o.pos, 2))
    } else if text::same(cmd, "telemetry") || text::same(cmd, "telem") {
        Command::Telemetry
    } else if text::same(cmd, "energy") || text::same(cmd, "power-usage") {
        Command::Energy
    } else if text::same(cmd, "probe") {
        Command::Probe
    } else if text::same(cmd, "list") {
        Command::List
    } else if text::same(cmd, "dump") {
        Command::Dump
    } else {
        Command::Usage(
            text::cat3("unknown command: ", cmd, "\n\nRun `tclac help` for usage."),
        )
    }
}

// ---------------------------------------------------------------------------
// connection
// ---------------------------------------------------------------------------

/// Whether a cached session for a device serves: the cache is not switched off,
/// and no other device is asked for.
pub open spec fn cache_serves(o: OptsView, device_id: Seq<char>) -> bool {
    !o.no_cache && (o.device matches Some(w) ==> w == device_id)
}

pub fn use_cache(o: &Opts, device: &Device) -> (r: bool)
    ensures
        r == cache_serves(o@, device@.device_id),
{
    if o.no_cache {
        return false;
    }
    match &o.device {
        Some(w) => text::same(w.as_str(), device.device_id.as_str()),
        None => true,
    }
}

/// The device that is asked for: by option, or else by the settings.
pub open spec fn wanted_id(o: OptsView, cfg: config::ConfigView) -> Option<Seq<char>> {
    match o.device {
        Some(d) => Some(d),
        None => cfg.device_id,
    }
}

pub fn wanted(o: &Opts, cfg: &config::Config) -> (r: Option<String>)
    ensures
        text::view_option(r) == wanted_id(o@, cfg@),
{
    match &o.device {
        Some(d) => Some(text::owned(d.as_str())),
        None => text::owned_option(&cfg.device_id),
    }
}

/// The device of an account for a command: the one with the wanted id, or the
/// first where none is wanted. An empty id wants none.
pub open spec fn selected(devices: Seq<rest::DeviceView>, want: Option<Seq<char>>) -> Result<
    int,
    fault::FaultView,
> {
    match rest::asked_id(want) {
        Some(id) => match rest::place_of(devices, id) {
            Some(i) => Ok(i),
            None => Err(fault::plain("device `"@ + id + "` not found on account"@)),
        },
        None => if devices.len() > 0 {
            Ok(0)
        } else {
            Err(fault::plain("no devices on account"@))
        },
    }
}

pub fn select(devices: &Vec<Device>, want: &Option<String>) -> (r: Result<usize, Fault>)
    ensures
        match selected(rest::device_views(devices@), text::view_option(*want)) {
            Ok(i) => r == Ok::<usize, Fault>(i as usize) && 0 <= i < devices@.len(),
            Err(f) => r matches Err(g) && g@ == f,
        },
{
    match rest::ask_id(want) {
        Some(id) => match rest::find_device(devices, id) {
            Some(i) => Ok(i),
            None => Err(Fault::Plain(text::cat3("device `", id, "` not found on account"))),
        },
        None => if devices.len() > 0 {
            Ok(0)
        } else {
            Err(Fault::plain("no devices on account"))
        },
    }
}

/// What to do after a cloud call.
#[derive(Debug, Clone, Copy, PartialEq, Eq, Structural)]
pub enum Recovery {
    /// It worked.
    Use,
    /// The creds may have gone stale: drop the cache, log in fresh, try again.
    Relogin,
    GiveUp,
}

/// A call that fails is tried once more, after a fresh login.
pub open spec fn recovery_of(worked: bool, tries: nat) -> Recovery {
    if worked {
        Recovery::Use
    } else if tries == 1 {
        Recovery::Relogin
    } else {
        Recovery::GiveUp
    }
}

pub fn recover(worked: bool, tries: u8) -> (r: Recovery)
    ensures
        r == recovery_of(worked, tries as nat),
{
    if worked {
        Recovery::Use
    } else if tries == 1 {
        Recovery::Relogin
    } else {
        Recovery::GiveUp
    }
}

/// The state in a shadow of a device.
pub fn read_state(shadow: &Value, device: &Device) -> (r: AcState)
    ensures
        r.reads(json::json_of(*shadow)),
        r.online == device@.is_online,
        r.fan.valid(),
{
    let mut st = AcState::from_shadow(shadow);
    st.online = device.is_online;
    st
}

// ---------------------------------------------------------------------------
// words and numbers
// ---------------------------------------------------------------------------

pub open spec fn on_off(b: bool) -> Seq<char> {
    if b {
        "on"@
    } else {
        "off"@
    }
}

pub fn onoff(b: bool) -> (r: &'static str)
    ensures
        r@ == on_off(b),
{
    if b {
        "on"
    } else {
        "off"
    }
}

/// What a word says of a switch, in any mix of upper and lower case.
pub open spec fn switch_of(s: Seq<char>) -> Option<bool> {
    let w = text::lower(s);
    if w == "on"@ || w == "1"@ || w == "true"@ || w == "yes"@ {
        Some(true)
    } else if w == "off"@ || w == "0"@ || w == "false"@ || w == "no"@ {
        Some(false)
    } else {
        None
    }
}

pub fn parse_bool(s: &str) -> (r: Option<bool>)
    ensures
        r == switch_of(s@),
{
    let low = text::ascii_lower(s);
    let w = low.as_str();
    if text::one_of(w, "on", "1", "true", "yes") {
        Some(true)
    } else if text::one_of(w, "off", "0", "false", "no") {
        Some(false)
    } else {
        None
    }
}

/// The field that a feature name stands for, in any mix of upper and lower case.
pub open spec fn field_of(name: Seq<char>) -> Option<Seq<char>> {
    let w = text::lower(name);
    if w == "eco"@ {
        Some("ECO"@)
    } else if w == "health"@ || w == "healthy"@ {
        Some("healthy"@)
    } else if w == "screen"@ || w == "display"@ {
        Some("screen"@)
    } else if w == "beep"@ {
        Some("beepSwitch"@)
    } else if w == "selfclean"@ || w == "self-clean"@ || w == "self_clean"@ {
        Some("selfClean"@)
    } else if w == "antimold"@ || w == "anti-mold"@ || w == "anti_mold"@ {
        Some("antiMoldew"@)
    } else if w == "eightheat"@ || w == "8heat"@ || w == "8c-heat"@ || w == "eight_heat"@ {
        Some("eightAddHot"@)
    } else {
        None
    }
}

pub fn feature_field(name: &str) -> (r: Option<&'static str>)
    ensures
        (match r {
            Some(s) => Some(s@),
            None => None,
        }) == field_of(name@),
{
    let low = text::ascii_lower(name);
    let w = low.as_str();
    if text::same(w, "eco") {
        Some("ECO")
    } else if text::same(w, "health") || text::same(w, "healthy") {
        Some("healthy")
    } else if text::same(w, "screen") || text::same(w, "display") {
        Some("screen")
    } else if text::same(w, "beep") {
        Some("beepSwitch")
    } else if text::same(w, "selfclean") || text::same(w, "self-clean") || text::same(
        w,
        "self_clean",
    ) {
        Some("selfClean")
    } else if text::same(w, "antimold") || text::same(w, "anti-mold") || text::same(
        w,
        "anti_mold",
    ) {
        Some("antiMoldew")
    } else if text::one_of(w, "eightheat", "8heat", "8c-heat", "eight_heat") {
        Some("eightAddHot")
    } else {
        None
    }
}

pub fn dash() -> (r: String)
    ensures
        r@ == "-"@,
{
    text::owned("-")
}

/// A double without decimals where it is near a whole number, else with one; a
/// dash where there is none.
pub open spec fn short_number(v: Option<u64>) -> Seq<char> {
    match v {
        Some(b) => if double::near_whole(b) {
            double::fixed_text(b, 0)
        } else {
            double::fixed_text(b, 1)
        },
        None => "-"@,
    }
}

pub fn fmt_num(v: &Option<Reading>) -> (r: String)
    ensures
        r@ == short_number(json::reading_bits(*v)),
{
    match v {
        Some(x) => {
            let b = x.bits();
            if double::is_near_whole(b) {
                double::fixed(b, 0)
            } else {
                double::fixed(b, 1)
            }
        },
        None => dash(),
    }
}

/// An integer, or a dash.
pub open spec fn number_or_dash(n: Option<i64>) -> Seq<char> {
    match n {
        Some(x) => text::dec_int(x as int),
        None => "-"@,
    }
}

pub fn fmt_int(n: Option<i64>) -> (r: String)
    ensures
        r@ == number_or_dash(n),
{
    match n {
        Some(x) => text::dec_i64(x),
        None => dash(),
    }
}

/// A work time in minutes as "Xh Ym".
pub open spec fn worktime_text(minutes: int) -> Seq<char> {
    if minutes <= 0 {
        "0"@
    } else if minutes >= 60 {
        text::dec((minutes / 60) as nat) + "h "@ + text::dec((minutes % 60) as nat) + "m"@
    } else {
        text::dec(minutes as nat) + "m"@
    }
}

/// Format a work-time value (TCL reports minutes) as "Xh Ym".
pub fn fmt_worktime(minutes: i64) -> (r: String)
    ensures
        r@ == worktime_text(minutes as int),
{
    if minutes <= 0 {
        return text::owned("0");
    }
    let h = text::dec_u64((minutes / 60) as u64);
    let m = text::dec_u64((minutes % 60) as u64);
    if minutes >= 60 {
        text::cat4(h.as_str(), "h ", m.as_str(), "m")
    } else {
        text::cat2(m.as_str(), "m")
    }
}

// ---------------------------------------------------------------------------
// one field
// ---------------------------------------------------------------------------

/// The field that `get` is asked for.
pub fn get_field(arg: Option<String>) -> (r: Result<String, Fault>)
    ensures
        fault::outcome(r) == (match arg {
            Some(s) => Ok(s@),
            None => Err(fault::plain("usage: tclac get <field>"@)),
        }),
{
    match arg {
        Some(s) => Ok(s),
        None => Err(Fault::plain("usage: tclac get <field>")),
    }
}

/// The temperature of a field name, in lower case.
pub open spec fn temperature_field(s: AcState, w: Seq<char>) -> Option<Option<u64>> {
    if w == "target"@ || w == "target_c"@ {
        Some(json::reading_bits(s.target_temp))
    } else if w == "current"@ || w == "current_c"@ || w == "temp"@ {
        Some(json::reading_bits(s.current_temp))
    } else if w == "outdoor"@ || w == "outdoor_c"@ {
        Some(json::reading_bits(s.external_temp))
    } else if w == "coil"@ || w == "coil_c"@ {
        Some(json::reading_bits(s.coil_temp))
    } else {
        None
    }
}

/// The switch of a field name, in lower case.
pub open spec fn switch_field(s: AcState, w: Seq<char>) -> Option<bool> {
    if w == "power"@ {
        Some(s.power)
    } else if w == "swing"@ || w == "vswing"@ || w == "v_swing"@ {
        Some(1 <= s.v_dir <= 3)
    } else if w == "hswing"@ || w == "h_swing"@ {
        Some(1 <= s.h_dir <= 4)
    } else if w == "eco"@ {
        Some(s.eco)
    } else if w == "healthy"@ || w == "health"@ {
        Some(s.healthy)
    } else if w == "screen"@ {
        Some(s.screen)
    } else if w == "beep"@ {
        Some(s.beep)
    } else if w == "self_clean"@ || w == "selfclean"@ {
        Some(s.self_clean)
    } else if w == "anti_mold"@ || w == "antimold"@ {
        Some(s.anti_mold)
    } else if w == "eight_heat"@ || w == "eightheat"@ {
        Some(s.eight_heat)
    } else {
        None
    }
}

/// Another field by its name, in lower case.
pub open spec fn other_field(s: AcState, w: Seq<char>) -> Option<Seq<char>> {
    if w == "mode"@ {
        Some(
            match Mode::of_code(s.work_mode as int) {
                Some(m) => m.keyword(),
                None => s.mode_name(),
            },
        )
    } else if w == "target_f"@ {
        Some(number_or_dash(s.target_f))
    } else if w == "fan"@ {
        Some(s.fan.keyword())
    } else if w == "fan_gear"@ {
        Some(text::dec(s.fan.level() as nat))
    } else if w == "wind_pct"@ {
        Some(number_or_dash(s.wind_pct))
    } else if w == "online"@ {
        Some(
            if s.online {
                "true"@
            } else {
                "false"@
            },
        )
    } else if w == "sleep"@ {
        Some(text::dec_int(s.sleep as int))
    } else {
        None
    }
}

/// What `get` prints of a state.
pub open spec fn field_text(s: AcState, field: Seq<char>) -> Result<Seq<char>, fault::FaultView> {
    let w = text::lower(field);
    match switch_field(s, w) {
        Some(b) => Ok(on_off(b)),
        None => match temperature_field(s, w) {
            Some(t) => Ok(short_number(t)),
            None => match other_field(s, w) {
                Some(t) => Ok(t),
                None => Err(
                    fault::plain(
                        "unknown field `"@ + w
                            + "` (try: power mode target current fan swing online eco …)"@,
                    ),
                ),
            },
        },
    }
}

fn find_switch(s: &AcState, w: &str) -> (r: Option<bool>)
    ensures
        r == switch_field(*s, w@),
{
    if text::same(w, "power") {
        Some(s.power)
    } else if text::same(w, "swing") || text::same(w, "vswing") || text::same(w, "v_swing") {
        Some(s.v_swinging())
    } else if text::same(w, "hswing") || text::same(w, "h_swing") {
        Some(s.h_swinging())
    } else if text::same(w, "eco") {
        Some(s.eco)
    } else if text::same(w, "healthy") || text::same(w, "health") {
        Some(s.healthy)
    } else if text::same(w, "screen") {
        Some(s.screen)
    } else if text::same(w, "beep") {
        Some(s.beep)
    } else if text::same(w, "self_clean") || text::same(w, "selfclean") {
        Some(s.self_clean)
    } else if text::same(w, "anti_mold") || text::same(w, "antimold") {
        Some(s.anti_mold)
    } else if text::same(w, "eight_heat") || text::same(w, "eightheat") {
        Some(s.eight_heat)
    } else {
        None
    }
}

fn find_temperature(s: &AcState, w: &str) -> (r: Option<String>)
    ensures
        text::view_option(r) == (match temperature_field(*s, w@) {
            Some(t) => Some(short_number(t)),
            None => None,
        }),
{
    if text::same(w, "target") || text::same(w, "target_c") {
        Some(fmt_num(&s.target_temp))
    } else if text::same(w, "current") || text::same(w, "current_c") || text::same(w, "temp") {
        Some(fmt_num(&s.current_temp))
    } else if text::same(w, "outdoor") || text::same(w, "outdoor_c") {
        Some(fmt_num(&s.external_temp))
    } else if text::same(w, "coil") || text::same(w, "coil_c") {
        Some(fmt_num(&s.coil_temp))
    } else {
        None
    }
}

fn find_other(s: &AcState, w: &str) -> (r: Option<String>)
    ensures
        text::view_option(r) == other_field(*s, w@),
{
    if text::same(w, "mode") {
        Some(
            match s.mode() {
                Some(m) => text::owned(m.key()),
                None => s.mode_label(),
            },
        )
    } else if text::same(w, "target_f") {
        Some(fmt_int(s.target_f))
    } else if text::same(w, "fan") {
        Some(s.fan.key())
    } else if text::same(w, "fan_gear") {
        Some(text::dec_u64(s.fan.gear_level() as u64))
    } else if text::same(w, "wind_pct") {
        Some(fmt_int(s.wind_pct))
    } else if text::same(w, "online") {
        Some(
            if s.online {
                text::owned("true")
            } else {
                text::owned("false")
            },
        )
    } else if text::same(w, "sleep") {
        Some(text::dec_i64(s.sleep))
    } else {
        None
    }
}

/// Prints one field of a state.
pub fn cmd_get(s: &AcState, field: &str) -> (r: Result<String, Fault>)
    ensures
        fault::outcome(r) == field_text(*s, field@),
{
    let low = text::ascii_lower(field);
    let w = low.as_str();
    if let Some(b) = find_switch(s, w) {
        return Ok(text::owned(onoff(b)));
    }
    if let Some(t) = find_temperature(s, w) {
        return Ok(t);
    }
    match find_other(s, w) {
        Some(t) => Ok(t),
        None => Err(
            Fault::Plain(
                text::cat3(
                    "unknown field `",
                    w,
                    "` (try: power mode target current fan swing online eco …)",
                ),
            ),
        ),
    }
}

} // verus!
