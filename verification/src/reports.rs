//! What the commands print: states, device lists, telemetry and energy, as lines
//! of text or as JSON.

use crate::cli;
use crate::device;
use crate::double;
use crate::fault;
use crate::json;
use crate::readouts;
use crate::rest;
use crate::text;
use device::AcState;
use fault::Fault;
use json::Reading;
use rest::Device;
use serde_json::Value;
use vstd::prelude::*;

verus! {

// ---------------------------------------------------------------------------
// lines
// ---------------------------------------------------------------------------

/// Lines to print.
pub struct Output {
    pub lines: Vec<String>,
}

impl View for Output {
    type V = Seq<Seq<char>>;

    open spec fn view(&self) -> Seq<Seq<char>> {
        text::view_all(self.lines@)
    }
}

impl Output {
    pub fn new() -> (r: Output)
        ensures
            r@ == Seq::<Seq<char>>::empty(),
    {
        let r = Output { lines: Vec::new() };
        assert(r@ =~= Seq::<Seq<char>>::empty());
        r
    }

    pub fn push(&mut self, line: &str)
        ensures
            final(self)@ == old(self)@.push(line@),
    {
        self.lines.push(text::owned(line));
        assert(self@ =~= old(self)@.push(line@));
    }

    /// A line of two pieces.
    fn push2(&mut self, a: &str, b: &str)
        ensures
            final(self)@ == old(self)@.push(a@ + b@),
    {
        let line = text::cat2(a, b);
        self.push(line.as_str());
    }

    /// A line of three pieces.
    fn push3(&mut self, a: &str, b: &str, c: &str)
        ensures
            final(self)@ == old(self)@.push(a@ + b@ + c@),
    {
        let line = text::cat3(a, b, c);
        self.push(line.as_str());
    }
}

/// The one line of a document.
pub open spec fn json_line(j: json::Json) -> Seq<Seq<char>> {
    seq![json::json_text(j)]
}

fn print_json(v: &Value) -> (r: Output)
    ensures
        r@ == json_line(json::json_of(*v)),
{
    let whole = json::print(v);
    let mut out = Output::new();
    out.push(whole.as_str());
    out
}

// ---------------------------------------------------------------------------
// state
// ---------------------------------------------------------------------------

pub open spec fn state_members(s: AcState, d: rest::DeviceView) -> Map<Seq<char>, json::Json> {
    json::no_members().insert("device_id"@, json::Json::Text(d.device_id)).insert(
        "name"@,
        json::Json::Text(d.shown_name()),
    ).insert("device_type"@, json::Json::Text(d.device_name)).insert(
        "online"@,
        json::Json::Bool(d.is_online),
    ).insert("power"@, json::Json::Bool(s.power)).insert(
        "mode"@,
        match device::Mode::of_code(s.work_mode as int) {
            Some(m) => json::Json::Text(m.keyword()),
            None => json::Json::Null,
        },
    ).insert("work_mode"@, json::whole(s.work_mode as int)).insert(
        "target_c"@,
        json::reading_json(json::reading_bits(s.target_temp)),
    ).insert("target_f"@, json::int_or_null(s.target_f)).insert(
        "current_c"@,
        json::reading_json(json::reading_bits(s.current_temp)),
    ).insert("outdoor_c"@, json::reading_json(json::reading_bits(s.external_temp))).insert(
        "coil_c"@,
        json::reading_json(json::reading_bits(s.coil_temp)),
    ).insert("compressor_hz"@, json::int_or_null(s.compressor_hz)).insert(
        "fan"@,
        json::Json::Text(s.fan.keyword()),
    ).insert("fan_gear"@, json::whole(s.fan.level() as int)).insert(
        "wind_pct"@,
        json::int_or_null(s.wind_pct),
    ).insert("v_swing"@, json::Json::Bool(1 <= s.v_dir <= 3)).insert(
        "h_swing"@,
        json::Json::Bool(1 <= s.h_dir <= 4),
    ).insert("v_dir"@, json::whole(s.v_dir as int)).insert(
        "h_dir"@,
        json::whole(s.h_dir as int),
    ).insert("eco"@, json::Json::Bool(s.eco)).insert("sleep"@, json::whole(s.sleep as int)).insert(
        "healthy"@,
        json::Json::Bool(s.healthy),
    ).insert("screen"@, json::Json::Bool(s.screen)).insert("beep"@, json::Json::Bool(s.beep)).insert(
        "self_clean"@,
        json::Json::Bool(s.self_clean),
    ).insert("anti_mold"@, json::Json::Bool(s.anti_mold)).insert(
        "eight_heat"@,
        json::Json::Bool(s.eight_heat),
    ).insert("temp_min"@, json::whole(s.t_min as int)).insert(
        "temp_max"@,
        json::whole(s.t_max as int),
    ).insert("shadow_version"@, json::whole(s.shadow_version as int))
}

/// A state as JSON.
pub fn state_json(s: &AcState, dev: &Device) -> (r: Value)
    ensures
        json::json_of(r) == json::Json::Object(state_members(*s, dev@)),
{
    let mut m = json::members();
    json::put(&mut m, "device_id", json::from_text(dev.device_id.as_str()));
    json::put(&mut m, "name", json::from_text(rest::display_name(dev)));
    json::put(&mut m, "device_type", json::from_text(dev.device_name.as_str()));
    json::put(&mut m, "online", json::from_bool(dev.is_online));
    json::put(&mut m, "power", json::from_bool(s.power));
    let mode = match s.mode() {
        Some(x) => json::from_text(x.key()),
        None => json::null(),
    };
    json::put(&mut m, "mode", mode);
    json::put(&mut m, "work_mode", json::from_int(s.work_mode));
    json::put(&mut m, "target_c", json::from_reading_option(&s.target_temp));
    json::put(&mut m, "target_f", json::from_int_option(s.target_f));
    json::put(&mut m, "current_c", json::from_reading_option(&s.current_temp));
    json::put(&mut m, "outdoor_c", json::from_reading_option(&s.external_temp));
    json::put(&mut m, "coil_c", json::from_reading_option(&s.coil_temp));
    json::put(&mut m, "compressor_hz", json::from_int_option(s.compressor_hz));
    let fan = s.fan.key();
    json::put(&mut m, "fan", json::from_text(fan.as_str()));
    json::put(&mut m, "fan_gear", json::from_int(s.fan.gear_level() as i64));
    json::put(&mut m, "wind_pct", json::from_int_option(s.wind_pct));
    json::put(&mut m, "v_swing", json::from_bool(s.v_swinging()));
    json::put(&mut m, "h_swing", json::from_bool(s.h_swinging()));
    json::put(&mut m, "v_dir", json::from_int(s.v_dir));
    json::put(&mut m, "h_dir", json::from_int(s.h_dir));
    json::put(&mut m, "eco", json::from_bool(s.eco));
    json::put(&mut m, "sleep", json::from_int(s.sleep));
    json::put(&mut m, "healthy", json::from_bool(s.healthy));
    json::put(&mut m, "screen", json::from_bool(s.screen));
    json::put(&mut m, "beep", json::from_bool(s.beep));
    json::put(&mut m, "self_clean", json::from_bool(s.self_clean));
    json::put(&mut m, "anti_mold", json::from_bool(s.anti_mold));
    json::put(&mut m, "eight_heat", json::from_bool(s.eight_heat));
    json::put(&mut m, "temp_min", json::from_int(s.t_min));
    json::put(&mut m, "temp_max", json::from_int(s.t_max));
    json::put(&mut m, "shadow_version", json::from_int(s.shadow_version));
    json::object(m)
}

pub open spec fn online_word(online: bool) -> Seq<char> {
    if online {
        "online"@
    } else {
        "offline"@
    }
}

fn online_text(online: bool) -> (r: &'static str)
    ensures
        r@ == online_word(online),
{
    if online {
        "online"
    } else {
        "offline"
    }
}

pub open spec fn with_if(s: Seq<Seq<char>>, on: bool, name: Seq<char>) -> Seq<Seq<char>> {
    if on {
        s.push(name)
    } else {
        s
    }
}

/// The names of the features that are on.
pub open spec fn features_on(s: AcState) -> Seq<Seq<char>> {
    let f0 = Seq::<Seq<char>>::empty();
    let f1 = with_if(f0, s.eco, "eco"@);
    let f2 = with_if(f1, s.healthy, "health"@);
    let f3 = with_if(f2, s.screen, "screen"@);
    let f4 = with_if(f3, s.beep, "beep"@);
    let f5 = with_if(f4, s.self_clean, "self-clean"@);
    let f6 = with_if(f5, s.anti_mold, "anti-mold"@);
    with_if(f6, s.eight_heat, "8C-heat"@)
}

fn note_if(out: &mut Output, on: bool, name: &str)
    ensures
        final(out)@ == with_if(old(out)@, on, name@),
{
    if on {
        out.push(name);
    }
}

pub open spec fn features_text(s: AcState) -> Seq<char> {
    if features_on(s).len() == 0 {
        "none"@
    } else {
        text::joined(features_on(s), ", "@)
    }
}

fn features(s: &AcState) -> (r: String)
    ensures
        r@ == features_text(*s),
{
    let mut on = Output::new();
    note_if(&mut on, s.eco, "eco");
    note_if(&mut on, s.healthy, "health");
    note_if(&mut on, s.screen, "screen");
    note_if(&mut on, s.beep, "beep");
    note_if(&mut on, s.self_clean, "self-clean");
    note_if(&mut on, s.anti_mold, "anti-mold");
    note_if(&mut on, s.eight_heat, "8C-heat");
    assert(on@.len() == on.lines@.len());
    if on.lines.len() == 0 {
        text::owned("none")
    } else {
        text::join(&on.lines, ", ")
    }
}

pub open spec fn number_or_zero(n: Option<i64>) -> Seq<char> {
    text::dec_int(
        match n {
            Some(x) => x as int,
            None => 0,
        },
    )
}

fn zero_if_none(n: Option<i64>) -> (r: String)
    ensures
        r@ == number_or_zero(n),
{
    text::dec_i64(
        match n {
            Some(x) => x,
            None => 0,
        },
    )
}

/// A state for people.
pub open spec fn human_lines(s: AcState, d: rest::DeviceView) -> Seq<Seq<char>> {
    seq![
        d.shown_name() + " ["@ + d.device_name + "]  "@ + online_word(d.is_online),
        "  power    "@ + cli::on_off(s.power),
        "  mode     "@ + s.mode_name() + " (workMode="@ + text::dec_int(s.work_mode as int) + ")"@,
        "  target   "@ + cli::short_number(json::reading_bits(s.target_temp)) + "C"@ + (
        match s.target_f {
            Some(f) => " / "@ + text::dec_int(f as int) + "F"@,
            None => ""@,
        }),
        "  current  "@ + cli::short_number(json::reading_bits(s.current_temp)) + "C"@,
        "  fan      "@ + s.fan.name() + " (gear "@ + text::dec(s.fan.level() as nat) + ")"@,
        "  swing    V:"@ + cli::on_off(1 <= s.v_dir <= 3) + "  H:"@ + cli::on_off(
            1 <= s.h_dir <= 4,
        ),
        "  sensors  outdoor "@ + cli::short_number(json::reading_bits(s.external_temp))
            + "C · coil "@ + cli::short_number(json::reading_bits(s.coil_temp))
            + "C · compressor "@ + number_or_zero(s.compressor_hz) + " Hz · wind "@
            + number_or_zero(s.wind_pct) + "%"@,
        "  features "@ + features_text(s) + "  (sleep "@ + text::dec_int(s.sleep as int) + ")"@,
    ]
}

fn sensors_line(s: &AcState) -> (r: String)
    ensures
        r@ == "  sensors  outdoor "@ + cli::short_number(json::reading_bits(s.external_temp))
            + "C · coil "@ + cli::short_number(json::reading_bits(s.coil_temp))
            + "C · compressor "@ + number_or_zero(s.compressor_hz) + " Hz · wind "@
            + number_or_zero(s.wind_pct) + "%"@,
{
    let outdoor = cli::fmt_num(&s.external_temp);
    let coil = cli::fmt_num(&s.coil_temp);
    let hz = zero_if_none(s.compressor_hz);
    let wind = zero_if_none(s.wind_pct);
    let temps = text::cat5(
        "  sensors  outdoor ",
        outdoor.as_str(),
        "C · coil ",
        coil.as_str(),
        "C · compressor ",
    );
    text::cat5(temps.as_str(), hz.as_str(), " Hz · wind ", wind.as_str(), "%")
}

pub fn print_human(s: &AcState, dev: &Device) -> (r: Output)
    ensures
        r@ == human_lines(*s, dev@),
{
    let mut out = Output::new();
    let head = text::cat5(
        rest::display_name(dev),
        " [",
        dev.device_name.as_str(),
        "]  ",
        online_text(dev.is_online),
    );
    out.push(head.as_str());
    out.push2("  power    ", cli::onoff(s.power));
    let mode = s.mode_label();
    let number = text::dec_i64(s.work_mode);
    let told = text::cat5("  mode     ", mode.as_str(), " (workMode=", number.as_str(), ")");
    out.push(told.as_str());
    let target = cli::fmt_num(&s.target_temp);
    let mirror = match s.target_f {
        Some(f) => {
            let n = text::dec_i64(f);
            text::cat3(" / ", n.as_str(), "F")
        },
        None => text::owned(""),
    };
    let aimed = text::cat4("  target   ", target.as_str(), "C", mirror.as_str());
    out.push(aimed.as_str());
    let current = cli::fmt_num(&s.current_temp);
    out.push3("  current  ", current.as_str(), "C");
    let fan = s.fan.label();
    let gear = text::dec_u64(s.fan.gear_level() as u64);
    let speed = text::cat5("  fan      ", fan.as_str(), " (gear ", gear.as_str(), ")");
    out.push(speed.as_str());
    let swing = text::cat4(
        "  swing    V:",
        cli::onoff(s.v_swinging()),
        "  H:",
        cli::onoff(s.h_swinging()),
    );
    out.push(swing.as_str());
    let sensors = sensors_line(s);
    out.push(sensors.as_str());
    let on = features(s);
    let sleep = text::dec_i64(s.sleep);
    let last = text::cat5("  features ", on.as_str(), "  (sleep ", sleep.as_str(), ")");
    out.push(last.as_str());
    out
}

/// What `status` prints.
pub open spec fn status_lines(json: bool, s: AcState, d: rest::DeviceView) -> Seq<Seq<char>> {
    if json {
        json_line(json::Json::Object(state_members(s, d)))
    } else {
        human_lines(s, d)
    }
}

pub fn cmd_status(json: bool, s: &AcState, dev: &Device) -> (r: Output)
    ensures
        r@ == status_lines(json, *s, dev@),
{
    if json {
        let v = state_json(s, dev);
        print_json(&v)
    } else {
        print_human(s, dev)
    }
}

// ---------------------------------------------------------------------------
// the result of a set command
// ---------------------------------------------------------------------------

/// A sent command as JSON: that it went well, what was done, what was sent, and
/// to which device.
pub open spec fn sent_members(
    action: Seq<char>,
    desired: json::Json,
    device_id: Seq<char>,
) -> Map<Seq<char>, json::Json> {
    json::no_members().insert("ok"@, json::Json::Bool(true)).insert(
        "action"@,
        json::Json::Text(action),
    ).insert("sent"@, desired).insert("device_id"@, json::Json::Text(device_id))
}

fn sent(action: &str, desired: &Value, dev: &Device) -> (r: serde_json::Map<String, Value>)
    ensures
        json::members_of(r) == sent_members(action@, json::json_of(*desired), dev@.device_id),
{
    let mut m = json::members();
    json::put(&mut m, "ok", json::from_bool(true));
    json::put(&mut m, "action", json::from_text(action));
    json::put(&mut m, "sent", json::copy(desired));
    json::put(&mut m, "device_id", json::from_text(dev.device_id.as_str()));
    m
}

/// What a set command prints without waiting.
pub open spec fn done_lines(
    json: bool,
    action: Seq<char>,
    desired: json::Json,
    d: rest::DeviceView,
) -> Seq<Seq<char>> {
    if json {
        json_line(json::Json::Object(sent_members(action, desired, d.device_id)))
    } else {
        seq!["ok: "@ + action]
    }
}

pub fn done(json: bool, action: &str, desired: &Value, dev: &Device) -> (r: Output)
    ensures
        r@ == done_lines(json, action@, json::json_of(*desired), dev@),
{
    if json {
        let v = json::object(sent(action, desired, dev));
        print_json(&v)
    } else {
        let mut out = Output::new();
        out.push2("ok: ", action);
        out
    }
}

/// What a set command prints with the state that was read back.
pub open spec fn waited_lines(
    json: bool,
    action: Seq<char>,
    desired: json::Json,
    st: AcState,
    d: rest::DeviceView,
) -> Seq<Seq<char>> {
    if json {
        json_line(
            json::Json::Object(
                sent_members(action, desired, d.device_id).insert(
                    "state"@,
                    json::Json::Object(state_members(st, d)),
                ),
            ),
        )
    } else {
        seq!["ok: "@ + action] + human_lines(st, d)
    }
}

pub fn done_waiting(json: bool, action: &str, desired: &Value, st: &AcState, dev: &Device) -> (r:
    Output)
    ensures
        r@ == waited_lines(json, action@, json::json_of(*desired), *st, dev@),
{
    if json {
        let mut m = sent(action, desired, dev);
        json::put(&mut m, "state", state_json(st, dev));
        let v = json::object(m);
        return print_json(&v);
    }
    let mut out = Output::new();
    out.push2("ok: ", action);
    let human = print_human(st, dev);
    append(&mut out, &human);
    out
}

fn append(out: &mut Output, more: &Output)
    ensures
        final(out)@ == old(out)@ + more@,
{
    let ghost start = out@;
    let mut i: usize = 0;
    assert(start + more@.take(0) =~= start);
    while i < more.lines.len()
        invariant
            i <= more.lines@.len(),
            out@ == start + more@.take(i as int),
        decreases more.lines@.len() - i,
    {
        out.push(more.lines[i].as_str());
        proof {
            assert(more@[i as int] == more.lines@[i as int]@);
            assert(more@.take(i + 1) =~= more@.take(i as int).push(more@[i as int]));
            assert(start + more@.take(i + 1) =~= (start + more@.take(i as int)).push(
                more@[i as int],
            ));
        }
        i = i + 1;
    }
    assert(more@.take(more@.len() as int) =~= more@);
}

// ---------------------------------------------------------------------------
// list and dump
// ---------------------------------------------------------------------------

pub open spec fn device_json(d: rest::DeviceView) -> json::Json {
    json::Json::Object(
        json::no_members().insert("device_id"@, json::Json::Text(d.device_id)).insert(
            "name"@,
            json::Json::Text(d.shown_name()),
        ).insert("device_type"@, json::Json::Text(d.device_name)).insert(
            "online"@,
            json::Json::Bool(d.is_online),
        ).insert("firmware"@, json::Json::Text(d.firmware_version)),
    )
}

pub open spec fn device_line(d: rest::DeviceView) -> Seq<char> {
    d.device_id + "  ["@ + d.device_name + "]  "@ + online_word(d.is_online) + "  "@
        + d.shown_name()
}

/// What `list` prints.
pub open spec fn list_lines(json: bool, devices: Seq<rest::DeviceView>) -> Seq<Seq<char>> {
    if json {
        json_line(
            json::Json::Array(devices.map_values(|d: rest::DeviceView| device_json(d))),
        )
    } else if devices.len() == 0 {
        seq!["No devices found."@]
    } else {
        devices.map_values(|d: rest::DeviceView| device_line(d))
    }
}

fn device_value(d: &Device) -> (r: Value)
    ensures
        json::json_of(r) == device_json(d@),
{
    let mut m = json::members();
    json::put(&mut m, "device_id", json::from_text(d.device_id.as_str()));
    json::put(&mut m, "name", json::from_text(rest::display_name(d)));
    json::put(&mut m, "device_type", json::from_text(d.device_name.as_str()));
    json::put(&mut m, "online", json::from_bool(d.is_online));
    json::put(&mut m, "firmware", json::from_text(d.firmware_version.as_str()));
    json::object(m)
}

fn device_row(d: &Device) -> (r: String)
    ensures
        r@ == device_line(d@),
{
    let start = text::cat4(d.device_id.as_str(), "  [", d.device_name.as_str(), "]  ");
    text::cat4(start.as_str(), online_text(d.is_online), "  ", rest::display_name(d))
}

fn device_array(devices: &Vec<Device>) -> (r: Value)
    ensures
        json::json_of(r) == json::Json::Array(
            rest::device_views(devices@).map_values(|d: rest::DeviceView| device_json(d)),
        ),
{
    let ghost all = rest::device_views(devices@).map_values(
        |d: rest::DeviceView| device_json(d),
    );
    let mut list: Vec<Value> = Vec::new();
    let mut i: usize = 0;
    assert(json::json_all(list@) =~= all.take(0));
    while i < devices.len()
        invariant
            all == rest::device_views(devices@).map_values(
                |d: rest::DeviceView| device_json(d),
            ),
            i <= devices@.len(),
            json::json_all(list@) == all.take(i as int),
        decreases devices@.len() - i,
    {
        let ghost before = list@;
        list.push(device_value(&devices[i]));
        assert(json::json_all(list@) =~= json::json_all(before).push(all[i as int]));
        assert(all.take(i + 1) =~= all.take(i as int).push(all[i as int]));
        i = i + 1;
    }
    assert(all.take(all.len() as int) =~= all);
    json::from_list(list)
}

pub fn cmd_list(json: bool, devices: &Vec<Device>) -> (r: Output)
    ensures
        r@ == list_lines(json, rest::device_views(devices@)),
{
    if json {
        let v = device_array(devices);
        return print_json(&v);
    }
    let mut out = Output::new();
    if devices.len() == 0 {
        out.push("No devices found.");
        return out;
    }
    let ghost all = rest::device_views(devices@).map_values(
        |d: rest::DeviceView| device_line(d),
    );
    let mut i: usize = 0;
    assert(out@ =~= all.take(0));
    while i < devices.len()
        invariant
            all == rest::device_views(devices@).map_values(
                |d: rest::DeviceView| device_line(d),
            ),
            i <= devices@.len(),
            out@ == all.take(i as int),
        decreases devices@.len() - i,
    {
        let line = device_row(&devices[i]);
        out.push(line.as_str());
        assert(all.take(i + 1) =~= all.take(i as int).push(all[i as int]));
        i = i + 1;
    }
    assert(all.take(all.len() as int) =~= all);
    out
}

/// What `dump` prints: the shadow document, indented.
pub fn cmd_dump(shadow: &Value) -> (r: Result<String, Fault>)
    ensures
        r is Ok,
        r matches Ok(s) ==> s@ == json::json_pretty(json::json_of(*shadow)),
{
    match json::print_pretty(shadow) {
        Ok(s) => Ok(s),
        Err(e) => Err(Fault::Json(e)),
    }
}

// ---------------------------------------------------------------------------
// telemetry (live readings straight from the shadow)
// ---------------------------------------------------------------------------

/// The double of a sensor, where it is a number.
pub open spec fn double_of(shadow: json::Json, key: Seq<char>) -> Option<u64> {
    match json::member_of(device::reported(shadow), key) {
        Some(x) => json::as_bits(x),
        None => None,
    }
}

/// The integer of a sensor, where it is one.
pub open spec fn int_of(shadow: json::Json, key: Seq<char>) -> Option<i64> {
    match json::member_of(device::reported(shadow), key) {
        Some(x) => json::as_int(x),
        None => None,
    }
}

/// Whether a sensor is an integer other than 0.
pub open spec fn raised(shadow: json::Json, key: Seq<char>) -> bool {
    match int_of(shadow, key) {
        Some(n) => n != 0,
        None => false,
    }
}

/// The integers among some documents, in order.
pub open spec fn plain_integers(a: Seq<json::Json>) -> Seq<i64>
    decreases a.len(),
{
    if a.len() == 0 {
        seq![]
    } else {
        match json::as_int(a.last()) {
            Some(n) => plain_integers(a.drop_last()).push(n),
            None => plain_integers(a.drop_last()),
        }
    }
}

pub open spec fn error_codes(shadow: json::Json) -> Seq<i64> {
    match json::member_of(device::reported(shadow), "errorCode"@) {
        Some(json::Json::Array(a)) => plain_integers(a),
        _ => seq![],
    }
}

/// The estimated power draw of a shadow document.
pub open spec fn watts_in(shadow: json::Json) -> Option<i64> {
    match device::sensed(shadow, "compressorFrequency"@) {
        Some(hz) => if device::switched(shadow, "powerSwitch"@) {
            Some(device::watts_at(hz as int))
        } else {
            Some(0)
        },
        None => None,
    }
}

pub open spec fn integer_list(v: Seq<i64>) -> json::Json {
    json::Json::Array(v.map_values(|n: i64| json::whole(n as int)))
}

pub open spec fn telemetry_json(shadow: json::Json, device_id: Seq<char>) -> json::Json {
    json::Json::Object(
        json::no_members().insert("device_id"@, json::Json::Text(device_id)).insert(
            "indoor_c"@,
            json::reading_json(double_of(shadow, "currentTemperature"@)),
        ).insert(
            "outdoor_c"@,
            json::reading_json(double_of(shadow, "externalUnitTemperature"@)),
        ).insert(
            "coil_c"@,
            json::reading_json(double_of(shadow, "internalUnitCoilTemperature"@)),
        ).insert("compressor_hz"@, json::int_or_null(int_of(shadow, "compressorFrequency"@))).insert(
            "compressor_target_hz"@,
            json::int_or_null(int_of(shadow, "OutDoorCompTarFreqSet"@)),
        ).insert(
            "compressor_run_hz"@,
            json::int_or_null(int_of(shadow, "OutDoorCompTarFreqRun"@)),
        ).insert("outdoor_fan_rpm"@, json::int_or_null(int_of(shadow, "OutDoorFanTarSpeed"@))).insert(
            "outdoor_fan_speed"@,
            json::int_or_null(int_of(shadow, "externalUnitFanSpeed"@)),
        ).insert(
            "eev_open_degree"@,
            json::int_or_null(int_of(shadow, "OutDoorEEVTarOpenDegree"@)),
        ).insert("ptc_heater"@, json::int_or_null(int_of(shadow, "PTCStatus"@))).insert(
            "wind_pct"@,
            json::int_or_null(int_of(shadow, "windSpeedPercentage"@)),
        ).insert("est_power_w"@, json::int_or_null(watts_in(shadow))).insert(
            "filter_block_status"@,
            json::int_or_null(int_of(shadow, "filterBlockStatus"@)),
        ).insert(
            "filter_clean_notify"@,
            json::int_or_null(int_of(shadow, "filterBlockNotify"@)),
        ).insert("self_clean_status"@, json::int_or_null(int_of(shadow, "selfCleanStatus"@))).insert(
            "self_clean_pct"@,
            json::int_or_null(int_of(shadow, "selfCleanPercentage"@)),
        ).insert("generator_mode"@, json::int_or_null(int_of(shadow, "generatorMode"@))).insert(
            "error_codes"@,
            integer_list(error_codes(shadow)),
        ),
    )
}

/// A double to one decimal, or a dash.
pub open spec fn tenths(t: Option<u64>) -> Seq<char> {
    match t {
        Some(b) => double::fixed_text(b, 1),
        None => "-"@,
    }
}

pub open spec fn telemetry_lines(shadow: json::Json, d: rest::DeviceView) -> Seq<Seq<char>> {
    let n = |key: Seq<char>| cli::number_or_dash(int_of(shadow, key));
    seq![
        "Telemetry — "@ + d.shown_name() + " ["@ + d.device_name + "]"@,
        "  Temperatures"@,
        "    indoor        "@ + tenths(double_of(shadow, "currentTemperature"@)) + " °C"@,
        "    outdoor       "@ + tenths(double_of(shadow, "externalUnitTemperature"@)) + " °C"@,
        "    indoor coil   "@ + tenths(double_of(shadow, "internalUnitCoilTemperature"@))
            + " °C"@,
        "  Compressor / outdoor unit"@,
        "    compressor    "@ + n("compressorFrequency"@) + " Hz  (target "@ + n(
            "OutDoorCompTarFreqSet"@,
        ) + " / run "@ + n("OutDoorCompTarFreqRun"@) + ")"@,
        "    outdoor fan   speed "@ + n("externalUnitFanSpeed"@) + " / target "@ + n(
            "OutDoorFanTarSpeed"@,
        ),
        "    EEV opening   "@ + n("OutDoorEEVTarOpenDegree"@),
        "    PTC heater    "@ + cli::on_off(raised(shadow, "PTCStatus"@)),
        "    est. power    ~"@ + (match watts_in(shadow) {
            Some(w) => device::power_text(w as int),
            None => "-"@,
        }) + " (estimated from compressor Hz — not a meter reading)"@,
        "  Airflow / maintenance"@,
        "    wind output   "@ + n("windSpeedPercentage"@) + " %"@,
        "    filter        "@ + (if raised(shadow, "filterBlockStatus"@) || raised(
            shadow,
            "filterBlockNotify"@,
        ) {
            "CLEAN NEEDED"@
        } else {
            "ok"@
        }),
        "    self-clean    status "@ + n("selfCleanStatus"@) + " · "@ + n("selfCleanPercentage"@)
            + "%"@,
        "  Diagnostics"@,
        "    errors        "@ + (if error_codes(shadow).len() == 0 {
            "none"@
        } else {
            readouts::list_text(error_codes(shadow))
        }),
    ]
}

fn sensor<'a>(shadow: &'a Value, key: &str) -> (r: Option<&'a Value>)
    ensures
        json::json_option(r) == json::member_of(
            device::reported(json::json_of(*shadow)),
            key@,
        ),
{
    match json::get(shadow, "state") {
        Some(state) => match json::get(state, "reported") {
            Some(reported) => json::get(reported, key),
            None => None,
        },
        None => None,
    }
}

fn sensor_double(shadow: &Value, key: &str) -> (r: Option<Reading>)
    ensures
        json::reading_bits(r) == double_of(json::json_of(*shadow), key@),
{
    match sensor(shadow, key) {
        Some(x) => Reading::of_number(x),
        None => None,
    }
}

fn sensor_int(shadow: &Value, key: &str) -> (r: Option<i64>)
    ensures
        r == int_of(json::json_of(*shadow), key@),
{
    match sensor(shadow, key) {
        Some(x) => json::to_int(x),
        None => None,
    }
}

fn sensor_raised(shadow: &Value, key: &str) -> (r: bool)
    ensures
        r == raised(json::json_of(*shadow), key@),
{
    match sensor_int(shadow, key) {
        Some(n) => n != 0,
        None => false,
    }
}

fn sensor_text(shadow: &Value, key: &str) -> (r: String)
    ensures
        r@ == cli::number_or_dash(int_of(json::json_of(*shadow), key@)),
{
    cli::fmt_int(sensor_int(shadow, key))
}

fn sensor_tenths(shadow: &Value, key: &str) -> (r: String)
    ensures
        r@ == tenths(double_of(json::json_of(*shadow), key@)),
{
    match sensor_double(shadow, key) {
        Some(t) => double::fixed(t.bits(), 1),
        None => cli::dash(),
    }
}

fn codes(shadow: &Value) -> (r: Vec<i64>)
    ensures
        r@ == error_codes(json::json_of(*shadow)),
{
    let mut out: Vec<i64> = Vec::new();
    if let Some(x) = sensor(shadow, "errorCode") {
        if let Some(list) = json::to_list(x) {
            let ghost all = json::json_all(list@);
            let mut i: usize = 0;
            while i < list.len()
                invariant
                    all == json::json_all(list@),
                    i <= list@.len(),
                    out@ == plain_integers(all.take(i as int)),
                decreases list@.len() - i,
            {
                proof {
                    assert(all.take(i + 1).drop_last() == all.take(i as int));
                    assert(all.take(i + 1).last() == json::json_of(list@[i as int]));
                }
                if let Some(n) = json::to_int(&list[i]) {
                    out.push(n);
                }
                i = i + 1;
            }
            assert(all.take(all.len() as int) == all);
        }
    }
    out
}

fn watts(shadow: &Value) -> (r: Option<i64>)
    ensures
        r == watts_in(json::json_of(*shadow)),
{
    let st = AcState::from_shadow(shadow);
    st.est_power_w()
}

fn integers(v: &Vec<i64>) -> (r: Value)
    ensures
        json::json_of(r) == integer_list(v@),
{
    let ghost all = v@.map_values(|n: i64| json::whole(n as int));
    let mut list: Vec<Value> = Vec::new();
    let mut i: usize = 0;
    assert(json::json_all(list@) =~= all.take(0));
    while i < v.len()
        invariant
            all == v@.map_values(|n: i64| json::whole(n as int)),
            i <= v@.len(),
            json::json_all(list@) == all.take(i as int),
        decreases v@.len() - i,
    {
        let ghost before = list@;
        list.push(json::from_int(v[i]));
        assert(json::json_all(list@) =~= json::json_all(before).push(all[i as int]));
        assert(all.take(i + 1) =~= all.take(i as int).push(all[i as int]));
        i = i + 1;
    }
    assert(all.take(all.len() as int) =~= all);
    json::from_list(list)
}

fn put_int(m: &mut serde_json::Map<String, Value>, name: &str, shadow: &Value, key: &str)
    ensures
        json::members_of(*final(m)) == json::members_of(*old(m)).insert(
            name@,
            json::int_or_null(int_of(json::json_of(*shadow), key@)),
        ),
{
    json::put(m, name, json::from_int_option(sensor_int(shadow, key)));
}

fn put_double(m: &mut serde_json::Map<String, Value>, name: &str, shadow: &Value, key: &str)
    ensures
        json::members_of(*final(m)) == json::members_of(*old(m)).insert(
            name@,
            json::reading_json(double_of(json::json_of(*shadow), key@)),
        ),
{
    json::put(m, name, json::from_reading_option(&sensor_double(shadow, key)));
}

fn telemetry_value(shadow: &Value, device_id: &str) -> (r: Value)
    ensures
        json::json_of(r) == telemetry_json(json::json_of(*shadow), device_id@),
{
    let mut m = json::members();
    json::put(&mut m, "device_id", json::from_text(device_id));
    put_double(&mut m, "indoor_c", shadow, "currentTemperature");
    put_double(&mut m, "outdoor_c", shadow, "externalUnitTemperature");
    put_double(&mut m, "coil_c", shadow, "internalUnitCoilTemperature");
    put_int(&mut m, "compressor_hz", shadow, "compressorFrequency");
    put_int(&mut m, "compressor_target_hz", shadow, "OutDoorCompTarFreqSet");
    put_int(&mut m, "compressor_run_hz", shadow, "OutDoorCompTarFreqRun");
    put_int(&mut m, "outdoor_fan_rpm", shadow, "OutDoorFanTarSpeed");
    put_int(&mut m, "outdoor_fan_speed", shadow, "externalUnitFanSpeed");
    put_int(&mut m, "eev_open_degree", shadow, "OutDoorEEVTarOpenDegree");
    put_int(&mut m, "ptc_heater", shadow, "PTCStatus");
    put_int(&mut m, "wind_pct", shadow, "windSpeedPercentage");
    json::put(&mut m, "est_power_w", json::from_int_option(watts(shadow)));
    put_int(&mut m, "filter_block_status", shadow, "filterBlockStatus");
    put_int(&mut m, "filter_clean_notify", shadow, "filterBlockNotify");
    put_int(&mut m, "self_clean_status", shadow, "selfCleanStatus");
    put_int(&mut m, "self_clean_pct", shadow, "selfCleanPercentage");
    put_int(&mut m, "generator_mode", shadow, "generatorMode");
    let errors = codes(shadow);
    json::put(&mut m, "error_codes", integers(&errors));
    json::object(m)
}

fn compressor_line(shadow: &Value) -> (r: String)
    ensures
        r@ == "    compressor    "@ + cli::number_or_dash(
            int_of(json::json_of(*shadow), "compressorFrequency"@),
        ) + " Hz  (target "@ + cli::number_or_dash(
            int_of(json::json_of(*shadow), "OutDoorCompTarFreqSet"@),
        ) + " / run "@ + cli::number_or_dash(
            int_of(json::json_of(*shadow), "OutDoorCompTarFreqRun"@),
        ) + ")"@,
{
    let hz = sensor_text(shadow, "compressorFrequency");
    let target = sensor_text(shadow, "OutDoorCompTarFreqSet");
    let running = sensor_text(shadow, "OutDoorCompTarFreqRun");
    let start = text::cat5(
        "    compressor    ",
        hz.as_str(),
        " Hz  (target ",
        target.as_str(),
        " / run ",
    );
    text::cat3(start.as_str(), running.as_str(), ")")
}

fn telemetry_text(shadow: &Value, dev: &Device) -> (r: Output)
    ensures
        r@ == telemetry_lines(json::json_of(*shadow), dev@),
{
    let mut out = Output::new();
    let head = text::cat5(
        "Telemetry — ",
        rest::display_name(dev),
        " [",
        dev.device_name.as_str(),
        "]",
    );
    out.push(head.as_str());
    out.push("  Temperatures");
    let indoor = sensor_tenths(shadow, "currentTemperature");
    out.push3("    indoor        ", indoor.as_str(), " °C");
    let outdoor = sensor_tenths(shadow, "externalUnitTemperature");
    out.push3("    outdoor       ", outdoor.as_str(), " °C");
    let coil = sensor_tenths(shadow, "internalUnitCoilTemperature");
    out.push3("    indoor coil   ", coil.as_str(), " °C");
    out.push("  Compressor / outdoor unit");
    let compressor = compressor_line(shadow);
    out.push(compressor.as_str());
    let speed = sensor_text(shadow, "externalUnitFanSpeed");
    let aimed = sensor_text(shadow, "OutDoorFanTarSpeed");
    let fan = text::cat4(
        "    outdoor fan   speed ",
        speed.as_str(),
        " / target ",
        aimed.as_str(),
    );
    out.push(fan.as_str());
    let eev = sensor_text(shadow, "OutDoorEEVTarOpenDegree");
    out.push2("    EEV opening   ", eev.as_str());
    out.push2("    PTC heater    ", cli::onoff(sensor_raised(shadow, "PTCStatus")));
    let power = match watts(shadow) {
        Some(w) => device::fmt_power(w),
        None => cli::dash(),
    };
    out.push3(
        "    est. power    ~",
        power.as_str(),
        " (estimated from compressor Hz — not a meter reading)",
    );
    out.push("  Airflow / maintenance");
    let wind = sensor_text(shadow, "windSpeedPercentage");
    out.push3("    wind output   ", wind.as_str(), " %");
    let filter = if sensor_raised(shadow, "filterBlockStatus") || sensor_raised(
        shadow,
        "filterBlockNotify",
    ) {
        "CLEAN NEEDED"
    } else {
        "ok"
    };
    out.push2("    filter        ", filter);
    let status = sensor_text(shadow, "selfCleanStatus");
    let percent = sensor_text(shadow, "selfCleanPercentage");
    let cleaning = text::cat5(
        "    self-clean    status ",
        status.as_str(),
        " · ",
        percent.as_str(),
        "%",
    );
    out.push(cleaning.as_str());
    out.push("  Diagnostics");
    let errors = codes(shadow);
    let listed = if errors.len() == 0 {
        text::owned("none")
    } else {
        readouts::fmt_list(&errors)
    };
    out.push2("    errors        ", listed.as_str());
    assert(out@ =~= telemetry_lines(json::json_of(*shadow), dev@));
    out
}

/// What `telemetry` prints of a shadow document.
pub open spec fn telemetry_shown(json: bool, shadow: json::Json, d: rest::DeviceView) -> Seq<
    Seq<char>,
> {
    if json {
        json_line(telemetry_json(shadow, d.device_id))
    } else {
        telemetry_lines(shadow, d)
    }
}

pub fn cmd_telemetry(json: bool, shadow: &Value, dev: &Device) -> (r: Output)
    ensures
        r@ == telemetry_shown(json, json::json_of(*shadow), dev@),
{
    if json {
        let v = telemetry_value(shadow, dev.device_id.as_str());
        print_json(&v)
    } else {
        telemetry_text(shadow, dev)
    }
}

} // verus!
