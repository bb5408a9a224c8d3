//! Split-AC state model and command (desired-state) builders.
//!
//! - The fan speaks the 7-gear dialect, `windSpeed7Gear` (0..7) with
//!   `windSpeedAutoSwitch`, or the classic one, `windSpeed`, `turbo` and
//!   `silenceSwitch`.
//! - Temperature limits are reported by the device, and
//!   `targetFahrenheitTemp` is sent alongside `targetTemperature`.
//! - `workMode` is 0 to 4 for auto, cool, dry, fan and heat.

use crate::double;
use crate::json;
use crate::text;
use json::Reading;
use serde_json::Value;
use vstd::arithmetic::div_mod::*;
use vstd::prelude::*;

verus! {

pub const FALLBACK_TEMP_MIN: i64 = 16;

pub const FALLBACK_TEMP_MAX: i64 = 31;

/// The name of a sleep level.
pub open spec fn sleep_name(level: int) -> Seq<char> {
    if level == 0 {
        "Off"@
    } else if level == 1 {
        "Standard"@
    } else if level == 2 {
        "Elderly"@
    } else {
        "Child"@
    }
}

pub fn sleep_label(level: usize) -> (r: &'static str)
    requires
        level < 4,
    ensures
        r@ == sleep_name(level as int),
{
    if level == 0 {
        "Off"
    } else if level == 1 {
        "Standard"
    } else if level == 2 {
        "Elderly"
    } else {
        "Child"
    }
}

// ---------------------------------------------------------------------------
// Mode
// ---------------------------------------------------------------------------

#[derive(Debug, Clone, Copy, PartialEq, Eq, Structural)]
pub enum Mode {
    Auto,
    Cool,
    Dry,
    Fan,
    Heat,
}

impl Mode {
    /// The `workMode` value of a mode.
    pub open spec fn code(self) -> i64 {
        match self {
            Mode::Auto => 0,
            Mode::Cool => 1,
            Mode::Dry => 2,
            Mode::Fan => 3,
            Mode::Heat => 4,
        }
    }

    /// The mode of a `workMode` value.
    pub open spec fn of_code(n: int) -> Option<Mode> {
        if n == 0 {
            Some(Mode::Auto)
        } else if n == 1 {
            Some(Mode::Cool)
        } else if n == 2 {
            Some(Mode::Dry)
        } else if n == 3 {
            Some(Mode::Fan)
        } else if n == 4 {
            Some(Mode::Heat)
        } else {
            None
        }
    }

    pub open spec fn name(self) -> Seq<char> {
        match self {
            Mode::Auto => "Auto"@,
            Mode::Cool => "Cool"@,
            Mode::Dry => "Dry"@,
            Mode::Fan => "Fan"@,
            Mode::Heat => "Heat"@,
        }
    }

    pub open spec fn keyword(self) -> Seq<char> {
        match self {
            Mode::Auto => "auto"@,
            Mode::Cool => "cool"@,
            Mode::Dry => "dry"@,
            Mode::Fan => "fan"@,
            Mode::Heat => "heat"@,
        }
    }

    pub open spec fn glyph(self) -> Seq<char> {
        match self {
            Mode::Auto => "◎"@,
            Mode::Cool => "❆"@,
            Mode::Dry => "≈"@,
            Mode::Fan => "≋"@,
            Mode::Heat => "☀"@,
        }
    }

    /// The mode that a word names, in any mix of upper and lower case.
    pub open spec fn of_word(s: Seq<char>) -> Option<Mode> {
        let w = text::lower(s);
        if w == "auto"@ {
            Some(Mode::Auto)
        } else if w == "cool"@ {
            Some(Mode::Cool)
        } else if w == "dry"@ || w == "dehumidify"@ || w == "dehumidification"@ {
            Some(Mode::Dry)
        } else if w == "fan"@ || w == "fan_only"@ || w == "fanonly"@ {
            Some(Mode::Fan)
        } else if w == "heat"@ {
            Some(Mode::Heat)
        } else {
            None
        }
    }

    /// The mode that follows in the cycle auto, cool, dry, fan, heat.
    pub open spec fn following(self) -> Mode {
        match self {
            Mode::Auto => Mode::Cool,
            Mode::Cool => Mode::Dry,
            Mode::Dry => Mode::Fan,
            Mode::Fan => Mode::Heat,
            Mode::Heat => Mode::Auto,
        }
    }

    pub fn work_mode(self) -> (r: i64)
        ensures
            r == self.code(),
    {
        match self {
            Mode::Auto => 0,
            Mode::Cool => 1,
            Mode::Dry => 2,
            Mode::Fan => 3,
            Mode::Heat => 4,
        }
    }

    pub fn from_work_mode(n: i64) -> (r: Option<Mode>)
        ensures
            r == Mode::of_code(n as int),
    {
        if n == 0 {
            Some(Mode::Auto)
        } else if n == 1 {
            Some(Mode::Cool)
        } else if n == 2 {
            Some(Mode::Dry)
        } else if n == 3 {
            Some(Mode::Fan)
        } else if n == 4 {
            Some(Mode::Heat)
        } else {
            None
        }
    }

    pub fn label(self) -> (r: &'static str)
        ensures
            r@ == self.name(),
    {
        match self {
            Mode::Auto => "Auto",
            Mode::Cool => "Cool",
            Mode::Dry => "Dry",
            Mode::Fan => "Fan",
            Mode::Heat => "Heat",
        }
    }

    /// Lowercase key for CLI / JSON.
    pub fn key(self) -> (r: &'static str)
        ensures
            r@ == self.keyword(),
    {
        match self {
            Mode::Auto => "auto",
            Mode::Cool => "cool",
            Mode::Dry => "dry",
            Mode::Fan => "fan",
            Mode::Heat => "heat",
        }
    }

    pub fn parse(s: &str) -> (r: Option<Mode>)
        ensures
            r == Mode::of_word(s@),
    {
        let word = text::ascii_lower(s);
        let w = word.as_str();
        if text::same(w, "auto") {
            Some(Mode::Auto)
        } else if text::same(w, "cool") {
            Some(Mode::Cool)
        } else if text::same(w, "dry") || text::same(w, "dehumidify") || text::same(
            w,
            "dehumidification",
        ) {
            Some(Mode::Dry)
        } else if text::same(w, "fan") || text::same(w, "fan_only") || text::same(w, "fanonly") {
            Some(Mode::Fan)
        } else if text::same(w, "heat") {
            Some(Mode::Heat)
        } else {
            None
        }
    }

    pub fn icon(self) -> (r: &'static str)
        ensures
            r@ == self.glyph(),
    {
        match self {
            Mode::Auto => "◎",
            Mode::Cool => "❆",
            Mode::Dry => "≈",
            Mode::Fan => "≋",
            Mode::Heat => "☀",
        }
    }

    pub fn next(self) -> (r: Mode)
        ensures
            r == self.following(),
    {
        match self {
            Mode::Auto => Mode::Cool,
            Mode::Cool => Mode::Dry,
            Mode::Dry => Mode::Fan,
            Mode::Fan => Mode::Heat,
            Mode::Heat => Mode::Auto,
        }
    }
}

// ---------------------------------------------------------------------------
// Fan (7-gear dialect, with classic fallback)
// ---------------------------------------------------------------------------

#[derive(Debug, Clone, Copy, PartialEq, Eq, Structural)]
pub enum FanDialect {
    /// `windSpeed7Gear` + `windSpeedAutoSwitch`.
    SevenGear,
    /// `windSpeed`, `turbo`, `silenceSwitch`.
    Classic,
}

#[derive(Debug, Clone, Copy, PartialEq, Eq, Structural)]
pub enum Fan {
    Auto,
    /// A gear of 1 to 6.
    Gear(u8),
    Turbo,
}

impl Fan {
    /// Whether this is one of the eight speeds that the device has.
    pub open spec fn valid(self) -> bool {
        match self {
            Fan::Gear(g) => 1 <= g <= 6,
            _ => true,
        }
    }

    /// 0 for auto, 1 to 6 for the gears, 7 for turbo.
    pub open spec fn level(self) -> u8 {
        match self {
            Fan::Auto => 0,
            Fan::Gear(g) => g,
            Fan::Turbo => 7,
        }
    }

    /// The speed of a level of 0 to 7.
    pub open spec fn of_level(n: int) -> Fan {
        if 1 <= n <= 6 {
            Fan::Gear(n as u8)
        } else if n == 7 {
            Fan::Turbo
        } else {
            Fan::Auto
        }
    }

    /// Where a speed stands in the cycle auto, gears 1 to 6, turbo. A gear that
    /// the device does not have counts as the first.
    pub open spec fn place(self) -> int {
        if self.valid() {
            self.level() as int
        } else {
            0
        }
    }

    pub open spec fn name(self) -> Seq<char> {
        match self {
            Fan::Auto => "Auto"@,
            Fan::Gear(g) => "Gear "@ + text::dec(g as nat),
            Fan::Turbo => "Turbo"@,
        }
    }

    pub open spec fn keyword(self) -> Seq<char> {
        match self {
            Fan::Auto => "auto"@,
            Fan::Gear(g) => "gear"@ + text::dec(g as nat),
            Fan::Turbo => "turbo"@,
        }
    }

    /// The speed that a word names, in any mix of upper and lower case.
    pub open spec fn of_word(s: Seq<char>) -> Option<Fan> {
        let w = text::lower(s);
        if w == "auto"@ {
            Some(Fan::Auto)
        } else if w == "turbo"@ || w == "strong"@ || w == "max"@ {
            Some(Fan::Turbo)
        } else {
            match text::parsed_unsigned(text::without_start(w, "gear"@), 255) {
                Some(n) => if 1 <= n <= 6 {
                    Some(Fan::Gear(n as u8))
                } else {
                    None
                },
                None => None,
            }
        }
    }

    /// The patch that sets a speed, in each dialect.
    pub open spec fn patch(self, dialect: FanDialect) -> Map<Seq<char>, json::Json> {
        match dialect {
            FanDialect::SevenGear => json::no_members().insert(
                "windSpeedAutoSwitch"@,
                json::whole(
                    if self is Auto {
                        1
                    } else {
                        0
                    },
                ),
            ).insert("windSpeed7Gear"@, json::whole(self.level() as int)),
            FanDialect::Classic => json::no_members().insert(
                "highTemperatureWind"@,
                json::whole(0),
            ).insert(
                "turbo"@,
                json::whole(
                    if self is Turbo {
                        1
                    } else {
                        0
                    },
                ),
            ).insert(
                "silenceSwitch"@,
                json::whole(
                    if self == Fan::Gear(1) {
                        1
                    } else {
                        0
                    },
                ),
            ).insert("windSpeed"@, json::whole(self.classic_speed())),
        }
    }

    /// The `windSpeed` of a speed in the classic dialect.
    pub open spec fn classic_speed(self) -> int {
        match self {
            Fan::Auto => 0,
            Fan::Turbo => 6,
            Fan::Gear(g) => if g == 1 || g == 2 {
                2
            } else if 3 <= g <= 5 {
                g as int
            } else {
                6
            },
        }
    }

    pub open spec fn of_7gear(auto_switch: i64, gear: i64) -> Fan {
        if auto_switch != 0 {
            Fan::Auto
        } else {
            Fan::of_level(gear as int)
        }
    }

    pub open spec fn of_classic(ws: i64, turbo: bool, silence: bool) -> Fan {
        if turbo {
            Fan::Turbo
        } else if silence {
            Fan::Gear(1)
        } else if 2 <= ws <= 6 {
            Fan::Gear(ws as u8)
        } else {
            Fan::Auto
        }
    }

    pub fn label(self) -> (r: String)
        ensures
            r@ == self.name(),
    {
        match self {
            Fan::Auto => text::owned("Auto"),
            Fan::Gear(g) => {
                let n = text::dec_u64(g as u64);
                text::cat2("Gear ", n.as_str())
            },
            Fan::Turbo => text::owned("Turbo"),
        }
    }

    /// Lowercase key for CLI / JSON: "auto", "gear3", "turbo".
    pub fn key(self) -> (r: String)
        ensures
            r@ == self.keyword(),
    {
        match self {
            Fan::Auto => text::owned("auto"),
            Fan::Gear(g) => {
                let n = text::dec_u64(g as u64);
                text::cat2("gear", n.as_str())
            },
            Fan::Turbo => text::owned("turbo"),
        }
    }

    pub fn parse(s: &str) -> (r: Option<Fan>)
        ensures
            r == Fan::of_word(s@),
    {
        let word = text::ascii_lower(s);
        let w = word.as_str();
        if text::same(w, "auto") {
            Some(Fan::Auto)
        } else if text::same(w, "turbo") || text::same(w, "strong") || text::same(w, "max") {
            Some(Fan::Turbo)
        } else {
            let rest = text::strip_start(w, "gear");
            match text::parse_unsigned(rest.as_str(), 255) {
                Some(n) => if 1 <= n && n <= 6 {
                    Some(Fan::Gear(n as u8))
                } else {
                    None
                },
                None => None,
            }
        }
    }

    /// 0 = auto, 1..=6 gears, 7 = turbo. Used for bars/animation speed.
    pub fn gear_level(self) -> (r: u8)
        ensures
            r == self.level(),
    {
        match self {
            Fan::Auto => 0,
            Fan::Gear(g) => g,
            Fan::Turbo => 7,
        }
    }

    fn position(self) -> (r: u8)
        ensures
            r == self.place(),
            r < 8,
    {
        match self {
            Fan::Auto => 0,
            Fan::Gear(g) => if 1 <= g && g <= 6 {
                g
            } else {
                0
            },
            Fan::Turbo => 7,
        }
    }

    fn at_level(n: u8) -> (r: Fan)
        requires
            n < 8,
        ensures
            r == Fan::of_level(n as int),
            r.valid(),
    {
        if n == 0 {
            Fan::Auto
        } else if n == 7 {
            Fan::Turbo
        } else {
            Fan::Gear(n)
        }
    }

    pub fn next(self) -> (r: Fan)
        ensures
            r == Fan::of_level((self.place() + 1) % 8),
            r.valid(),
    {
        Fan::at_level((self.position() + 1) % 8)
    }

    pub fn prev(self) -> (r: Fan)
        ensures
            r == Fan::of_level((self.place() + 7) % 8),
            r.valid(),
    {
        Fan::at_level((self.position() + 7) % 8)
    }

    pub fn desired(self, dialect: FanDialect) -> (r: Value)
        ensures
            json::json_of(r) == json::Json::Object(self.patch(dialect)),
    {
        let mut m = json::members();
        match dialect {
            FanDialect::SevenGear => {
                let (auto, gear): (i64, i64) = match self {
                    Fan::Auto => (1, 0),
                    Fan::Gear(g) => (0, g as i64),
                    Fan::Turbo => (0, 7),
                };
                json::put(&mut m, "windSpeedAutoSwitch", json::from_int(auto));
                json::put(&mut m, "windSpeed7Gear", json::from_int(gear));
            },
            FanDialect::Classic => {
                let (turbo, silence, ws): (i64, i64, i64) = match self {
                    Fan::Auto => (0, 0, 0),
                    Fan::Turbo => (1, 0, 6),
                    Fan::Gear(g) => if g == 1 {
                        (0, 1, 2)
                    } else if g == 2 {
                        (0, 0, 2)
                    } else if 3 <= g && g <= 5 {
                        (0, 0, g as i64)
                    } else {
                        (0, 0, 6)
                    },
                };
                json::put(&mut m, "highTemperatureWind", json::from_int(0));
                json::put(&mut m, "turbo", json::from_int(turbo));
                json::put(&mut m, "silenceSwitch", json::from_int(silence));
                json::put(&mut m, "windSpeed", json::from_int(ws));
            },
        }
        json::object(m)
    }

    pub fn from_7gear(auto_switch: i64, gear: i64) -> (r: Fan)
        ensures
            r == Fan::of_7gear(auto_switch, gear),
            r.valid(),
    {
        if auto_switch != 0 {
            Fan::Auto
        } else if 1 <= gear && gear <= 6 {
            Fan::Gear(gear as u8)
        } else if gear == 7 {
            Fan::Turbo
        } else {
            Fan::Auto
        }
    }

    pub fn from_classic(ws: i64, turbo: bool, silence: bool) -> (r: Fan)
        ensures
            r == Fan::of_classic(ws, turbo, silence),
            r.valid(),
    {
        if turbo {
            Fan::Turbo
        } else if silence {
            Fan::Gear(1)
        } else if 2 <= ws && ws <= 6 {
            Fan::Gear(ws as u8)
        } else {
            Fan::Auto
        }
    }
}

// ---------------------------------------------------------------------------
// Parsed state
// ---------------------------------------------------------------------------

pub struct AcState {
    pub power: bool,
    pub work_mode: i64,
    pub target_temp: Option<Reading>,
    pub target_f: Option<i64>,
    pub current_temp: Option<Reading>,
    pub external_temp: Option<Reading>,
    pub coil_temp: Option<Reading>,
    pub compressor_hz: Option<i64>,
    pub comp_target_hz: Option<i64>,
    pub comp_run_hz: Option<i64>,
    pub outdoor_fan: Option<i64>,
    pub eev: Option<i64>,
    pub ptc: bool,
    pub filter_alert: bool,
    pub self_clean_pct: Option<i64>,
    pub fan: Fan,
    pub dialect: FanDialect,
    pub wind_pct: Option<i64>,
    /// verticalDirection: 1=swing 2=up-swing 3=down-swing 8=not set 9..13=fix top..bottom
    pub v_dir: i64,
    /// horizontalDirection: 1=swing 2=left 3=middle 4=right 8=not set 9..13=fix L..R
    pub h_dir: i64,
    pub eco: bool,
    pub sleep: i64,
    pub healthy: bool,
    pub screen: bool,
    pub beep: bool,
    pub self_clean: bool,
    pub anti_mold: bool,
    pub eight_heat: bool,
    pub temp_is_f: bool,
    pub t_min: i64,
    pub t_max: i64,
    pub errors: Vec<i64>,
    pub capabilities: Vec<i64>,
    pub shadow_version: i64,
    pub online: bool,
}

/// What the device reports in a shadow document.
pub open spec fn reported(shadow: json::Json) -> Option<json::Json> {
    json::member_of(json::member(shadow, "state"@), "reported"@)
}

/// What a shadow document asks of the device.
pub open spec fn desired(shadow: json::Json) -> Option<json::Json> {
    json::member_of(json::member(shadow, "state"@), "desired"@)
}

/// A controllable field: as asked, where that is there and not null, else as
/// reported.
pub open spec fn picked(shadow: json::Json, key: Seq<char>) -> Option<json::Json> {
    match json::member_of(desired(shadow), key) {
        Some(x) => if x == json::Json::Null {
            json::member_of(reported(shadow), key)
        } else {
            Some(x)
        },
        None => json::member_of(reported(shadow), key),
    }
}

/// The integer in a field.
pub open spec fn integer_in(field: Option<json::Json>) -> Option<i64> {
    match field {
        Some(x) => json::number_i(x),
        None => None,
    }
}

/// The double in a field.
pub open spec fn double_in(field: Option<json::Json>) -> Option<u64> {
    match field {
        Some(x) => json::number_f(x),
        None => None,
    }
}

pub open spec fn or(n: Option<i64>, default: i64) -> i64 {
    match n {
        Some(x) => x,
        None => default,
    }
}

/// The integer of a controllable field.
pub open spec fn chosen(shadow: json::Json, key: Seq<char>) -> Option<i64> {
    integer_in(picked(shadow, key))
}

/// Whether a controllable field is on.
pub open spec fn switched(shadow: json::Json, key: Seq<char>) -> bool {
    or(chosen(shadow, key), 0) != 0
}

/// The integer of a sensor.
pub open spec fn sensed(shadow: json::Json, key: Seq<char>) -> Option<i64> {
    integer_in(json::member_of(reported(shadow), key))
}

/// The double of a sensor.
pub open spec fn measured(shadow: json::Json, key: Seq<char>) -> Option<u64> {
    double_in(json::member_of(reported(shadow), key))
}

/// The integers among some documents, in order.
pub open spec fn integers(a: Seq<json::Json>) -> Seq<i64>
    decreases a.len(),
{
    if a.len() == 0 {
        seq![]
    } else {
        match json::number_i(a.last()) {
            Some(n) => integers(a.drop_last()).push(n),
            None => integers(a.drop_last()),
        }
    }
}

/// The integers that the device lists in a field.
pub open spec fn listed(shadow: json::Json, key: Seq<char>) -> Seq<i64> {
    match json::member_of(reported(shadow), key) {
        Some(json::Json::Array(a)) => integers(a),
        _ => seq![],
    }
}

pub open spec fn spoken_dialect(shadow: json::Json) -> FanDialect {
    if json::member_of(reported(shadow), "windSpeed7Gear"@) is Some || json::member_of(
        desired(shadow),
        "windSpeed7Gear"@,
    ) is Some {
        FanDialect::SevenGear
    } else {
        FanDialect::Classic
    }
}

pub open spec fn fan_of(shadow: json::Json) -> Fan {
    match spoken_dialect(shadow) {
        FanDialect::SevenGear => Fan::of_7gear(
            or(chosen(shadow, "windSpeedAutoSwitch"@), 0),
            or(chosen(shadow, "windSpeed7Gear"@), 0),
        ),
        FanDialect::Classic => Fan::of_classic(
            or(chosen(shadow, "windSpeed"@), 0),
            switched(shadow, "turbo"@),
            switched(shadow, "silenceSwitch"@),
        ),
    }
}

fn pick<'a>(reported: Option<&'a Value>, desired: Option<&'a Value>, key: &str) -> (r: Option<
    &'a Value,
>)
    ensures
        json::json_option(r) == (match json::member_of(json::json_option(desired), key@) {
            Some(x) => if x == json::Json::Null {
                json::member_of(json::json_option(reported), key@)
            } else {
                Some(x)
            },
            None => json::member_of(json::json_option(reported), key@),
        }),
{
    match field(desired, key) {
        Some(x) => if json::is_null(x) {
            field(reported, key)
        } else {
            Some(x)
        },
        None => field(reported, key),
    }
}

fn field<'a>(section: Option<&'a Value>, key: &str) -> (r: Option<&'a Value>)
    ensures
        json::json_option(r) == json::member_of(json::json_option(section), key@),
{
    match section {
        Some(v) => json::get(v, key),
        None => None,
    }
}

fn integer(v: Option<&Value>) -> (r: Option<i64>)
    ensures
        r == integer_in(json::json_option(v)),
{
    match v {
        Some(x) => json::num_i(x),
        None => None,
    }
}

fn reading(v: Option<&Value>) -> (r: Option<Reading>)
    ensures
        json::reading_bits(r) == double_in(json::json_option(v)),
{
    match v {
        Some(x) => Reading::of(x),
        None => None,
    }
}

fn or_else(n: Option<i64>, default: i64) -> (r: i64)
    ensures
        r == or(n, default),
{
    match n {
        Some(x) => x,
        None => default,
    }
}

fn integer_list(v: Option<&Value>) -> (r: Vec<i64>)
    ensures
        r@ == (match json::json_option(v) {
            Some(json::Json::Array(a)) => integers(a),
            _ => seq![],
        }),
{
    let mut out: Vec<i64> = Vec::new();
    if let Some(x) = v {
        if let Some(list) = json::to_list(x) {
            let ghost all = json::json_all(list@);
            let mut i: usize = 0;
            while i < list.len()
                invariant
                    all == json::json_all(list@),
                    i <= list@.len(),
                    out@ == integers(all.take(i as int)),
                decreases list@.len() - i,
            {
                proof {
                    assert(all.take(i + 1).drop_last() == all.take(i as int));
                    assert(all.take(i + 1).last() == json::json_of(list@[i as int]));
                }
                if let Some(n) = json::num_i(&list[i]) {
                    out.push(n);
                }
                i = i + 1;
            }
            assert(all.take(all.len() as int) == all);
        }
    }
    out
}

/// The two sections of a shadow document.
fn section<'a>(shadow: &'a Value, name: &str) -> (r: Option<&'a Value>)
    ensures
        json::json_option(r) == json::member_of(
            json::member(json::json_of(*shadow), "state"@),
            name@,
        ),
{
    match json::get(shadow, "state") {
        Some(s) => json::get(s, name),
        None => None,
    }
}

impl AcState {
    /// Whether this is what a shadow document says: controllable fields as
    /// asked (a command that the device has not taken up yet), or else as
    /// reported; sensors as reported.
    pub open spec fn reads(self, shadow: json::Json) -> bool {
        &&& self.reads_controls(shadow)
        &&& self.reads_sensors(shadow)
        &&& self.shadow_version == or(integer_in(json::member(shadow, "version"@)), 0)
    }

    pub open spec fn reads_controls(self, shadow: json::Json) -> bool {
        &&& self.power == switched(shadow, "powerSwitch"@)
        &&& self.work_mode == or(chosen(shadow, "workMode"@), 0)
        &&& json::reading_bits(self.target_temp) == double_in(picked(shadow, "targetTemperature"@))
        &&& self.target_f == chosen(shadow, "targetFahrenheitTemp"@)
        &&& self.dialect == spoken_dialect(shadow)
        &&& self.fan == fan_of(shadow)
        &&& self.v_dir == or(chosen(shadow, "verticalDirection"@), 8)
        &&& self.h_dir == or(chosen(shadow, "horizontalDirection"@), 8)
        &&& self.eco == switched(shadow, "ECO"@)
        &&& self.sleep == or(chosen(shadow, "sleep"@), 0)
        &&& self.healthy == switched(shadow, "healthy"@)
        &&& self.screen == switched(shadow, "screen"@)
        &&& self.beep == switched(shadow, "beepSwitch"@)
        &&& self.self_clean == switched(shadow, "selfClean"@)
        &&& self.anti_mold == switched(shadow, "antiMoldew"@)
        &&& self.eight_heat == switched(shadow, "eightAddHot"@)
        &&& self.temp_is_f == switched(shadow, "temperatureType"@)
    }

    pub open spec fn reads_sensors(self, shadow: json::Json) -> bool {
        &&& json::reading_bits(self.current_temp) == measured(shadow, "currentTemperature"@)
        &&& json::reading_bits(self.external_temp) == measured(shadow, "externalUnitTemperature"@)
        &&& json::reading_bits(self.coil_temp) == measured(shadow, "internalUnitCoilTemperature"@)
        &&& self.compressor_hz == sensed(shadow, "compressorFrequency"@)
        &&& self.comp_target_hz == sensed(shadow, "OutDoorCompTarFreqSet"@)
        &&& self.comp_run_hz == sensed(shadow, "OutDoorCompTarFreqRun"@)
        &&& self.outdoor_fan == sensed(shadow, "externalUnitFanSpeed"@)
        &&& self.eev == sensed(shadow, "OutDoorEEVTarOpenDegree"@)
        &&& self.ptc == (or(sensed(shadow, "PTCStatus"@), 0) != 0)
        &&& self.filter_alert == (or(sensed(shadow, "filterBlockStatus"@), 0) != 0 || or(
            sensed(shadow, "filterBlockNotify"@),
            0,
        ) != 0)
        &&& self.self_clean_pct == sensed(shadow, "selfCleanPercentage"@)
        &&& self.wind_pct == sensed(shadow, "windSpeedPercentage"@)
        &&& self.t_min == or(sensed(shadow, "lowerTemperatureLimit"@), FALLBACK_TEMP_MIN)
        &&& self.t_max == or(sensed(shadow, "upperTemperatureLimit"@), FALLBACK_TEMP_MAX)
        &&& self.errors@ == listed(shadow, "errorCode"@)
        &&& self.capabilities@ == listed(shadow, "capabilities"@)
    }

    /// Parse a shadow document. Controllable fields prefer `desired` (pending
    /// command) then fall back to `reported`; sensors read from `reported`.
    pub fn from_shadow(shadow: &Value) -> (r: AcState)
        ensures
            r.reads(json::json_of(*shadow)),
            r.online,
            r.fan.valid(),
    {
        let rep = section(shadow, "reported");
        let des = section(shadow, "desired");
        let dialect = if field(rep, "windSpeed7Gear").is_some() || field(
            des,
            "windSpeed7Gear",
        ).is_some() {
            FanDialect::SevenGear
        } else {
            FanDialect::Classic
        };
        let fan = match dialect {
            FanDialect::SevenGear => Fan::from_7gear(
                or_else(integer(pick(rep, des, "windSpeedAutoSwitch")), 0),
                or_else(integer(pick(rep, des, "windSpeed7Gear")), 0),
            ),
            FanDialect::Classic => Fan::from_classic(
                or_else(integer(pick(rep, des, "windSpeed")), 0),
                or_else(integer(pick(rep, des, "turbo")), 0) != 0,
                or_else(integer(pick(rep, des, "silenceSwitch")), 0) != 0,
            ),
        };
        AcState {
            power: or_else(integer(pick(rep, des, "powerSwitch")), 0) != 0,
            work_mode: or_else(integer(pick(rep, des, "workMode")), 0),
            target_temp: reading(pick(rep, des, "targetTemperature")),
            target_f: integer(pick(rep, des, "targetFahrenheitTemp")),
            current_temp: reading(field(rep, "currentTemperature")),
            external_temp: reading(field(rep, "externalUnitTemperature")),
            coil_temp: reading(field(rep, "internalUnitCoilTemperature")),
            compressor_hz: integer(field(rep, "compressorFrequency")),
            comp_target_hz: integer(field(rep, "OutDoorCompTarFreqSet")),
            comp_run_hz: integer(field(rep, "OutDoorCompTarFreqRun")),
            outdoor_fan: integer(field(rep, "externalUnitFanSpeed")),
            eev: integer(field(rep, "OutDoorEEVTarOpenDegree")),
            ptc: or_else(integer(field(rep, "PTCStatus")), 0) != 0,
            filter_alert: or_else(integer(field(rep, "filterBlockStatus")), 0) != 0 || or_else(
                integer(field(rep, "filterBlockNotify")),
                0,
            ) != 0,
            self_clean_pct: integer(field(rep, "selfCleanPercentage")),
            fan,
            dialect,
            wind_pct: integer(field(rep, "windSpeedPercentage")),
            v_dir: or_else(integer(pick(rep, des, "verticalDirection")), 8),
            h_dir: or_else(integer(pick(rep, des, "horizontalDirection")), 8),
            eco: or_else(integer(pick(rep, des, "ECO")), 0) != 0,
            sleep: or_else(integer(pick(rep, des, "sleep")), 0),
            healthy: or_else(integer(pick(rep, des, "healthy")), 0) != 0,
            screen: or_else(integer(pick(rep, des, "screen")), 0) != 0,
            beep: or_else(integer(pick(rep, des, "beepSwitch")), 0) != 0,
            self_clean: or_else(integer(pick(rep, des, "selfClean")), 0) != 0,
            anti_mold: or_else(integer(pick(rep, des, "antiMoldew")), 0) != 0,
            eight_heat: or_else(integer(pick(rep, des, "eightAddHot")), 0) != 0,
            temp_is_f: or_else(integer(pick(rep, des, "temperatureType")), 0) != 0,
            t_min: or_else(integer(field(rep, "lowerTemperatureLimit")), FALLBACK_TEMP_MIN),
            t_max: or_else(integer(field(rep, "upperTemperatureLimit")), FALLBACK_TEMP_MAX),
            errors: integer_list(field(rep, "errorCode")),
            capabilities: integer_list(field(rep, "capabilities")),
            shadow_version: or_else(integer(json::get(shadow, "version")), 0),
            online: true,
        }
    }

    pub fn mode(&self) -> (r: Option<Mode>)
        ensures
            r == Mode::of_code(self.work_mode as int),
    {
        Mode::from_work_mode(self.work_mode)
    }

    /// Rough estimate of the live power draw in watts, from the compressor
    /// frequency: 20 W per Hz, and 45 W for the fans. The cloud exposes no
    /// measured wattage. The sums are those of double arithmetic, exact up to
    /// frequencies that no compressor has.
    pub open spec fn estimated_watts(self) -> Option<i64> {
        match self.compressor_hz {
            Some(hz) => if !self.power {
                Some(0)
            } else {
                Some(watts_at(hz as int))
            },
            None => None,
        }
    }

    pub fn est_power_w(&self) -> (r: Option<i64>)
        ensures
            r == self.estimated_watts(),
    {
        match self.compressor_hz {
            None => None,
            Some(hz) => {
                if !self.power {
                    return Some(0);
                }
                let h: u128 = if hz > 0 {
                    hz as u128
                } else {
                    0
                };
                proof {
                    assert(h as int / 1 == h);
                }
                let a = double::round_double(h, 1);
                proof {
                    assert((20 * a) as int / 1 == 20 * a);
                }
                let b = double::round_double(20 * a, 1);
                let c = double::round_double(45 + b, 1);
                if c > i64::MAX as u128 {
                    Some(i64::MAX)
                } else {
                    Some(c as i64)
                }
            },
        }
    }

    pub open spec fn mode_name(self) -> Seq<char> {
        match Mode::of_code(self.work_mode as int) {
            Some(m) => m.name(),
            None => "mode#"@ + text::dec_int(self.work_mode as int),
        }
    }

    pub fn mode_label(&self) -> (r: String)
        ensures
            r@ == self.mode_name(),
    {
        match self.mode() {
            Some(m) => text::owned(m.label()),
            None => {
                let n = text::dec_i64(self.work_mode);
                text::cat2("mode#", n.as_str())
            },
        }
    }

    /// Vertical vane fixed at a position? Grid index 0..=4 (top to bottom).
    pub fn v_fix(&self) -> (r: Option<usize>)
        ensures
            r == fixed_at(self.v_dir),
    {
        if 9 <= self.v_dir && self.v_dir <= 13 {
            Some((self.v_dir - 9) as usize)
        } else {
            None
        }
    }

    /// Horizontal vane fixed at a position? Grid index 0..=4 (left to right).
    pub fn h_fix(&self) -> (r: Option<usize>)
        ensures
            r == fixed_at(self.h_dir),
    {
        if 9 <= self.h_dir && self.h_dir <= 13 {
            Some((self.h_dir - 9) as usize)
        } else {
            None
        }
    }

    /// Vertical swing active (any sweeping variant)?
    pub fn v_swinging(&self) -> (r: bool)
        ensures
            r == (1 <= self.v_dir <= 3),
    {
        1 <= self.v_dir && self.v_dir <= 3
    }

    pub fn h_swinging(&self) -> (r: bool)
        ensures
            r == (1 <= self.h_dir <= 4),
    {
        1 <= self.h_dir && self.h_dir <= 4
    }
}

/// The grid index at which a direction value fixes a vane.
pub open spec fn fixed_at(dir: i64) -> Option<usize> {
    if 9 <= dir <= 13 {
        Some((dir - 9) as usize)
    } else {
        None
    }
}

/// The estimate for a running unit at a compressor frequency.
pub open spec fn watts_at(hz: int) -> i64 {
    let h: nat = if hz > 0 {
        hz as nat
    } else {
        0
    };
    let compressor = double::nearest_double(20 * double::nearest_double(h, 1), 1);
    double::saturated(false, double::nearest_double(45 + compressor, 1))
}

// ---------------------------------------------------------------------------
// Command builders (return the `desired` object to send)
// ---------------------------------------------------------------------------

pub open spec fn patch1(key: Seq<char>, n: int) -> json::Json {
    json::Json::Object(json::no_members().insert(key, json::whole(n)))
}

pub open spec fn patch2(k1: Seq<char>, n1: int, k2: Seq<char>, n2: int) -> json::Json {
    json::Json::Object(
        json::no_members().insert(k1, json::whole(n1)).insert(k2, json::whole(n2)),
    )
}

fn obj1(key: &str, n: i64) -> (r: Value)
    ensures
        json::json_of(r) == patch1(key@, n as int),
{
    let mut m = json::members();
    json::put(&mut m, key, json::from_int(n));
    json::object(m)
}

fn obj2(k1: &str, n1: i64, k2: &str, n2: i64) -> (r: Value)
    ensures
        json::json_of(r) == patch2(k1@, n1 as int, k2@, n2 as int),
{
    let mut m = json::members();
    json::put(&mut m, k1, json::from_int(n1));
    json::put(&mut m, k2, json::from_int(n2));
    json::object(m)
}

/// 1 for on, 0 for off.
pub open spec fn bit(on: bool) -> int {
    if on {
        1
    } else {
        0
    }
}

fn bit_of(on: bool) -> (r: i64)
    ensures
        r == bit(on),
{
    if on {
        1
    } else {
        0
    }
}

pub fn cmd_power(on: bool) -> (r: Value)
    ensures
        json::json_of(r) == patch1("powerSwitch"@, bit(on)),
{
    obj1("powerSwitch", bit_of(on))
}

pub fn cmd_mode(mode: Mode) -> (r: Value)
    ensures
        json::json_of(r) == patch1("workMode"@, mode.code() as int),
{
    obj1("workMode", mode.work_mode())
}

/// `n`, or the nearer of two bounds.
pub open spec fn clamped(n: int, lo: int, hi: int) -> int {
    if n < lo {
        lo
    } else if n > hi {
        hi
    } else {
        n
    }
}

pub fn clamp(n: i64, lo: i64, hi: i64) -> (r: i64)
    requires
        lo <= hi,
    ensures
        r == clamped(n as int, lo as int, hi as int),
{
    if n < lo {
        lo
    } else if n > hi {
        hi
    } else {
        n
    }
}

/// Fractions of a degree are counted in units of 2^-56.
pub const DEGREE: u128 = 0x100_0000_0000_0000;

pub open spec fn magnitude(n: int) -> nat {
    if n < 0 {
        (-n) as nat
    } else {
        n as nat
    }
}

/// `c * 9.0 / 5.0` in double arithmetic, as a magnitude in units of a degree.
pub open spec fn nine_fifths(c: int) -> nat {
    let nine = double::nearest_double(9 * double::nearest_double(magnitude(c), 1), 1);
    double::nearest_double((nine * DEGREE) as nat, 5)
}

/// `c * 9.0 / 5.0 + 32.0`, in units of a degree.
pub open spec fn fahrenheit_units(c: int) -> int {
    let scaled: int = if c < 0 {
        -(nine_fifths(c) as int)
    } else {
        nine_fifths(c) as int
    };
    let sum = scaled + 32 * DEGREE;
    let nearest = double::nearest_double(magnitude(sum), 1);
    if sum < 0 {
        -(nearest as int)
    } else {
        nearest as int
    }
}

/// The Fahrenheit mirror of a temperature: `c * 9.0 / 5.0 + 32.0` in double
/// arithmetic, rounded to a degree.
pub open spec fn fahrenheit_of(c: int) -> i64 {
    let x = fahrenheit_units(c);
    double::saturated(x < 0, (2 * magnitude(x) + DEGREE) as nat / (2 * DEGREE) as nat)
}

pub fn fahrenheit(c: i64) -> (r: i64)
    ensures
        r == fahrenheit_of(c as int),
{
    let size: u128 = if c < 0 {
        (-(c as i128)) as u128
    } else {
        c as u128
    };
    proof {
        assert(size as int / 1 == size);
    }
    let a = double::round_double(size, 1);
    proof {
        assert((9 * a) as int / 1 == 9 * a);
    }
    let nine = double::round_double(9 * a, 1);
    let scaled = double::round_double(nine * DEGREE, 5);
    let offset: u128 = 32 * DEGREE;
    let (below, sum): (bool, u128) = if c < 0 {
        if scaled > offset {
            (true, scaled - offset)
        } else {
            (false, offset - scaled)
        }
    } else {
        (false, scaled + offset)
    };
    proof {
        assert(sum as int / 1 == sum);
    }
    let x = double::round_double(sum, 1);
    let degrees: u128 = (2 * x + DEGREE) / (2 * DEGREE);
    if below {
        if degrees >= 0x8000_0000_0000_0000 {
            i64::MIN
        } else {
            (-(degrees as i128)) as i64
        }
    } else if degrees > i64::MAX as u128 {
        i64::MAX
    } else {
        degrees as i64
    }
}

/// Target temperature in degrees Celsius; the device also expects the
/// Fahrenheit mirror.
pub fn cmd_temp(celsius: i64, t_min: i64, t_max: i64) -> (r: Value)
    requires
        t_min <= t_max,
    ensures
        json::json_of(r) == temp_patch(celsius as int, t_min as int, t_max as int),
{
    let c = clamp(celsius, t_min, t_max);
    obj2("targetTemperature", c, "targetFahrenheitTemp", fahrenheit(c))
}

pub open spec fn temp_patch(celsius: int, t_min: int, t_max: int) -> json::Json {
    let c = clamped(celsius, t_min, t_max);
    patch2("targetTemperature"@, c, "targetFahrenheitTemp"@, fahrenheit_of(c) as int)
}

pub fn cmd_vswing(on: bool) -> (r: Value)
    ensures
        json::json_of(r) == patch1(
            "verticalDirection"@,
            if on {
                1
            } else {
                8
            },
        ),
{
    obj1(
        "verticalDirection",
        if on {
            1
        } else {
            8
        },
    )
}

/// The name of a vertical aim point, 0 to 4 from top to bottom.
pub open spec fn v_name(i: int) -> Seq<char> {
    if i == 0 {
        "top"@
    } else if i == 1 {
        "upper"@
    } else if i == 2 {
        "middle"@
    } else if i == 3 {
        "lower"@
    } else {
        "bottom"@
    }
}

/// The name of a horizontal aim point, 0 to 4 from left to right.
pub open spec fn h_name(i: int) -> Seq<char> {
    if i == 0 {
        "left"@
    } else if i == 1 {
        "mid-left"@
    } else if i == 2 {
        "center"@
    } else if i == 3 {
        "mid-right"@
    } else {
        "right"@
    }
}

pub fn v_label(i: usize) -> (r: &'static str)
    requires
        i < 5,
    ensures
        r@ == v_name(i as int),
{
    if i == 0 {
        "top"
    } else if i == 1 {
        "upper"
    } else if i == 2 {
        "middle"
    } else if i == 3 {
        "lower"
    } else {
        "bottom"
    }
}

pub fn h_label(i: usize) -> (r: &'static str)
    requires
        i < 5,
    ensures
        r@ == h_name(i as int),
{
    if i == 0 {
        "left"
    } else if i == 1 {
        "mid-left"
    } else if i == 2 {
        "center"
    } else if i == 3 {
        "mid-right"
    } else {
        "right"
    }
}

/// Fix both vanes at one aim point. `h`/`v` are 0..=4 grid indices
/// (left to right / top to bottom), mapped to direction values 9..13.
/// Sending a fixed direction stops any active swing on that axis.
pub fn cmd_vent(h: i64, v: i64) -> (r: Value)
    ensures
        json::json_of(r) == vent_patch(h as int, v as int),
{
    obj2(
        "horizontalDirection",
        9 + clamp(h, 0, 4),
        "verticalDirection",
        9 + clamp(v, 0, 4),
    )
}

pub open spec fn vent_patch(h: int, v: int) -> json::Json {
    patch2(
        "horizontalDirection"@,
        9 + clamped(h, 0, 4),
        "verticalDirection"@,
        9 + clamped(v, 0, 4),
    )
}

pub fn cmd_hswing(on: bool) -> (r: Value)
    ensures
        json::json_of(r) == patch1(
            "horizontalDirection"@,
            if on {
                1
            } else {
                8
            },
        ),
{
    obj1(
        "horizontalDirection",
        if on {
            1
        } else {
            8
        },
    )
}

/// Generic single-field 0/1 toggle (ECO, screen, beepSwitch, healthy and so on).
pub fn cmd_flag(field: &str, on: bool) -> (r: Value)
    ensures
        json::json_of(r) == patch1(field@, bit(on)),
{
    obj1(field, bit_of(on))
}

pub fn cmd_sleep(level: i64) -> (r: Value)
    ensures
        json::json_of(r) == patch1("sleep"@, clamped(level as int, 0, 3)),
{
    obj1("sleep", clamp(level, 0, 3))
}

// ---------------------------------------------------------------------------
// helpers
// ---------------------------------------------------------------------------

/// Tenths of a kilowatt: `w / 1000.0` in double arithmetic, to one decimal.
pub open spec fn tenths_of_kilowatt(w: nat) -> nat {
    double::nearest_even(
        10 * double::nearest_double(
            (double::nearest_double(w, 1) * double::HIDDEN) as nat,
            1000,
        ),
        double::HIDDEN as nat,
    )
}

/// Watts as "770 W" or "1.1 kW".
pub open spec fn power_text(w: int) -> Seq<char> {
    if w >= 1000 {
        double::with_point(tenths_of_kilowatt(w as nat), 1) + " kW"@
    } else {
        text::dec_int(w) + " W"@
    }
}

/// Format watts as "770 W" or "1.1 kW".
pub fn fmt_power(w: i64) -> (r: String)
    ensures
        r@ == power_text(w as int),
{
    if w >= 1000 {
        proof {
            assert(w as int / 1 == w);
        }
        let a = double::round_double(w as u128, 1);
        let unit: u128 = 0x10_0000_0000_0000;
        assert(unit == double::HIDDEN);
        let x = double::round_double(a * unit, 1000);
        let tenths = double::round_even(10 * x, unit);
        let number = double::put_point(tenths, 1);
        text::cat2(number.as_str(), " kW")
    } else {
        let number = text::dec_i64(w);
        text::cat2(number.as_str(), " W")
    }
}

} // verus!
