//! The commands that change a setting: what each sends, and what it says.

use crate::cli;
use crate::device;
use crate::double;
use crate::fault;
use crate::json;
use crate::text;
use device::{AcState, Fan, FanDialect, Mode};
use fault::Fault;
use serde_json::Value;
use vstd::prelude::*;

verus! {

/// A desired state to publish, and the words for it.
pub struct Order {
    pub action: String,
    pub desired: Value,
}

pub struct OrderView {
    pub action: Seq<char>,
    pub desired: json::Json,
}

impl View for Order {
    type V = OrderView;

    open spec fn view(&self) -> OrderView {
        OrderView { action: self.action@, desired: json::json_of(self.desired) }
    }
}

/// An argument, or the usage where it is missing.
pub open spec fn needed(arg: Option<Seq<char>>, usage: Seq<char>) -> Result<
    Seq<char>,
    fault::FaultView,
> {
    match arg {
        Some(s) => Ok(s),
        None => Err(fault::plain(usage)),
    }
}

// ---------------------------------------------------------------------------
// power and mode
// ---------------------------------------------------------------------------

#[derive(Debug, Clone, Copy, PartialEq, Eq, Structural)]
pub enum PowerChoice {
    On,
    Off,
    /// The opposite of what the device reports.
    Toggle,
}

pub open spec fn power_chosen(arg: Option<Seq<char>>) -> Result<PowerChoice, fault::FaultView> {
    match needed(arg, "usage: tclac power <on|off|toggle>"@) {
        Err(f) => Err(f),
        Ok(s) => {
            let w = text::lower(s);
            if w == "on"@ || w == "1"@ || w == "true"@ {
                Ok(PowerChoice::On)
            } else if w == "off"@ || w == "0"@ || w == "false"@ {
                Ok(PowerChoice::Off)
            } else if w == "toggle"@ {
                Ok(PowerChoice::Toggle)
            } else {
                Err(fault::plain("power expects on|off|toggle, got `"@ + w + "`"@))
            }
        },
    }
}

pub fn power_choice(arg: &Option<String>) -> (r: Result<PowerChoice, Fault>)
    ensures
        match r {
            Ok(c) => power_chosen(text::view_option(*arg)) == Ok::<PowerChoice, fault::FaultView>(
                c,
            ),
            Err(f) => power_chosen(text::view_option(*arg)) == Err::<
                PowerChoice,
                fault::FaultView,
            >(f@),
        },
{
    match arg {
        None => Err(Fault::plain("usage: tclac power <on|off|toggle>")),
        Some(s) => {
            let low = text::ascii_lower(s.as_str());
            let w = low.as_str();
            if text::same(w, "on") || text::same(w, "1") || text::same(w, "true") {
                Ok(PowerChoice::On)
            } else if text::same(w, "off") || text::same(w, "0") || text::same(w, "false") {
                Ok(PowerChoice::Off)
            } else if text::same(w, "toggle") {
                Ok(PowerChoice::Toggle)
            } else {
                Err(Fault::Plain(text::cat3("power expects on|off|toggle, got `", w, "`")))
            }
        },
    }
}

/// What switching the unit on or off sends.
pub open spec fn power_order(on: bool) -> OrderView {
    OrderView {
        action: "power "@ + cli::on_off(on),
        desired: device::patch1("powerSwitch"@, device::bit(on)),
    }
}

pub fn cmd_power(on: bool) -> (r: Order)
    ensures
        r@ == power_order(on),
{
    Order { action: text::cat2("power ", cli::onoff(on)), desired: device::cmd_power(on) }
}

pub open spec fn mode_order(arg: Option<Seq<char>>) -> Result<OrderView, fault::FaultView> {
    match needed(arg, "usage: tclac mode <auto|cool|dry|fan|heat>"@) {
        Err(f) => Err(f),
        Ok(s) => match Mode::of_word(s) {
            Some(m) => Ok(
                OrderView {
                    action: "mode "@ + m.keyword(),
                    desired: device::patch1("workMode"@, m.code() as int),
                },
            ),
            None => Err(fault::plain("unknown mode `"@ + s + "`"@)),
        },
    }
}

pub fn cmd_mode(arg: &Option<String>) -> (r: Result<Order, Fault>)
    ensures
        fault::outcome(r) == mode_order(text::view_option(*arg)),
{
    match arg {
        None => Err(Fault::plain("usage: tclac mode <auto|cool|dry|fan|heat>")),
        Some(s) => match Mode::parse(s.as_str()) {
            Some(m) => Ok(
                Order { action: text::cat2("mode ", m.key()), desired: device::cmd_mode(m) },
            ),
            None => Err(Fault::Plain(text::cat3("unknown mode `", s.as_str(), "`"))),
        },
    }
}

// ---------------------------------------------------------------------------
// temperature
// ---------------------------------------------------------------------------

/// Why a text is not an integer of 64 bits. It is read from the left, after the
/// sign: digits that leave the range come before a bad character behind them.
pub open spec fn number_fault(s: Seq<char>) -> Seq<char> {
    let signed = s.len() > 0 && (s[0] == '+' || s[0] == '-');
    let body = if signed {
        s.skip(1)
    } else {
        s
    };
    let read = text::digits_value(text::leading_digits(body));
    if s.len() == 0 {
        "cannot parse integer from empty string"@
    } else if s[0] == '-' && -read < i64::MIN {
        "number too small to fit in target type"@
    } else if s[0] != '-' && read > i64::MAX {
        "number too large to fit in target type"@
    } else {
        "invalid digit found in string"@
    }
}

fn explain_number(s: &str) -> (r: &'static str)
    ensures
        r@ == number_fault(s@),
{
    let v = text::chars_of(s);
    if v.len() == 0 {
        return "cannot parse integer from empty string";
    }
    let from: usize = if v[0] == '+' || v[0] == '-' {
        1
    } else {
        0
    };
    assert(v@.skip(0) == v@);
    if v[0] == '-' {
        if text::digits_exceed(&v, from, i64::MAX as u64 + 1) {
            return "number too small to fit in target type";
        }
    } else if text::digits_exceed(&v, from, i64::MAX as u64) {
        return "number too large to fit in target type";
    }
    "invalid digit found in string"
}

/// An integer in a text, or the failure under a message.
pub open spec fn number_in(s: Seq<char>, message: Seq<char>) -> Result<i64, fault::FaultView> {
    match text::parsed_i64(s) {
        Some(n) => Ok(n),
        None => Err(fault::wrapping(message, fault::plain(number_fault(s)))),
    }
}

fn read_number(s: &str, message: &str) -> (r: Result<i64, Fault>)
    ensures
        match r {
            Ok(n) => number_in(s@, message@) == Ok::<i64, fault::FaultView>(n),
            Err(f) => number_in(s@, message@) == Err::<i64, fault::FaultView>(f@),
        },
{
    match text::parse_i64(s) {
        Some(n) => Ok(n),
        None => Err(Fault::plain(explain_number(s)).under(message)),
    }
}

/// The target that a state reports, in whole degrees; 24 where there is none.
pub open spec fn target_of(s: AcState) -> i64 {
    match json::reading_bits(s.target_temp) {
        Some(b) => double::rounded_of(b),
        None => 24,
    }
}

/// The temperature that an argument asks for: `+N` and `-N` from the target of
/// the device, and else a number of degrees.
pub open spec fn asked_temp(arg: Seq<char>, target: int) -> Result<int, fault::FaultView> {
    if arg.len() > 0 && arg[0] == '+' {
        match number_in(arg.skip(1), "bad relative temp"@) {
            Ok(d) => Ok(target + d),
            Err(f) => Err(f),
        }
    } else if arg.len() > 1 && arg[0] == '-' {
        match number_in(arg.skip(1), "bad relative temp"@) {
            Ok(d) => Ok(target - d),
            Err(f) => Err(f),
        }
    } else {
        match number_in(arg, "temp must be a number, +N, or -N"@) {
            Ok(n) => Ok(n as int),
            Err(f) => Err(f),
        }
    }
}

/// Whether a temperature that is asked for can be computed: it is a number of 64
/// bits, and the limits of the device are in order.
pub open spec fn temp_computable(arg: Seq<char>, s: AcState) -> bool {
    asked_temp(arg, target_of(s) as int) matches Ok(n) ==> i64::MIN <= n <= i64::MAX && s.t_min
        <= s.t_max
}

/// What setting a temperature sends: within the limits of the device.
pub open spec fn temp_order(arg: Seq<char>, s: AcState) -> Result<OrderView, fault::FaultView> {
    match asked_temp(arg, target_of(s) as int) {
        Ok(n) => {
            let c = device::clamped(n, s.t_min as int, s.t_max as int);
            Ok(
                OrderView {
                    action: "temp "@ + text::dec_int(c) + "C"@,
                    desired: device::temp_patch(c, s.t_min as int, s.t_max as int),
                },
            )
        },
        Err(f) => Err(f),
    }
}

/// The argument of the temperature command.
pub fn temp_argument(arg: Option<String>) -> (r: Result<String, Fault>)
    ensures
        fault::outcome(r) == needed(
            text::view_option(arg),
            "usage: tclac temp <°C | +N | -N>"@,
        ),
{
    match arg {
        Some(s) => Ok(s),
        None => Err(Fault::plain("usage: tclac temp <°C | +N | -N>")),
    }
}

fn target(s: &AcState) -> (r: i64)
    ensures
        r == target_of(*s),
{
    match &s.target_temp {
        Some(t) => double::rounded(t.bits()),
        None => 24,
    }
}

fn ask_temp(arg: &str, target: i64) -> (r: Result<i128, Fault>)
    ensures
        match r {
            Ok(n) => asked_temp(arg@, target as int) == Ok::<int, fault::FaultView>(n as int),
            Err(f) => asked_temp(arg@, target as int) == Err::<int, fault::FaultView>(f@),
        },
{
    let v = text::chars_of(arg);
    if v.len() > 0 && v[0] == '+' || v.len() > 1 && v[0] == '-' {
        let rest = text::text_of(&v, 1, v.len());
        assert(v@.subrange(1, v@.len() as int) == v@.skip(1));
        match read_number(rest.as_str(), "bad relative temp") {
            Ok(d) => if v[0] == '+' {
                Ok(target as i128 + d as i128)
            } else {
                Ok(target as i128 - d as i128)
            },
            Err(f) => Err(f),
        }
    } else {
        match read_number(arg, "temp must be a number, +N, or -N") {
            Ok(n) => Ok(n as i128),
            Err(f) => Err(f),
        }
    }
}

/// Whether a temperature can be computed for a state.
pub fn temp_fits(arg: &str, s: &AcState) -> (r: bool)
    ensures
        r == temp_computable(arg@, *s),
{
    match ask_temp(arg, target(s)) {
        Ok(n) => i64::MIN as i128 <= n && n <= i64::MAX as i128 && s.t_min <= s.t_max,
        Err(_) => true,
    }
}

pub fn cmd_temp(arg: &str, s: &AcState) -> (r: Result<Order, Fault>)
    requires
        temp_computable(arg@, *s),
    ensures
        fault::outcome(r) == temp_order(arg@, *s),
{
    match ask_temp(arg, target(s)) {
        Ok(n) => {
            let c = device::clamp(n as i64, s.t_min, s.t_max);
            let number = text::dec_i64(c);
            Ok(
                Order {
                    action: text::cat3("temp ", number.as_str(), "C"),
                    desired: device::cmd_temp(c, s.t_min, s.t_max),
                },
            )
        },
        Err(f) => Err(f),
    }
}

// ---------------------------------------------------------------------------
// fan and swing
// ---------------------------------------------------------------------------

pub open spec fn fan_named(arg: Option<Seq<char>>) -> Result<Fan, fault::FaultView> {
    match needed(arg, "usage: tclac fan <auto|1..6|turbo>"@) {
        Err(f) => Err(f),
        Ok(s) => match Fan::of_word(s) {
            Some(f) => Ok(f),
            None => Err(fault::plain("unknown fan speed `"@ + s + "`"@)),
        },
    }
}

/// The speed that the fan command is asked for.
pub fn fan_argument(arg: &Option<String>) -> (r: Result<Fan, Fault>)
    ensures
        match r {
            Ok(f) => fan_named(text::view_option(*arg)) == Ok::<Fan, fault::FaultView>(f),
            Err(e) => fan_named(text::view_option(*arg)) == Err::<Fan, fault::FaultView>(e@),
        },
{
    match arg {
        None => Err(Fault::plain("usage: tclac fan <auto|1..6|turbo>")),
        Some(s) => match Fan::parse(s.as_str()) {
            Some(f) => Ok(f),
            None => Err(Fault::Plain(text::cat3("unknown fan speed `", s.as_str(), "`"))),
        },
    }
}

/// What setting a speed sends, in the dialect of the device.
pub open spec fn fan_order(fan: Fan, dialect: FanDialect) -> OrderView {
    OrderView {
        action: "fan "@ + fan.keyword(),
        desired: json::Json::Object(fan.patch(dialect)),
    }
}

pub fn cmd_fan(fan: Fan, dialect: FanDialect) -> (r: Order)
    ensures
        r@ == fan_order(fan, dialect),
{
    let key = fan.key();
    Order { action: text::cat2("fan ", key.as_str()), desired: fan.desired(dialect) }
}

pub open spec fn swing_name(horizontal: bool) -> Seq<char> {
    if horizontal {
        "hswing"@
    } else {
        "swing"@
    }
}

pub open spec fn swing_order(arg: Option<Seq<char>>, horizontal: bool) -> Result<
    OrderView,
    fault::FaultView,
> {
    let name = swing_name(horizontal);
    match needed(arg, "usage: tclac "@ + name + " <on|off>"@) {
        Err(f) => Err(f),
        Ok(s) => match cli::switch_of(s) {
            None => Err(fault::plain(name + " expects on|off"@)),
            Some(on) => Ok(
                OrderView {
                    action: name + " "@ + cli::on_off(on),
                    desired: device::patch1(
                        if horizontal {
                            "horizontalDirection"@
                        } else {
                            "verticalDirection"@
                        },
                        if on {
                            1
                        } else {
                            8
                        },
                    ),
                },
            ),
        },
    }
}

pub fn cmd_swing(arg: &Option<String>, horizontal: bool) -> (r: Result<Order, Fault>)
    ensures
        fault::outcome(r) == swing_order(text::view_option(*arg), horizontal),
{
    let name = if horizontal {
        "hswing"
    } else {
        "swing"
    };
    match arg {
        None => Err(Fault::Plain(text::cat3("usage: tclac ", name, " <on|off>"))),
        Some(s) => match cli::parse_bool(s.as_str()) {
            None => Err(Fault::Plain(text::cat2(name, " expects on|off"))),
            Some(on) => Ok(
                Order {
                    action: text::cat3(name, " ", cli::onoff(on)),
                    desired: if horizontal {
                        device::cmd_hswing(on)
                    } else {
                        device::cmd_vswing(on)
                    },
                },
            ),
        },
    }
}

// ---------------------------------------------------------------------------
// vanes
// ---------------------------------------------------------------------------

/// The label of an aim point, on either axis.
pub open spec fn vent_name(horizontal: bool, i: int) -> Seq<char> {
    if horizontal {
        device::h_name(i)
    } else {
        device::v_name(i)
    }
}

/// The first aim point from `i` on whose label, without dashes, is a word.
pub open spec fn vent_labelled(horizontal: bool, w: Seq<char>, i: nat) -> Option<nat>
    decreases 5 - i,
{
    if i >= 5 {
        None
    } else if text::undashed(vent_name(horizontal, i as int)) == w {
        Some(i)
    } else {
        vent_labelled(horizontal, w, i + 1)
    }
}

/// The aim point that an argument names: by its place, "1" to "5", or by its
/// label ("mid-left", "midleft"), in any mix of upper and lower case.
pub open spec fn vent_of(horizontal: bool, arg: Seq<char>) -> Option<nat> {
    let w = text::undashed(text::lower(arg));
    match text::parsed_unsigned(arg, u64::MAX as int) {
        Some(n) => if 1 <= n <= 5 {
            Some((n - 1) as nat)
        } else {
            None
        },
        None => vent_labelled(horizontal, w, 0),
    }
}

/// Accept a label ("mid-left", "midleft"), or 1-based index "1".."5".
pub fn parse_vent(horizontal: bool, arg: &str) -> (r: Option<usize>)
    ensures
        match vent_of(horizontal, arg@) {
            Some(i) => r == Some(i as usize) && i < 5,
            None => r is None,
        },
{
    if let Some(n) = text::parse_unsigned(arg, u64::MAX) {
        return if 1 <= n && n <= 5 {
            Some((n - 1) as usize)
        } else {
            None
        };
    }
    let low = text::ascii_lower(arg);
    let w = text::undash(low.as_str());
    let mut i: usize = 0;
    while i < 5
        invariant
            i <= 5,
            w@ == text::undashed(text::lower(arg@)),
            text::parsed_unsigned(arg@, u64::MAX as int) is None,
            vent_labelled(horizontal, w@, 0) == vent_labelled(horizontal, w@, i as nat),
        decreases 5 - i,
    {
        let label = if horizontal {
            device::h_label(i)
        } else {
            device::v_label(i)
        };
        let joined = text::undash(label);
        if text::same(joined.as_str(), w.as_str()) {
            return Some(i);
        }
        i = i + 1;
    }
    None
}

pub open spec fn vent_usage() -> Seq<char> {
    "usage: tclac vent <left|mid-left|center|mid-right|right|1-5> <top|upper|middle|lower|bottom|1-5>"@
}

fn vent_help() -> (r: &'static str)
    ensures
        r@ == vent_usage(),
{
    "usage: tclac vent <left|mid-left|center|mid-right|right|1-5> <top|upper|middle|lower|bottom|1-5>"
}

pub open spec fn vent_order(h: Option<Seq<char>>, v: Option<Seq<char>>) -> Result<
    OrderView,
    fault::FaultView,
> {
    match needed(h, vent_usage()) {
        Err(f) => Err(f),
        Ok(hs) => match needed(v, vent_usage()) {
            Err(f) => Err(f),
            Ok(vs) => match vent_of(true, hs) {
                None => Err(
                    fault::plain("unknown horizontal position `"@ + hs + "`\n"@ + vent_usage()),
                ),
                Some(hi) => match vent_of(false, vs) {
                    None => Err(
                        fault::plain("unknown vertical position `"@ + vs + "`\n"@ + vent_usage()),
                    ),
                    Some(vi) => Ok(
                        OrderView {
                            action: "vent "@ + device::h_name(hi as int) + " · "@ + device::v_name(
                                vi as int,
                            ),
                            desired: device::vent_patch(hi as int, vi as int),
                        },
                    ),
                },
            },
        },
    }
}

/// `tclac vent <h> <v>`: fix both vanes at one of the 5×5 aim points.
pub fn cmd_vent(h: &Option<String>, v: &Option<String>) -> (r: Result<Order, Fault>)
    ensures
        fault::outcome(r) == vent_order(text::view_option(*h), text::view_option(*v)),
{
    match h {
        None => Err(Fault::plain(vent_help())),
        Some(hs) => match v {
            None => Err(Fault::plain(vent_help())),
            Some(vs) => match parse_vent(true, hs.as_str()) {
                None => Err(
                    Fault::Plain(
                        text::cat4(
                            "unknown horizontal position `",
                            hs.as_str(),
                            "`\n",
                            vent_help(),
                        ),
                    ),
                ),
                Some(hi) => match parse_vent(false, vs.as_str()) {
                    None => Err(
                        Fault::Plain(
                            text::cat4(
                                "unknown vertical position `",
                                vs.as_str(),
                                "`\n",
                                vent_help(),
                            ),
                        ),
                    ),
                    Some(vi) => Ok(
                        Order {
                            action: text::cat4(
                                "vent ",
                                device::h_label(hi),
                                " · ",
                                device::v_label(vi),
                            ),
                            desired: device::cmd_vent(hi as i64, vi as i64),
                        },
                    ),
                },
            },
        },
    }
}

// ---------------------------------------------------------------------------
// features
// ---------------------------------------------------------------------------

/// The sleep level that a word names: `on` is the standard one.
pub open spec fn sleep_level(s: Seq<char>) -> Option<i64> {
    let w = text::lower(s);
    if w == "on"@ {
        Some(1)
    } else if w == "off"@ {
        Some(0)
    } else {
        match text::parsed_i64(w) {
            Some(n) => if 0 <= n <= 3 {
                Some(n)
            } else {
                None
            },
            None => None,
        }
    }
}

fn parse_sleep(s: &str) -> (r: Option<i64>)
    ensures
        r == sleep_level(s@),
{
    let low = text::ascii_lower(s);
    let w = low.as_str();
    if text::same(w, "on") {
        Some(1)
    } else if text::same(w, "off") {
        Some(0)
    } else {
        match text::parse_i64(w) {
            Some(n) => if 0 <= n && n <= 3 {
                Some(n)
            } else {
                None
            },
            None => None,
        }
    }
}

pub open spec fn feature_set(name: Seq<char>, val: Seq<char>) -> Result<
    OrderView,
    fault::FaultView,
> {
    if text::lower(name) == "sleep"@ {
        match sleep_level(val) {
            Some(n) => Ok(
                OrderView {
                    action: "sleep "@ + text::dec_int(n as int),
                    desired: device::patch1("sleep"@, n as int),
                },
            ),
            None => Err(fault::plain("sleep expects on|off|0..3"@)),
        }
    } else {
        match cli::switch_of(val) {
            None => Err(fault::plain(name + " expects on|off"@)),
            Some(on) => match cli::field_of(name) {
                None => Err(fault::plain("unknown feature `"@ + name + "`"@)),
                Some(field) => Ok(
                    OrderView {
                        action: name + " "@ + cli::on_off(on),
                        desired: device::patch1(field, device::bit(on)),
                    },
                ),
            },
        }
    }
}

pub open spec fn feature_order(name: Option<Seq<char>>, val: Option<Seq<char>>) -> Result<
    OrderView,
    fault::FaultView,
> {
    match needed(
        name,
        "usage: tclac feature <eco|sleep|health|screen|beep|selfclean|antimold|eightheat> <on|off>"@,
    ) {
        Err(f) => Err(f),
        Ok(n) => match needed(val, "usage: tclac feature "@ + n + " <on|off>"@) {
            Err(f) => Err(f),
            Ok(v) => feature_set(n, v),
        },
    }
}

fn set_feature(name: &str, val: &str) -> (r: Result<Order, Fault>)
    ensures
        fault::outcome(r) == feature_set(name@, val@),
{
    // sleep is multi-level (0..3); on → standard(1)
    let low = text::ascii_lower(name);
    if text::same(low.as_str(), "sleep") {
        return match parse_sleep(val) {
            Some(n) => {
                let number = text::dec_i64(n);
                Ok(
                    Order {
                        action: text::cat2("sleep ", number.as_str()),
                        desired: device::cmd_sleep(n),
                    },
                )
            },
            None => Err(Fault::plain("sleep expects on|off|0..3")),
        };
    }
    match cli::parse_bool(val) {
        None => Err(Fault::Plain(text::cat2(name, " expects on|off"))),
        Some(on) => match cli::feature_field(name) {
            None => Err(Fault::Plain(text::cat3("unknown feature `", name, "`"))),
            Some(field) => Ok(
                Order {
                    action: text::cat3(name, " ", cli::onoff(on)),
                    desired: device::cmd_flag(field, on),
                },
            ),
        },
    }
}

pub fn cmd_feature(name: &Option<String>, val: &Option<String>) -> (r: Result<Order, Fault>)
    ensures
        fault::outcome(r) == feature_order(text::view_option(*name), text::view_option(*val)),
{
    match name {
        None => Err(
            Fault::plain(
                "usage: tclac feature <eco|sleep|health|screen|beep|selfclean|antimold|eightheat> <on|off>",
            ),
        ),
        Some(n) => match val {
            None => Err(
                Fault::Plain(text::cat3("usage: tclac feature ", n.as_str(), " <on|off>")),
            ),
            Some(v) => set_feature(n.as_str(), v.as_str()),
        },
    }
}

} // verus!
