//! Historical consumption and runtime, and the probe of auxiliary endpoints.

use crate::auth;
use crate::cli;
use crate::clock;
use crate::double;
use crate::http;
use crate::json;
use crate::reports;
use crate::rest;
use crate::text;
use auth::Session;
use clock::Today;
use http::Reply;
use reports::Output;
use rest::Device;
use serde_json::Value;
use vstd::prelude::*;

verus! {

// ---------------------------------------------------------------------------
// what to fetch
// ---------------------------------------------------------------------------

/// The address of the data of a device.
pub open spec fn ac_url(base: Seq<char>, id: Seq<char>) -> Seq<char> {
    base + "/v3/ac/"@ + id
}

/// A year and a month, with a mark between.
pub open spec fn month_text(t: Today, mark: Seq<char>) -> Seq<char> {
    text::dec_int(t.year as int) + mark + text::dec2(t.month as nat)
}

fn month(t: Today, mark: &str) -> (r: String)
    ensures
        r@ == month_text(t, mark@),
{
    let y = text::dec_i64(t.year as i64);
    let m = text::dec2_u64(t.month as u64);
    text::cat3(y.as_str(), mark, m.as_str())
}

/// The calls that `energy` makes, and the month that they are about.
pub struct EnergyPlan {
    pub period: String,
    pub consumption: String,
    pub work_time: String,
}

impl EnergyPlan {
    /// Whether this is the plan for a month.
    pub open spec fn is_for(self, base: Seq<char>, id: Seq<char>, t: Today) -> bool {
        &&& self.period@ == month_text(t, "-"@)
        &&& self.consumption@ == ac_url(base, id) + "/power/consumption/info/"@ + month_text(
            t,
            "/"@,
        )
        &&& self.work_time@ == ac_url(base, id) + "/work-time/info/"@ + month_text(t, "/"@)
    }
}

pub fn energy_plan_at(session: &Session, device: &Device, t: Today) -> (r: EnergyPlan)
    ensures
        r.is_for(session@.device_url, device@.device_id, t),
{
    let ac = text::cat3(session.device_url.as_str(), "/v3/ac/", device.device_id.as_str());
    let slashed = month(t, "/");
    EnergyPlan {
        period: month(t, "-"),
        consumption: text::cat3(ac.as_str(), "/power/consumption/info/", slashed.as_str()),
        work_time: text::cat3(ac.as_str(), "/work-time/info/", slashed.as_str()),
    }
}

/// The calls that `energy` makes for the current month.
pub fn energy_plan(session: &Session, device: &Device) -> (r: EnergyPlan)
    ensures
        exists|t: Today|
            t.valid() && #[trigger] r.is_for(session@.device_url, device@.device_id, t),
{
    energy_plan_at(session, device, clock::today())
}

/// The member `data` of a good answer.
pub open spec fn data_in(reply: Reply) -> Option<json::Json> {
    if reply.status != 200 {
        None
    } else {
        match json::json_parsed(reply.body@) {
            Some(j) => json::member(j, "data"@),
            None => None,
        }
    }
}

pub open spec fn value_option(v: Option<Value>) -> Option<json::Json> {
    match v {
        Some(x) => Some(json::json_of(x)),
        None => None,
    }
}

pub fn fetch_json(reply: &Reply) -> (r: Option<Value>)
    ensures
        value_option(r) == data_in(*reply),
{
    if reply.status != 200 {
        return None;
    }
    match json::parse(reply.body.as_str()) {
        Ok(v) => match json::get(&v, "data") {
            Some(d) => Some(json::copy(d)),
            None => None,
        },
        Err(_) => None,
    }
}

// ---------------------------------------------------------------------------
// what to print
// ---------------------------------------------------------------------------

/// The double in a member, or 0.
pub open spec fn amount(section: Option<json::Json>, key: Seq<char>) -> u64 {
    match json::member_of(section, key) {
        Some(x) => match json::as_bits(x) {
            Some(b) => b,
            None => 0,
        },
        None => 0,
    }
}

/// The double in a member, or 0, to two decimals.
pub open spec fn amount_text(section: Option<json::Json>, key: Seq<char>) -> Seq<char> {
    double::fixed_text(amount(section, key), 2)
}

/// The minutes in a member, or 0.
pub open spec fn minutes_text(section: Option<json::Json>, key: Seq<char>) -> Seq<char> {
    cli::worktime_text(
        match json::member_of(section, key) {
            Some(x) => match json::as_int(x) {
                Some(n) => n as int,
                None => 0,
            },
            None => 0,
        },
    )
}

/// The consumption of one day.
pub open spec fn day_line(day: json::Json) -> Seq<char> {
    "      "@ + (match json::member(day, "date"@) {
        Some(json::Json::Text(s)) => s,
        _ => "?"@,
    }) + "  "@ + amount_text(Some(day), "totalElectricity"@)
}

/// The consumption by day, where there is any.
pub open spec fn day_lines(c: json::Json) -> Seq<Seq<char>> {
    match json::member(c, "consumptionDetails"@) {
        Some(json::Json::Array(days)) => if days.len() > 0 {
            seq!["    by day:"@] + days.map_values(|d: json::Json| day_line(d))
        } else {
            seq![]
        },
        _ => seq![],
    }
}

pub open spec fn consumption_lines(cons: Option<json::Json>) -> Seq<Seq<char>> {
    match cons {
        Some(c) => {
            let cur = json::member(c, "currStatisticsRes"@);
            let prev = json::member(c, "beforeStatisticsRes"@);
            seq![
                "  Consumption (kWh)"@,
                "    this month  "@ + amount_text(cur, "totalElectricity"@) + "   (online "@
                    + amount_text(cur, "onlineElectricity"@) + " · offline "@ + amount_text(
                    cur,
                    "offlineElectricity"@,
                ) + " · AI "@ + amount_text(cur, "aiElectricity"@) + ")"@,
                "    last month  "@ + amount_text(prev, "totalElectricity"@),
            ] + day_lines(c)
        },
        None => seq!["  Consumption: (unavailable)"@],
    }
}

pub open spec fn runtime_lines(work: Option<json::Json>) -> Seq<Seq<char>> {
    match work {
        Some(w) => {
            let cur = json::member(w, "currentTotalWorkTime"@);
            let prev = json::member(w, "beforeTotalWorkTime"@);
            seq![
                "  Runtime"@,
                "    this month  "@ + minutes_text(cur, "workTime"@) + "   (AI "@ + minutes_text(
                    cur,
                    "aiWorkTime"@,
                ) + ")"@,
                "    last month  "@ + minutes_text(prev, "workTime"@),
            ]
        },
        None => seq!["  Runtime: (unavailable)"@],
    }
}

pub open spec fn value_or_null(v: Option<json::Json>) -> json::Json {
    match v {
        Some(j) => j,
        None => json::Json::Null,
    }
}

pub open spec fn energy_json(
    id: Seq<char>,
    period: Seq<char>,
    cons: Option<json::Json>,
    work: Option<json::Json>,
) -> json::Json {
    json::Json::Object(
        json::no_members().insert("device_id"@, json::Json::Text(id)).insert(
            "period"@,
            json::Json::Text(period),
        ).insert("consumption"@, value_or_null(cons)).insert("work_time"@, value_or_null(work)),
    )
}

/// What `energy` prints.
pub open spec fn energy_lines(
    json: bool,
    d: rest::DeviceView,
    period: Seq<char>,
    cons: Option<json::Json>,
    work: Option<json::Json>,
) -> Seq<Seq<char>> {
    if json {
        seq![json::json_text(energy_json(d.device_id, period, cons, work))]
    } else {
        seq!["Energy & runtime — "@ + d.shown_name() + " ("@ + period + ")"@] + consumption_lines(
            cons,
        ) + runtime_lines(work)
    }
}

fn section<'a>(v: Option<&'a Value>, key: &str) -> (r: Option<&'a Value>)
    ensures
        json::json_option(r) == json::member_of(json::json_option(v), key@),
{
    match v {
        Some(x) => json::get(x, key),
        None => None,
    }
}

fn show_amount(v: Option<&Value>, key: &str) -> (r: String)
    ensures
        r@ == amount_text(json::json_option(v), key@),
{
    let bits: u64 = match section(v, key) {
        Some(x) => match json::to_bits(x) {
            Some(b) => b,
            None => 0,
        },
        None => 0,
    };
    double::fixed(bits, 2)
}

fn show_minutes(v: Option<&Value>, key: &str) -> (r: String)
    ensures
        r@ == minutes_text(json::json_option(v), key@),
{
    let n: i64 = match section(v, key) {
        Some(x) => match json::to_int(x) {
            Some(m) => m,
            None => 0,
        },
        None => 0,
    };
    cli::fmt_worktime(n)
}

fn show_day(day: &Value) -> (r: String)
    ensures
        r@ == day_line(json::json_of(*day)),
{
    let date = match json::get(day, "date") {
        Some(x) => match json::to_text(x) {
            Some(s) => text::owned(s),
            None => text::owned("?"),
        },
        None => text::owned("?"),
    };
    let used = show_amount(Some(day), "totalElectricity");
    text::cat4("      ", date.as_str(), "  ", used.as_str())
}

fn push_days(out: &mut Output, c: &Value)
    ensures
        final(out)@ == old(out)@ + day_lines(json::json_of(*c)),
{
    let ghost start = out@;
    let days = match json::get(c, "consumptionDetails") {
        Some(d) => json::to_list(d),
        None => None,
    };
    if let Some(list) = days {
        if list.len() > 0 {
            out.push("    by day:");
            let ghost head = out@;
            let ghost all = json::json_all(list@).map_values(|d: json::Json| day_line(d));
            let mut i: usize = 0;
            assert(head + all.take(0) =~= head);
            while i < list.len()
                invariant
                    all == json::json_all(list@).map_values(|d: json::Json| day_line(d)),
                    i <= list@.len(),
                    out@ == head + all.take(i as int),
                decreases list@.len() - i,
            {
                let line = show_day(&list[i]);
                out.push(line.as_str());
                proof {
                    assert(all.take(i + 1) =~= all.take(i as int).push(all[i as int]));
                    assert(head + all.take(i + 1) =~= (head + all.take(i as int)).push(
                        all[i as int],
                    ));
                }
                i = i + 1;
            }
            assert(all.take(all.len() as int) =~= all);
            assert(out@ =~= start + (seq!["    by day:"@] + all));
            return;
        }
    }
    assert(out@ =~= start + Seq::<Seq<char>>::empty());
}

fn this_month(cur: Option<&Value>) -> (r: String)
    ensures
        r@ == "    this month  "@ + amount_text(json::json_option(cur), "totalElectricity"@)
            + "   (online "@ + amount_text(json::json_option(cur), "onlineElectricity"@)
            + " · offline "@ + amount_text(json::json_option(cur), "offlineElectricity"@)
            + " · AI "@ + amount_text(json::json_option(cur), "aiElectricity"@) + ")"@,
{
    let total = show_amount(cur, "totalElectricity");
    let online = show_amount(cur, "onlineElectricity");
    let offline = show_amount(cur, "offlineElectricity");
    let ai = show_amount(cur, "aiElectricity");
    let start = text::cat5(
        "    this month  ",
        total.as_str(),
        "   (online ",
        online.as_str(),
        " · offline ",
    );
    text::cat5(start.as_str(), offline.as_str(), " · AI ", ai.as_str(), ")")
}

fn push_consumption(out: &mut Output, cons: &Option<Value>)
    ensures
        final(out)@ == old(out)@ + consumption_lines(value_option(*cons)),
{
    let ghost start = out@;
    match cons {
        Some(c) => {
            let month = this_month(json::get(c, "currStatisticsRes"));
            let last = show_amount(json::get(c, "beforeStatisticsRes"), "totalElectricity");
            let before = text::cat2("    last month  ", last.as_str());
            out.push("  Consumption (kWh)");
            out.push(month.as_str());
            out.push(before.as_str());
            let ghost head = out@;
            push_days(out, c);
            assert(out@ =~= start + consumption_lines(value_option(*cons)));
        },
        None => {
            out.push("  Consumption: (unavailable)");
            assert(out@ =~= start + seq!["  Consumption: (unavailable)"@]);
        },
    }
}

fn push_runtime(out: &mut Output, work: &Option<Value>)
    ensures
        final(out)@ == old(out)@ + runtime_lines(value_option(*work)),
{
    let ghost start = out@;
    match work {
        Some(w) => {
            let cur = json::get(w, "currentTotalWorkTime");
            let total = show_minutes(cur, "workTime");
            let ai = show_minutes(cur, "aiWorkTime");
            let month = text::cat5("    this month  ", total.as_str(), "   (AI ", ai.as_str(), ")");
            let before = show_minutes(json::get(w, "beforeTotalWorkTime"), "workTime");
            let last = text::cat2("    last month  ", before.as_str());
            out.push("  Runtime");
            out.push(month.as_str());
            out.push(last.as_str());
            assert(out@ =~= start + runtime_lines(value_option(*work)));
        },
        None => {
            out.push("  Runtime: (unavailable)");
            assert(out@ =~= start + seq!["  Runtime: (unavailable)"@]);
        },
    }
}

fn or_null(v: &Option<Value>) -> (r: Value)
    ensures
        json::json_of(r) == value_or_null(value_option(*v)),
{
    match v {
        Some(x) => json::copy(x),
        None => json::null(),
    }
}

pub fn cmd_energy(
    json: bool,
    dev: &Device,
    period: &str,
    cons: &Option<Value>,
    work: &Option<Value>,
) -> (r: Output)
    ensures
        r@ == energy_lines(json, dev@, period@, value_option(*cons), value_option(*work)),
{
    let mut out = Output::new();
    if json {
        let mut m = json::members();
        json::put(&mut m, "device_id", json::from_text(dev.device_id.as_str()));
        json::put(&mut m, "period", json::from_text(period));
        json::put(&mut m, "consumption", or_null(cons));
        json::put(&mut m, "work_time", or_null(work));
        let v = json::object(m);
        let whole = json::print(&v);
        out.push(whole.as_str());
        return out;
    }
    let head = text::cat5("Energy & runtime — ", rest::display_name(dev), " (", period, ")");
    out.push(head.as_str());
    push_consumption(&mut out, cons);
    push_runtime(&mut out, work);
    out
}

// ---------------------------------------------------------------------------
// probe: discover which auxiliary endpoints this account/model exposes
// ---------------------------------------------------------------------------

/// The endpoints that `probe` tries, for a day in a week.
pub open spec fn probe_list(
    base: Seq<char>,
    id: Seq<char>,
    t: Today,
    week: Seq<char>,
) -> Seq<Seq<char>> {
    let ac = ac_url(base, id);
    let y = text::dec_int(t.year as int);
    let ym = month_text(t, "/"@);
    seq![
        ac + "/power/consumption/info/"@ + ym,
        ac + "/power/consumption/info/"@ + y,
        ac + "/power/consumption/info"@,
        ac + "/power/consumption/info/"@ + ym + "/"@ + text::dec2(t.day as nat),
        ac + "/work-time/info"@,
        ac + "/work-time/info?week="@ + week,
        ac + "/work-time/info/"@ + ym,
        ac + "/energy/info/"@ + ym,
        ac + "/power/consumption/info/realtime"@,
        ac + "/power/realtime"@,
        ac + "/power/realtime/info"@,
        ac + "/realtime/power"@,
        ac + "/power/current"@,
        ac + "/electricity/realtime"@,
    ]
}

pub fn probe_urls_at(session: &Session, device: &Device, t: Today, week: &str) -> (r: Output)
    ensures
        r@ == probe_list(session@.device_url, device@.device_id, t, week@),
{
    let base = text::cat3(session.device_url.as_str(), "/v3/ac/", device.device_id.as_str());
    let ac = base.as_str();
    let y = text::dec_i64(t.year as i64);
    let slashed = month(t, "/");
    let ym = slashed.as_str();
    let d = text::dec2_u64(t.day as u64);
    let monthly = text::cat3(ac, "/power/consumption/info/", ym);
    let yearly = text::cat3(ac, "/power/consumption/info/", y.as_str());
    let all = text::cat2(ac, "/power/consumption/info");
    let daily = text::cat3(monthly.as_str(), "/", d.as_str());
    let work = text::cat2(ac, "/work-time/info");
    let work_week = text::cat3(ac, "/work-time/info?week=", week);
    let work_month = text::cat3(ac, "/work-time/info/", ym);
    let energy = text::cat3(ac, "/energy/info/", ym);
    // candidate real-time / instantaneous power endpoints
    let live1 = text::cat2(ac, "/power/consumption/info/realtime");
    let live2 = text::cat2(ac, "/power/realtime");
    let live3 = text::cat2(ac, "/power/realtime/info");
    let live4 = text::cat2(ac, "/realtime/power");
    let live5 = text::cat2(ac, "/power/current");
    let live6 = text::cat2(ac, "/electricity/realtime");
    let mut out = Output::new();
    out.push(monthly.as_str());
    out.push(yearly.as_str());
    out.push(all.as_str());
    out.push(daily.as_str());
    out.push(work.as_str());
    out.push(work_week.as_str());
    out.push(work_month.as_str());
    out.push(energy.as_str());
    out.push(live1.as_str());
    out.push(live2.as_str());
    out.push(live3.as_str());
    out.push(live4.as_str());
    out.push(live5.as_str());
    out.push(live6.as_str());
    out
}

/// Whether these are the endpoints that `probe` tries on a day. There are none
/// where the calendar has no week for it.
pub open spec fn probes_on(r: Option<Output>, base: Seq<char>, id: Seq<char>, t: Today) -> bool {
    match clock::week_of(t) {
        Some(week) => r matches Some(out) && out@ == probe_list(base, id, t, week),
        None => r is None,
    }
}

/// The endpoints that `probe` tries today.
pub fn probe_urls(session: &Session, device: &Device) -> (r: Option<Output>)
    ensures
        exists|t: Today|
            t.valid() && #[trigger] probes_on(r, session@.device_url, device@.device_id, t),
{
    let t = clock::today();
    let r = match clock::week(t) {
        Some(week) => Some(probe_urls_at(session, device, t, week.as_str())),
        None => None,
    };
    assert(probes_on(r, session@.device_url, device@.device_id, t));
    r
}

/// A reply for people: indented where it is JSON, and cut where it is long.
pub open spec fn probe_shown(body: Seq<char>) -> Seq<char> {
    text::clipped(
        match json::json_parsed(body) {
            Some(j) => json::json_pretty(j),
            None => body,
        },
        1500,
    )
}

/// What `probe` prints of an answer.
pub open spec fn probe_told(url: Seq<char>, reply: Reply) -> Seq<char> {
    "── "@ + text::dec(reply.status as nat) + "  "@ + url + "\n"@ + probe_shown(reply.body@)
        + "\n"@
}

pub fn probe_reply(url: &str, reply: &Reply) -> (r: String)
    ensures
        r@ == probe_told(url@, *reply),
{
    let pretty = match json::parse(reply.body.as_str()) {
        Ok(v) => match json::print_pretty(&v) {
            Ok(s) => s,
            Err(_) => text::owned(reply.body.as_str()),
        },
        Err(_) => text::owned(reply.body.as_str()),
    };
    let shown = text::clip(pretty.as_str(), 1500);
    let status = text::dec_u64(reply.status as u64);
    let start = text::cat5("── ", status.as_str(), "  ", url, "\n");
    text::cat3(start.as_str(), shown.as_str(), "\n")
}

/// What `probe` prints of a call that failed.
pub fn probe_failure(url: &str, e: &str) -> (r: String)
    ensures
        r@ == "── ERR  "@ + url@ + "\n"@ + e@ + "\n"@,
{
    text::cat5("── ERR  ", url, "\n", e, "\n")
}

} // verus!
