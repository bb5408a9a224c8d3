//! Laws of the telemetry and of the energy report.

use crate::cli;
use crate::clock;
use crate::device;
use crate::double;
use crate::energy;
use crate::http;
use crate::json;
use crate::laws;
use crate::readouts;
use crate::reports;
use crate::rest;
use crate::state_laws;
use crate::text;
use clock::Today;
use device::AcState;
use http::Reply;
use json::{Json, JsonNumber};
use rest::DeviceView;
use vstd::prelude::*;

verus! {

// ---------------------------------------------------------------------------
// telemetry as JSON
// ---------------------------------------------------------------------------

/// The members of the telemetry of a shadow document.
pub open spec fn telemetry(shadow: Json, id: Seq<char>) -> Map<Seq<char>, Json> {
    laws::members(Some(reports::telemetry_json(shadow, id)))
}

#[verifier::rlimit(100)]
proof fn lemma_telemetry(shadow: Json, id: Seq<char>)
    ensures
        ({
            let m = telemetry(shadow, id);
            &&& m.contains_key("device_id"@) && m["device_id"@] == Json::Text(id)
            &&& m.contains_key("indoor_c"@) && m["indoor_c"@] == json::reading_json(reports::double_of(shadow, "currentTemperature"@))
            &&& m.contains_key("outdoor_c"@) && m["outdoor_c"@] == json::reading_json(reports::double_of(shadow, "externalUnitTemperature"@))
            &&& m.contains_key("coil_c"@) && m["coil_c"@] == json::reading_json(reports::double_of(shadow, "internalUnitCoilTemperature"@))
            &&& m.contains_key("compressor_hz"@) && m["compressor_hz"@] == json::int_or_null(reports::int_of(shadow, "compressorFrequency"@))
            &&& m.contains_key("compressor_target_hz"@) && m["compressor_target_hz"@] == json::int_or_null(reports::int_of(shadow, "OutDoorCompTarFreqSet"@))
            &&& m.contains_key("compressor_run_hz"@) && m["compressor_run_hz"@] == json::int_or_null(reports::int_of(shadow, "OutDoorCompTarFreqRun"@))
            &&& m.contains_key("outdoor_fan_rpm"@) && m["outdoor_fan_rpm"@] == json::int_or_null(reports::int_of(shadow, "OutDoorFanTarSpeed"@))
            &&& m.contains_key("outdoor_fan_speed"@) && m["outdoor_fan_speed"@] == json::int_or_null(reports::int_of(shadow, "externalUnitFanSpeed"@))
            &&& m.contains_key("eev_open_degree"@) && m["eev_open_degree"@] == json::int_or_null(reports::int_of(shadow, "OutDoorEEVTarOpenDegree"@))
            &&& m.contains_key("ptc_heater"@) && m["ptc_heater"@] == json::int_or_null(reports::int_of(shadow, "PTCStatus"@))
            &&& m.contains_key("wind_pct"@) && m["wind_pct"@] == json::int_or_null(reports::int_of(shadow, "windSpeedPercentage"@))
            &&& m.contains_key("est_power_w"@) && m["est_power_w"@] == json::int_or_null(reports::watts_in(shadow))
            &&& m.contains_key("filter_block_status"@) && m["filter_block_status"@] == json::int_or_null(reports::int_of(shadow, "filterBlockStatus"@))
            &&& m.contains_key("filter_clean_notify"@) && m["filter_clean_notify"@] == json::int_or_null(reports::int_of(shadow, "filterBlockNotify"@))
            &&& m.contains_key("self_clean_status"@) && m["self_clean_status"@] == json::int_or_null(reports::int_of(shadow, "selfCleanStatus"@))
            &&& m.contains_key("self_clean_pct"@) && m["self_clean_pct"@] == json::int_or_null(reports::int_of(shadow, "selfCleanPercentage"@))
            &&& m.contains_key("generator_mode"@) && m["generator_mode"@] == json::int_or_null(reports::int_of(shadow, "generatorMode"@))
            &&& m.contains_key("error_codes"@) && m["error_codes"@] == reports::integer_list(reports::error_codes(shadow))
        }),
{
    reveal_strlit("device_id");
    reveal_strlit("indoor_c");
    reveal_strlit("outdoor_c");
    reveal_strlit("coil_c");
    reveal_strlit("compressor_hz");
    reveal_strlit("compressor_target_hz");
    reveal_strlit("compressor_run_hz");
    reveal_strlit("outdoor_fan_rpm");
    reveal_strlit("outdoor_fan_speed");
    reveal_strlit("eev_open_degree");
    reveal_strlit("ptc_heater");
    reveal_strlit("wind_pct");
    reveal_strlit("est_power_w");
    reveal_strlit("filter_block_status");
    reveal_strlit("filter_clean_notify");
    reveal_strlit("self_clean_status");
    reveal_strlit("self_clean_pct");
    reveal_strlit("generator_mode");
    reveal_strlit("error_codes");
    assert("device_id"@.len() == 9);
    assert("indoor_c"@.len() == 8);
    assert("outdoor_c"@.len() == 9);
    assert("coil_c"@.len() == 6);
    assert("compressor_hz"@.len() == 13);
    assert("compressor_target_hz"@.len() == 20);
    assert("compressor_run_hz"@.len() == 17);
    assert("outdoor_fan_rpm"@.len() == 15);
    assert("outdoor_fan_speed"@.len() == 17);
    assert("eev_open_degree"@.len() == 15);
    assert("ptc_heater"@.len() == 10);
    assert("wind_pct"@.len() == 8);
    assert("est_power_w"@.len() == 11);
    assert("filter_block_status"@.len() == 19);
    assert("filter_clean_notify"@.len() == 19);
    assert("self_clean_status"@.len() == 17);
    assert("self_clean_pct"@.len() == 14);
    assert("generator_mode"@.len() == 14);
    assert("error_codes"@.len() == 11);
    assert("device_id"@[0] != "outdoor_c"@[0]);
    assert("indoor_c"@[0] != "wind_pct"@[0]);
    assert("compressor_run_hz"@[0] != "outdoor_fan_speed"@[0]);
    assert("compressor_run_hz"@[0] != "self_clean_status"@[0]);
    assert("outdoor_fan_rpm"@[0] != "eev_open_degree"@[0]);
    assert("outdoor_fan_speed"@[0] != "self_clean_status"@[0]);
    assert("est_power_w"@[1] != "error_codes"@[1]);
    assert("filter_block_status"@[7] != "filter_clean_notify"@[7]);
    assert("self_clean_pct"@[0] != "generator_mode"@[0]);
}

/// A number that the device reports is given under the name of its own sensor,
/// whatever else it reports and whatever it is asked for.
pub proof fn law_telemetry_numbers(
    rep: Map<Seq<char>, Json>,
    des: Map<Seq<char>, Json>,
    version: Json,
    key: Seq<char>,
    n: i64,
    id: Seq<char>,
)
    ensures
        ({
            let m = telemetry(
                state_laws::shadow_of(rep.insert(key, json::whole(n as int)), des, version),
                id,
            );
            let printed = json::whole(n as int);
            &&& m["device_id"@] == Json::Text(id)
            &&& key == "compressorFrequency"@ ==> m["compressor_hz"@] == printed
            &&& key == "OutDoorCompTarFreqSet"@ ==> m["compressor_target_hz"@] == printed
            &&& key == "OutDoorCompTarFreqRun"@ ==> m["compressor_run_hz"@] == printed
            &&& key == "OutDoorFanTarSpeed"@ ==> m["outdoor_fan_rpm"@] == printed
            &&& key == "externalUnitFanSpeed"@ ==> m["outdoor_fan_speed"@] == printed
            &&& key == "OutDoorEEVTarOpenDegree"@ ==> m["eev_open_degree"@] == printed
            &&& key == "PTCStatus"@ ==> m["ptc_heater"@] == printed
            &&& key == "windSpeedPercentage"@ ==> m["wind_pct"@] == printed
            &&& key == "filterBlockStatus"@ ==> m["filter_block_status"@] == printed
            &&& key == "filterBlockNotify"@ ==> m["filter_clean_notify"@] == printed
            &&& key == "selfCleanStatus"@ ==> m["self_clean_status"@] == printed
            &&& key == "selfCleanPercentage"@ ==> m["self_clean_pct"@] == printed
            &&& key == "generatorMode"@ ==> m["generator_mode"@] == printed
        }),
{
    let shadow = state_laws::shadow_of(rep.insert(key, json::whole(n as int)), des, version);
    lemma_telemetry(shadow, id);
    state_laws::lemma_shadow_of(rep.insert(key, json::whole(n as int)), des, version);
}

/// A temperature that the device reports is given under the name of its own
/// sensor, as the status gives it.
pub proof fn law_telemetry_temperatures(
    rep: Map<Seq<char>, Json>,
    des: Map<Seq<char>, Json>,
    version: Json,
    key: Seq<char>,
    t: JsonNumber,
    b: u64,
    id: Seq<char>,
)
    requires
        json::as_bits(Json::Number(t)) == Some(b),
        double::finite(b),
    ensures
        ({
            let m = telemetry(
                state_laws::shadow_of(rep.insert(key, Json::Number(t)), des, version),
                id,
            );
            let printed = Json::Number(JsonNumber::Float(b));
            &&& key == "currentTemperature"@ ==> m["indoor_c"@] == printed
            &&& key == "externalUnitTemperature"@ ==> m["outdoor_c"@] == printed
            &&& key == "internalUnitCoilTemperature"@ ==> m["coil_c"@] == printed
        }),
{
    let shadow = state_laws::shadow_of(rep.insert(key, Json::Number(t)), des, version);
    lemma_telemetry(shadow, id);
    state_laws::lemma_shadow_of(rep.insert(key, Json::Number(t)), des, version);
}

/// What the device does not report is null.
pub proof fn law_telemetry_unknown(
    rep: Map<Seq<char>, Json>,
    des: Map<Seq<char>, Json>,
    version: Json,
    id: Seq<char>,
)
    ensures
        ({
            let m = telemetry(state_laws::shadow_of(rep, des, version), id);
            &&& state_laws::silent(rep, "currentTemperature"@) ==> m["indoor_c"@] == Json::Null
            &&& state_laws::silent(rep, "externalUnitTemperature"@) ==> m["outdoor_c"@] == Json::Null
            &&& state_laws::silent(rep, "internalUnitCoilTemperature"@) ==> m["coil_c"@] == Json::Null
            &&& state_laws::silent(rep, "compressorFrequency"@) ==> m["compressor_hz"@] == Json::Null
            &&& state_laws::silent(rep, "OutDoorCompTarFreqSet"@) ==> m["compressor_target_hz"@] == Json::Null
            &&& state_laws::silent(rep, "OutDoorCompTarFreqRun"@) ==> m["compressor_run_hz"@] == Json::Null
            &&& state_laws::silent(rep, "OutDoorFanTarSpeed"@) ==> m["outdoor_fan_rpm"@] == Json::Null
            &&& state_laws::silent(rep, "externalUnitFanSpeed"@) ==> m["outdoor_fan_speed"@] == Json::Null
            &&& state_laws::silent(rep, "OutDoorEEVTarOpenDegree"@) ==> m["eev_open_degree"@] == Json::Null
            &&& state_laws::silent(rep, "PTCStatus"@) ==> m["ptc_heater"@] == Json::Null
            &&& state_laws::silent(rep, "windSpeedPercentage"@) ==> m["wind_pct"@] == Json::Null
            &&& state_laws::silent(rep, "filterBlockStatus"@) ==> m["filter_block_status"@] == Json::Null
            &&& state_laws::silent(rep, "filterBlockNotify"@) ==> m["filter_clean_notify"@] == Json::Null
            &&& state_laws::silent(rep, "selfCleanStatus"@) ==> m["self_clean_status"@] == Json::Null
            &&& state_laws::silent(rep, "selfCleanPercentage"@) ==> m["self_clean_pct"@] == Json::Null
            &&& state_laws::silent(rep, "generatorMode"@) ==> m["generator_mode"@] == Json::Null
            &&& state_laws::silent(rep, "compressorFrequency"@) ==> m["est_power_w"@] == Json::Null
            &&& state_laws::silent(rep, "errorCode"@) ==> m["error_codes"@] == Json::Array(
                Seq::<Json>::empty(),
            )
        }),
{
    let shadow = state_laws::shadow_of(rep, des, version);
    lemma_telemetry(shadow, id);
    state_laws::lemma_shadow_of(rep, des, version);
    let none = Seq::<i64>::empty();
    assert(none.map_values(|n: i64| json::whole(n as int)) =~= Seq::<Json>::empty());
}

proof fn lemma_plain_integers(v: Seq<i64>)
    ensures
        reports::plain_integers(v.map_values(|n: i64| json::whole(n as int))) == v,
    decreases v.len(),
{
    let all = v.map_values(|n: i64| json::whole(n as int));
    if v.len() > 0 {
        lemma_plain_integers(v.drop_last());
        assert(all.drop_last() =~= v.drop_last().map_values(|n: i64| json::whole(n as int)));
        assert(all.last() == json::whole(v.last() as int));
        assert(v.drop_last().push(v.last()) =~= v);
    } else {
        assert(reports::plain_integers(all) =~= v);
    }
}

/// The error codes of the device are given as it lists them.
pub proof fn law_telemetry_errors(
    rep: Map<Seq<char>, Json>,
    des: Map<Seq<char>, Json>,
    version: Json,
    codes: Seq<i64>,
    id: Seq<char>,
    d: DeviceView,
)
    ensures
        ({
            let shadow = state_laws::shadow_of(
                rep.insert("errorCode"@, state_laws::listing(codes)),
                des,
                version,
            );
            &&& telemetry(shadow, id)["error_codes"@] == state_laws::listing(codes)
            &&& codes.len() == 0 ==> reports::telemetry_lines(shadow, d)[16]
                == "    errors        "@ + "none"@
            &&& codes.len() > 0 ==> reports::telemetry_lines(shadow, d)[16]
                == "    errors        "@ + readouts::list_text(codes)
        }),
{
    let said = rep.insert("errorCode"@, state_laws::listing(codes));
    let shadow = state_laws::shadow_of(said, des, version);
    lemma_telemetry(shadow, id);
    state_laws::lemma_shadow_of(said, des, version);
    lemma_plain_integers(codes);
}

/// The estimated power is that of the state that the document gives: nothing
/// while the unit is off, and else 45 W and 20 W per Hz.
pub proof fn law_telemetry_power(shadow: Json, st: AcState, id: Seq<char>, d: DeviceView)
    requires
        st.reads(shadow),
        st.compressor_hz matches Some(hz) && 0 <= hz <= 0x100_0000_0000,
    ensures
        ({
            let w: int = if st.power {
                45 + 20 * st.compressor_hz->0
            } else {
                0
            };
            &&& st.estimated_watts() == Some(w as i64)
            &&& telemetry(shadow, id)["est_power_w"@] == json::whole(w)
            &&& reports::telemetry_lines(shadow, d)[10] == "    est. power    ~"@
                + device::power_text(w)
                + " (estimated from compressor Hz — not a meter reading)"@
        }),
{
    lemma_telemetry(shadow, id);
    laws::law_power_estimate(st.compressor_hz->0 as int);
}

// ---------------------------------------------------------------------------
// telemetry for people
// ---------------------------------------------------------------------------

/// The telemetry for people has seventeen lines, and shows each number on the
/// line of its own sensor.
pub proof fn law_telemetry_lines(
    rep: Map<Seq<char>, Json>,
    des: Map<Seq<char>, Json>,
    version: Json,
    key: Seq<char>,
    n: i64,
    d: DeviceView,
)
    ensures
        ({
            let shadow = state_laws::shadow_of(
                rep.insert(key, json::whole(n as int)),
                des,
                version,
            );
            let l = reports::telemetry_lines(shadow, d);
            let t = text::dec_int(n as int);
            let other = |k: Seq<char>| cli::number_or_dash(reports::int_of(shadow, k));
            &&& l.len() == 17
            &&& key == "compressorFrequency"@ ==> l[6] == "    compressor    "@ + t
                + " Hz  (target "@ + other("OutDoorCompTarFreqSet"@) + " / run "@ + other(
                "OutDoorCompTarFreqRun"@,
            ) + ")"@
            &&& key == "OutDoorCompTarFreqSet"@ ==> l[6] == "    compressor    "@ + other(
                "compressorFrequency"@,
            ) + " Hz  (target "@ + t + " / run "@ + other("OutDoorCompTarFreqRun"@) + ")"@
            &&& key == "OutDoorCompTarFreqRun"@ ==> l[6] == "    compressor    "@ + other(
                "compressorFrequency"@,
            ) + " Hz  (target "@ + other("OutDoorCompTarFreqSet"@) + " / run "@ + t + ")"@
            &&& key == "externalUnitFanSpeed"@ ==> l[7] == "    outdoor fan   speed "@ + t
                + " / target "@ + other("OutDoorFanTarSpeed"@)
            &&& key == "OutDoorFanTarSpeed"@ ==> l[7] == "    outdoor fan   speed "@ + other(
                "externalUnitFanSpeed"@,
            ) + " / target "@ + t
            &&& key == "OutDoorEEVTarOpenDegree"@ ==> l[8] == "    EEV opening   "@ + t
            &&& key == "PTCStatus"@ && n != 0 ==> l[9] == "    PTC heater    "@ + "on"@
            &&& key == "PTCStatus"@ && n == 0 ==> l[9] == "    PTC heater    "@ + "off"@
            &&& key == "windSpeedPercentage"@ ==> l[12] == "    wind output   "@ + t + " %"@
            &&& key == "filterBlockStatus"@ && n != 0 ==> l[13] == "    filter        "@
                + "CLEAN NEEDED"@
            &&& key == "filterBlockNotify"@ && n != 0 ==> l[13] == "    filter        "@
                + "CLEAN NEEDED"@
            &&& state_laws::silent(rep, "filterBlockStatus"@) && state_laws::silent(
                rep,
                "filterBlockNotify"@,
            ) && (n == 0 || (key != "filterBlockStatus"@ && key != "filterBlockNotify"@))
                ==> l[13] == "    filter        "@ + "ok"@
            &&& key == "selfCleanStatus"@ ==> l[14] == "    self-clean    status "@ + t + " · "@
                + other("selfCleanPercentage"@) + "%"@
            &&& key == "selfCleanPercentage"@ ==> l[14] == "    self-clean    status "@ + other(
                "selfCleanStatus"@,
            ) + " · "@ + t + "%"@
        }),
{
    state_laws::lemma_shadow_of(rep.insert(key, json::whole(n as int)), des, version);
}

/// A temperature stands on the line of its own sensor, to one decimal.
pub proof fn law_telemetry_temperature_lines(
    rep: Map<Seq<char>, Json>,
    des: Map<Seq<char>, Json>,
    version: Json,
    key: Seq<char>,
    t: JsonNumber,
    b: u64,
    d: DeviceView,
)
    requires
        json::as_bits(Json::Number(t)) == Some(b),
    ensures
        ({
            let l = reports::telemetry_lines(
                state_laws::shadow_of(rep.insert(key, Json::Number(t)), des, version),
                d,
            );
            let shown = double::fixed_text(b, 1);
            &&& key == "currentTemperature"@ ==> l[2] == "    indoor        "@ + shown + " °C"@
            &&& key == "externalUnitTemperature"@ ==> l[3] == "    outdoor       "@ + shown
                + " °C"@
            &&& key == "internalUnitCoilTemperature"@ ==> l[4] == "    indoor coil   "@ + shown
                + " °C"@
        }),
{
    state_laws::lemma_shadow_of(rep.insert(key, Json::Number(t)), des, version);
}

// ---------------------------------------------------------------------------
// work times
// ---------------------------------------------------------------------------

/// Whether a text says a number of minutes, in hours and minutes; none at all is
/// a bare zero.
pub open spec fn spells(t: Seq<char>, minutes: int) -> bool {
    &&& minutes <= 0 ==> t == "0"@
    &&& 0 < minutes < 60 ==> t == text::dec(minutes as nat) + "m"@
    &&& minutes >= 60 ==> exists|h: nat, m: nat|
        #![trigger text::dec(h), text::dec(m)]
        60 * h + m == minutes && m < 60 && t == text::dec(h) + "h "@ + text::dec(m) + "m"@
}

/// A work time is told in hours and minutes that add up to it.
pub proof fn law_worktime_is_spelled(n: int)
    ensures
        spells(cli::worktime_text(n), n),
{
    if n >= 60 {
        let h = (n / 60) as nat;
        let m = (n % 60) as nat;
        assert(60 * h + m == n && m < 60);
        assert(cli::worktime_text(n) == text::dec(h) + "h "@ + text::dec(m) + "m"@);
    }
}

/// The runtime of last month is the work time of the month before, in hours and
/// minutes, and stands last, whatever else the answer says.
pub proof fn law_runtime_of_last_month(
    w: Map<Seq<char>, Json>,
    prev: Map<Seq<char>, Json>,
    n: i64,
)
    ensures
        ({
            let doc = Json::Object(
                w.insert(
                    "beforeTotalWorkTime"@,
                    Json::Object(prev.insert("workTime"@, json::whole(n as int))),
                ),
            );
            let l = energy::runtime_lines(Some(doc));
            &&& l.len() == 3
            &&& l[0] == "  Runtime"@
            &&& exists|t: Seq<char>|
                #[trigger] spells(t, n as int) && l.last() == "    last month  "@ + t
        }),
{
    law_worktime_is_spelled(n as int);
}

/// The runtime of this month is its work time, with that under control of the AI
/// in brackets.
pub proof fn law_runtime_of_this_month(
    w: Map<Seq<char>, Json>,
    cur: Map<Seq<char>, Json>,
    n: i64,
    ai: i64,
)
    ensures
        ({
            let doc = Json::Object(
                w.insert(
                    "currentTotalWorkTime"@,
                    Json::Object(
                        cur.insert("workTime"@, json::whole(n as int)).insert(
                            "aiWorkTime"@,
                            json::whole(ai as int),
                        ),
                    ),
                ),
            );
            exists|t: Seq<char>, u: Seq<char>|
                #![trigger spells(t, n as int), spells(u, ai as int)]
                spells(t, n as int) && spells(u, ai as int) && energy::runtime_lines(Some(doc))[1]
                    == "    this month  "@ + t + "   (AI "@ + u + ")"@
        }),
        energy::runtime_lines(None) == seq!["  Runtime: (unavailable)"@],
{
    reveal_strlit("workTime");
    reveal_strlit("aiWorkTime");
    assert("workTime"@.len() != "aiWorkTime"@.len());
    law_worktime_is_spelled(n as int);
    law_worktime_is_spelled(ai as int);
}

/// The two months of the runtime do not mix: each line rests on its own section.
pub proof fn law_runtime_months_are_apart(
    w: Map<Seq<char>, Json>,
    a: Json,
    b: Json,
)
    ensures
        energy::runtime_lines(Some(Json::Object(w.insert("beforeTotalWorkTime"@, a))))[1]
            == energy::runtime_lines(Some(Json::Object(w.insert("beforeTotalWorkTime"@, b))))[1],
        energy::runtime_lines(Some(Json::Object(w.insert("currentTotalWorkTime"@, a))))[2]
            == energy::runtime_lines(Some(Json::Object(w.insert("currentTotalWorkTime"@, b))))[2],
{
    reveal_strlit("beforeTotalWorkTime");
    reveal_strlit("currentTotalWorkTime");
    assert("beforeTotalWorkTime"@.len() != "currentTotalWorkTime"@.len());
}

// ---------------------------------------------------------------------------
// consumption
// ---------------------------------------------------------------------------

/// The consumption of this month is its total, with what was used online,
/// offline and under control of the AI in brackets, each to two decimals.
pub proof fn law_consumption_of_this_month(
    c: Map<Seq<char>, Json>,
    cur: Map<Seq<char>, Json>,
    total: u64,
    online: u64,
    offline: u64,
    ai: u64,
)
    ensures
        ({
            let float = |b: u64| Json::Number(JsonNumber::Float(b));
            let doc = Json::Object(
                c.insert(
                    "currStatisticsRes"@,
                    Json::Object(
                        cur.insert("totalElectricity"@, float(total)).insert(
                            "onlineElectricity"@,
                            float(online),
                        ).insert("offlineElectricity"@, float(offline)).insert(
                            "aiElectricity"@,
                            float(ai),
                        ),
                    ),
                ),
            );
            let l = energy::consumption_lines(Some(doc));
            &&& l.len() >= 3
            &&& l[0] == "  Consumption (kWh)"@
            &&& l[1] == "    this month  "@ + double::fixed_text(total, 2) + "   (online "@
                + double::fixed_text(online, 2) + " · offline "@ + double::fixed_text(offline, 2)
                + " · AI "@ + double::fixed_text(ai, 2) + ")"@
        }),
        energy::consumption_lines(None) == seq!["  Consumption: (unavailable)"@],
{
    reveal_strlit("totalElectricity");
    reveal_strlit("onlineElectricity");
    reveal_strlit("offlineElectricity");
    reveal_strlit("aiElectricity");
    assert("totalElectricity"@.len() == 16);
    assert("onlineElectricity"@.len() == 17);
    assert("offlineElectricity"@.len() == 18);
    assert("aiElectricity"@.len() == 13);
}

/// The consumption of last month is the total of the month before, whatever else
/// the answer says.
pub proof fn law_consumption_of_last_month(
    c: Map<Seq<char>, Json>,
    prev: Map<Seq<char>, Json>,
    total: u64,
)
    ensures
        ({
            let doc = Json::Object(
                c.insert(
                    "beforeStatisticsRes"@,
                    Json::Object(
                        prev.insert(
                            "totalElectricity"@,
                            Json::Number(JsonNumber::Float(total)),
                        ),
                    ),
                ),
            );
            energy::consumption_lines(Some(doc))[2] == "    last month  "@ + double::fixed_text(
                total,
                2,
            )
        }),
{
}

proof fn lemma_consumption_head(c: Json)
    ensures
        ({
            let l = energy::consumption_lines(Some(c));
            let cur = json::member(c, "currStatisticsRes"@);
            let prev = json::member(c, "beforeStatisticsRes"@);
            &&& l.len() >= 3
            &&& l[1] == "    this month  "@ + energy::amount_text(cur, "totalElectricity"@)
                + "   (online "@ + energy::amount_text(cur, "onlineElectricity"@) + " · offline "@
                + energy::amount_text(cur, "offlineElectricity"@) + " · AI "@
                + energy::amount_text(cur, "aiElectricity"@) + ")"@
            &&& l[2] == "    last month  "@ + energy::amount_text(prev, "totalElectricity"@)
        }),
{
}

/// The two months of the consumption do not mix: each line rests on its own
/// section.
pub proof fn law_consumption_months_are_apart(
    c: Map<Seq<char>, Json>,
    a: Json,
    b: Json,
)
    ensures
        energy::consumption_lines(Some(Json::Object(c.insert("beforeStatisticsRes"@, a))))[1]
            == energy::consumption_lines(
            Some(Json::Object(c.insert("beforeStatisticsRes"@, b))),
        )[1],
        energy::consumption_lines(Some(Json::Object(c.insert("currStatisticsRes"@, a))))[2]
            == energy::consumption_lines(
            Some(Json::Object(c.insert("currStatisticsRes"@, b))),
        )[2],
{
    reveal_strlit("beforeStatisticsRes");
    reveal_strlit("currStatisticsRes");
    reveal_strlit("consumptionDetails");
    assert("beforeStatisticsRes"@.len() != "currStatisticsRes"@.len());
    assert("consumptionDetails"@.len() == 18);
    let before = |x: Json| Json::Object(c.insert("beforeStatisticsRes"@, x));
    let now = |x: Json| Json::Object(c.insert("currStatisticsRes"@, x));
    assert(json::member(before(a), "currStatisticsRes"@) == json::member(
        before(b),
        "currStatisticsRes"@,
    ));
    assert(json::member(now(a), "beforeStatisticsRes"@) == json::member(
        now(b),
        "beforeStatisticsRes"@,
    ));
    lemma_consumption_head(before(a));
    lemma_consumption_head(before(b));
    lemma_consumption_head(now(a));
    lemma_consumption_head(now(b));
}

/// Every day of the answer has a line, in its order, with its date and its
/// consumption.
pub proof fn law_consumption_by_day(
    c: Map<Seq<char>, Json>,
    days: Seq<Json>,
    i: int,
    day: Map<Seq<char>, Json>,
    date: Seq<char>,
    used: u64,
)
    requires
        0 <= i < days.len(),
        days[i] == Json::Object(
            day.insert("date"@, Json::Text(date)).insert(
                "totalElectricity"@,
                Json::Number(JsonNumber::Float(used)),
            ),
        ),
    ensures
        ({
            let l = energy::consumption_lines(
                Some(Json::Object(c.insert("consumptionDetails"@, Json::Array(days)))),
            );
            &&& l.len() == 4 + days.len()
            &&& l[3] == "    by day:"@
            &&& l[4 + i] == "      "@ + date + "  "@ + double::fixed_text(used, 2)
        }),
{
    reveal_strlit("date");
    reveal_strlit("totalElectricity");
    assert("date"@.len() != "totalElectricity"@.len());
}

// ---------------------------------------------------------------------------
// the report and its calls
// ---------------------------------------------------------------------------

/// The report names the device and the month, then the consumption, then the
/// runtime; as JSON it holds both answers as they are.
pub proof fn law_energy_report(
    d: DeviceView,
    period: Seq<char>,
    cons: Option<Json>,
    work: Option<Json>,
)
    ensures
        ({
            let name = if d.nick_name.len() > 0 {
                d.nick_name
            } else {
                d.device_name
            };
            let l = energy::energy_lines(false, d, period, cons, work);
            let n = energy::consumption_lines(cons).len() as int;
            &&& l[0] == "Energy & runtime — "@ + name + " ("@ + period + ")"@
            &&& l.subrange(1, 1 + n) == energy::consumption_lines(cons)
            &&& l.skip(1 + n) == energy::runtime_lines(work)
        }),
        ({
            let m = laws::members(Some(energy::energy_json(d.device_id, period, cons, work)));
            &&& energy::energy_lines(true, d, period, cons, work) == seq![
                json::json_text(Json::Object(m)),
            ]
            &&& m["device_id"@] == Json::Text(d.device_id)
            &&& m["period"@] == Json::Text(period)
            &&& m["consumption"@] == (match cons {
                Some(c) => c,
                None => Json::Null,
            })
            &&& m["work_time"@] == (match work {
                Some(w) => w,
                None => Json::Null,
            })
        }),
{
    reveal_strlit("device_id");
    reveal_strlit("period");
    reveal_strlit("consumption");
    reveal_strlit("work_time");
    assert("device_id"@.len() == 9);
    assert("period"@.len() == 6);
    assert("consumption"@.len() == 11);
    assert("work_time"@.len() == 9);
    assert("device_id"@[0] != "work_time"@[0]);
    let l = energy::energy_lines(false, d, period, cons, work);
    let n = energy::consumption_lines(cons).len() as int;
    assert(l.subrange(1, 1 + n) =~= energy::consumption_lines(cons));
    assert(l.skip(1 + n) =~= energy::runtime_lines(work));
}

/// Both calls are about the device and about the month that the report names.
pub proof fn law_energy_calls(p: energy::EnergyPlan, base: Seq<char>, id: Seq<char>, t: Today)
    requires
        p.is_for(base, id, t),
        1 <= t.month <= 12,
    ensures
        ({
            let y = text::dec_int(t.year as int);
            let m = if t.month < 10 {
                seq!['0'] + text::dec(t.month as nat)
            } else {
                text::dec(t.month as nat)
            };
            &&& p.period@ == y + "-"@ + m
            &&& p.consumption@ == base + "/v3/ac/"@ + id + "/power/consumption/info/"@ + (y
                + "/"@ + m)
            &&& p.work_time@ == base + "/v3/ac/"@ + id + "/work-time/info/"@ + (y + "/"@ + m)
        }),
{
    reveal_strlit("0");
    assert("0"@ =~= seq!['0']);
}

/// Only the data of a good answer counts.
pub proof fn law_only_good_answers_count(reply: Reply)
    ensures
        reply.status != 200 ==> energy::data_in(reply) is None,
        reply.status == 200 && json::json_parsed(reply.body@) is None ==> energy::data_in(
            reply,
        ) is None,
        reply.status == 200 ==> (json::json_parsed(reply.body@) matches Some(j)
            ==> energy::data_in(reply) == json::member(j, "data"@)),
{
}

/// Every endpoint that is probed is one of the device; the calls of the energy
/// report are among them, and so is that for the week.
pub proof fn law_probes_are_of_the_device(
    base: Seq<char>,
    id: Seq<char>,
    t: Today,
    week: Seq<char>,
    i: int,
    p: energy::EnergyPlan,
)
    requires
        0 <= i < energy::probe_list(base, id, t, week).len(),
        p.is_for(base, id, t),
    ensures
        ({
            let l = energy::probe_list(base, id, t, week);
            &&& l.len() == 14
            &&& text::has_prefix(l[i], base + "/v3/ac/"@ + id)
            &&& l.contains(p.consumption@)
            &&& l.contains(p.work_time@)
            &&& l.contains(base + "/v3/ac/"@ + id + "/work-time/info?week="@ + week)
        }),
{
    let ac = base + "/v3/ac/"@ + id;
    let l = energy::probe_list(base, id, t, week);
    assert(l[i].subrange(0, ac.len() as int) =~= ac);
    assert(l[0] == p.consumption@);
    assert(l[6] == p.work_time@);
    assert(l[5] == ac + "/work-time/info?week="@ + week);
}

/// What is printed of a probe names its address and its status, and shows the
/// answer as it is, or laid out where it is JSON, up to 1500 characters.
pub proof fn law_probe_answer(url: Seq<char>, reply: Reply)
    ensures
        ({
            let body = match json::json_parsed(reply.body@) {
                Some(j) => json::json_pretty(j),
                None => reply.body@,
            };
            let head = "── "@ + text::dec(reply.status as nat) + "  "@ + url + "\n"@;
            &&& body.len() <= 1500 ==> energy::probe_told(url, reply) == head + body + "\n"@
            &&& body.len() > 1500 ==> energy::probe_told(url, reply) == head + (body.take(1500)
                + "…"@) + "\n"@
        }),
{
}

/// A week runs from the Monday on or before a day to the Sunday six days later.
pub proof fn law_week(t: Today, monday: (i32, u32, u32), sunday: (i32, u32, u32))
    requires
        t.weekday <= 6,
        clock::date_after(t.year, t.month, t.day, (0 - t.weekday) as i64) == Some(monday),
        clock::date_after(t.year, t.month, t.day, (6 - t.weekday) as i64) == Some(sunday),
    ensures
        clock::week_of(t) == Some(clock::date_text(monday) + "-"@ + clock::date_text(sunday)),
{
}

/// A day of the usual years is written with eight digits: four of the year, two
/// of the month and two of the day.
pub proof fn law_date(year: i32, month: u32, day: u32)
    requires
        1000 <= year <= 9999,
        10 <= month <= 12,
        10 <= day <= 31,
    ensures
        clock::date_text((year, month, day)) == text::dec(year as nat) + text::dec(month as nat)
            + text::dec(day as nat),
        clock::date_text((year, (month - 9) as u32, (day - 9) as u32)) == text::dec(year as nat)
            + (seq!['0'] + text::dec((month - 9) as nat)) + text::dec2((day - 9) as nat),
{
    reveal_strlit("0");
    assert("0"@ =~= seq!['0']);
    assert(text::dec(year as nat).len() == 4) by {
        reveal_with_fuel(text::dec, 5);
    }
    assert(text::repeated("0"@, 0) =~= Seq::<char>::empty());
    assert(text::zero_padded(text::dec(year as nat), 4) =~= text::dec(year as nat));
}

} // verus!
