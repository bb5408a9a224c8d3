//! Laws of what the commands print of a state: each value comes from its own
//! field of the shadow, and the forms in which it is printed agree.

use crate::cli;
use crate::device;
use crate::double;
use crate::fault;
use crate::json;
use crate::reports;
use crate::rest;
use crate::state_laws;
use crate::text;
use device::{AcState, Mode};
use json::{Json, JsonNumber};
use rest::DeviceView;
use vstd::prelude::*;

verus! {

// ---------------------------------------------------------------------------
// the status as JSON
// ---------------------------------------------------------------------------

#[verifier::rlimit(100)]
proof fn lemma_state_members(s: AcState, d: DeviceView)
    ensures
        ({
            let m = reports::state_members(s, d);
            &&& m.contains_key("device_id"@) && m["device_id"@] == Json::Text(d.device_id)
            &&& m.contains_key("name"@) && m["name"@] == Json::Text(d.shown_name())
            &&& m.contains_key("device_type"@) && m["device_type"@] == Json::Text(d.device_name)
            &&& m.contains_key("online"@) && m["online"@] == Json::Bool(d.is_online)
            &&& m.contains_key("power"@) && m["power"@] == Json::Bool(s.power)
            &&& m.contains_key("mode"@) && m["mode"@] == (match device::Mode::of_code(s.work_mode as int) {
            Some(m) => Json::Text(m.keyword()),
            None => Json::Null,
        })
            &&& m.contains_key("work_mode"@) && m["work_mode"@] == json::whole(s.work_mode as int)
            &&& m.contains_key("target_c"@) && m["target_c"@] == json::reading_json(json::reading_bits(s.target_temp))
            &&& m.contains_key("target_f"@) && m["target_f"@] == json::int_or_null(s.target_f)
            &&& m.contains_key("current_c"@) && m["current_c"@] == json::reading_json(json::reading_bits(s.current_temp))
            &&& m.contains_key("outdoor_c"@) && m["outdoor_c"@] == json::reading_json(json::reading_bits(s.external_temp))
            &&& m.contains_key("coil_c"@) && m["coil_c"@] == json::reading_json(json::reading_bits(s.coil_temp))
            &&& m.contains_key("compressor_hz"@) && m["compressor_hz"@] == json::int_or_null(s.compressor_hz)
            &&& m.contains_key("fan"@) && m["fan"@] == Json::Text(s.fan.keyword())
            &&& m.contains_key("fan_gear"@) && m["fan_gear"@] == json::whole(s.fan.level() as int)
            &&& m.contains_key("wind_pct"@) && m["wind_pct"@] == json::int_or_null(s.wind_pct)
            &&& m.contains_key("v_swing"@) && m["v_swing"@] == Json::Bool(1 <= s.v_dir <= 3)
            &&& m.contains_key("h_swing"@) && m["h_swing"@] == Json::Bool(1 <= s.h_dir <= 4)
            &&& m.contains_key("v_dir"@) && m["v_dir"@] == json::whole(s.v_dir as int)
            &&& m.contains_key("h_dir"@) && m["h_dir"@] == json::whole(s.h_dir as int)
            &&& m.contains_key("eco"@) && m["eco"@] == Json::Bool(s.eco)
            &&& m.contains_key("sleep"@) && m["sleep"@] == json::whole(s.sleep as int)
            &&& m.contains_key("healthy"@) && m["healthy"@] == Json::Bool(s.healthy)
            &&& m.contains_key("screen"@) && m["screen"@] == Json::Bool(s.screen)
            &&& m.contains_key("beep"@) && m["beep"@] == Json::Bool(s.beep)
            &&& m.contains_key("self_clean"@) && m["self_clean"@] == Json::Bool(s.self_clean)
            &&& m.contains_key("anti_mold"@) && m["anti_mold"@] == Json::Bool(s.anti_mold)
            &&& m.contains_key("eight_heat"@) && m["eight_heat"@] == Json::Bool(s.eight_heat)
            &&& m.contains_key("temp_min"@) && m["temp_min"@] == json::whole(s.t_min as int)
            &&& m.contains_key("temp_max"@) && m["temp_max"@] == json::whole(s.t_max as int)
            &&& m.contains_key("shadow_version"@) && m["shadow_version"@] == json::whole(s.shadow_version as int)
        }),
{
    reveal_strlit("device_id");
    reveal_strlit("name");
    reveal_strlit("device_type");
    reveal_strlit("online");
    reveal_strlit("power");
    reveal_strlit("mode");
    reveal_strlit("work_mode");
    reveal_strlit("target_c");
    reveal_strlit("target_f");
    reveal_strlit("current_c");
    reveal_strlit("outdoor_c");
    reveal_strlit("coil_c");
    reveal_strlit("compressor_hz");
    reveal_strlit("fan");
    reveal_strlit("fan_gear");
    reveal_strlit("wind_pct");
    reveal_strlit("v_swing");
    reveal_strlit("h_swing");
    reveal_strlit("v_dir");
    reveal_strlit("h_dir");
    reveal_strlit("eco");
    reveal_strlit("sleep");
    reveal_strlit("healthy");
    reveal_strlit("screen");
    reveal_strlit("beep");
    reveal_strlit("self_clean");
    reveal_strlit("anti_mold");
    reveal_strlit("eight_heat");
    reveal_strlit("temp_min");
    reveal_strlit("temp_max");
    reveal_strlit("shadow_version");
    assert("device_id"@.len() == 9);
    assert("name"@.len() == 4);
    assert("device_type"@.len() == 11);
    assert("online"@.len() == 6);
    assert("power"@.len() == 5);
    assert("mode"@.len() == 4);
    assert("work_mode"@.len() == 9);
    assert("target_c"@.len() == 8);
    assert("target_f"@.len() == 8);
    assert("current_c"@.len() == 9);
    assert("outdoor_c"@.len() == 9);
    assert("coil_c"@.len() == 6);
    assert("compressor_hz"@.len() == 13);
    assert("fan"@.len() == 3);
    assert("fan_gear"@.len() == 8);
    assert("wind_pct"@.len() == 8);
    assert("v_swing"@.len() == 7);
    assert("h_swing"@.len() == 7);
    assert("v_dir"@.len() == 5);
    assert("h_dir"@.len() == 5);
    assert("eco"@.len() == 3);
    assert("sleep"@.len() == 5);
    assert("healthy"@.len() == 7);
    assert("screen"@.len() == 6);
    assert("beep"@.len() == 4);
    assert("self_clean"@.len() == 10);
    assert("anti_mold"@.len() == 9);
    assert("eight_heat"@.len() == 10);
    assert("temp_min"@.len() == 8);
    assert("temp_max"@.len() == 8);
    assert("shadow_version"@.len() == 14);
    assert("device_id"@[0] != "work_mode"@[0]);
    assert("device_id"@[0] != "current_c"@[0]);
    assert("device_id"@[0] != "outdoor_c"@[0]);
    assert("device_id"@[0] != "anti_mold"@[0]);
    assert("name"@[0] != "mode"@[0]);
    assert("name"@[0] != "beep"@[0]);
    assert("online"@[0] != "coil_c"@[0]);
    assert("online"@[0] != "screen"@[0]);
    assert("power"@[0] != "v_dir"@[0]);
    assert("power"@[0] != "h_dir"@[0]);
    assert("power"@[0] != "sleep"@[0]);
    assert("mode"@[0] != "beep"@[0]);
    assert("work_mode"@[0] != "current_c"@[0]);
    assert("work_mode"@[0] != "outdoor_c"@[0]);
    assert("work_mode"@[0] != "anti_mold"@[0]);
    assert("target_c"@[7] != "target_f"@[7]);
    assert("target_c"@[0] != "fan_gear"@[0]);
    assert("target_c"@[0] != "wind_pct"@[0]);
    assert("target_c"@[1] != "temp_min"@[1]);
    assert("target_c"@[1] != "temp_max"@[1]);
    assert("target_f"@[0] != "fan_gear"@[0]);
    assert("target_f"@[0] != "wind_pct"@[0]);
    assert("target_f"@[1] != "temp_min"@[1]);
    assert("target_f"@[1] != "temp_max"@[1]);
    assert("current_c"@[0] != "outdoor_c"@[0]);
    assert("current_c"@[0] != "anti_mold"@[0]);
    assert("outdoor_c"@[0] != "anti_mold"@[0]);
    assert("coil_c"@[0] != "screen"@[0]);
    assert("fan"@[0] != "eco"@[0]);
    assert("fan_gear"@[0] != "wind_pct"@[0]);
    assert("fan_gear"@[0] != "temp_min"@[0]);
    assert("fan_gear"@[0] != "temp_max"@[0]);
    assert("wind_pct"@[0] != "temp_min"@[0]);
    assert("wind_pct"@[0] != "temp_max"@[0]);
    assert("v_swing"@[0] != "h_swing"@[0]);
    assert("v_swing"@[0] != "healthy"@[0]);
    assert("h_swing"@[1] != "healthy"@[1]);
    assert("v_dir"@[0] != "h_dir"@[0]);
    assert("v_dir"@[0] != "sleep"@[0]);
    assert("h_dir"@[0] != "sleep"@[0]);
    assert("self_clean"@[0] != "eight_heat"@[0]);
    assert("temp_min"@[6] != "temp_max"@[6]);
}

/// A status names its device: by the name that the owner gave or, without one,
/// by its type.
pub proof fn law_status_names_the_device(s: AcState, d: DeviceView)
    ensures
        ({
            let m = reports::state_members(s, d);
            &&& m["device_id"@] == Json::Text(d.device_id)
            &&& d.nick_name.len() > 0 ==> m["name"@] == Json::Text(d.nick_name)
            &&& d.nick_name.len() == 0 ==> m["name"@] == Json::Text(d.device_name)
            &&& m["device_type"@] == Json::Text(d.device_name)
            &&& m["online"@] == Json::Bool(d.is_online)
        }),
{
    lemma_state_members(s, d);
}

/// A temperature that the device reports is printed as that number, under the
/// name of its own sensor, whatever the other sensors report.
pub proof fn law_status_temperatures(
    rep: Map<Seq<char>, Json>,
    des: Map<Seq<char>, Json>,
    version: Json,
    key: Seq<char>,
    t: JsonNumber,
    b: u64,
    st: AcState,
    d: DeviceView,
)
    requires
        json::as_bits(Json::Number(t)) == Some(b),
        double::finite(b),
        st.reads(state_laws::shadow_of(rep.insert(key, Json::Number(t)), des, version)),
    ensures
        ({
            let m = reports::state_members(st, d);
            let printed = Json::Number(JsonNumber::Float(b));
            &&& key == "currentTemperature"@ ==> m["current_c"@] == printed
            &&& key == "externalUnitTemperature"@ ==> m["outdoor_c"@] == printed
            &&& key == "internalUnitCoilTemperature"@ ==> m["coil_c"@] == printed
            &&& key == "targetTemperature"@ && state_laws::silent(des, key) ==> m["target_c"@]
                == printed
        }),
{
    lemma_state_members(st, d);
    state_laws::law_sensor_temperature_is_read(rep, des, version, key, t, st);
    state_laws::lemma_shadow_of(rep.insert(key, Json::Number(t)), des, version);
}

/// A target that is asked for is printed, whatever the device reports.
pub proof fn law_status_asked_target(
    rep: Map<Seq<char>, Json>,
    des: Map<Seq<char>, Json>,
    version: Json,
    t: JsonNumber,
    b: u64,
    st: AcState,
    d: DeviceView,
)
    requires
        json::as_bits(Json::Number(t)) == Some(b),
        double::finite(b),
        st.reads(
            state_laws::shadow_of(rep, des.insert("targetTemperature"@, Json::Number(t)), version),
        ),
    ensures
        reports::state_members(st, d)["target_c"@] == Json::Number(JsonNumber::Float(b)),
{
    lemma_state_members(st, d);
    state_laws::lemma_shadow_of(
        rep,
        des.insert("targetTemperature"@, Json::Number(t)),
        version,
    );
}

/// What the device does not report is printed as null.
pub proof fn law_status_unknown(
    rep: Map<Seq<char>, Json>,
    des: Map<Seq<char>, Json>,
    version: Json,
    st: AcState,
    d: DeviceView,
)
    requires
        st.reads(state_laws::shadow_of(rep, des, version)),
    ensures
        ({
            let m = reports::state_members(st, d);
            &&& state_laws::silent(rep, "currentTemperature"@) ==> m["current_c"@] == Json::Null
            &&& state_laws::silent(rep, "externalUnitTemperature"@) ==> m["outdoor_c"@]
                == Json::Null
            &&& state_laws::silent(rep, "internalUnitCoilTemperature"@) ==> m["coil_c"@]
                == Json::Null
            &&& state_laws::silent(rep, "compressorFrequency"@) ==> m["compressor_hz"@]
                == Json::Null
            &&& state_laws::silent(rep, "windSpeedPercentage"@) ==> m["wind_pct"@] == Json::Null
            &&& state_laws::silent(rep, "targetTemperature"@) && state_laws::silent(
                des,
                "targetTemperature"@,
            ) ==> m["target_c"@] == Json::Null
            &&& state_laws::silent(rep, "targetFahrenheitTemp"@) && state_laws::silent(
                des,
                "targetFahrenheitTemp"@,
            ) ==> m["target_f"@] == Json::Null
        }),
{
    lemma_state_members(st, d);
    state_laws::law_unknown_sensors(rep, des, version, st);
    state_laws::law_unknown_settings(rep, des, version, st);
}

/// Whether a status shows a switch of the shadow, under its own name.
pub open spec fn shows_switch(m: Map<Seq<char>, Json>, key: Seq<char>, on: bool) -> bool {
    &&& key == "powerSwitch"@ ==> m["power"@] == Json::Bool(on)
    &&& key == "ECO"@ ==> m["eco"@] == Json::Bool(on)
    &&& key == "healthy"@ ==> m["healthy"@] == Json::Bool(on)
    &&& key == "screen"@ ==> m["screen"@] == Json::Bool(on)
    &&& key == "beepSwitch"@ ==> m["beep"@] == Json::Bool(on)
    &&& key == "selfClean"@ ==> m["self_clean"@] == Json::Bool(on)
    &&& key == "antiMoldew"@ ==> m["anti_mold"@] == Json::Bool(on)
    &&& key == "eightAddHot"@ ==> m["eight_heat"@] == Json::Bool(on)
}

/// A switch is printed as it is asked for or, where nobody asks, as the device
/// reports it.
pub proof fn law_status_switches(
    rep: Map<Seq<char>, Json>,
    des: Map<Seq<char>, Json>,
    version: Json,
    key: Seq<char>,
    on: bool,
    asked: AcState,
    told: AcState,
    d: DeviceView,
)
    requires
        asked.reads(
            state_laws::shadow_of(rep, des.insert(key, json::whole(device::bit(on))), version),
        ),
        state_laws::silent(des, key),
        told.reads(
            state_laws::shadow_of(rep.insert(key, json::whole(device::bit(on))), des, version),
        ),
    ensures
        shows_switch(reports::state_members(asked, d), key, on),
        shows_switch(reports::state_members(told, d), key, on),
{
    lemma_state_members(asked, d);
    lemma_state_members(told, d);
    state_laws::law_asked_switch_is_read(rep, des, version, key, on, asked);
    state_laws::law_reported_switch_is_read(rep, des, version, key, on, told);
}

/// Whether a status shows a number of the shadow, under its own name.
pub open spec fn shows_number(m: Map<Seq<char>, Json>, key: Seq<char>, n: i64) -> bool {
    &&& key == "workMode"@ ==> m["work_mode"@] == json::whole(n as int)
    &&& key == "targetFahrenheitTemp"@ ==> m["target_f"@] == json::whole(n as int)
    &&& key == "sleep"@ ==> m["sleep"@] == json::whole(n as int)
    &&& key == "verticalDirection"@ ==> m["v_dir"@] == json::whole(n as int) && m["v_swing"@]
        == Json::Bool(1 <= n <= 3)
    &&& key == "horizontalDirection"@ ==> m["h_dir"@] == json::whole(n as int) && m["h_swing"@]
        == Json::Bool(1 <= n <= 4)
}

/// A number is printed as it is asked for or, where nobody asks, as the device
/// reports it; a vane sweeps by one of the first values of its direction.
pub proof fn law_status_numbers(
    rep: Map<Seq<char>, Json>,
    des: Map<Seq<char>, Json>,
    version: Json,
    key: Seq<char>,
    n: i64,
    asked: AcState,
    told: AcState,
    d: DeviceView,
)
    requires
        asked.reads(state_laws::shadow_of(rep, des.insert(key, json::whole(n as int)), version)),
        state_laws::silent(des, key),
        told.reads(state_laws::shadow_of(rep.insert(key, json::whole(n as int)), des, version)),
    ensures
        shows_number(reports::state_members(asked, d), key, n),
        shows_number(reports::state_members(told, d), key, n),
{
    lemma_state_members(asked, d);
    lemma_state_members(told, d);
    state_laws::law_asked_number_is_read(rep, des, version, key, n, asked);
    state_laws::law_reported_number_is_read(rep, des, version, key, n, told);
}

/// The mode is printed by its key where the value is that of a mode, and else as
/// null; the fan by the key and the level of its speed.
pub proof fn law_status_mode_and_fan(st: AcState, d: DeviceView, m: Mode)
    ensures
        ({
            let doc = reports::state_members(st, d);
            &&& st.work_mode == m.code() ==> doc["mode"@] == Json::Text(m.keyword())
            &&& !(0 <= st.work_mode <= 4) ==> doc["mode"@] == Json::Null
            &&& doc["fan"@] == Json::Text(st.fan.keyword())
            &&& doc["fan_gear"@] == json::whole(st.fan.level() as int)
        }),
{
    lemma_state_members(st, d);
}

/// A sensor, a limit and the version are printed as the device reports them.
pub proof fn law_status_sensors(
    rep: Map<Seq<char>, Json>,
    des: Map<Seq<char>, Json>,
    v: i64,
    key: Seq<char>,
    n: i64,
    st: AcState,
    d: DeviceView,
)
    requires
        st.reads(
            state_laws::shadow_of(
                rep.insert(key, json::whole(n as int)),
                des,
                json::whole(v as int),
            ),
        ),
    ensures
        ({
            let m = reports::state_members(st, d);
            &&& key == "compressorFrequency"@ ==> m["compressor_hz"@] == json::whole(n as int)
            &&& key == "windSpeedPercentage"@ ==> m["wind_pct"@] == json::whole(n as int)
            &&& key == "lowerTemperatureLimit"@ ==> m["temp_min"@] == json::whole(n as int)
            &&& key == "upperTemperatureLimit"@ ==> m["temp_max"@] == json::whole(n as int)
            &&& m["shadow_version"@] == json::whole(v as int)
        }),
{
    lemma_state_members(st, d);
    state_laws::law_sensor_number_is_read(rep, des, json::whole(v as int), key, n, st);
    state_laws::law_version_is_read(rep.insert(key, json::whole(n as int)), des, v, st);
}

// ---------------------------------------------------------------------------
// one field
// ---------------------------------------------------------------------------

#[verifier::rlimit(100)]
proof fn lemma_field_text(s: AcState, f: Seq<char>)
    ensures
        ({
            let w = text::lower(f);
            let r = cli::field_text(s, f);
            &&& w == "power"@ ==> r == Ok::<Seq<char>, fault::FaultView>(cli::on_off(s.power))
            &&& w == "swing"@ ==> r == Ok::<Seq<char>, fault::FaultView>(cli::on_off(1 <= s.v_dir <= 3))
            &&& w == "vswing"@ ==> r == Ok::<Seq<char>, fault::FaultView>(cli::on_off(1 <= s.v_dir <= 3))
            &&& w == "v_swing"@ ==> r == Ok::<Seq<char>, fault::FaultView>(cli::on_off(1 <= s.v_dir <= 3))
            &&& w == "hswing"@ ==> r == Ok::<Seq<char>, fault::FaultView>(cli::on_off(1 <= s.h_dir <= 4))
            &&& w == "h_swing"@ ==> r == Ok::<Seq<char>, fault::FaultView>(cli::on_off(1 <= s.h_dir <= 4))
            &&& w == "eco"@ ==> r == Ok::<Seq<char>, fault::FaultView>(cli::on_off(s.eco))
            &&& w == "healthy"@ ==> r == Ok::<Seq<char>, fault::FaultView>(cli::on_off(s.healthy))
            &&& w == "health"@ ==> r == Ok::<Seq<char>, fault::FaultView>(cli::on_off(s.healthy))
            &&& w == "screen"@ ==> r == Ok::<Seq<char>, fault::FaultView>(cli::on_off(s.screen))
            &&& w == "beep"@ ==> r == Ok::<Seq<char>, fault::FaultView>(cli::on_off(s.beep))
            &&& w == "self_clean"@ ==> r == Ok::<Seq<char>, fault::FaultView>(cli::on_off(s.self_clean))
            &&& w == "selfclean"@ ==> r == Ok::<Seq<char>, fault::FaultView>(cli::on_off(s.self_clean))
            &&& w == "anti_mold"@ ==> r == Ok::<Seq<char>, fault::FaultView>(cli::on_off(s.anti_mold))
            &&& w == "antimold"@ ==> r == Ok::<Seq<char>, fault::FaultView>(cli::on_off(s.anti_mold))
            &&& w == "eight_heat"@ ==> r == Ok::<Seq<char>, fault::FaultView>(cli::on_off(s.eight_heat))
            &&& w == "eightheat"@ ==> r == Ok::<Seq<char>, fault::FaultView>(cli::on_off(s.eight_heat))
            &&& w == "target"@ ==> r == Ok::<Seq<char>, fault::FaultView>(cli::short_number(json::reading_bits(s.target_temp)))
            &&& w == "target_c"@ ==> r == Ok::<Seq<char>, fault::FaultView>(cli::short_number(json::reading_bits(s.target_temp)))
            &&& w == "current"@ ==> r == Ok::<Seq<char>, fault::FaultView>(cli::short_number(json::reading_bits(s.current_temp)))
            &&& w == "current_c"@ ==> r == Ok::<Seq<char>, fault::FaultView>(cli::short_number(json::reading_bits(s.current_temp)))
            &&& w == "temp"@ ==> r == Ok::<Seq<char>, fault::FaultView>(cli::short_number(json::reading_bits(s.current_temp)))
            &&& w == "outdoor"@ ==> r == Ok::<Seq<char>, fault::FaultView>(cli::short_number(json::reading_bits(s.external_temp)))
            &&& w == "outdoor_c"@ ==> r == Ok::<Seq<char>, fault::FaultView>(cli::short_number(json::reading_bits(s.external_temp)))
            &&& w == "coil"@ ==> r == Ok::<Seq<char>, fault::FaultView>(cli::short_number(json::reading_bits(s.coil_temp)))
            &&& w == "coil_c"@ ==> r == Ok::<Seq<char>, fault::FaultView>(cli::short_number(json::reading_bits(s.coil_temp)))
            &&& w == "mode"@ ==> r == Ok::<Seq<char>, fault::FaultView>(
                match Mode::of_code(s.work_mode as int) {
                    Some(m) => m.keyword(),
                    None => s.mode_name(),
                },
            )
            &&& w == "target_f"@ ==> r == Ok::<Seq<char>, fault::FaultView>(cli::number_or_dash(s.target_f))
            &&& w == "fan"@ ==> r == Ok::<Seq<char>, fault::FaultView>(s.fan.keyword())
            &&& w == "fan_gear"@ ==> r == Ok::<Seq<char>, fault::FaultView>(text::dec(s.fan.level() as nat))
            &&& w == "wind_pct"@ ==> r == Ok::<Seq<char>, fault::FaultView>(cli::number_or_dash(s.wind_pct))
            &&& w == "online"@ ==> r == Ok::<Seq<char>, fault::FaultView>((if s.online {
                    "true"@
                } else {
                    "false"@
                }))
            &&& w == "sleep"@ ==> r == Ok::<Seq<char>, fault::FaultView>(text::dec_int(s.sleep as int))
        }),
{
    reveal_strlit("power");
    reveal_strlit("swing");
    reveal_strlit("vswing");
    reveal_strlit("v_swing");
    reveal_strlit("hswing");
    reveal_strlit("h_swing");
    reveal_strlit("eco");
    reveal_strlit("healthy");
    reveal_strlit("health");
    reveal_strlit("screen");
    reveal_strlit("beep");
    reveal_strlit("self_clean");
    reveal_strlit("selfclean");
    reveal_strlit("anti_mold");
    reveal_strlit("antimold");
    reveal_strlit("eight_heat");
    reveal_strlit("eightheat");
    reveal_strlit("target");
    reveal_strlit("target_c");
    reveal_strlit("current");
    reveal_strlit("current_c");
    reveal_strlit("temp");
    reveal_strlit("outdoor");
    reveal_strlit("outdoor_c");
    reveal_strlit("coil");
    reveal_strlit("coil_c");
    reveal_strlit("mode");
    reveal_strlit("target_f");
    reveal_strlit("fan");
    reveal_strlit("fan_gear");
    reveal_strlit("wind_pct");
    reveal_strlit("online");
    reveal_strlit("sleep");
    assert("power"@.len() == 5);
    assert("swing"@.len() == 5);
    assert("vswing"@.len() == 6);
    assert("v_swing"@.len() == 7);
    assert("hswing"@.len() == 6);
    assert("h_swing"@.len() == 7);
    assert("eco"@.len() == 3);
    assert("healthy"@.len() == 7);
    assert("health"@.len() == 6);
    assert("screen"@.len() == 6);
    assert("beep"@.len() == 4);
    assert("self_clean"@.len() == 10);
    assert("selfclean"@.len() == 9);
    assert("anti_mold"@.len() == 9);
    assert("antimold"@.len() == 8);
    assert("eight_heat"@.len() == 10);
    assert("eightheat"@.len() == 9);
    assert("target"@.len() == 6);
    assert("target_c"@.len() == 8);
    assert("current"@.len() == 7);
    assert("current_c"@.len() == 9);
    assert("temp"@.len() == 4);
    assert("outdoor"@.len() == 7);
    assert("outdoor_c"@.len() == 9);
    assert("coil"@.len() == 4);
    assert("coil_c"@.len() == 6);
    assert("mode"@.len() == 4);
    assert("target_f"@.len() == 8);
    assert("fan"@.len() == 3);
    assert("fan_gear"@.len() == 8);
    assert("wind_pct"@.len() == 8);
    assert("online"@.len() == 6);
    assert("sleep"@.len() == 5);
    assert("power"@[0] != "swing"@[0]);
    assert("power"@[0] != "sleep"@[0]);
    assert("swing"@[1] != "sleep"@[1]);
    assert("vswing"@[0] != "hswing"@[0]);
    assert("vswing"@[0] != "health"@[0]);
    assert("vswing"@[0] != "screen"@[0]);
    assert("vswing"@[0] != "target"@[0]);
    assert("vswing"@[0] != "coil_c"@[0]);
    assert("vswing"@[0] != "online"@[0]);
    assert("v_swing"@[0] != "h_swing"@[0]);
    assert("v_swing"@[0] != "healthy"@[0]);
    assert("v_swing"@[0] != "current"@[0]);
    assert("v_swing"@[0] != "outdoor"@[0]);
    assert("hswing"@[1] != "health"@[1]);
    assert("hswing"@[0] != "screen"@[0]);
    assert("hswing"@[0] != "target"@[0]);
    assert("hswing"@[0] != "coil_c"@[0]);
    assert("hswing"@[0] != "online"@[0]);
    assert("h_swing"@[1] != "healthy"@[1]);
    assert("h_swing"@[0] != "current"@[0]);
    assert("h_swing"@[0] != "outdoor"@[0]);
    assert("eco"@[0] != "fan"@[0]);
    assert("healthy"@[0] != "current"@[0]);
    assert("healthy"@[0] != "outdoor"@[0]);
    assert("health"@[0] != "screen"@[0]);
    assert("health"@[0] != "target"@[0]);
    assert("health"@[0] != "coil_c"@[0]);
    assert("health"@[0] != "online"@[0]);
    assert("screen"@[0] != "target"@[0]);
    assert("screen"@[0] != "coil_c"@[0]);
    assert("screen"@[0] != "online"@[0]);
    assert("beep"@[0] != "temp"@[0]);
    assert("beep"@[0] != "coil"@[0]);
    assert("beep"@[0] != "mode"@[0]);
    assert("self_clean"@[0] != "eight_heat"@[0]);
    assert("selfclean"@[0] != "anti_mold"@[0]);
    assert("selfclean"@[0] != "eightheat"@[0]);
    assert("selfclean"@[0] != "current_c"@[0]);
    assert("selfclean"@[0] != "outdoor_c"@[0]);
    assert("anti_mold"@[0] != "eightheat"@[0]);
    assert("anti_mold"@[0] != "current_c"@[0]);
    assert("anti_mold"@[0] != "outdoor_c"@[0]);
    assert("antimold"@[0] != "target_c"@[0]);
    assert("antimold"@[0] != "target_f"@[0]);
    assert("antimold"@[0] != "fan_gear"@[0]);
    assert("antimold"@[0] != "wind_pct"@[0]);
    assert("eightheat"@[0] != "current_c"@[0]);
    assert("eightheat"@[0] != "outdoor_c"@[0]);
    assert("target"@[0] != "coil_c"@[0]);
    assert("target"@[0] != "online"@[0]);
    assert("target_c"@[7] != "target_f"@[7]);
    assert("target_c"@[0] != "fan_gear"@[0]);
    assert("target_c"@[0] != "wind_pct"@[0]);
    assert("current"@[0] != "outdoor"@[0]);
    assert("current_c"@[0] != "outdoor_c"@[0]);
    assert("temp"@[0] != "coil"@[0]);
    assert("temp"@[0] != "mode"@[0]);
    assert("coil"@[0] != "mode"@[0]);
    assert("coil_c"@[0] != "online"@[0]);
    assert("target_f"@[0] != "fan_gear"@[0]);
    assert("target_f"@[0] != "wind_pct"@[0]);
    assert("fan_gear"@[0] != "wind_pct"@[0]);
}

/// Whether a text is what `get` prints of a member of the status.
pub open spec fn prints_member(
    r: Result<Seq<char>, fault::FaultView>,
    j: Json,
) -> bool {
    r matches Ok(t) && match j {
        Json::Bool(b) => t == cli::on_off(b),
        Json::Number(JsonNumber::Int(n)) => t == text::dec_int(n),
        Json::Number(JsonNumber::Float(b)) => t == cli::short_number(Some(b)),
        Json::Text(s) => t == s,
        _ => true,
    }
}

/// `get` prints of every field what the status holds under that name, and takes
/// the other names of a field for the same.
pub proof fn law_get_agrees_with_status(s: AcState, d: DeviceView, f: Seq<char>)
    ensures
        ({
            let m = reports::state_members(s, d);
            let w = text::lower(f);
            let r = cli::field_text(s, f);
            &&& w == "power"@ ==> prints_member(r, m["power"@])
            &&& w == "swing"@ ==> prints_member(r, m["v_swing"@])
            &&& w == "vswing"@ ==> prints_member(r, m["v_swing"@])
            &&& w == "v_swing"@ ==> prints_member(r, m["v_swing"@])
            &&& w == "hswing"@ ==> prints_member(r, m["h_swing"@])
            &&& w == "h_swing"@ ==> prints_member(r, m["h_swing"@])
            &&& w == "eco"@ ==> prints_member(r, m["eco"@])
            &&& w == "healthy"@ ==> prints_member(r, m["healthy"@])
            &&& w == "health"@ ==> prints_member(r, m["healthy"@])
            &&& w == "screen"@ ==> prints_member(r, m["screen"@])
            &&& w == "beep"@ ==> prints_member(r, m["beep"@])
            &&& w == "self_clean"@ ==> prints_member(r, m["self_clean"@])
            &&& w == "selfclean"@ ==> prints_member(r, m["self_clean"@])
            &&& w == "anti_mold"@ ==> prints_member(r, m["anti_mold"@])
            &&& w == "antimold"@ ==> prints_member(r, m["anti_mold"@])
            &&& w == "eight_heat"@ ==> prints_member(r, m["eight_heat"@])
            &&& w == "eightheat"@ ==> prints_member(r, m["eight_heat"@])
            &&& w == "target"@ ==> prints_member(r, m["target_c"@])
            &&& w == "target_c"@ ==> prints_member(r, m["target_c"@])
            &&& w == "current"@ ==> prints_member(r, m["current_c"@])
            &&& w == "current_c"@ ==> prints_member(r, m["current_c"@])
            &&& w == "temp"@ ==> prints_member(r, m["current_c"@])
            &&& w == "outdoor"@ ==> prints_member(r, m["outdoor_c"@])
            &&& w == "outdoor_c"@ ==> prints_member(r, m["outdoor_c"@])
            &&& w == "coil"@ ==> prints_member(r, m["coil_c"@])
            &&& w == "coil_c"@ ==> prints_member(r, m["coil_c"@])
            &&& w == "mode"@ ==> prints_member(r, m["mode"@])
            &&& w == "target_f"@ ==> prints_member(r, m["target_f"@])
            &&& w == "fan"@ ==> prints_member(r, m["fan"@])
            &&& w == "fan_gear"@ ==> prints_member(r, m["fan_gear"@])
            &&& w == "wind_pct"@ ==> prints_member(r, m["wind_pct"@])
            &&& w == "sleep"@ ==> prints_member(r, m["sleep"@])
        }),
{
    lemma_state_members(s, d);
    lemma_field_text(s, f);
}

/// What is unknown `get` prints as a dash, and whether the device is online as a
/// truth value.
pub proof fn law_get_unknown(s: AcState, f: Seq<char>)
    ensures
        ({
            let w = text::lower(f);
            let r = cli::field_text(s, f);
            let dash = Ok::<Seq<char>, fault::FaultView>("-"@);
            &&& w == "target"@ && s.target_temp is None ==> r == dash
            &&& w == "current"@ && s.current_temp is None ==> r == dash
            &&& w == "outdoor"@ && s.external_temp is None ==> r == dash
            &&& w == "coil"@ && s.coil_temp is None ==> r == dash
            &&& w == "target_f"@ && s.target_f is None ==> r == dash
            &&& w == "wind_pct"@ && s.wind_pct is None ==> r == dash
            &&& w == "online"@ ==> r == Ok::<Seq<char>, fault::FaultView>(
                if s.online {
                    "true"@
                } else {
                    "false"@
                },
            )
            &&& w == "mode"@ && !(0 <= s.work_mode <= 4) ==> r == Ok::<
                Seq<char>,
                fault::FaultView,
            >("mode#"@ + text::dec_int(s.work_mode as int))
        }),
{
    lemma_field_text(s, f);
}

// ---------------------------------------------------------------------------
// the status for people
// ---------------------------------------------------------------------------

/// The status for people has nine lines, and shows of each value what `get`
/// prints of it.
pub proof fn law_human_status_agrees_with_get(s: AcState, d: DeviceView, f: Seq<char>, g: Seq<char>)
    ensures
        ({
            let l = reports::human_lines(s, d);
            let w = text::lower(f);
            let v = text::lower(g);
            let t = cli::field_text(s, f)->Ok_0;
            let u = cli::field_text(s, g)->Ok_0;
            &&& l.len() == 9
            &&& w == "power"@ ==> l[1] == "  power    "@ + t
            &&& w == "target"@ && s.target_f is None ==> l[3] == "  target   "@ + t + "C"@
            &&& w == "target"@ && v == "target_f"@ && s.target_f is Some ==> l[3]
                == "  target   "@ + t + "C"@ + (" / "@ + u + "F"@)
            &&& w == "current"@ ==> l[4] == "  current  "@ + t + "C"@
            &&& w == "fan_gear"@ ==> l[5] == "  fan      "@ + s.fan.name() + " (gear "@ + t + ")"@
            &&& w == "swing"@ && v == "hswing"@ ==> l[6] == "  swing    V:"@ + t + "  H:"@ + u
            &&& w == "outdoor"@ && v == "coil"@ ==> l[7] == "  sensors  outdoor "@ + t
                + "C · coil "@ + u + "C · compressor "@ + reports::number_or_zero(s.compressor_hz)
                + " Hz · wind "@ + reports::number_or_zero(s.wind_pct) + "%"@
            &&& w == "sleep"@ ==> l[8] == "  features "@ + reports::features_text(s)
                + "  (sleep "@ + t + ")"@
        }),
{
    lemma_field_text(s, f);
    lemma_field_text(s, g);
    let l = reports::human_lines(s, d);
    if s.target_f is None {
        reveal_strlit("");
        let start = "  target   "@ + cli::short_number(json::reading_bits(s.target_temp)) + "C"@;
        assert(start + ""@ =~= start);
    }
}

/// The status for people names the device with its type and whether it is
/// online, the mode with its value, and the speed of the fan.
pub proof fn law_human_status_names(s: AcState, d: DeviceView, m: Mode, g: u8)
    ensures
        ({
            let l = reports::human_lines(s, d);
            let name = if d.nick_name.len() > 0 {
                d.nick_name
            } else {
                d.device_name
            };
            &&& d.is_online ==> l[0] == name + " ["@ + d.device_name + "]  "@ + "online"@
            &&& !d.is_online ==> l[0] == name + " ["@ + d.device_name + "]  "@ + "offline"@
            &&& s.work_mode == m.code() ==> l[2] == "  mode     "@ + m.name() + " (workMode="@
                + text::dec_int(m.code() as int) + ")"@
            &&& s.fan == device::Fan::Gear(g) ==> l[5] == "  fan      "@ + ("Gear "@ + text::dec(
                g as nat,
            )) + " (gear "@ + text::dec(g as nat) + ")"@
            &&& s.fan == device::Fan::Auto ==> l[5] == "  fan      "@ + "Auto"@ + " (gear "@
                + text::dec(0) + ")"@
            &&& s.fan == device::Fan::Turbo ==> l[5] == "  fan      "@ + "Turbo"@ + " (gear "@
                + text::dec(7) + ")"@
            &&& s.compressor_hz matches Some(hz) ==> reports::number_or_zero(s.compressor_hz)
                == text::dec_int(hz as int)
            &&& reports::number_or_zero(None) == text::dec_int(0)
        }),
{
}

proof fn lemma_with_if(f: Seq<Seq<char>>, on: bool, name: Seq<char>, x: Seq<char>)
    ensures
        reports::with_if(f, on, name).contains(x) <==> f.contains(x) || (on && x == name),
        reports::with_if(f, on, name).len() == f.len() + device::bit(on),
{
    let g = reports::with_if(f, on, name);
    if on {
        assert(g == f.push(name));
        assert(g[f.len() as int] == name);
        if f.contains(x) {
            let i = choose|i: int| 0 <= i < f.len() && f[i] == x;
            assert(g[i] == x);
        }
        if g.contains(x) && x != name {
            let i = choose|i: int| 0 <= i < g.len() && g[i] == x;
            assert(f[i] == x);
        }
    }
}

proof fn lemma_feature_count(s: AcState)
    ensures
        reports::features_on(s).len() == device::bit(s.eco) + device::bit(s.healthy) + device::bit(s.screen) + device::bit(s.beep) + device::bit(s.self_clean) + device::bit(s.anti_mold) + device::bit(s.eight_heat),
{
}

/// A feature is listed, once, exactly where it is on; where none is, that is
/// said.
pub proof fn law_features_are_listed(s: AcState)
    ensures
        ({
            let l = reports::features_on(s);
            &&& l.contains("eco"@) <==> s.eco
            &&& l.contains("health"@) <==> s.healthy
            &&& l.contains("screen"@) <==> s.screen
            &&& l.contains("beep"@) <==> s.beep
            &&& l.contains("self-clean"@) <==> s.self_clean
            &&& l.contains("anti-mold"@) <==> s.anti_mold
            &&& l.contains("8C-heat"@) <==> s.eight_heat
            &&& l.len() == device::bit(s.eco) + device::bit(s.healthy) + device::bit(s.screen) + device::bit(s.beep) + device::bit(s.self_clean) + device::bit(s.anti_mold) + device::bit(s.eight_heat)
            &&& l.len() == 0 ==> reports::features_text(s) == "none"@
            &&& l.len() > 0 ==> reports::features_text(s) == text::joined(l, ", "@)
        }),
{
    reveal_strlit("eco");
    reveal_strlit("health");
    reveal_strlit("screen");
    reveal_strlit("beep");
    reveal_strlit("self-clean");
    reveal_strlit("anti-mold");
    reveal_strlit("8C-heat");
    assert("eco"@.len() == 3);
    assert("health"@.len() == 6);
    assert("screen"@.len() == 6);
    assert("beep"@.len() == 4);
    assert("self-clean"@.len() == 10);
    assert("anti-mold"@.len() == 9);
    assert("8C-heat"@.len() == 7);
    assert("health"@[0] != "screen"@[0]);
    lemma_feature_count(s);
    assert forall|x: Seq<char>|
        #[trigger] reports::features_on(s).contains(x) <==> ((s.eco && x == "eco"@) || (s.healthy && x == "health"@) || (s.screen && x == "screen"@) || (s.beep && x == "beep"@) || (s.self_clean && x == "self-clean"@) || (s.anti_mold && x == "anti-mold"@) || (s.eight_heat && x == "8C-heat"@)) by {
        let f0 = Seq::<Seq<char>>::empty();
        lemma_with_if(f0, s.eco, "eco"@, x);
        let f1 = reports::with_if(f0, s.eco, "eco"@);
        lemma_with_if(f1, s.healthy, "health"@, x);
        let f2 = reports::with_if(f1, s.healthy, "health"@);
        lemma_with_if(f2, s.screen, "screen"@, x);
        let f3 = reports::with_if(f2, s.screen, "screen"@);
        lemma_with_if(f3, s.beep, "beep"@, x);
        let f4 = reports::with_if(f3, s.beep, "beep"@);
        lemma_with_if(f4, s.self_clean, "self-clean"@, x);
        let f5 = reports::with_if(f4, s.self_clean, "self-clean"@);
        lemma_with_if(f5, s.anti_mold, "anti-mold"@, x);
        let f6 = reports::with_if(f5, s.anti_mold, "anti-mold"@);
        lemma_with_if(f6, s.eight_heat, "8C-heat"@, x);
    }
}

// ---------------------------------------------------------------------------
// the result of a set command
// ---------------------------------------------------------------------------

/// A set command tells what was done, what was sent and to which device; one
/// that waits tells the state besides, as the status does.
pub proof fn law_set_result(action: Seq<char>, desired: Json, st: AcState, d: DeviceView)
    ensures
        reports::done_lines(false, action, desired, d) == seq!["ok: "@ + action],
        reports::waited_lines(false, action, desired, st, d) == reports::done_lines(
            false,
            action,
            desired,
            d,
        ) + reports::status_lines(false, st, d),
        ({
            let m = reports::sent_members(action, desired, d.device_id);
            let w = m.insert("state"@, Json::Object(reports::state_members(st, d)));
            &&& reports::done_lines(true, action, desired, d) == reports::json_line(
                Json::Object(m),
            )
            &&& reports::waited_lines(true, action, desired, st, d) == reports::json_line(
                Json::Object(w),
            )
            &&& m.dom() == set!["ok"@, "action"@, "sent"@, "device_id"@]
            &&& m["ok"@] == Json::Bool(true) && m["action"@] == Json::Text(action)
            &&& m["sent"@] == desired && m["device_id"@] == Json::Text(d.device_id)
            &&& w["sent"@] == desired && w["device_id"@] == Json::Text(d.device_id)
            &&& reports::status_lines(true, st, d) == reports::json_line(w["state"@])
        }),
{
    reveal_strlit("ok");
    reveal_strlit("action");
    reveal_strlit("sent");
    reveal_strlit("device_id");
    reveal_strlit("state");
    assert("ok"@.len() == 2);
    assert("action"@.len() == 6);
    assert("sent"@.len() == 4);
    assert("device_id"@.len() == 9);
    assert("state"@.len() == 5);
    let m = reports::sent_members(action, desired, d.device_id);
    assert(m.dom() =~= set!["ok"@, "action"@, "sent"@, "device_id"@]);
}

// ---------------------------------------------------------------------------
// the list of devices
// ---------------------------------------------------------------------------

/// Every device is listed, in the order of the account, as the status names it,
/// with its firmware besides.
pub proof fn law_list_names_the_devices(devices: Seq<DeviceView>, i: int, s: AcState)
    requires
        0 <= i < devices.len(),
    ensures
        ({
            let d = devices[i];
            let l = reports::list_lines(false, devices);
            let m = reports::state_members(s, d);
            &&& l.len() == devices.len()
            &&& l[i] == d.device_id + "  ["@ + d.device_name + "]  "@ + (if d.is_online {
                "online"@
            } else {
                "offline"@
            }) + "  "@ + (if d.nick_name.len() > 0 {
                d.nick_name
            } else {
                d.device_name
            })
            &&& reports::device_json(d) matches Json::Object(o) && o["device_id"@]
                == m["device_id"@] && o["name"@] == m["name"@] && o["device_type"@]
                == m["device_type"@] && o["online"@] == m["online"@] && o["firmware"@]
                == Json::Text(d.firmware_version)
        }),
        reports::list_lines(true, devices) == reports::json_line(
            Json::Array(devices.map_values(|d: DeviceView| reports::device_json(d))),
        ),
        reports::list_lines(false, Seq::empty()) == seq!["No devices found."@],
{
    lemma_state_members(s, devices[i]);
    reveal_strlit("device_id");
    reveal_strlit("name");
    reveal_strlit("device_type");
    reveal_strlit("online");
    reveal_strlit("firmware");
    assert("device_id"@.len() == 9);
    assert("name"@.len() == 4);
    assert("device_type"@.len() == 11);
    assert("online"@.len() == 6);
    assert("firmware"@.len() == 8);
}

/// A field of any other name is refused, with that name.
pub proof fn law_other_fields_are_refused(s: AcState, f: Seq<char>)
    ensures
        ({
            let w = text::lower(f);
            let known = w == "power"@ || w == "swing"@ || w == "vswing"@ || w == "v_swing"@ || w == "hswing"@ || w == "h_swing"@ || w == "eco"@ || w == "healthy"@ || w == "health"@ || w == "screen"@ || w == "beep"@ || w == "self_clean"@ || w == "selfclean"@ || w == "anti_mold"@ || w == "antimold"@ || w == "eight_heat"@ || w == "eightheat"@ || w == "target"@ || w == "target_c"@ || w == "current"@ || w == "current_c"@ || w == "temp"@ || w == "outdoor"@ || w == "outdoor_c"@ || w == "coil"@ || w == "coil_c"@ || w == "mode"@ || w == "target_f"@ || w == "fan"@ || w == "fan_gear"@ || w == "wind_pct"@ || w == "online"@ || w == "sleep"@;
            &&& known <==> cli::field_text(s, f) is Ok
            &&& !known ==> cli::field_text(s, f) == Err::<Seq<char>, fault::FaultView>(
                fault::FaultView::Plain(
                    "unknown field `"@ + w
                        + "` (try: power mode target current fan swing online eco …)"@,
                ),
            )
        }),
{
}

} // verus!
