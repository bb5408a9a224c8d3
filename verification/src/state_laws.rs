//! Laws of the device state: what each member of it is read from.

use crate::device;
use crate::double;
use crate::json;
use crate::text;
use device::{AcState, Fan, FanDialect};
use json::{Json, JsonNumber};
use vstd::prelude::*;

verus! {

// ---------------------------------------------------------------------------
// shadow documents
// ---------------------------------------------------------------------------

/// A shadow document in which the device reports `rep`, and is asked for `des`.
pub open spec fn shadow_of(
    rep: Map<Seq<char>, Json>,
    des: Map<Seq<char>, Json>,
    version: Json,
) -> Json {
    Json::Object(
        json::no_members().insert(
            "state"@,
            Json::Object(
                json::no_members().insert("reported"@, Json::Object(rep)).insert(
                    "desired"@,
                    Json::Object(des),
                ),
            ),
        ).insert("version"@, version),
    )
}

pub proof fn lemma_shadow_of(
    rep: Map<Seq<char>, Json>,
    des: Map<Seq<char>, Json>,
    version: Json,
)
    ensures
        device::reported(shadow_of(rep, des, version)) == Some(Json::Object(rep)),
        device::desired(shadow_of(rep, des, version)) == Some(Json::Object(des)),
        json::member(shadow_of(rep, des, version), "version"@) == Some(version),
{
    reveal_strlit("state");
    reveal_strlit("version");
    reveal_strlit("reported");
    reveal_strlit("desired");
    assert("state"@.len() != "version"@.len());
    assert("reported"@.len() != "desired"@.len());
}

/// Whether a section of a shadow document asks for nothing, or says nothing, in
/// a field.
pub open spec fn silent(section: Map<Seq<char>, Json>, key: Seq<char>) -> bool {
    !section.contains_key(key) || section[key] == Json::Null
}

// ---------------------------------------------------------------------------
// settings
// ---------------------------------------------------------------------------

/// A switch that the device is asked for counts as it was asked, in the member
/// of the state that belongs to its field, whatever the device reports and
/// whatever else it is asked for.
pub proof fn law_asked_switch_is_read(
    rep: Map<Seq<char>, Json>,
    des: Map<Seq<char>, Json>,
    version: Json,
    key: Seq<char>,
    on: bool,
    st: AcState,
)
    requires
        st.reads(
            shadow_of(
                rep,
                des.insert(
                    key,
                    json::whole(
                        if on {
                            1
                        } else {
                            0
                        },
                    ),
                ),
                version,
            ),
        ),
    ensures
        key == "powerSwitch"@ ==> st.power == on,
        key == "ECO"@ ==> st.eco == on,
        key == "healthy"@ ==> st.healthy == on,
        key == "screen"@ ==> st.screen == on,
        key == "beepSwitch"@ ==> st.beep == on,
        key == "selfClean"@ ==> st.self_clean == on,
        key == "antiMoldew"@ ==> st.anti_mold == on,
        key == "eightAddHot"@ ==> st.eight_heat == on,
        key == "temperatureType"@ ==> st.temp_is_f == on,
{
    let n: int = if on {
        1
    } else {
        0
    };
    lemma_shadow_of(rep, des.insert(key, json::whole(n)), version);
}

/// A switch that nobody asks for counts as the device reports it.
pub proof fn law_reported_switch_is_read(
    rep: Map<Seq<char>, Json>,
    des: Map<Seq<char>, Json>,
    version: Json,
    key: Seq<char>,
    on: bool,
    st: AcState,
)
    requires
        silent(des, key),
        st.reads(
            shadow_of(
                rep.insert(
                    key,
                    json::whole(
                        if on {
                            1
                        } else {
                            0
                        },
                    ),
                ),
                des,
                version,
            ),
        ),
    ensures
        key == "powerSwitch"@ ==> st.power == on,
        key == "ECO"@ ==> st.eco == on,
        key == "healthy"@ ==> st.healthy == on,
        key == "screen"@ ==> st.screen == on,
        key == "beepSwitch"@ ==> st.beep == on,
        key == "selfClean"@ ==> st.self_clean == on,
        key == "antiMoldew"@ ==> st.anti_mold == on,
        key == "eightAddHot"@ ==> st.eight_heat == on,
        key == "temperatureType"@ ==> st.temp_is_f == on,
{
    let n: int = if on {
        1
    } else {
        0
    };
    lemma_shadow_of(rep.insert(key, json::whole(n)), des, version);
}

/// A number that the device is asked for counts as it was asked, in the member
/// of the state that belongs to its field.
pub proof fn law_asked_number_is_read(
    rep: Map<Seq<char>, Json>,
    des: Map<Seq<char>, Json>,
    version: Json,
    key: Seq<char>,
    n: i64,
    st: AcState,
)
    requires
        st.reads(shadow_of(rep, des.insert(key, json::whole(n as int)), version)),
    ensures
        key == "workMode"@ ==> st.work_mode == n,
        key == "targetTemperature"@ ==> json::reading_bits(st.target_temp) == Some(
            double::integer_pattern(n as int),
        ),
        key == "targetFahrenheitTemp"@ ==> st.target_f == Some(n),
        key == "verticalDirection"@ ==> st.v_dir == n,
        key == "horizontalDirection"@ ==> st.h_dir == n,
        key == "sleep"@ ==> st.sleep == n,
{
    lemma_shadow_of(rep, des.insert(key, json::whole(n as int)), version);
}

/// A number that nobody asks for counts as the device reports it.
pub proof fn law_reported_number_is_read(
    rep: Map<Seq<char>, Json>,
    des: Map<Seq<char>, Json>,
    version: Json,
    key: Seq<char>,
    n: i64,
    st: AcState,
)
    requires
        silent(des, key),
        st.reads(shadow_of(rep.insert(key, json::whole(n as int)), des, version)),
    ensures
        key == "workMode"@ ==> st.work_mode == n,
        key == "targetTemperature"@ ==> json::reading_bits(st.target_temp) == Some(
            double::integer_pattern(n as int),
        ),
        key == "targetFahrenheitTemp"@ ==> st.target_f == Some(n),
        key == "verticalDirection"@ ==> st.v_dir == n,
        key == "horizontalDirection"@ ==> st.h_dir == n,
        key == "sleep"@ ==> st.sleep == n,
{
    lemma_shadow_of(rep.insert(key, json::whole(n as int)), des, version);
}

/// A setting that is neither asked for nor reported is off; a vane counts as not
/// set, and a target as unknown.
pub proof fn law_unknown_settings(
    rep: Map<Seq<char>, Json>,
    des: Map<Seq<char>, Json>,
    version: Json,
    st: AcState,
)
    requires
        st.reads(shadow_of(rep, des, version)),
    ensures
        silent(rep, "powerSwitch"@) && silent(des, "powerSwitch"@) ==> !st.power,
        silent(rep, "ECO"@) && silent(des, "ECO"@) ==> !st.eco,
        silent(rep, "healthy"@) && silent(des, "healthy"@) ==> !st.healthy,
        silent(rep, "screen"@) && silent(des, "screen"@) ==> !st.screen,
        silent(rep, "beepSwitch"@) && silent(des, "beepSwitch"@) ==> !st.beep,
        silent(rep, "selfClean"@) && silent(des, "selfClean"@) ==> !st.self_clean,
        silent(rep, "antiMoldew"@) && silent(des, "antiMoldew"@) ==> !st.anti_mold,
        silent(rep, "eightAddHot"@) && silent(des, "eightAddHot"@) ==> !st.eight_heat,
        silent(rep, "temperatureType"@) && silent(des, "temperatureType"@) ==> !st.temp_is_f,
        silent(rep, "workMode"@) && silent(des, "workMode"@) ==> st.work_mode == 0,
        silent(rep, "sleep"@) && silent(des, "sleep"@) ==> st.sleep == 0,
        silent(rep, "verticalDirection"@) && silent(des, "verticalDirection"@) ==> st.v_dir == 8,
        silent(rep, "horizontalDirection"@) && silent(des, "horizontalDirection"@) ==> st.h_dir
            == 8,
        silent(rep, "targetTemperature"@) && silent(des, "targetTemperature"@)
            ==> json::reading_bits(st.target_temp) is None,
        silent(rep, "targetFahrenheitTemp"@) && silent(des, "targetFahrenheitTemp"@)
            ==> st.target_f is None,
{
    lemma_shadow_of(rep, des, version);
}

/// Whether two shadow documents say the same in a field.
pub open spec fn agree(
    rep: Map<Seq<char>, Json>,
    des: Map<Seq<char>, Json>,
    rep2: Map<Seq<char>, Json>,
    des2: Map<Seq<char>, Json>,
    key: Seq<char>,
) -> bool {
    &&& rep.contains_key(key) == rep2.contains_key(key)
    &&& rep.contains_key(key) ==> rep[key] == rep2[key]
    &&& des.contains_key(key) == des2.contains_key(key)
    &&& des.contains_key(key) ==> des[key] == des2[key]
}

proof fn lemma_same_field(
    rep: Map<Seq<char>, Json>,
    des: Map<Seq<char>, Json>,
    v: Json,
    rep2: Map<Seq<char>, Json>,
    des2: Map<Seq<char>, Json>,
    v2: Json,
    key: Seq<char>,
)
    ensures
        agree(rep, des, rep2, des2, key) ==> device::picked(shadow_of(rep, des, v), key)
            == device::picked(shadow_of(rep2, des2, v2), key),
{
    lemma_shadow_of(rep, des, v);
    lemma_shadow_of(rep2, des2, v2);
}

/// A setting rests on its own field alone: documents that agree in it give the
/// same, whatever else they say.
pub proof fn law_settings_rest_on_their_fields(
    rep: Map<Seq<char>, Json>,
    des: Map<Seq<char>, Json>,
    v: Json,
    a: AcState,
    rep2: Map<Seq<char>, Json>,
    des2: Map<Seq<char>, Json>,
    v2: Json,
    b: AcState,
)
    requires
        a.reads(shadow_of(rep, des, v)),
        b.reads(shadow_of(rep2, des2, v2)),
    ensures
        agree(rep, des, rep2, des2, "powerSwitch"@) ==> a.power == b.power,
        agree(rep, des, rep2, des2, "workMode"@) ==> a.work_mode == b.work_mode,
        agree(rep, des, rep2, des2, "targetTemperature"@) ==> json::reading_bits(a.target_temp)
            == json::reading_bits(b.target_temp),
        agree(rep, des, rep2, des2, "targetFahrenheitTemp"@) ==> a.target_f == b.target_f,
        agree(rep, des, rep2, des2, "verticalDirection"@) ==> a.v_dir == b.v_dir,
        agree(rep, des, rep2, des2, "horizontalDirection"@) ==> a.h_dir == b.h_dir,
        agree(rep, des, rep2, des2, "ECO"@) ==> a.eco == b.eco,
        agree(rep, des, rep2, des2, "sleep"@) ==> a.sleep == b.sleep,
        agree(rep, des, rep2, des2, "healthy"@) ==> a.healthy == b.healthy,
        agree(rep, des, rep2, des2, "screen"@) ==> a.screen == b.screen,
        agree(rep, des, rep2, des2, "beepSwitch"@) ==> a.beep == b.beep,
        agree(rep, des, rep2, des2, "selfClean"@) ==> a.self_clean == b.self_clean,
        agree(rep, des, rep2, des2, "antiMoldew"@) ==> a.anti_mold == b.anti_mold,
        agree(rep, des, rep2, des2, "eightAddHot"@) ==> a.eight_heat == b.eight_heat,
        agree(rep, des, rep2, des2, "temperatureType"@) ==> a.temp_is_f == b.temp_is_f,
{
    lemma_same_field(rep, des, v, rep2, des2, v2, "powerSwitch"@);
    lemma_same_field(rep, des, v, rep2, des2, v2, "workMode"@);
    lemma_same_field(rep, des, v, rep2, des2, v2, "targetTemperature"@);
    lemma_same_field(rep, des, v, rep2, des2, v2, "targetFahrenheitTemp"@);
    lemma_same_field(rep, des, v, rep2, des2, v2, "verticalDirection"@);
    lemma_same_field(rep, des, v, rep2, des2, v2, "horizontalDirection"@);
    lemma_same_field(rep, des, v, rep2, des2, v2, "ECO"@);
    lemma_same_field(rep, des, v, rep2, des2, v2, "sleep"@);
    lemma_same_field(rep, des, v, rep2, des2, v2, "healthy"@);
    lemma_same_field(rep, des, v, rep2, des2, v2, "screen"@);
    lemma_same_field(rep, des, v, rep2, des2, v2, "beepSwitch"@);
    lemma_same_field(rep, des, v, rep2, des2, v2, "selfClean"@);
    lemma_same_field(rep, des, v, rep2, des2, v2, "antiMoldew"@);
    lemma_same_field(rep, des, v, rep2, des2, v2, "eightAddHot"@);
    lemma_same_field(rep, des, v, rep2, des2, v2, "temperatureType"@);
}

// ---------------------------------------------------------------------------
// the fan
// ---------------------------------------------------------------------------

/// A device that is asked for a level of the seven-gear dialect has that level,
/// and one that is asked to choose by itself is at auto.
pub proof fn law_seven_gear_level_is_read(
    rep: Map<Seq<char>, Json>,
    des: Map<Seq<char>, Json>,
    version: Json,
    auto_switch: i64,
    gear: i64,
    st: AcState,
)
    requires
        0 <= gear <= 7,
        st.reads(
            shadow_of(
                rep,
                des.insert("windSpeedAutoSwitch"@, json::whole(auto_switch as int)).insert(
                    "windSpeed7Gear"@,
                    json::whole(gear as int),
                ),
                version,
            ),
        ),
    ensures
        st.dialect == FanDialect::SevenGear,
        auto_switch != 0 ==> st.fan == Fan::Auto,
        auto_switch == 0 ==> st.fan.level() == gear && st.fan.valid(),
{
    reveal_strlit("windSpeedAutoSwitch");
    reveal_strlit("windSpeed7Gear");
    assert("windSpeedAutoSwitch"@.len() != "windSpeed7Gear"@.len());
    let asked = des.insert("windSpeedAutoSwitch"@, json::whole(auto_switch as int)).insert(
        "windSpeed7Gear"@,
        json::whole(gear as int),
    );
    lemma_shadow_of(rep, asked, version);
}

/// Without the seven-gear field the classic dialect is spoken: turbo wins over
/// silence, silence over the wind speed, which is the level.
pub proof fn law_classic_speed_is_read(
    rep: Map<Seq<char>, Json>,
    des: Map<Seq<char>, Json>,
    version: Json,
    turbo: i64,
    silence: i64,
    speed: i64,
    st: AcState,
)
    requires
        !rep.contains_key("windSpeed7Gear"@),
        !des.contains_key("windSpeed7Gear"@),
        st.reads(
            shadow_of(
                rep,
                des.insert("turbo"@, json::whole(turbo as int)).insert(
                    "silenceSwitch"@,
                    json::whole(silence as int),
                ).insert("windSpeed"@, json::whole(speed as int)),
                version,
            ),
        ),
    ensures
        st.dialect == FanDialect::Classic,
        turbo != 0 ==> st.fan == Fan::Turbo,
        turbo == 0 && silence != 0 ==> st.fan == Fan::Gear(1),
        turbo == 0 && silence == 0 && 2 <= speed <= 6 ==> st.fan is Gear && st.fan.level() == speed,
        turbo == 0 && silence == 0 && !(2 <= speed <= 6) ==> st.fan == Fan::Auto,
{
    reveal_strlit("turbo");
    reveal_strlit("silenceSwitch");
    reveal_strlit("windSpeed");
    reveal_strlit("windSpeed7Gear");
    assert("turbo"@.len() == 5 && "silenceSwitch"@.len() == 13 && "windSpeed"@.len() == 9);
    assert("windSpeed7Gear"@.len() == 14);
    let asked = des.insert("turbo"@, json::whole(turbo as int)).insert(
        "silenceSwitch"@,
        json::whole(silence as int),
    ).insert("windSpeed"@, json::whole(speed as int));
    lemma_shadow_of(rep, asked, version);
}

/// The speed rests on the fields of the fan alone.
pub proof fn law_fan_rests_on_its_fields(
    rep: Map<Seq<char>, Json>,
    des: Map<Seq<char>, Json>,
    v: Json,
    a: AcState,
    rep2: Map<Seq<char>, Json>,
    des2: Map<Seq<char>, Json>,
    v2: Json,
    b: AcState,
)
    requires
        a.reads(shadow_of(rep, des, v)),
        b.reads(shadow_of(rep2, des2, v2)),
        agree(rep, des, rep2, des2, "windSpeed7Gear"@),
    ensures
        a.dialect == b.dialect,
        agree(rep, des, rep2, des2, "windSpeedAutoSwitch"@) && a.dialect == FanDialect::SevenGear
            ==> a.fan == b.fan,
        agree(rep, des, rep2, des2, "windSpeed"@) && agree(rep, des, rep2, des2, "turbo"@)
            && agree(rep, des, rep2, des2, "silenceSwitch"@) && a.dialect == FanDialect::Classic
            ==> a.fan == b.fan,
{
    lemma_shadow_of(rep, des, v);
    lemma_shadow_of(rep2, des2, v2);
}

// ---------------------------------------------------------------------------
// sensors
// ---------------------------------------------------------------------------

/// An integer that the device reports of a sensor is that of the sensor,
/// whatever it is asked for.
pub proof fn law_sensor_number_is_read(
    rep: Map<Seq<char>, Json>,
    des: Map<Seq<char>, Json>,
    version: Json,
    key: Seq<char>,
    n: i64,
    st: AcState,
)
    requires
        st.reads(shadow_of(rep.insert(key, json::whole(n as int)), des, version)),
    ensures
        key == "compressorFrequency"@ ==> st.compressor_hz == Some(n),
        key == "OutDoorCompTarFreqSet"@ ==> st.comp_target_hz == Some(n),
        key == "OutDoorCompTarFreqRun"@ ==> st.comp_run_hz == Some(n),
        key == "externalUnitFanSpeed"@ ==> st.outdoor_fan == Some(n),
        key == "OutDoorEEVTarOpenDegree"@ ==> st.eev == Some(n),
        key == "PTCStatus"@ ==> st.ptc == (n != 0),
        key == "filterBlockStatus"@ && n != 0 ==> st.filter_alert,
        key == "filterBlockNotify"@ && n != 0 ==> st.filter_alert,
        key == "selfCleanPercentage"@ ==> st.self_clean_pct == Some(n),
        key == "windSpeedPercentage"@ ==> st.wind_pct == Some(n),
        key == "lowerTemperatureLimit"@ ==> st.t_min == n,
        key == "upperTemperatureLimit"@ ==> st.t_max == n,
{
    lemma_shadow_of(rep.insert(key, json::whole(n as int)), des, version);
}

/// A temperature that the device reports is that of its own sensor, bit for bit,
/// whatever the others report.
pub proof fn law_sensor_temperature_is_read(
    rep: Map<Seq<char>, Json>,
    des: Map<Seq<char>, Json>,
    version: Json,
    key: Seq<char>,
    t: JsonNumber,
    st: AcState,
)
    requires
        st.reads(shadow_of(rep.insert(key, Json::Number(t)), des, version)),
    ensures
        key == "currentTemperature"@ ==> json::reading_bits(st.current_temp) == json::as_bits(
            Json::Number(t),
        ),
        key == "externalUnitTemperature"@ ==> json::reading_bits(st.external_temp)
            == json::as_bits(Json::Number(t)),
        key == "internalUnitCoilTemperature"@ ==> json::reading_bits(st.coil_temp)
            == json::as_bits(Json::Number(t)),
{
    lemma_shadow_of(rep.insert(key, Json::Number(t)), des, version);
}

/// What the device does not report of a sensor is unknown; the temperature
/// limits are then 16 and 31 degrees, and no alert is raised.
pub proof fn law_unknown_sensors(
    rep: Map<Seq<char>, Json>,
    des: Map<Seq<char>, Json>,
    version: Json,
    st: AcState,
)
    requires
        st.reads(shadow_of(rep, des, version)),
    ensures
        silent(rep, "currentTemperature"@) ==> json::reading_bits(st.current_temp) is None,
        silent(rep, "externalUnitTemperature"@) ==> json::reading_bits(st.external_temp) is None,
        silent(rep, "internalUnitCoilTemperature"@) ==> json::reading_bits(st.coil_temp) is None,
        silent(rep, "compressorFrequency"@) ==> st.compressor_hz is None,
        silent(rep, "OutDoorCompTarFreqSet"@) ==> st.comp_target_hz is None,
        silent(rep, "OutDoorCompTarFreqRun"@) ==> st.comp_run_hz is None,
        silent(rep, "externalUnitFanSpeed"@) ==> st.outdoor_fan is None,
        silent(rep, "OutDoorEEVTarOpenDegree"@) ==> st.eev is None,
        silent(rep, "PTCStatus"@) ==> !st.ptc,
        silent(rep, "filterBlockStatus"@) && silent(rep, "filterBlockNotify"@)
            ==> !st.filter_alert,
        silent(rep, "selfCleanPercentage"@) ==> st.self_clean_pct is None,
        silent(rep, "windSpeedPercentage"@) ==> st.wind_pct is None,
        silent(rep, "lowerTemperatureLimit"@) ==> st.t_min == 16,
        silent(rep, "upperTemperatureLimit"@) ==> st.t_max == 31,
        silent(rep, "errorCode"@) ==> st.errors@.len() == 0,
        silent(rep, "capabilities"@) ==> st.capabilities@.len() == 0,
{
    lemma_shadow_of(rep, des, version);
}

/// A sensor rests on what the device reports of it: documents that agree there
/// give the same, whatever they ask for and whatever else they report.
pub proof fn law_sensors_rest_on_their_fields(
    rep: Map<Seq<char>, Json>,
    des: Map<Seq<char>, Json>,
    v: Json,
    a: AcState,
    rep2: Map<Seq<char>, Json>,
    des2: Map<Seq<char>, Json>,
    v2: Json,
    b: AcState,
)
    requires
        a.reads(shadow_of(rep, des, v)),
        b.reads(shadow_of(rep2, des2, v2)),
    ensures
        agree(rep, des, rep2, des, "currentTemperature"@) ==> json::reading_bits(a.current_temp)
            == json::reading_bits(b.current_temp),
        agree(rep, des, rep2, des, "externalUnitTemperature"@) ==> json::reading_bits(
            a.external_temp,
        ) == json::reading_bits(b.external_temp),
        agree(rep, des, rep2, des, "internalUnitCoilTemperature"@) ==> json::reading_bits(
            a.coil_temp,
        ) == json::reading_bits(b.coil_temp),
        agree(rep, des, rep2, des, "compressorFrequency"@) ==> a.compressor_hz == b.compressor_hz,
        agree(rep, des, rep2, des, "OutDoorCompTarFreqSet"@) ==> a.comp_target_hz
            == b.comp_target_hz,
        agree(rep, des, rep2, des, "OutDoorCompTarFreqRun"@) ==> a.comp_run_hz == b.comp_run_hz,
        agree(rep, des, rep2, des, "externalUnitFanSpeed"@) ==> a.outdoor_fan == b.outdoor_fan,
        agree(rep, des, rep2, des, "OutDoorEEVTarOpenDegree"@) ==> a.eev == b.eev,
        agree(rep, des, rep2, des, "PTCStatus"@) ==> a.ptc == b.ptc,
        agree(rep, des, rep2, des, "filterBlockStatus"@) && agree(
            rep,
            des,
            rep2,
            des,
            "filterBlockNotify"@,
        ) ==> a.filter_alert == b.filter_alert,
        agree(rep, des, rep2, des, "selfCleanPercentage"@) ==> a.self_clean_pct
            == b.self_clean_pct,
        agree(rep, des, rep2, des, "windSpeedPercentage"@) ==> a.wind_pct == b.wind_pct,
        agree(rep, des, rep2, des, "lowerTemperatureLimit"@) ==> a.t_min == b.t_min,
        agree(rep, des, rep2, des, "upperTemperatureLimit"@) ==> a.t_max == b.t_max,
        agree(rep, des, rep2, des, "errorCode"@) ==> a.errors@ == b.errors@,
        agree(rep, des, rep2, des, "capabilities"@) ==> a.capabilities@ == b.capabilities@,
{
    lemma_shadow_of(rep, des, v);
    lemma_shadow_of(rep2, des2, v2);
}

/// A list of integers as a document.
pub open spec fn listing(v: Seq<i64>) -> Json {
    Json::Array(v.map_values(|n: i64| json::whole(n as int)))
}

proof fn lemma_integers(v: Seq<i64>)
    ensures
        device::integers(v.map_values(|n: i64| json::whole(n as int))) == v,
    decreases v.len(),
{
    let all = v.map_values(|n: i64| json::whole(n as int));
    if v.len() > 0 {
        lemma_integers(v.drop_last());
        assert(all.drop_last() =~= v.drop_last().map_values(|n: i64| json::whole(n as int)));
        assert(all.last() == json::whole(v.last() as int));
        assert(v.drop_last().push(v.last()) =~= v);
    } else {
        assert(device::integers(all) =~= v);
    }
}

/// The codes that the device lists are kept, all of them and in their order.
pub proof fn law_lists_are_read(
    rep: Map<Seq<char>, Json>,
    des: Map<Seq<char>, Json>,
    version: Json,
    key: Seq<char>,
    codes: Seq<i64>,
    st: AcState,
)
    requires
        st.reads(shadow_of(rep.insert(key, listing(codes)), des, version)),
    ensures
        key == "errorCode"@ ==> st.errors@ == codes,
        key == "capabilities"@ ==> st.capabilities@ == codes,
{
    lemma_shadow_of(rep.insert(key, listing(codes)), des, version);
    lemma_integers(codes);
}

/// The version of a state is that of its document.
pub proof fn law_version_is_read(
    rep: Map<Seq<char>, Json>,
    des: Map<Seq<char>, Json>,
    n: i64,
    st: AcState,
)
    requires
        st.reads(shadow_of(rep, des, json::whole(n as int))),
    ensures
        st.shadow_version == n,
{
    lemma_shadow_of(rep, des, json::whole(n as int));
}

/// A number is read from each form that the cloud gives it: as a number, as its
/// digits, and as a truth value.
pub proof fn law_numbers_are_read_in_every_form(n: i64, b: bool)
    ensures
        json::number_i(json::whole(n as int)) == Some(n),
        json::number_i(Json::Text(text::dec_int(n as int))) == Some(n),
        json::number_i(Json::Bool(b)) == Some(
            if b {
                1i64
            } else {
                0i64
            },
        ),
        json::number_i(Json::Null) is None,
        json::number_f(json::whole(n as int)) == Some(double::integer_pattern(n as int)),
        json::number_f(Json::Null) is None,
{
    text::law_decimal_round_trip(n);
}

// ---------------------------------------------------------------------------
// the vanes
// ---------------------------------------------------------------------------

/// A vane is fixed at one of five points, sweeps, or is neither; never both.
pub proof fn law_vane_is_fixed_or_sweeps(dir: i64, i: int)
    requires
        0 <= i <= 4,
    ensures
        device::fixed_at(dir) == Some(i as usize) <==> dir == 9 + i,
        device::fixed_at(dir) is Some ==> !(1 <= dir <= 4),
{
}

} // verus!
