use serde_json::Value;
use tclac::device::{self, AcState, Fan, FanDialect, Mode};

fn parse(s: &str) -> Value {
    serde_json::from_str(s).unwrap()
}

fn shadow(reported: &str, desired: &str) -> Value {
    parse(&format!(
        r#"{{"state":{{"reported":{reported},"desired":{desired}}},"version":41}}"#
    ))
}

/// The shadow after a patch has been taken into the desired state.
fn patched(reported: &str, patch: &Value) -> AcState {
    AcState::from_shadow(&shadow(reported, &patch.to_string()))
}

fn celsius(t: &Option<tclac::json::Reading>) -> Option<f64> {
    t.as_ref().map(|r| f64::from_bits(r.bits()))
}

const FULL: &str = r#"{
    "powerSwitch": 1, "workMode": 1, "targetTemperature": 22.5, "targetFahrenheitTemp": 73,
    "currentTemperature": "24.5", "externalUnitTemperature": 31, "internalUnitCoilTemperature": 12.25,
    "compressorFrequency": 48, "OutDoorCompTarFreqSet": 50, "OutDoorCompTarFreqRun": 47,
    "externalUnitFanSpeed": 3, "OutDoorEEVTarOpenDegree": 220, "PTCStatus": true,
    "filterBlockStatus": 0, "filterBlockNotify": 1, "selfCleanPercentage": 15,
    "windSpeed7Gear": 4, "windSpeedAutoSwitch": 0, "windSpeedPercentage": 60,
    "verticalDirection": 10, "horizontalDirection": 3, "ECO": 1, "sleep": 2, "healthy": 0,
    "screen": 1, "beepSwitch": "1", "selfClean": 0, "antiMoldew": 1.9, "eightAddHot": 0,
    "temperatureType": 0, "lowerTemperatureLimit": 18, "upperTemperatureLimit": 30,
    "errorCode": [4, "7", true, null, 2.5], "capabilities": [1, 2, 3]
}"#;

#[test]
fn shadow_is_read() {
    let s = AcState::from_shadow(&shadow(FULL, "{}"));
    assert!(s.power);
    assert_eq!(s.work_mode, 1);
    assert_eq!(s.mode(), Some(Mode::Cool));
    assert_eq!(celsius(&s.target_temp), Some(22.5));
    assert_eq!(s.target_f, Some(73));
    assert_eq!(celsius(&s.current_temp), Some(24.5));
    assert_eq!(celsius(&s.external_temp), Some(31.0));
    assert_eq!(celsius(&s.coil_temp), Some(12.25));
    assert_eq!(s.compressor_hz, Some(48));
    assert_eq!(s.comp_target_hz, Some(50));
    assert_eq!(s.comp_run_hz, Some(47));
    assert_eq!(s.outdoor_fan, Some(3));
    assert_eq!(s.eev, Some(220));
    assert!(s.ptc);
    assert!(s.filter_alert);
    assert_eq!(s.self_clean_pct, Some(15));
    assert_eq!(s.fan, Fan::Gear(4));
    assert_eq!(s.dialect, FanDialect::SevenGear);
    assert_eq!(s.wind_pct, Some(60));
    assert_eq!(s.v_dir, 10);
    assert_eq!(s.h_dir, 3);
    assert_eq!(s.v_fix(), Some(1));
    assert_eq!(s.h_fix(), None);
    assert!(!s.v_swinging());
    assert!(s.h_swinging());
    assert!(s.eco);
    assert_eq!(s.sleep, 2);
    assert!(!s.healthy);
    assert!(s.screen);
    assert!(s.beep);
    assert!(!s.self_clean);
    assert!(s.anti_mold);
    assert!(!s.eight_heat);
    assert!(!s.temp_is_f);
    assert_eq!((s.t_min, s.t_max), (18, 30));
    assert_eq!(s.errors, vec![4, 7, 1, 2]);
    assert_eq!(s.capabilities, vec![1, 2, 3]);
    assert_eq!(s.shadow_version, 41);
    assert!(s.online);
}

#[test]
fn empty_shadow_has_defaults() {
    let s = AcState::from_shadow(&parse("{}"));
    assert!(!s.power);
    assert_eq!(s.work_mode, 0);
    assert!(s.target_temp.is_none());
    assert_eq!(s.fan, Fan::Auto);
    assert_eq!(s.dialect, FanDialect::Classic);
    assert_eq!((s.v_dir, s.h_dir), (8, 8));
    assert_eq!((s.t_min, s.t_max), (16, 31));
    assert_eq!(s.shadow_version, 0);
    assert_eq!(s.est_power_w(), None);
}

#[test]
fn desired_wins_for_controls_and_not_for_sensors() {
    let s = AcState::from_shadow(&shadow(
        r#"{"powerSwitch":0,"workMode":1,"currentTemperature":20,"sleep":1}"#,
        r#"{"powerSwitch":1,"workMode":null,"currentTemperature":99}"#,
    ));
    assert!(s.power);
    assert_eq!(s.work_mode, 1);
    assert_eq!(s.sleep, 1);
    assert_eq!(celsius(&s.current_temp), Some(20.0));
}

#[test]
fn power_command_reads_back() {
    for on in [true, false] {
        let patch = device::cmd_power(on);
        assert_eq!(patch, parse(if on { r#"{"powerSwitch":1}"# } else { r#"{"powerSwitch":0}"# }));
        assert_eq!(patched(r#"{"powerSwitch":0}"#, &patch).power, on);
        assert_eq!(patched(r#"{"powerSwitch":1}"#, &patch).power, on);
    }
}

#[test]
fn mode_command_reads_back() {
    for m in [Mode::Auto, Mode::Cool, Mode::Dry, Mode::Fan, Mode::Heat] {
        assert_eq!(patched(r#"{"workMode":9}"#, &device::cmd_mode(m)).mode(), Some(m));
        assert_eq!(Mode::from_work_mode(m.work_mode()), Some(m));
        assert_eq!(Mode::parse(m.key()), Some(m));
        assert_eq!(Mode::parse(m.label()), Some(m));
        assert_eq!(m.next().next().next().next().next(), m);
    }
    assert_eq!(Mode::from_work_mode(5), None);
    assert_eq!(Mode::from_work_mode(-1), None);
    assert_eq!(Mode::parse("Dehumidify"), Some(Mode::Dry));
    assert_eq!(Mode::parse("fan_only"), Some(Mode::Fan));
    assert_eq!(Mode::parse("warm"), None);
    assert_eq!(Mode::Cool.icon(), "❆");
    assert_eq!(Mode::Heat.next(), Mode::Auto);
    let unknown = patched(r#"{"workMode":9}"#, &parse("{}"));
    assert_eq!(unknown.mode_label(), "mode#9");
}

#[test]
fn temperature_command_reads_back() {
    let patch = device::cmd_temp(24, 16, 31);
    assert_eq!(patch, parse(r#"{"targetTemperature":24,"targetFahrenheitTemp":75}"#));
    let s = patched(r#"{"targetTemperature":18}"#, &patch);
    assert_eq!(celsius(&s.target_temp), Some(24.0));
    assert_eq!(s.target_f, Some(75));
    assert_eq!(
        device::cmd_temp(99, 16, 31),
        parse(r#"{"targetTemperature":31,"targetFahrenheitTemp":88}"#)
    );
    assert_eq!(
        device::cmd_temp(-99, 16, 31),
        parse(r#"{"targetTemperature":16,"targetFahrenheitTemp":61}"#)
    );
}

#[test]
fn fan_command_reads_back_in_both_dialects() {
    let mut fans = vec![Fan::Auto, Fan::Turbo];
    for g in 1..=6u8 {
        fans.push(Fan::Gear(g));
    }
    for f in fans {
        let seven = patched(r#"{"windSpeed7Gear":5}"#, &f.desired(FanDialect::SevenGear));
        assert_eq!(seven.fan, f);
        assert_eq!(Fan::parse(&f.key()), Some(f));
        assert_eq!(f.next().prev(), f);
        assert_eq!(f.prev().next(), f);
        let classic = patched(r#"{"windSpeed":5}"#, &f.desired(FanDialect::Classic));
        assert_eq!(classic.dialect, FanDialect::Classic);
        assert_eq!(classic.fan, f);
    }
    assert_eq!(
        Fan::Gear(1).desired(FanDialect::Classic),
        parse(r#"{"highTemperatureWind":0,"turbo":0,"silenceSwitch":1,"windSpeed":2}"#)
    );
    assert_eq!(
        Fan::Auto.desired(FanDialect::SevenGear),
        parse(r#"{"windSpeedAutoSwitch":1,"windSpeed7Gear":0}"#)
    );
}

#[test]
fn fan_words_and_levels() {
    assert_eq!(Fan::parse("TURBO"), Some(Fan::Turbo));
    assert_eq!(Fan::parse("max"), Some(Fan::Turbo));
    assert_eq!(Fan::parse("3"), Some(Fan::Gear(3)));
    assert_eq!(Fan::parse("Gear6"), Some(Fan::Gear(6)));
    assert_eq!(Fan::parse("gear7"), None);
    assert_eq!(Fan::parse("0"), None);
    assert_eq!(Fan::parse(""), None);
    assert_eq!(Fan::Gear(2).label(), "Gear 2");
    assert_eq!(Fan::Turbo.gear_level(), 7);
    assert_eq!(Fan::Auto.next(), Fan::Gear(1));
    assert_eq!(Fan::Turbo.next(), Fan::Auto);
    assert_eq!(Fan::Auto.prev(), Fan::Turbo);
    assert_eq!(Fan::from_7gear(0, 9), Fan::Auto);
    assert_eq!(Fan::from_7gear(1, 3), Fan::Auto);
    assert_eq!(Fan::from_classic(3, true, true), Fan::Turbo);
    assert_eq!(Fan::from_classic(3, false, true), Fan::Gear(1));
    assert_eq!(Fan::from_classic(1, false, false), Fan::Auto);
}

#[test]
fn swing_and_vent_commands_read_back() {
    for on in [true, false] {
        assert_eq!(patched("{}", &device::cmd_vswing(on)).v_swinging(), on);
        assert_eq!(patched("{}", &device::cmd_hswing(on)).h_swinging(), on);
    }
    for h in 0..5i64 {
        for v in 0..5i64 {
            let s = patched(r#"{"verticalDirection":1,"horizontalDirection":1}"#, &device::cmd_vent(h, v));
            assert_eq!(s.h_fix(), Some(h as usize));
            assert_eq!(s.v_fix(), Some(v as usize));
            assert!(!s.v_swinging() && !s.h_swinging());
        }
    }
    assert_eq!(
        device::cmd_vent(-3, 9),
        parse(r#"{"horizontalDirection":9,"verticalDirection":13}"#)
    );
}

#[test]
fn flag_and_sleep_commands_read_back() {
    assert!(patched("{}", &device::cmd_flag("ECO", true)).eco);
    assert!(!patched(r#"{"screen":1}"#, &device::cmd_flag("screen", false)).screen);
    for level in 0..4 {
        assert_eq!(patched("{}", &device::cmd_sleep(level)).sleep, level);
    }
    assert_eq!(device::cmd_sleep(9), parse(r#"{"sleep":3}"#));
    assert_eq!(device::cmd_sleep(-9), parse(r#"{"sleep":0}"#));
}

#[test]
fn power_is_estimated_from_the_frequency() {
    let at = |hz: &str, on: u8| {
        AcState::from_shadow(&shadow(
            &format!(r#"{{"powerSwitch":{on},"compressorFrequency":{hz}}}"#),
            "{}",
        ))
        .est_power_w()
    };
    assert_eq!(at("48", 1), Some(1005));
    assert_eq!(at("0", 1), Some(45));
    assert_eq!(at("-5", 1), Some(45));
    assert_eq!(at("48", 0), Some(0));
    for hz in [1i64, 7, 120, 1 << 40, i64::MAX] {
        let w = ((hz.max(0) as f64) * 20.0 + 45.0).round() as i64;
        assert_eq!(at(&hz.to_string(), 1), Some(w));
    }
}
