use serde_json::Value;
use tclac::auth::{AwsCredentials, Session};
use tclac::cli::{self, Command, Opts, Recovery};
use tclac::clock::{self, Today};
use tclac::config::Config;
use tclac::device::{AcState, Fan, FanDialect};
use tclac::energy;
use tclac::fault::Fault;
use tclac::http::Reply;
use tclac::launch::{self, Launch};
use tclac::orders::{self, Order, PowerChoice};
use tclac::reports;
use tclac::rest::Device;

fn args(words: &[&str]) -> Vec<String> {
    words.iter().map(|w| w.to_string()).collect()
}

fn parse(s: &str) -> Value {
    serde_json::from_str(s).unwrap()
}

fn shadow(reported: &str) -> Value {
    parse(&format!(r#"{{"state":{{"reported":{reported}}},"version":7}}"#))
}

fn state(reported: &str) -> AcState {
    AcState::from_shadow(&shadow(reported))
}

fn device(id: &str, nick: &str) -> Device {
    Device {
        device_id: id.to_string(),
        nick_name: nick.to_string(),
        device_name: "Split AC".to_string(),
        is_online: true,
        firmware_version: "1.2".to_string(),
    }
}

fn session() -> Session {
    Session {
        username: "u".to_string(),
        country: "DE".to_string(),
        saas_token: "tok".to_string(),
        device_url: "https://dev".to_string(),
        aws_region: "eu".to_string(),
        iot_endpoint: None,
        aws: AwsCredentials {
            access_key_id: "a".to_string(),
            secret_key: "s".to_string(),
            session_token: "t".to_string(),
            expiration: None,
        },
    }
}

/// The messages of a failure, the outermost first.
fn messages(f: &Fault) -> Vec<String> {
    match f {
        Fault::Plain(m) => vec![m.clone()],
        Fault::Wrapping(m, inner) => {
            let mut v = vec![m.clone()];
            v.extend(messages(inner));
            v
        }
        Fault::Json(_) => vec!["<json>".to_string()],
        Fault::Base64(_) => vec!["<base64>".to_string()],
    }
}

fn message<T>(r: Result<T, Fault>) -> String {
    match r {
        Ok(_) => panic!("no failure"),
        Err(f) => messages(&f).join(" / "),
    }
}

fn ordered(r: Result<Order, Fault>) -> (String, String) {
    match r {
        Ok(o) => (o.action, o.desired.to_string()),
        Err(f) => panic!("{:?}", messages(&f)),
    }
}

fn opts(words: &[&str]) -> Opts {
    cli::parse_opts(&args(words))
}

#[test]
fn options_are_parsed() {
    let o = opts(&["temp", "--json", "22", "-D", "abc", "--wait", "--fresh"]);
    assert!(o.json && o.wait && o.no_cache);
    assert_eq!(o.device.as_deref(), Some("abc"));
    assert_eq!(o.pos, args(&["temp", "22"]));
    let o = opts(&["--device", "a", "--device"]);
    assert_eq!(o.device, None);
    let o = opts(&["--device", "--json"]);
    assert_eq!(o.device.as_deref(), Some("--json"));
    assert!(!o.json);
    assert_eq!(opts(&["a", "b"]).pos, args(&["a", "b"]));
    assert!(opts(&["--no-cache"]).no_cache);
}

#[test]
fn commands_are_recognised() {
    let is = |words: &[&str]| cli::run(&opts(words));
    assert!(matches!(is(&["status"]), Command::Status));
    assert!(matches!(is(&["state"]), Command::Status));
    assert!(matches!(is(&["get"]), Command::Get(None)));
    assert!(matches!(is(&["on"]), Command::Power(Some(s)) if s == "on"));
    assert!(matches!(is(&["off", "x"]), Command::Power(Some(s)) if s == "off"));
    assert!(matches!(is(&["power", "toggle"]), Command::Power(Some(s)) if s == "toggle"));
    assert!(matches!(is(&["mode", "cool"]), Command::Mode(Some(_))));
    assert!(matches!(is(&["temperature", "22"]), Command::Temp(Some(_))));
    assert!(matches!(is(&["fan"]), Command::Fan(None)));
    assert!(matches!(is(&["swing", "on"]), Command::Swing { horizontal: false, .. }));
    assert!(matches!(is(&["hswing", "on"]), Command::Swing { horizontal: true, .. }));
    assert!(matches!(is(&["aim", "1", "2"]), Command::Vent(Some(a), Some(b)) if a == "1" && b == "2"));
    assert!(matches!(is(&["set", "eco"]), Command::Feature(Some(_), None)));
    assert!(matches!(is(&["telem"]), Command::Telemetry));
    assert!(matches!(is(&["power-usage"]), Command::Energy));
    assert!(matches!(is(&["probe"]), Command::Probe));
    assert!(matches!(is(&["list"]), Command::List));
    assert!(matches!(is(&["dump"]), Command::Dump));
    match is(&["frob"]) {
        Command::Usage(m) => assert_eq!(m, "unknown command: frob\n\nRun `tclac help` for usage."),
        _ => panic!("not a usage error"),
    }
    match is(&["--json"]) {
        Command::Usage(m) => assert!(m.starts_with("unknown command: \n")),
        _ => panic!("not a usage error"),
    }
}

#[test]
fn cached_sessions_serve_their_device() {
    let d = device("id1", "");
    assert!(cli::use_cache(&opts(&["status"]), &d));
    assert!(cli::use_cache(&opts(&["status", "-D", "id1"]), &d));
    assert!(!cli::use_cache(&opts(&["status", "-D", "id2"]), &d));
    assert!(!cli::use_cache(&opts(&["status", "--no-cache"]), &d));
}

#[test]
fn devices_are_selected() {
    let devices = vec![device("a", ""), device("b", ""), device("b", "second")];
    assert!(matches!(cli::select(&devices, &None), Ok(0)));
    assert!(matches!(cli::select(&devices, &Some("b".to_string())), Ok(1)));
    assert_eq!(
        message(cli::select(&devices, &Some("c".to_string()))),
        "device `c` not found on account"
    );
    assert_eq!(message(cli::select(&vec![], &None)), "no devices on account");
    // an empty id means the first device
    assert!(matches!(cli::select(&devices, &Some("".to_string())), Ok(0)));
    assert_eq!(message(cli::select(&vec![], &Some("".to_string()))), "no devices on account");
    let cfg = Config {
        username: "u".to_string(),
        password: "p".to_string(),
        device_id: Some("b".to_string()),
    };
    assert_eq!(cli::wanted(&opts(&[]), &cfg).as_deref(), Some("b"));
    assert_eq!(cli::wanted(&opts(&["-D", "a"]), &cfg).as_deref(), Some("a"));
}

#[test]
fn failed_calls_are_tried_once_more() {
    assert_eq!(cli::recover(true, 1), Recovery::Use);
    assert_eq!(cli::recover(false, 1), Recovery::Relogin);
    assert_eq!(cli::recover(true, 2), Recovery::Use);
    assert_eq!(cli::recover(false, 2), Recovery::GiveUp);
}

#[test]
fn fields_are_printed() {
    let mut s = state(
        r#"{"powerSwitch":1,"workMode":1,"targetTemperature":22.5,"targetFahrenheitTemp":73,
        "currentTemperature":24.02,"externalUnitTemperature":-3.26,"windSpeed7Gear":3,
        "verticalDirection":1,"horizontalDirection":9,"sleep":2,"beepSwitch":1}"#,
    );
    s.online = false;
    let get = |f: &str| cli::cmd_get(&s, f).ok().unwrap();
    assert_eq!(get("POWER"), "on");
    assert_eq!(get("mode"), "cool");
    assert_eq!(get("target"), "22.5");
    assert_eq!(get("target_f"), "73");
    assert_eq!(get("temp"), "24");
    assert_eq!(get("outdoor_c"), "-3.3");
    assert_eq!(get("coil"), "-");
    assert_eq!(get("fan"), "gear3");
    assert_eq!(get("fan_gear"), "3");
    assert_eq!(get("wind_pct"), "-");
    assert_eq!(get("swing"), "on");
    assert_eq!(get("h_swing"), "off");
    assert_eq!(get("online"), "false");
    assert_eq!(get("sleep"), "2");
    assert_eq!(get("beep"), "on");
    assert_eq!(get("eco"), "off");
    assert_eq!(get("healthy"), "off");
    assert_eq!(get("screen"), "off");
    assert_eq!(get("selfclean"), "off");
    assert_eq!(get("anti_mold"), "off");
    assert_eq!(get("eightheat"), "off");
    assert_eq!(
        message(cli::cmd_get(&s, "Nope")),
        "unknown field `nope` (try: power mode target current fan swing online eco …)"
    );
    assert_eq!(message(cli::get_field(None)), "usage: tclac get <field>");
    assert_eq!(cli::cmd_get(&state(r#"{"workMode":8}"#), "mode").ok().unwrap(), "mode#8");
}

#[test]
fn power_words() {
    let c = |s: &str| orders::power_choice(&Some(s.to_string()));
    assert!(matches!(c("ON"), Ok(PowerChoice::On)));
    assert!(matches!(c("false"), Ok(PowerChoice::Off)));
    assert!(matches!(c("Toggle"), Ok(PowerChoice::Toggle)));
    assert_eq!(message(c("Maybe")), "power expects on|off|toggle, got `maybe`");
    assert_eq!(message(orders::power_choice(&None)), "usage: tclac power <on|off|toggle>");
    let o = orders::cmd_power(false);
    assert_eq!((o.action.as_str(), o.desired.to_string().as_str()), ("power off", r#"{"powerSwitch":0}"#));
}

#[test]
fn mode_orders() {
    assert_eq!(
        ordered(orders::cmd_mode(&Some("HEAT".to_string()))),
        ("mode heat".to_string(), r#"{"workMode":4}"#.to_string())
    );
    assert_eq!(message(orders::cmd_mode(&Some("x".to_string()))), "unknown mode `x`");
    assert_eq!(message(orders::cmd_mode(&None)), "usage: tclac mode <auto|cool|dry|fan|heat>");
}

#[test]
fn temperature_orders() {
    let s = state(r#"{"targetTemperature":22.5,"lowerTemperatureLimit":18,"upperTemperatureLimit":26}"#);
    let order = |a: &str| {
        assert!(orders::temp_fits(a, &s));
        ordered(orders::cmd_temp(a, &s))
    };
    assert_eq!(order("24").0, "temp 24C");
    assert_eq!(order("24").1, r#"{"targetFahrenheitTemp":75,"targetTemperature":24}"#);
    assert_eq!(order("+2").0, "temp 25C");
    assert_eq!(order("-2").0, "temp 21C");
    assert_eq!(order("--2").0, "temp 25C");
    assert_eq!(order("99").0, "temp 26C");
    assert_eq!(order("+99").0, "temp 26C");
    assert_eq!(order("-99").0, "temp 18C");
    let fail = |a: &str| message(orders::cmd_temp(a, &s));
    assert_eq!(
        fail("warm"),
        "temp must be a number, +N, or -N / invalid digit found in string"
    );
    assert_eq!(fail(""), "temp must be a number, +N, or -N / cannot parse integer from empty string");
    assert_eq!(fail("-"), "temp must be a number, +N, or -N / invalid digit found in string");
    assert_eq!(fail("+"), "bad relative temp / cannot parse integer from empty string");
    assert_eq!(
        fail("99999999999999999999"),
        "temp must be a number, +N, or -N / number too large to fit in target type"
    );
    assert_eq!(
        fail("--99999999999999999999"),
        "bad relative temp / number too small to fit in target type"
    );
    assert!(!orders::temp_fits("+9223372036854775807", &s));
    let odd = state(r#"{"lowerTemperatureLimit":40}"#);
    assert!(!orders::temp_fits("20", &odd));
    assert!(orders::temp_fits("+", &odd));
    assert!(message(orders::cmd_temp("+", &odd)).starts_with("bad relative temp / "));
    assert_eq!(ordered(orders::cmd_temp("+1", &state("{}"))).0, "temp 25C");
    assert_eq!(message(orders::temp_argument(None)), "usage: tclac temp <°C | +N | -N>");
    assert_eq!(
        fail("99999999999999999999x"),
        "temp must be a number, +N, or -N / number too large to fit in target type"
    );
    assert_eq!(
        fail("+-99999999999999999999x"),
        "bad relative temp / number too small to fit in target type"
    );
    assert_eq!(
        fail("9x99999999999999999999"),
        "temp must be a number, +N, or -N / invalid digit found in string"
    );
    for bad in [
        "x",
        "",
        "-",
        "+",
        "--1",
        "1.5",
        "9223372036854775808",
        "-9223372036854775809",
        "9223372036854775807x",
        "9223372036854775808x",
        "-9223372036854775808x",
        "-9223372036854775809x",
        "00000000000000000000000001x",
        "99999999999999999999x",
        "-99999999999999999999 ",
        "9é99999999999999999999",
    ] {
        let std = bad.parse::<i64>().unwrap_err().to_string();
        assert!(fail(&format!("+{bad}")).ends_with(&std), "{bad}");
    }
}

#[test]
fn fan_orders() {
    assert!(matches!(orders::fan_argument(&Some("4".to_string())), Ok(Fan::Gear(4))));
    assert_eq!(message(orders::fan_argument(&Some("9".to_string()))), "unknown fan speed `9`");
    assert_eq!(message(orders::fan_argument(&None)), "usage: tclac fan <auto|1..6|turbo>");
    let o = orders::cmd_fan(Fan::Turbo, FanDialect::SevenGear);
    assert_eq!(o.action, "fan turbo");
    assert_eq!(o.desired, parse(r#"{"windSpeedAutoSwitch":0,"windSpeed7Gear":7}"#));
}

#[test]
fn swing_orders() {
    assert_eq!(
        ordered(orders::cmd_swing(&Some("yes".to_string()), false)),
        ("swing on".to_string(), r#"{"verticalDirection":1}"#.to_string())
    );
    assert_eq!(
        ordered(orders::cmd_swing(&Some("OFF".to_string()), true)),
        ("hswing off".to_string(), r#"{"horizontalDirection":8}"#.to_string())
    );
    assert_eq!(message(orders::cmd_swing(&Some("x".to_string()), true)), "hswing expects on|off");
    assert_eq!(message(orders::cmd_swing(&None, false)), "usage: tclac swing <on|off>");
}

#[test]
fn vent_labels_read_back() {
    for (i, l) in ["left", "mid-left", "center", "mid-right", "right"].iter().enumerate() {
        assert_eq!(orders::parse_vent(true, l), Some(i));
        assert_eq!(orders::parse_vent(true, &(i + 1).to_string()), Some(i));
    }
    for (i, l) in ["top", "upper", "middle", "lower", "bottom"].iter().enumerate() {
        assert_eq!(orders::parse_vent(false, l), Some(i));
    }
    assert_eq!(orders::parse_vent(true, "MidLeft"), Some(1));
    assert_eq!(orders::parse_vent(true, "mid_right"), Some(3));
    assert_eq!(orders::parse_vent(true, "top"), None);
    assert_eq!(orders::parse_vent(true, "0"), None);
    assert_eq!(orders::parse_vent(true, "6"), None);
    assert_eq!(orders::parse_vent(true, "-1"), None);
    assert_eq!(orders::parse_vent(true, "-3"), None);
    assert_eq!(orders::parse_vent(false, "1_"), None);
}

#[test]
fn vent_orders() {
    let some = |s: &str| Some(s.to_string());
    assert_eq!(
        ordered(orders::cmd_vent(&some("right"), &some("2"))),
        (
            "vent right · upper".to_string(),
            r#"{"horizontalDirection":13,"verticalDirection":10}"#.to_string()
        )
    );
    let usage = "usage: tclac vent <left|mid-left|center|mid-right|right|1-5> <top|upper|middle|lower|bottom|1-5>";
    assert_eq!(message(orders::cmd_vent(&None, &None)), usage);
    assert_eq!(message(orders::cmd_vent(&some("left"), &None)), usage);
    assert_eq!(
        message(orders::cmd_vent(&some("x"), &some("top"))),
        format!("unknown horizontal position `x`\n{usage}")
    );
    assert_eq!(
        message(orders::cmd_vent(&some("left"), &some("x"))),
        format!("unknown vertical position `x`\n{usage}")
    );
}

#[test]
fn feature_orders() {
    let some = |s: &str| Some(s.to_string());
    let order = |n: &str, v: &str| ordered(orders::cmd_feature(&some(n), &some(v)));
    assert_eq!(order("Eco", "on"), ("Eco on".to_string(), r#"{"ECO":1}"#.to_string()));
    assert_eq!(order("self-clean", "0"), ("self-clean off".to_string(), r#"{"selfClean":0}"#.to_string()));
    assert_eq!(order("8heat", "yes").1, r#"{"eightAddHot":1}"#);
    assert_eq!(order("display", "yes").1, r#"{"screen":1}"#);
    assert_eq!(order("health", "yes").1, r#"{"healthy":1}"#);
    assert_eq!(order("beep", "yes").1, r#"{"beepSwitch":1}"#);
    assert_eq!(order("anti_mold", "yes").1, r#"{"antiMoldew":1}"#);
    assert_eq!(order("SLEEP", "on"), ("sleep 1".to_string(), r#"{"sleep":1}"#.to_string()));
    assert_eq!(order("sleep", "3"), ("sleep 3".to_string(), r#"{"sleep":3}"#.to_string()));
    let fail = |n: Option<String>, v: Option<String>| message(orders::cmd_feature(&n, &v));
    assert_eq!(fail(some("sleep"), some("4")), "sleep expects on|off|0..3");
    assert_eq!(fail(some("eco"), some("x")), "eco expects on|off");
    assert_eq!(fail(some("x"), some("on")), "unknown feature `x`");
    assert_eq!(fail(some("eco"), None), "usage: tclac feature eco <on|off>");
    assert_eq!(
        fail(None, None),
        "usage: tclac feature <eco|sleep|health|screen|beep|selfclean|antimold|eightheat> <on|off>"
    );
}

#[test]
fn switch_words_read_back() {
    for on in [true, false] {
        assert_eq!(cli::parse_bool(cli::onoff(on)), Some(on));
    }
    assert_eq!(cli::parse_bool("No"), Some(false));
    assert_eq!(cli::parse_bool("maybe"), None);
}

#[test]
fn work_times() {
    assert_eq!(cli::fmt_worktime(-1), "0");
    assert_eq!(cli::fmt_worktime(0), "0");
    assert_eq!(cli::fmt_worktime(59), "59m");
    assert_eq!(cli::fmt_worktime(60), "1h 0m");
    assert_eq!(cli::fmt_worktime(754), "12h 34m");
}

#[test]
fn states_are_printed_for_people() {
    let s = state(
        r#"{"powerSwitch":1,"workMode":1,"targetTemperature":22,"targetFahrenheitTemp":72,
        "currentTemperature":24.4,"windSpeed7Gear":3,"verticalDirection":2,"compressorFrequency":40,
        "ECO":1,"eightAddHot":1,"sleep":1}"#,
    );
    let out = reports::cmd_status(false, &s, &device("id1", "Bedroom"));
    assert_eq!(
        out.lines,
        vec![
            "Bedroom [Split AC]  online",
            "  power    on",
            "  mode     Cool (workMode=1)",
            "  target   22C / 72F",
            "  current  24.4C",
            "  fan      Gear 3 (gear 3)",
            "  swing    V:on  H:off",
            "  sensors  outdoor -C · coil -C · compressor 40 Hz · wind 0%",
            "  features eco, 8C-heat  (sleep 1)",
        ]
    );
    let bare = reports::print_human(&state("{}"), &device("id1", ""));
    assert_eq!(bare.lines[0], "Split AC [Split AC]  online");
    assert_eq!(bare.lines[3], "  target   -C");
    assert_eq!(bare.lines[8], "  features none  (sleep 0)");
}

#[test]
fn states_are_printed_as_json() {
    let s = state(r#"{"powerSwitch":1,"workMode":1,"targetTemperature":22,"windSpeed7Gear":3}"#);
    let out = reports::cmd_status(true, &s, &device("id1", "Bedroom"));
    assert_eq!(out.lines.len(), 1);
    let v = parse(&out.lines[0]);
    assert_eq!(v["device_id"], "id1");
    assert_eq!(v["name"], "Bedroom");
    assert_eq!(v["device_type"], "Split AC");
    assert_eq!(v["online"], true);
    assert_eq!(v["mode"], "cool");
    assert_eq!(v["target_c"].as_f64(), Some(22.0));
    assert!(v["target_c"].is_f64());
    assert!(v["target_f"].is_null());
    assert_eq!(v["fan"], "gear3");
    assert_eq!(v["fan_gear"], 3);
    assert_eq!(v["v_dir"], 8);
    assert_eq!(v["temp_max"], 31);
    assert_eq!(v["shadow_version"], 7);
    assert_eq!(v.as_object().unwrap().len(), 31);
    assert!(parse(&reports::cmd_status(true, &state(r#"{"workMode":7}"#), &device("a", "")).lines[0])["mode"].is_null());
    let odd = state(r#"{"targetTemperature":"inf"}"#);
    assert!(parse(&reports::cmd_status(true, &odd, &device("a", "")).lines[0])["target_c"].is_null());
}

#[test]
fn results_are_printed() {
    let d = device("id1", "");
    let sent = parse(r#"{"powerSwitch":1}"#);
    assert_eq!(reports::done(false, "power on", &sent, &d).lines, vec!["ok: power on"]);
    assert_eq!(
        reports::done(true, "power on", &sent, &d).lines,
        vec![r#"{"action":"power on","device_id":"id1","ok":true,"sent":{"powerSwitch":1}}"#]
    );
    let st = state("{}");
    let waited = reports::done_waiting(false, "power on", &sent, &st, &d);
    assert_eq!(waited.lines.len(), 10);
    assert_eq!(waited.lines[0], "ok: power on");
    assert_eq!(waited.lines[1], "Split AC [Split AC]  online");
    let waited = reports::done_waiting(true, "power on", &sent, &st, &d);
    assert_eq!(waited.lines.len(), 1);
    let v = parse(&waited.lines[0]);
    assert_eq!(v["ok"], true);
    assert_eq!(v["action"], "power on");
    assert_eq!(v["sent"], sent);
    assert_eq!(v["device_id"], "id1");
    assert_eq!(v["state"], reports::state_json(&st, &d));
    assert_eq!(v.as_object().unwrap().len(), 5);
}

#[test]
fn devices_are_listed() {
    let devices = vec![device("a", "Den"), device("b", "")];
    assert_eq!(
        reports::cmd_list(false, &devices).lines,
        vec!["a  [Split AC]  online  Den", "b  [Split AC]  online  Split AC"]
    );
    assert_eq!(reports::cmd_list(false, &vec![]).lines, vec!["No devices found."]);
    let v = parse(&reports::cmd_list(true, &devices).lines[0]);
    assert_eq!(v[1]["device_id"], "b");
    assert_eq!(v[0]["name"], "Den");
    assert_eq!(v[0]["firmware"], "1.2");
    assert_eq!(reports::cmd_list(true, &vec![]).lines, vec!["[]"]);
}

#[test]
fn shadows_are_dumped() {
    let v = parse(r#"{"b":[1],"a":null}"#);
    assert_eq!(
        reports::cmd_dump(&v).ok().unwrap(),
        "{\n  \"a\": null,\n  \"b\": [\n    1\n  ]\n}"
    );
}

#[test]
fn telemetry_is_printed() {
    let sh = shadow(
        r#"{"powerSwitch":1,"currentTemperature":24.25,"externalUnitTemperature":31,
        "compressorFrequency":48,"OutDoorCompTarFreqSet":50,"OutDoorFanTarSpeed":800,
        "PTCStatus":1,"windSpeedPercentage":60,"filterBlockNotify":1,"selfCleanStatus":0,
        "errorCode":[3,"x",4]}"#,
    );
    let d = device("id1", "Den");
    assert_eq!(
        reports::cmd_telemetry(false, &sh, &d).lines,
        vec![
            "Telemetry — Den [Split AC]",
            "  Temperatures",
            "    indoor        24.2 °C",
            "    outdoor       31.0 °C",
            "    indoor coil   - °C",
            "  Compressor / outdoor unit",
            "    compressor    48 Hz  (target 50 / run -)",
            "    outdoor fan   speed - / target 800",
            "    EEV opening   -",
            "    PTC heater    on",
            "    est. power    ~1.0 kW (estimated from compressor Hz — not a meter reading)",
            "  Airflow / maintenance",
            "    wind output   60 %",
            "    filter        CLEAN NEEDED",
            "    self-clean    status 0 · -%",
            "  Diagnostics",
            "    errors        [3, 4]",
        ]
    );
    let v = parse(&reports::cmd_telemetry(true, &sh, &d).lines[0]);
    assert_eq!(v["indoor_c"], 24.25);
    assert!(v["outdoor_c"].is_f64());
    assert!(v["coil_c"].is_null());
    assert_eq!(v["compressor_hz"], 48);
    assert_eq!(v["est_power_w"], 1005);
    assert_eq!(v["error_codes"], parse("[3,4]"));
    assert_eq!(v.as_object().unwrap().len(), 19);
    let none = reports::cmd_telemetry(false, &parse("{}"), &d).lines;
    assert_eq!(none[10], "    est. power    ~- (estimated from compressor Hz — not a meter reading)");
    assert_eq!(none[16], "    errors        none");
}

#[test]
fn energy_is_planned() {
    let t = Today { year: 2025, month: 3, day: 7, weekday: 4 };
    let plan = energy::energy_plan_at(&session(), &device("id1", ""), t);
    assert_eq!(plan.period, "2025-03");
    assert_eq!(plan.consumption, "https://dev/v3/ac/id1/power/consumption/info/2025/03");
    assert_eq!(plan.work_time, "https://dev/v3/ac/id1/work-time/info/2025/03");
    let now = energy::energy_plan(&session(), &device("id1", ""));
    assert_eq!(now.consumption.len(), plan.consumption.len());
}

#[test]
fn energy_is_printed() {
    let cons = parse(
        r#"{"currStatisticsRes":{"totalElectricity":12.345,"onlineElectricity":10,"aiElectricity":"x"},
        "beforeStatisticsRes":{"totalElectricity":1},
        "consumptionDetails":[{"date":"2025-03-01","totalElectricity":0.5},{"totalElectricity":2}]}"#,
    );
    let work = parse(
        r#"{"currentTotalWorkTime":{"workTime":754,"aiWorkTime":5},"beforeTotalWorkTime":{}}"#,
    );
    let d = device("id1", "Den");
    assert_eq!(
        energy::cmd_energy(false, &d, "2025-03", &Some(cons.clone()), &Some(work)).lines,
        vec![
            "Energy & runtime — Den (2025-03)",
            "  Consumption (kWh)",
            "    this month  12.35   (online 10.00 · offline 0.00 · AI 0.00)",
            "    last month  1.00",
            "    by day:",
            "      2025-03-01  0.50",
            "      ?  2.00",
            "  Runtime",
            "    this month  12h 34m   (AI 5m)",
            "    last month  0",
        ]
    );
    assert_eq!(
        energy::cmd_energy(false, &d, "2025-03", &None, &None).lines,
        vec![
            "Energy & runtime — Den (2025-03)",
            "  Consumption: (unavailable)",
            "  Runtime: (unavailable)",
        ]
    );
    let v = parse(&energy::cmd_energy(true, &d, "2025-03", &Some(cons.clone()), &None).lines[0]);
    assert_eq!(v["consumption"], cons);
    assert!(v["work_time"].is_null());
    assert_eq!(v["period"], "2025-03");
}

#[test]
fn answers_give_their_data() {
    let r = |status: u16, body: &str| energy::fetch_json(&Reply { status, body: body.to_string() });
    assert_eq!(r(200, r#"{"data":{"x":1}}"#), Some(parse(r#"{"x":1}"#)));
    assert_eq!(r(201, r#"{"data":1}"#), None);
    assert_eq!(r(200, "nope"), None);
    assert_eq!(r(200, "{}"), None);
}

#[test]
fn weeks_run_from_monday() {
    // 2025-03-07 was a Friday
    let t = Today { year: 2025, month: 3, day: 7, weekday: 4 };
    assert_eq!(clock::week(t).as_deref(), Some("20250303-20250309"));
    let over = Today { year: 2024, month: 12, day: 31, weekday: 1 };
    assert_eq!(clock::week(over).as_deref(), Some("20241230-20250105"));
    let far = Today { year: 10000, month: 1, day: 1, weekday: 5 };
    assert_eq!(clock::week(far).as_deref(), Some("99991227-+100000102"));
    assert_eq!(clock::write_date((-3, 4, 5)), "-00030405");
    assert_eq!(clock::write_date((7, 12, 31)), "00071231");
    for (y, m, d) in [(2025, 3, 9), (1, 1, 1), (0, 2, 29), (-1, 12, 31), (12345, 6, 7), (9999, 10, 11)] {
        let date = chrono::NaiveDate::from_ymd_opt(y, m, d).unwrap();
        assert_eq!(clock::write_date((y, m, d)), date.format("%Y%m%d").to_string());
    }
    assert_eq!(clock::week(Today { year: 2025, month: 2, day: 30, weekday: 0 }), None);
}

#[test]
fn endpoints_are_probed() {
    let t = Today { year: 2025, month: 3, day: 7, weekday: 4 };
    let urls = energy::probe_urls_at(&session(), &device("id1", ""), t, "W").lines;
    assert_eq!(urls.len(), 14);
    assert_eq!(urls[0], "https://dev/v3/ac/id1/power/consumption/info/2025/03");
    assert_eq!(urls[1], "https://dev/v3/ac/id1/power/consumption/info/2025");
    assert_eq!(urls[3], "https://dev/v3/ac/id1/power/consumption/info/2025/03/07");
    assert_eq!(urls[5], "https://dev/v3/ac/id1/work-time/info?week=W");
    assert_eq!(urls[13], "https://dev/v3/ac/id1/electricity/realtime");
    let today = energy::probe_urls(&session(), &device("id1", "")).unwrap().lines;
    assert_eq!(today[5].len(), urls[5].len() - 1 + 17);
    let reply = Reply { status: 404, body: r#"{"a":1}"#.to_string() };
    assert_eq!(energy::probe_reply("u", &reply), "── 404  u\n{\n  \"a\": 1\n}\n");
    let long = Reply { status: 200, body: "ä".repeat(1600) };
    assert_eq!(
        energy::probe_reply("u", &long),
        format!("── 200  u\n{}…\n", "ä".repeat(1500))
    );
    assert_eq!(energy::probe_failure("u", "no"), "── ERR  u\nno\n");
}

#[test]
fn arguments_choose_what_starts() {
    assert!(matches!(launch::launch(args(&[])), Launch::Tui));
    assert!(matches!(launch::launch(args(&["tui", "--device", "x"])), Launch::Tui));
    assert!(matches!(launch::launch(args(&["--help"])), Launch::Help));
    assert!(matches!(launch::launch(args(&["-V"])), Launch::Version));
    match launch::launch(args(&["--list", "x"])) {
        Launch::Command(a) => assert_eq!(a, args(&["list"])),
        _ => panic!("not a command"),
    }
    match launch::launch(args(&["--dump"])) {
        Launch::Command(a) => assert_eq!(a, args(&["dump"])),
        _ => panic!("not a command"),
    }
    match launch::launch(args(&["temp", "22"])) {
        Launch::Command(a) => assert_eq!(a, args(&["temp", "22"])),
        _ => panic!("not a command"),
    }
}

#[test]
fn flags_have_values() {
    assert_eq!(launch::flag_value(&args(&["a", "-D", "x", "-D", "y"]), "-D").as_deref(), Some("x"));
    assert_eq!(launch::flag_value(&args(&["-D"]), "-D"), None);
    assert_eq!(launch::flag_value(&args(&["a"]), "-D"), None);
    assert_eq!(launch::device_override(&args(&["-D", "x", "--device", "y"])).as_deref(), Some("y"));
    assert_eq!(launch::device_override(&args(&["-D", "x"])).as_deref(), Some("x"));
}

#[test]
fn dashboard_device_is_chosen() {
    let devices = vec![device("a", "Den"), device("b", "")];
    assert!(matches!(launch::choose_device(&devices, &None), Ok(0)));
    assert!(matches!(launch::choose_device(&devices, &Some("b".to_string())), Ok(1)));
    assert!(matches!(launch::choose_device(&devices, &Some("".to_string())), Ok(0)));
    assert_eq!(
        message(launch::choose_device(&devices, &Some("c".to_string()))),
        "configured device_id `c` not found on account"
    );
    assert_eq!(
        message(launch::choose_device(&vec![], &Some("c".to_string()))),
        "no devices found on this account"
    );
    assert_eq!(launch::controlling(&devices[0]), "Controlling: Den (a)");
}
