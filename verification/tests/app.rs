use serde_json::Value;
use tclac::app::{self, Action, App, CloudError, Key, Moment, Msg, PendingKind};
use tclac::device::{Fan, Mode};
use tclac::rest::Device;
use tclac::style::Rect;

const SEC: u64 = 1_000_000_000;

fn device() -> Device {
    Device {
        device_id: "id1".to_string(),
        nick_name: "Bedroom".to_string(),
        device_name: "Split AC".to_string(),
        is_online: false,
        firmware_version: "1.2".to_string(),
    }
}

fn at(nanos: u64) -> Moment {
    Moment { nanos, stamp: "12:34:56".to_string() }
}

fn shadow(reported: &str) -> Value {
    serde_json::from_str(&format!(r#"{{"state":{{"reported":{reported}}},"version":7}}"#)).unwrap()
}

fn read(app: &mut App, reported: &str, nanos: u64) -> Option<Action> {
    app.handle_msg(Msg::Shadow(Ok(shadow(reported))), &at(nanos))
}

fn press(app: &mut App, c: char, nanos: u64) -> Option<Action> {
    assert!(app.accepts(Key::Char(c)));
    app.handle_key(Key::Char(c), false, &at(nanos))
}

fn published(a: Option<Action>) -> (String, String) {
    match a {
        Some(Action::Publish { desc, payload, desired }) => {
            assert_eq!(payload, desired.to_string());
            (desc, payload)
        }
        _ => panic!("no command was published"),
    }
}

const IDLE: &str = r#"{"powerSwitch":1,"workMode":1,"targetTemperature":24,"windSpeed7Gear":2,
    "currentTemperature":22.5,"lowerTemperatureLimit":16,"upperTemperatureLimit":30}"#;

#[test]
fn starts_by_reading() {
    let mut app = App::new(device());
    assert_eq!(app.status, "Starting…");
    assert!(matches!(app.start(), Some(Action::Refresh { delay_ms: 0 })));
    assert_eq!(app.status, "Connecting…");
    assert!(app.refresh_inflight);
    assert!(read(&mut app, IDLE, 5 * SEC).is_none());
    assert_eq!(app.status, "Connected");
    assert!(!app.refresh_inflight);
    assert_eq!(app.last_refresh, Some(5 * SEC));
    assert_eq!(app.temp_hist, vec![22.5f64.to_bits()]);
    assert!(!app.state.as_ref().unwrap().online);
    assert_eq!(app.refresh_age(8 * SEC + 999_999_999), "3s ago");
    assert_eq!(app.refresh_age(1), "0s ago");
    assert_eq!(App::new(device()).refresh_age(1), "never");
}

#[test]
fn moment_has_a_time_of_day() {
    let m = Moment::now(42);
    assert_eq!(m.nanos, 42);
    assert_eq!(m.stamp.len(), 8);
    assert_eq!(&m.stamp[2..3], ":");
    assert_eq!(&m.stamp[5..6], ":");
}

#[test]
fn reads_never_overlap() {
    let mut app = App::new(device());
    assert!(app.start().is_some());
    assert!(press(&mut app, 'r', SEC).is_none());
    assert!(app.refresh_tick(SEC).is_none());
    assert!(app.refresh_queued);
    // the read that was asked for meanwhile follows
    assert!(matches!(read(&mut app, IDLE, 2 * SEC), Some(Action::Refresh { delay_ms: 300 })));
    assert!(app.refresh_inflight && !app.refresh_queued);
    assert!(read(&mut app, IDLE, 3 * SEC).is_none());
    assert!(matches!(app.refresh_tick(4 * SEC), Some(Action::Refresh { delay_ms: 0 })));
}

#[test]
fn rapid_keys_publish_one_command() {
    let mut app = App::new(device());
    app.start();
    read(&mut app, IDLE, 0);
    assert!(press(&mut app, '+', SEC).is_none());
    assert!(press(&mut app, '+', SEC + 100_000_000).is_none());
    assert!(press(&mut app, '=', SEC + 200_000_000).is_none());
    assert_eq!(app.pending_temp(), Some(27));
    assert_eq!(app.pending_fan(), None);
    assert_eq!(app.pending_mode(), None);
    assert_eq!(app.status, "queued: temp 27°C");
    // not settled yet
    assert!(app.ui_tick(SEC + 649_999_999).is_none());
    let (desc, payload) = published(app.ui_tick(SEC + 650_000_000));
    assert_eq!(desc, "temp 27°C");
    assert_eq!(payload, r#"{"targetFahrenheitTemp":81,"targetTemperature":27}"#);
    assert!(app.busy);
    assert_eq!(app.status, "Sending: temp 27°C");
    assert!(app.ui_tick(2 * SEC).is_none());
    assert_eq!(app.frame, 3);
}

#[test]
fn another_setting_sends_the_waiting_one() {
    let mut app = App::new(device());
    read(&mut app, IDLE, 0);
    assert!(press(&mut app, '-', SEC).is_none());
    let (desc, payload) = published(press(&mut app, 'f', SEC));
    assert_eq!(desc, "temp 23°C");
    assert_eq!(payload, r#"{"targetFahrenheitTemp":73,"targetTemperature":23}"#);
    assert_eq!(app.pending_fan(), Some(Fan::Gear(3)));
    let (desc, payload) = published(press(&mut app, '5', SEC));
    assert_eq!(desc, "fan Gear 3");
    assert_eq!(payload, r#"{"windSpeed7Gear":3,"windSpeedAutoSwitch":0}"#);
    assert_eq!(app.pending_mode(), Some(Mode::Heat));
    let (desc, payload) = published(app.flush_pending(2 * SEC));
    assert_eq!(desc, "mode Heat");
    assert_eq!(payload, r#"{"workMode":4}"#);
    assert!(app.pending.is_none());
}

#[test]
fn steps_stay_in_limits_and_cycle() {
    let mut app = App::new(device());
    read(&mut app, r#"{"targetTemperature":30,"upperTemperatureLimit":30,"workMode":4}"#, 0);
    press(&mut app, '+', 0);
    assert_eq!(app.pending_temp(), Some(30));
    let mut fresh = App::new(device());
    press(&mut fresh, 'm', 0);
    assert_eq!(fresh.pending_mode(), Some(Mode::Dry));
    press(&mut fresh, 'm', 0);
    assert_eq!(fresh.pending_mode(), Some(Mode::Fan));
    let mut other = App::new(device());
    press(&mut other, 'F', 0);
    assert_eq!(other.pending_fan(), Some(Fan::Turbo));
    assert_eq!(other.status, "queued: fan Turbo");
    let mut cold = App::new(device());
    press(&mut cold, '-', 0);
    assert_eq!(cold.pending_temp(), Some(23));
}

#[test]
fn toggles_send_the_opposite() {
    let mut app = App::new(device());
    assert_eq!(published(press(&mut app, 'p', 0)).0, "power on");
    read(&mut app, r#"{"powerSwitch":1,"ECO":1,"verticalDirection":2,"horizontalDirection":9,"sleep":3}"#, 0);
    assert_eq!(published(press(&mut app, 'p', 0)), ("power off".to_string(), r#"{"powerSwitch":0}"#.to_string()));
    assert_eq!(published(press(&mut app, 'e', 0)), ("eco OFF".to_string(), r#"{"ECO":0}"#.to_string()));
    assert_eq!(published(press(&mut app, 'd', 0)), ("display ON".to_string(), r#"{"screen":1}"#.to_string()));
    assert_eq!(published(press(&mut app, 'b', 0)), ("beep ON".to_string(), r#"{"beepSwitch":1}"#.to_string()));
    assert_eq!(published(press(&mut app, 'g', 0)), ("health ON".to_string(), r#"{"healthy":1}"#.to_string()));
    assert_eq!(published(press(&mut app, 'c', 0)), ("self-clean ON".to_string(), r#"{"selfClean":1}"#.to_string()));
    assert_eq!(published(press(&mut app, 'n', 0)), ("anti-mold ON".to_string(), r#"{"antiMoldew":1}"#.to_string()));
    assert_eq!(published(press(&mut app, '8', 0)), ("8°C-heat ON".to_string(), r#"{"eightAddHot":1}"#.to_string()));
    assert_eq!(published(press(&mut app, 's', 0)), ("v-swing off".to_string(), r#"{"verticalDirection":8}"#.to_string()));
    assert_eq!(published(press(&mut app, 'h', 0)), ("h-swing on".to_string(), r#"{"horizontalDirection":1}"#.to_string()));
    assert_eq!(published(press(&mut app, 'z', 0)), ("sleep Off".to_string(), r#"{"sleep":0}"#.to_string()));
}

#[test]
fn commands_are_confirmed_and_read_back() {
    let mut app = App::new(device());
    app.busy = true;
    app.backoff_until = Some(99 * SEC);
    let msg = Msg::Cmd { desc: "power on".to_string(), payload: "{}".to_string(), result: Ok(()) };
    assert!(matches!(app.handle_msg(msg, &at(SEC)), Some(Action::Refresh { delay_ms: 800 })));
    assert!(!app.busy);
    assert_eq!(app.backoff_until, None);
    assert_eq!(app.status, "Sent: power on");
    assert_eq!(app.log, vec!["12:34:56 → power on  {}".to_string()]);
}

#[test]
fn throttling_pauses_and_never_logs_in() {
    let mut app = App::new(device());
    let msg = Msg::Cmd {
        desc: "power on".to_string(),
        payload: "{}".to_string(),
        result: Err("publish command: ThrottlingException: 403 Rate exceeded".to_string()),
    };
    assert!(app.handle_msg(msg, &at(SEC)).is_none());
    assert_eq!(app.status, "Cloud rate-limit — cooling down 15s");
    assert_eq!(app.backoff_until, Some(16 * SEC));
    assert_eq!(app.log.len(), 2);
    assert_eq!(app.log[1], "12:34:56 · backing off 15s (rate-limited)");
    assert!(app.backoff_active(16 * SEC - 1));
    assert!(app.refresh_tick(15 * SEC).is_none());
    assert!(!app.backoff_active(16 * SEC));
    assert!(app.refresh_tick(16 * SEC).is_some());
}

#[test]
fn logins_are_rate_limited() {
    let mut app = App::new(device());
    let fail = |app: &mut App, nanos: u64| {
        app.handle_msg(Msg::Shadow(Err("read state: Forbidden".to_string())), &at(nanos))
    };
    assert!(matches!(fail(&mut app, SEC), Some(Action::Login)));
    assert_eq!(app.status, "Refresh error: read state: Forbidden");
    assert_eq!(app.log[0], "12:34:56 ✗ refresh: read state: Forbidden");
    assert!(fail(&mut app, 45 * SEC).is_none());
    assert!(matches!(fail(&mut app, 46 * SEC), Some(Action::Login)));
    assert!(matches!(
        app.reauthenticated(Ok(()), &at(47 * SEC)),
        Some(Action::Refresh { delay_ms: 0 })
    ));
    assert_eq!(app.log.last().unwrap(), "12:34:56 ↻ re-authenticated");
    assert!(app.reauthenticated(Err("no".to_string()), &at(48 * SEC)).is_none());
    assert_eq!(app.log.last().unwrap(), "12:34:56 ✗ re-auth: no");
}

#[test]
fn cloud_errors_are_told_apart() {
    assert_eq!(app::classify("TOO MANY requests"), CloudError::Throttled);
    assert_eq!(app::classify("Rate exceeded, credential expired"), CloudError::Throttled);
    assert_eq!(app::classify("The Security Token is bad"), CloudError::Unauthorized);
    assert_eq!(app::classify("HTTP 403"), CloudError::Unauthorized);
    assert_eq!(app::classify("ExpiredToken"), CloudError::Unauthorized);
    assert_eq!(app::classify("timed out"), CloudError::Other);
    // only lower-casing makes this one match
    assert_eq!(app::classify("UNAUTHORIZED"), CloudError::Unauthorized);
}

#[test]
fn observed_changes_are_logged() {
    let mut app = App::new(device());
    read(&mut app, r#"{"powerSwitch":0,"workMode":1,"targetTemperature":22,"windSpeed7Gear":1,"verticalDirection":8}"#, 0);
    assert!(app.log.is_empty());
    read(&mut app, r#"{"powerSwitch":1,"workMode":7,"targetTemperature":22.5,"windSpeed7Gear":7,"verticalDirection":9,"horizontalDirection":1}"#, 1);
    assert_eq!(
        app.log,
        vec!["12:34:56 ◆ state: power OFF→ON, mode Cool→mode#7, target 22°→22°, fan Gear 1→Turbo, v-swing 8→9, h-swing 8→1".to_string()]
    );
    read(&mut app, r#"{"powerSwitch":1,"workMode":7,"windSpeed7Gear":7,"verticalDirection":9,"horizontalDirection":1}"#, 2);
    assert_eq!(app.log[1], "12:34:56 ◆ state: target 22°→—");
}

#[test]
fn logs_and_histories_are_bounded() {
    let mut app = App::new(device());
    for i in 0..700u64 {
        read(&mut app, &format!(r#"{{"workMode":{},"currentTemperature":{i}}}"#, i % 2), i);
    }
    assert_eq!(app.log.len(), 200);
    assert_eq!(app.temp_hist.len(), 600);
    assert_eq!(f64::from_bits(app.temp_hist[0]), 100.0);
    assert_eq!(f64::from_bits(app.temp_hist[599]), 699.0);
    let long = "x".repeat(300);
    app.reauthenticated(Err(long), &at(0));
    let last = app.log.last().unwrap();
    assert_eq!(app.log.len(), 200);
    assert_eq!(last.chars().count(), 8 + 1 + 220 + 1);
    assert!(last.ends_with('…'));
}

#[test]
fn aim_overlay_moves_and_applies() {
    let mut app = App::new(device());
    read(&mut app, r#"{"verticalDirection":13,"horizontalDirection":9}"#, 0);
    press(&mut app, 'v', 0);
    assert!(app.aim_open);
    assert_eq!((app.aim_h, app.aim_v), (0, 4));
    assert_eq!(app.status, "aim: pick a point, Enter to apply");
    for k in [Key::Left, Key::Down, Key::Char('s'), Key::Char('a')] {
        app.handle_key(k, false, &at(0));
    }
    assert_eq!((app.aim_h, app.aim_v), (0, 4));
    for k in [Key::Right, Key::Char('d'), Key::Up, Key::Char('w')] {
        app.handle_key(k, false, &at(0));
    }
    assert_eq!((app.aim_h, app.aim_v), (2, 2));
    let (desc, payload) = published(app.handle_key(Key::Enter, false, &at(0)));
    assert_eq!(desc, "aim middle · center");
    assert_eq!(payload, r#"{"horizontalDirection":11,"verticalDirection":11}"#);
    assert!(!app.aim_open);
}

#[test]
fn aim_tells_that_it_stops_a_swing() {
    let mut app = App::new(device());
    read(&mut app, r#"{"verticalDirection":1}"#, 0);
    press(&mut app, 'v', 0);
    let (desc, _) = published(app.handle_key(Key::Char(' '), false, &at(0)));
    assert_eq!(desc, "aim middle · center (stops swing)");
    press(&mut app, 'v', 0);
    assert!(app.handle_key(Key::Esc, false, &at(0)).is_none());
    assert_eq!(app.status, "aim cancelled");
    assert!(!app.should_quit);
}

#[test]
fn aim_starts_where_the_vanes_are() {
    let mut app = App::new(device());
    read(&mut app, r#"{"verticalDirection":10,"horizontalDirection":12}"#, 0);
    press(&mut app, 'v', 0);
    let (_, payload) = published(app.handle_key(Key::Enter, false, &at(0)));
    assert_eq!(payload, r#"{"horizontalDirection":12,"verticalDirection":10}"#);
}

#[test]
fn clicks_aim_or_close() {
    let term = Rect { x: 0, y: 0, width: 120, height: 40 };
    let mut app = App::new(device());
    assert!(app.handle_click(50, 20, term).is_none());
    press(&mut app, 'v', 0);
    // the popup stands at (40, 12), its grid at (42, 15)
    let (desc, _) = published(app.handle_click(42 + 7 * 4 + 3, 15 + 2, term));
    assert_eq!(desc, "aim upper · right");
    assert_eq!((app.aim_h, app.aim_v), (4, 1));
    press(&mut app, 'v', 0);
    assert!(app.handle_click(0, 0, term).is_none());
    assert!(!app.aim_open);
    assert_eq!(app.status, "aim cancelled");
}

#[test]
fn keys_quit_and_animate() {
    let mut app = App::new(device());
    press(&mut app, 'a', 0);
    assert!(!app.anim);
    assert_eq!(app.status, "animations off");
    assert_eq!(app.log, vec!["12:34:56 · animations off".to_string()]);
    app.ui_tick(0);
    assert_eq!(app.frame, 0);
    app.handle_key(Key::Other, false, &at(0));
    app.handle_key(Key::Char('c'), true, &at(0));
    assert!(app.should_quit);
    let mut other = App::new(device());
    other.handle_key(Key::Esc, false, &at(0));
    assert!(other.should_quit);
    other.frame = u64::MAX;
    other.ui_tick(0);
    assert_eq!(other.frame, 0);
}

#[test]
fn impossible_reports_are_noticed() {
    let mut app = App::new(device());
    read(&mut app, r#"{"lowerTemperatureLimit":30,"upperTemperatureLimit":16,"sleep":-2}"#, 0);
    assert!(!app.accepts(Key::Up));
    assert!(!app.accepts(Key::Char('-')));
    assert!(!app.accepts(Key::Char('z')));
    assert!(app.accepts(Key::Char('m')));
    assert!(app.accepts(Key::Char('p')));
    app.pending = Some(app::PendingCmd { kind: PendingKind::Temp(20), due: 0 });
    assert!(!app.accepts(Key::Char('m')));
    read(&mut app, r#"{"sleep":-5}"#, 0);
    assert!(app.accepts(Key::Char('z')));
    assert_eq!(published(press(&mut app, 'z', 0)).0, "sleep Off");
}

#[test]
fn status_keeps_news() {
    let mut app = App::new(device());
    for (before, after) in [
        ("", "Connected"),
        ("Refresh error: x", "Connected"),
        ("Refreshing…", "Connected"),
        ("Sent: power on", "Sent: power on"),
    ] {
        app.status = before.to_string();
        read(&mut app, "{}", 0);
        assert_eq!(app.status, after);
    }
}

#[test]
fn limits_out_of_order_hold_a_temperature_back() {
    let mut app = App::new(device());
    read(&mut app, IDLE, 0);
    press(&mut app, '+', SEC);
    assert!(app.can_flush(SEC));
    let odd = r#"{"lowerTemperatureLimit":40,"upperTemperatureLimit":20}"#;
    read(&mut app, odd, SEC);
    // not settled yet, so nothing is published
    assert!(app.can_flush(SEC));
    assert!(app.ui_tick(SEC).is_none());
    assert!(!app.can_flush(2 * SEC));
    assert!(!app.accepts(Key::Up));
    assert!(!app.accepts(Key::Char('m')));
    assert!(app.accepts(Key::Char('p')));
}

#[test]
fn many_intents_publish_the_last() {
    let mut app = App::new(device());
    for (i, c) in [20, 21, 22, 23].into_iter().enumerate() {
        assert!(app.set_pending(PendingKind::Temp(c), SEC + i as u64).is_none());
    }
    assert!(app.flush_pending(SEC + 3).is_none());
    let (desc, _) = published(app.flush_pending(2 * SEC));
    assert_eq!(desc, "temp 23°C");
    assert!(app.flush_pending(3 * SEC).is_none());
}

#[test]
fn logins_are_forty_five_seconds_apart() {
    let mut app = App::new(device());
    assert!(matches!(app.maybe_reauth(&at(SEC)), Some(Action::Login)));
    app.reauthenticated(Err("no".to_string()), &at(2 * SEC));
    app.start();
    assert!(app.maybe_reauth(&at(46 * SEC - 1)).is_none());
    assert_eq!(app.last_reauth, Some(SEC));
    assert!(matches!(app.maybe_reauth(&at(46 * SEC)), Some(Action::Login)));
    assert_eq!(app.last_reauth, Some(46 * SEC));
}

#[test]
fn aim_keys_without_a_meaning_change_nothing() {
    let mut app = App::new(device());
    app.handle_key(Key::Char('v'), false, &at(0));
    for key in [Key::Char('c'), Key::Char('p'), Key::Char('+'), Key::Other] {
        assert!(app.handle_aim_key(key, false).is_none());
    }
    assert!(app.aim_open && !app.should_quit);
    assert_eq!((app.aim_h, app.aim_v), (2, 2));
    assert_eq!(app.status, "aim: pick a point, Enter to apply");
    app.handle_aim_key(Key::Char('a'), false);
    app.handle_aim_key(Key::Up, false);
    assert_eq!((app.aim_h, app.aim_v), (1, 1));
    let (desc, payload) = published(app.handle_aim_key(Key::Enter, false));
    assert_eq!(desc, "aim upper · mid-left");
    assert_eq!(payload, r#"{"horizontalDirection":10,"verticalDirection":10}"#);
    assert!(!app.aim_open);
}
