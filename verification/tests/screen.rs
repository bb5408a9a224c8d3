use serde_json::Value;
use tclac::airflow::{self, FanArt, FanCanvas};
use tclac::app::{App, Key, Moment, Msg};
use tclac::panels;
use tclac::readouts;
use tclac::rest::Device;
use tclac::style::{Color, Draw, Line, Lines, Rect, Screen, Style};
use tclac::trend::{self, Slope};
use tclac::ui::{self, Areas};

fn device() -> Device {
    Device {
        device_id: "id1".to_string(),
        nick_name: "".to_string(),
        device_name: "Split AC".to_string(),
        is_online: true,
        firmware_version: "1.2".to_string(),
    }
}

fn at() -> Moment {
    Moment { nanos: 0, stamp: "12:34:56".to_string() }
}

fn app_with(reported: &str) -> App {
    let mut app = App::new(device());
    let v: Value =
        serde_json::from_str(&format!(r#"{{"state":{{"reported":{reported}}},"version":7}}"#))
            .unwrap();
    app.handle_msg(Msg::Shadow(Ok(v)), &at());
    app
}

fn area(width: u16, height: u16) -> Rect {
    Rect { x: 0, y: 0, width, height }
}

fn text(line: &Line) -> String {
    line.spans.iter().map(|s| s.text.as_str()).collect()
}

fn texts(lines: &Lines) -> Vec<String> {
    lines.lines.iter().map(text).collect()
}

fn lines_of(d: &Draw) -> Vec<String> {
    match d {
        Draw::Text { lines, .. } => texts(lines),
        _ => panic!("not text"),
    }
}

fn title_of(d: &Draw) -> String {
    match d {
        Draw::Text { block: Some(b), .. } => b.title.text.clone(),
        Draw::Spark { frame, .. } => frame.title.text.clone(),
        _ => panic!("no title"),
    }
}

fn art() -> FanArt {
    FanArt { blades: vec![false; 1296], wave: vec![0, 1, 2, 3, 4, 5, 99] }
}

#[test]
fn aim_popup_is_centered() {
    let p = ui::aim_popup_rect(Rect { x: 10, y: 20, width: 139, height: 36 });
    assert_eq!((p.x, p.y, p.width, p.height), (60, 30, 39, 16));
    let small = ui::aim_popup_rect(area(20, 10));
    assert_eq!((small.x, small.y, small.width, small.height), (0, 0, 20, 10));
}

#[test]
fn aim_cells_hold_their_dots() {
    let term = area(139, 36);
    let (ox, oy) = (50 + 2, 10 + 3);
    for h in 0..5usize {
        for v in 0..5usize {
            let (x, y) = (ox + 7 * h as u16 + 3, oy + 2 * v as u16);
            assert_eq!(ui::aim_cell_at(term, x, y), Some((h, v)));
        }
    }
    assert_eq!(ui::aim_cell_at(term, ox - 1, oy), None);
    assert_eq!(ui::aim_cell_at(term, ox + 35, oy), None);
    assert_eq!(ui::aim_cell_at(term, ox, oy + 9), None);
    // a spacer line belongs to the row below it
    assert_eq!(ui::aim_cell_at(term, ox + 34, oy + 1), Some((4, 1)));
}

#[test]
fn accent_follows_the_mode() {
    for (mode, color) in [
        (0, Color::Auto),
        (1, Color::Cool),
        (2, Color::Dry),
        (3, Color::Fan),
        (4, Color::Heat),
        (9, Color::Unknown),
    ] {
        let app = app_with(&format!(r#"{{"powerSwitch":1,"workMode":{mode}}}"#));
        assert_eq!(panels::accent(&app), color);
    }
    assert_eq!(panels::accent(&app_with(r#"{"workMode":1}"#)), Color::Off);
    assert_eq!(panels::accent(&App::new(device())), Color::Off);
    assert_eq!(Color::Cool.rgb(), (90, 175, 255));
    assert_eq!(Color::Track.rgb(), (88, 95, 112));
}

#[test]
fn digits_are_drawn_large() {
    assert_eq!(
        panels::big_temp_rows(Some(24), false),
        vec![
            "████ █  █ ██ ████",
            "   █ █  █ ██ █   ",
            "████ ████    █   ",
            "█       █    █   ",
            "████    █    ████",
        ]
    );
    assert_eq!(
        panels::big_temp_rows(Some(-7), true),
        vec![
            "████ ██ ████",
            "█  █ ██ █   ",
            "█  █    ███ ",
            "█  █    █   ",
            "████    █   ",
        ]
    );
    assert_eq!(panels::big_temp_rows(None, false)[2], "████ ████    █   ");
    let all = panels::big_temp_rows(Some(135678), false);
    assert_eq!(all[0], "  █  ████ ████ ████ ████ ████ ██ ████");
    assert_eq!(all[1], " ██     █ █    █       █ █  █ ██ █   ");
    assert_eq!(all[2], "  █   ███ ████ ████   █  ████    █   ");
    assert_eq!(all[3], "  █     █    █ █  █  █   █  █    █   ");
    assert_eq!(all[4], " ███ ████ ████ ████  █   ████    ████");
    assert_eq!(panels::big_temp_rows(Some(9), false)[3], "   █    █   ");
}

#[test]
fn target_panel_shows_the_pending_value() {
    let mut app = app_with(
        r#"{"powerSwitch":1,"workMode":1,"targetTemperature":22.5,"targetFahrenheitTemp":73,"currentTemperature":24.25}"#,
    );
    let d = panels::render_temp(area(30, 14), &app);
    assert_eq!(title_of(&d), " Target ");
    let lines = lines_of(&d);
    assert_eq!(lines.len(), 7);
    assert_eq!(lines[0], "████ ████ ██ ████");
    assert_eq!(lines[6], "now 24.2°C     range 16–31°C  = 73°F");
    assert!(matches!(d, Draw::Text { centered: true, .. }));
    app.handle_key(Key::Up, false, &at());
    app.temp_hist.push(0);
    let d = panels::render_temp(area(30, 14), &app);
    let lines = lines_of(&d);
    assert_eq!(lines[0], panels::big_temp_rows(Some(24), false)[0]);
    assert_eq!(lines[6], "now 24.2°C ↘   range 16–31°C  = 73°F  ⏳");
    let none = panels::render_temp(area(30, 14), &App::new(device()));
    assert_eq!(lines_of(&none), vec!["loading…"]);
}

#[test]
fn target_panel_in_fahrenheit() {
    let mut app = app_with(r#"{"temperatureType":1,"targetFahrenheitTemp":73,"targetTemperature":23}"#);
    assert_eq!(lines_of(&panels::render_temp(area(30, 14), &app))[0], panels::big_temp_rows(Some(73), true)[0]);
    app.handle_key(Key::Down, false, &at());
    assert_eq!(lines_of(&panels::render_temp(area(30, 14), &app))[0], panels::big_temp_rows(Some(72), true)[0]);
}

#[test]
fn mode_panel_marks_modes() {
    let mut app = app_with(r#"{"powerSwitch":1,"workMode":1}"#);
    app.handle_key(Key::Char('5'), false, &at());
    let d = panels::render_mode(area(22, 14), &app);
    assert_eq!(
        lines_of(&d),
        vec![
            "  ◉ POWER ON   [p]",
            "",
            "   ◎ Auto [1]",
            " ▶ ❆ Cool [2]",
            "   ≈ Dry  [3]",
            "   ≋ Fan  [4]",
            " ◌ ☀ Heat [5]",
        ]
    );
    let raw = app_with(r#"{"workMode":9}"#);
    let lines = lines_of(&panels::render_mode(area(22, 14), &raw));
    assert_eq!(lines[0], "  ○ POWER OFF  [p]");
    assert_eq!(lines[7], " raw workMode=9");
    assert_eq!(lines_of(&panels::render_mode(area(22, 14), &app_with(r#"{"workMode":-2}"#))).len(), 7);
}

#[test]
fn header_and_footer() {
    let app = app_with(r#"{"capabilities":[1,2]}"#);
    assert_eq!(
        lines_of(&panels::render_header(area(120, 1), &app, "01:02:03")),
        vec![" ❆ tclac   Split AC (id1) ● online  fw 1.2   01:02:03"]
    );
    assert_eq!(
        lines_of(&panels::render_footer(area(120, 1), &app, 2_500_000_000)),
        vec![" Connected  ·  updated 2s ago  ·  anim on  ·  shadow v7 · 2 capabilities"]
    );
    let mut busy = App::new(device());
    busy.busy = true;
    busy.anim = false;
    busy.status = "Error: x".to_string();
    let d = panels::render_footer(area(120, 1), &busy, 0);
    assert_eq!(lines_of(&d), vec![" ⟳ Error: x  ·  updated never  ·  anim off  ·  "]);
    match d {
        Draw::Text { lines, .. } => assert_eq!(lines.lines[0].spans[0].style, Style::colored(Color::Bad)),
        _ => panic!("not text"),
    }
}

#[test]
fn canvas_dots_are_braille() {
    let mut c = FanCanvas::new();
    c.plot(0, 0, 1);
    c.plot(1, 3, 3);
    c.plot(0, 0, 2);
    assert_eq!(c.bits[0], 0x81);
    assert_eq!(c.layer[0], 3);
    c.plot(35, 35, 2);
    assert_eq!(c.bits[161], 0x80);
    let before = c.bits.clone();
    for (x, y) in [(-1, 0), (0, -1), (36, 0), (0, 36)] {
        c.plot(x, y, 3);
    }
    assert_eq!(c.bits, before);
    let lines = airflow::fan_lines(&c, 2, Color::Cool, true);
    let rows = texts(&lines);
    assert_eq!(rows.len(), 9);
    assert_eq!(rows[0], format!("  \u{2881}{}", " ".repeat(17)));
    assert_eq!(rows[8], format!("  {}\u{2880}", " ".repeat(17)));
    assert_eq!(lines.lines[0].spans[1].style, Style::bold(Color::Text));
    assert_eq!(lines.lines[8].spans[18].style, Style::bold(Color::Cool));
}

#[test]
fn plotting_sets_one_dot() {
    let bits = [[0x01u8, 0x08], [0x02, 0x10], [0x04, 0x20], [0x40, 0x80]];
    for py in 0..4 {
        for px in 0..2 {
            let mut c = FanCanvas::new();
            c.plot(px, py, 1);
            assert_eq!(c.bits[0], bits[py as usize][px as usize]);
            assert!(c.bits[1..].iter().all(|b| *b == 0));
        }
    }
}

#[test]
fn fan_panel_bars() {
    let app = app_with(r#"{"powerSwitch":1,"workMode":1,"windSpeed7Gear":3,"windSpeedPercentage":50}"#);
    let lines = lines_of(&airflow::render_fan(area(40, 14), &app, &art()));
    assert_eq!(lines.len(), 12);
    assert_eq!(lines[9], " ▁▁▂▂▃▃▄▄▅▅▆▆██  ⠋ Gear 3  [f/F]");
    assert_eq!(lines[10], " output ███████░░░░░░░  50%");
    assert_eq!(lines[11], "  AUTO   TURBO ");
    match airflow::render_fan(area(40, 14), &app, &art()) {
        Draw::Text { lines, .. } => {
            let bars = &lines.lines[9].spans;
            assert_eq!(bars[3].style, Style::colored(Color::Cool));
            assert_eq!(bars[4].style, Style::colored(Color::Track));
            assert_eq!(lines.lines[0].spans[0].text, " ".repeat(10));
        }
        _ => panic!("not text"),
    }
    let auto = app_with(r#"{"windSpeed7Gear":0,"windSpeedPercentage":120}"#);
    let lines = lines_of(&airflow::render_fan(area(40, 14), &auto, &art()));
    assert_eq!(lines[9], " ▁▁▂▂▃▃▄▄▅▅▆▆██    Auto  [f/F]");
    assert_eq!(lines[10], " output ██████████████ 120%");
}

#[test]
fn turbo_flashes_and_spins() {
    let mut app = app_with(r#"{"powerSwitch":1,"windSpeed7Gear":7}"#);
    let bold = |app: &App| match airflow::render_fan(area(40, 14), app, &art()) {
        Draw::Text { lines, .. } => lines.lines[9].spans[1].style.bold,
        _ => panic!("not text"),
    };
    assert!(bold(&app));
    app.frame = 3;
    assert!(!bold(&app));
    app.frame = 6;
    assert!(bold(&app));
    let lines = lines_of(&airflow::render_fan(area(40, 14), &app, &art()));
    assert!(lines[9].contains("  ⠸ Turbo  [f/F]"));
    app.handle_key(Key::Char('f'), false, &at());
    let lines = lines_of(&airflow::render_fan(area(40, 14), &app, &art()));
    assert!(lines[9].contains("Auto ⏳"));
}

#[test]
fn ping_pong_runs_back_and_forth() {
    let steps: Vec<u64> = (0..10).map(|t| airflow::ping_pong(t, 5)).collect();
    assert_eq!(steps, vec![0, 1, 2, 3, 4, 3, 2, 1, 0, 1]);
    assert_eq!(airflow::ping_pong(7, 1), 0);
    assert_eq!(airflow::ping_pong(7, 0), 0);
    for t in 0..100 {
        assert!(airflow::ping_pong(t, 5) < 5);
        assert_eq!(airflow::ping_pong(t + 8, 5), airflow::ping_pong(t, 5));
    }
    let swept: Vec<u64> = (0..15).map(|f| airflow::sweep(f, 2, 4)).collect();
    assert_eq!(swept, vec![2, 2, 2, 3, 3, 3, 4, 4, 4, 3, 3, 3, 2, 2, 2]);
}

#[test]
fn swing_panel_shows_vanes() {
    let app = app_with(r#"{"powerSwitch":1,"verticalDirection":11,"horizontalDirection":1}"#);
    let lines = lines_of(&airflow::render_swing(area(26, 14), &app));
    assert_eq!(
        lines,
        vec![
            "    ────────  V:fixed [s]",
            "    ────────",
            "  ▶ ━━━━━━━━",
            "    ────────",
            "    ────────",
            "",
            "    ██░░░░░░░░  H:sweep [h]  aim [v]",
        ]
    );
    let mut parked = app_with(r#"{"powerSwitch":1,"verticalDirection":2,"horizontalDirection":4}"#);
    parked.anim = false;
    let lines = lines_of(&airflow::render_swing(area(26, 14), &parked));
    assert_eq!(lines[2], "  ▶ ━━━━━━━━");
    assert_eq!(lines[6], "    ░░░░██░░░░  H:sweep [h]  aim [v]");
    let off = lines_of(&airflow::render_swing(area(26, 14), &App::new(device())));
    assert_eq!(off[0], "    ────────  V:off [s]");
}

#[test]
fn toggles_panel_lists_settings() {
    let app = app_with(r#"{"ECO":1,"sleep":2,"screen":1,"errorCode":[5,6]}"#);
    let d = readouts::render_toggles(area(120, 4), &app);
    assert_eq!(title_of(&d), " Comfort & Extras ");
    assert_eq!(
        lines_of(&d),
        vec![
            "  ECO [e]   SLEEP·Elderly [z]   HEALTH [g]   SELF-CLEAN [c]  ",
            "  ANTI-MOLD [n]   8°C-HEAT [8]   SCREEN [d]   BEEP [b]   ⚠ errors [5, 6] ",
        ]
    );
    let fine = lines_of(&readouts::render_toggles(area(120, 4), &app_with(r#"{"sleep":-1}"#)));
    assert!(fine[0].contains("SLEEP·Child"));
    assert!(fine[1].ends_with(" ✔ no errors "));
    let none = lines_of(&readouts::render_toggles(area(120, 4), &App::new(device())));
    assert!(none[0].contains("SLEEP·Off"));
    assert!(none[1].ends_with("[b]  "));
}

#[test]
fn sensor_panels_show_readings() {
    let mut app = app_with(
        r#"{"powerSwitch":1,"workMode":1,"currentTemperature":21,"externalUnitTemperature":30.26,
        "compressorFrequency":59,"OutDoorCompTarFreqRun":58,"OutDoorEEVTarOpenDegree":12,
        "windSpeedPercentage":44,"filterBlockStatus":1,"PTCStatus":0}"#,
    );
    app.temp_hist = vec![20.0f64.to_bits(), 21.25f64.to_bits(), 19.5f64.to_bits()];
    let cols = vec![area(26, 7), area(34, 7), area(4, 7)];
    let mut out = Screen::new();
    readouts::render_sensors(&mut out, &cols, &app);
    assert_eq!(out.draws.len(), 3);
    assert_eq!(
        lines_of(&out.draws[0]),
        vec![" Indoor     21.0°C", " Outdoor    30.3°C", " Coil       —", " Power ~    1.2 kW est"]
    );
    assert_eq!(
        lines_of(&out.draws[1]),
        vec![
            " Comp ███░░░░░ 59Hz (run 58 / tgt —)",
            " Outdoor fan —      EEV 12",
            " PTC heat    off    Wind 44%",
            " Filter      CLEAN NEEDED   Self-clean —%",
        ]
    );
    assert_eq!(title_of(&out.draws[2]), " Trend 19.5–21.2° ");
    match &out.draws[2] {
        Draw::Spark { data, style, .. } => {
            assert_eq!(data, &vec![19, 1]);
            assert_eq!(*style, Style::colored(Color::Cool));
        }
        _ => panic!("not a chart"),
    }
}

#[test]
fn compressor_bar_matches_the_fraction() {
    for hz in [-5i64, 0, 1, 14, 15, 16, 29, 30, 59, 60, 89, 90, 119, 120, 121, 5000] {
        let app = app_with(&format!(r#"{{"compressorFrequency":{hz}}}"#));
        let mut out = Screen::new();
        readouts::render_sensors(&mut out, &vec![area(9, 9), area(9, 9), area(9, 9)], &app);
        let filled = (((hz as f64 / 120.0).clamp(0.0, 1.0)) * 8.0) as usize;
        let line = &lines_of(&out.draws[1])[0];
        assert_eq!(line.matches('█').count(), filled);
        assert_eq!(line.matches('░').count(), 8 - filled);
    }
}

#[test]
fn loading_panels() {
    let app = App::new(device());
    let mut out = Screen::new();
    readouts::render_sensors(&mut out, &vec![area(9, 9), area(9, 9), area(9, 9)], &app);
    assert_eq!(lines_of(&out.draws[0]), vec![" loading…"]);
    assert_eq!(lines_of(&out.draws[1]), vec![" …"]);
    assert_eq!(title_of(&out.draws[2]), " Trend ");
}

#[test]
fn activity_shows_the_last_lines() {
    let mut app = App::new(device());
    app.log = vec![
        "1 · a".to_string(),
        "2 ✗ b".to_string(),
        "3 → c".to_string(),
        "4 ◆ d".to_string(),
        "5 · e".to_string(),
    ];
    let mut out = Screen::new();
    readouts::render_bottom(&mut out, &vec![area(40, 6), area(42, 6)], &app);
    assert_eq!(lines_of(&out.draws[0]), vec![" 2 ✗ b", " 3 → c", " 4 ◆ d", " 5 · e"]);
    match &out.draws[0] {
        Draw::Text { lines, wrapped, .. } => {
            assert!(*wrapped);
            let colors: Vec<_> = lines.lines.iter().map(|l| l.spans[0].style.fg.unwrap()).collect();
            assert_eq!(colors, vec![Color::Bad, Color::Good, Color::Dry, Color::Dim]);
        }
        _ => panic!("not text"),
    }
    let keys = lines_of(&out.draws[1]);
    assert_eq!(keys.len(), 9);
    assert_eq!(keys[0], "     p power      m 1-5 mode");
    assert_eq!(keys[1], "   +/- temp         f/F fan ±");
}

#[test]
fn aim_overlay_draws_the_grid() {
    let mut app = app_with(r#"{"verticalDirection":9,"horizontalDirection":13}"#);
    app.aim_open = true;
    app.aim_h = 1;
    app.aim_v = 2;
    let mut out = Screen::new();
    ui::render_aim(&mut out, area(120, 40), &app);
    assert!(matches!(out.draws[0], Draw::Clear { .. }));
    assert!(matches!(out.draws[1], Draw::Text { padded: true, .. }));
    assert_eq!(
        lines_of(&out.draws[1]),
        vec![
            "▬▬▬▬▬▬▬▬▬▬▬▬▬[ ❆ AC ]▬▬▬▬▬▬▬▬▬▬▬▬▬▬",
            "",
            "   ·      ·      ·      ·      ●   ",
            "          ┊                        ",
            "   ·      ·      ·      ·      ·   ",
            "          ┊                        ",
            "   ·      ◎      ·      ·      ·   ",
            "                                   ",
            "   ·      ·      ·      ·      ·   ",
            "                                   ",
            "   ·      ·      ·      ·      ·   ",
            "",
            " aim middle · mid-left",
            " click · ←↑↓→ · Enter apply · Esc",
        ]
    );
    app.aim_h = 4;
    app.aim_v = 0;
    let mut both = Screen::new();
    ui::render_aim(&mut both, area(120, 40), &app);
    assert!(lines_of(&both.draws[1])[2].ends_with("◉   "));
}

#[test]
fn dashboard_is_laid_out() {
    let mut app = app_with("{}");
    let out = ui::render(area(120, 40), &app, &art(), 0).unwrap();
    let titles: Vec<String> = out.draws[1..10].iter().map(title_of).collect();
    assert_eq!(
        titles,
        vec![
            " Target ",
            " Mode & Power ",
            " Fan ",
            " Swing ",
            " Comfort & Extras ",
            " Temps ",
            " Outdoor unit ",
            " Trend ",
            " Activity ",
        ]
    );
    assert_eq!(out.draws.len(), 12);
    let areas: Vec<Rect> = out
        .draws
        .iter()
        .map(|d| match d {
            Draw::Text { area, .. } => *area,
            Draw::Spark { area, .. } => *area,
            Draw::Clear { area } => *area,
        })
        .collect();
    assert_eq!(areas[0], area(120, 1));
    assert_eq!(areas[1], Rect { x: 0, y: 1, width: 30, height: 14 });
    assert_eq!(areas[3], Rect { x: 52, y: 1, width: 42, height: 14 });
    assert_eq!(areas[11], Rect { x: 0, y: 39, width: 120, height: 1 });
    app.aim_open = true;
    assert_eq!(ui::render(area(120, 40), &app, &art(), 0).unwrap().draws.len(), 14);
}

#[test]
fn small_terminals_get_a_message() {
    let app = App::new(device());
    for (w, h) in [(105, 40), (120, 31)] {
        let out = ui::render(area(w, h), &app, &art(), 0).unwrap();
        assert_eq!(out.draws.len(), 1);
        assert_eq!(
            lines_of(&out.draws[0])[3],
            format!("Resize to at least 106×32  (now {w}×{h}).")
        );
    }
    let out = ui::render(area(106, 32), &app, &art(), 0).unwrap();
    assert_eq!(out.draws.len(), 12);
}

#[test]
fn dashboard_in_given_areas() {
    let app = app_with("{}");
    let r = |x: u16| Rect { x, y: x, width: 30, height: 9 };
    let areas = Areas {
        rows: (0..6).map(r).collect(),
        main: (10..14).map(r).collect(),
        sensors: (20..23).map(r).collect(),
        bottom: (30..32).map(r).collect(),
    };
    let out = ui::render_in(area(120, 40), &areas, &app, &art(), 0, "01:02:03");
    let xs: Vec<u16> = out
        .draws
        .iter()
        .map(|d| match d {
            Draw::Text { area, .. } => area.x,
            Draw::Spark { area, .. } => area.x,
            Draw::Clear { area } => area.x,
        })
        .collect();
    assert_eq!(xs, vec![0, 10, 11, 12, 13, 2, 20, 21, 22, 30, 31, 5]);
    assert!(lines_of(&out.draws[0])[0].ends_with("   01:02:03"));
}

/// Numbers of many sizes, from a fixed sequence.
fn numbers() -> Vec<f64> {
    let mut out = vec![
        0.0,
        -0.0,
        0.05,
        -0.05,
        0.1,
        21.5,
        21.55,
        21.6,
        -3.25,
        1e-310,
        5e-324,
        f64::MIN_POSITIVE,
        f64::MAX,
        f64::MIN,
        f64::INFINITY,
        f64::NEG_INFINITY,
        f64::NAN,
        9007199254740993.0,
        1.8446744073709552e18,
        1.8446744073709552e19,
    ];
    let mut x: u64 = 0x9E37_79B9_7F4A_7C15;
    for i in 0..160u64 {
        x = x.wrapping_mul(6364136223846793005).wrapping_add(1442695040888963407);
        out.push(if i % 3 == 0 {
            f64::from_bits(x)
        } else if i % 3 == 1 {
            (x >> 40) as f64 / 65536.0
        } else {
            f64::from_bits((x & 0x800F_FFFF_FFFF_FFFF) | ((1000 + x % 90) << 52))
        });
    }
    out
}

#[test]
fn slopes_are_those_of_doubles() {
    for a in numbers() {
        for b in numbers() {
            let d = b - a;
            let expected = if d > 0.05 {
                Slope::Rising
            } else if d < -0.05 {
                Slope::Falling
            } else {
                Slope::Level
            };
            assert_eq!(trend::slope(a.to_bits(), b.to_bits()), expected, "{a} {b}");
        }
    }
    let bits = |v: &[f64]| v.iter().map(|x| x.to_bits()).collect::<Vec<_>>();
    assert_eq!(trend::last_slope(&bits(&[20.0])), None);
    assert_eq!(trend::last_slope(&bits(&[30.0, 20.0, 20.05])), Some(Slope::Rising));
    assert_eq!(trend::last_slope(&bits(&[30.0, 20.0, 20.04])), Some(Slope::Level));
    assert_eq!(trend::last_slope(&bits(&[20.0, 19.0])), Some(Slope::Falling));
}

#[test]
fn slopes_turn_round() {
    for a in numbers() {
        for b in numbers() {
            let there = trend::slope(a.to_bits(), b.to_bits());
            let back = trend::slope(b.to_bits(), a.to_bits());
            assert_eq!(there == Slope::Rising, back == Slope::Falling);
            assert_eq!(there == Slope::Level, back == Slope::Level);
        }
    }
}

#[test]
fn heights_are_those_of_doubles() {
    for lo in numbers() {
        for t in numbers() {
            let expected = ((t - lo) * 10.0).round() as u64;
            assert_eq!(trend::height(t.to_bits(), lo.to_bits()), expected, "{t} {lo}");
        }
    }
    assert_eq!(trend::height(21.25f64.to_bits(), 19.5f64.to_bits()), 18);
    assert_eq!(trend::height(19.5f64.to_bits(), 19.5f64.to_bits()), 0);
}

#[test]
fn endless_heights_cannot_be_charted() {
    let mut app = app_with("{}");
    assert!(readouts::can_chart(&app, 20));
    app.temp_hist = vec![f64::INFINITY.to_bits(), 20.0f64.to_bits(), 21.0f64.to_bits()];
    assert!(!readouts::can_chart(&app, 20));
    // out of view
    assert!(readouts::can_chart(&app, 4));
    assert!(ui::render(area(120, 40), &app, &art(), 0).is_none());
    assert!(ui::render(area(20, 10), &app, &art(), 0).is_some());
}

#[test]
fn rotor_has_rim_hub_and_blades() {
    for covered in [false, true] {
        let cv = airflow::draw_fan(&vec![covered; 1296]);
        let mut expected = FanCanvas::new();
        for py in 0..36 {
            for px in 0..36 {
                let (dx, dy) = (px as f64 - 17.5, py as f64 - 17.5);
                let r = (dx * dx + dy * dy).sqrt() / 17.0;
                if r <= 1.03 {
                    if r >= 0.90 {
                        expected.plot(px, py, 1);
                    } else if r <= 0.17 {
                        expected.plot(px, py, 3);
                    } else if (0.20..=0.86).contains(&r) && covered {
                        expected.plot(px, py, 2);
                    }
                }
            }
        }
        assert_eq!(cv.bits, expected.bits);
        assert_eq!(cv.layer, expected.layer);
    }
    // one blade dot
    let mut blades = vec![false; 1296];
    blades[17 * 36 + 10] = true;
    let with = airflow::draw_fan(&blades);
    let without = airflow::draw_fan(&vec![false; 1296]);
    let cell = 17 / 4 * 18 + 10 / 2;
    assert_eq!(with.bits[cell], without.bits[cell] | 0x02);
    assert_eq!(with.layer[cell], 2);
}
