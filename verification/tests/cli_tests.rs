use ambientd::cli::{flag_for, flag_name, parse_command_line, setting_for_flag, CommandLine, Flag, ValueFlag};
use ambientd::config::parse_config;
use ambientd::settings::{Args, Setting, BACKLIGHT_DEVICE, KBD_DEVICE, SENSOR_DIR};

fn args(v: &[&str]) -> Vec<String> {
    v.iter().map(|x| x.to_string()).collect()
}

fn s(x: &str) -> String {
    x.to_string()
}

#[test]
fn no_arguments() {
    assert_eq!(parse_command_line(&[]), CommandLine { settings: vec![], stop: None });
}

#[test]
fn every_flag() {
    let a = args(&[
        "--interval", "500", "--min", "5", "--max", "95", "--max-lux", "300", "--smooth", "0.3",
        "--hysteresis", "1.5", "--device", "intel", "--sensor-dir", "/s", "--kbd-on", "0.2",
        "--kbd-off", "3", "--kbd-device", "k", "--kbd-raw-lux", "FALSE", "--kbd-service", "idle",
        "--kbd-service", "", "--no-kbd", "--no-nudge", "-v", "--verbose",
    ]);
    assert_eq!(
        parse_command_line(&a),
        CommandLine {
            settings: vec![
                Setting::IntervalMs(500),
                Setting::MinPct(s("5")),
                Setting::MaxPct(s("95")),
                Setting::MaxLux(s("300")),
                Setting::Smooth(s("0.3")),
                Setting::HysteresisPct(s("1.5")),
                Setting::Device(s("intel")),
                Setting::SensorDir(s("/s")),
                Setting::KbdOnLux(s("0.2")),
                Setting::KbdOffLux(s("3")),
                Setting::KbdDevice(s("k")),
                Setting::KbdRawLux(false),
                Setting::KbdService(Some(s("idle"))),
                Setting::KbdService(None),
                Setting::KbdEnabled(false),
                Setting::NudgeEnabled(false),
                Setting::Verbose(true),
                Setting::Verbose(true),
            ],
            stop: None,
        }
    );
}

#[test]
fn help_stops_with_an_empty_message() {
    for h in ["-h", "--help"] {
        let r = parse_command_line(&args(&["--min", "3", h, "--bogus"]));
        assert_eq!(r, CommandLine { settings: vec![Setting::MinPct(s("3"))], stop: Some(s("")) });
    }
}

#[test]
fn unknown_argument() {
    let r = parse_command_line(&args(&["-v", "--frobnicate", "--min", "3"]));
    assert_eq!(
        r,
        CommandLine { settings: vec![Setting::Verbose(true)], stop: Some(s("unknown arg: --frobnicate")) }
    );
}

#[test]
fn missing_value() {
    assert_eq!(
        parse_command_line(&args(&["--max-lux"])).stop,
        Some(s("missing value for max-lux"))
    );
    assert_eq!(
        parse_command_line(&args(&["--device", "d", "--kbd-service"])),
        CommandLine { settings: vec![Setting::Device(s("d"))], stop: Some(s("missing value for kbd-service")) }
    );
}

#[test]
fn bad_interval() {
    for v in ["abc", "-1", "", "1.5", "18446744073709551616"] {
        assert_eq!(
            parse_command_line(&args(&["--interval", v, "--min", "4"])),
            CommandLine { settings: vec![], stop: Some(s("bad --interval")) }
        );
    }
    assert_eq!(
        parse_command_line(&args(&["--interval", "+20"])).settings,
        vec![Setting::IntervalMs(20)]
    );
}

#[test]
fn value_that_looks_like_a_flag() {
    assert_eq!(
        parse_command_line(&args(&["--device", "--no-kbd"])).settings,
        vec![Setting::Device(s("--no-kbd"))]
    );
}

#[test]
fn flags_and_names() {
    let c: Vec<char> = "--sensor-dir".chars().collect();
    assert_eq!(flag_for(&c), Flag::Value(ValueFlag::SensorDir));
    let c: Vec<char> = "--Min".chars().collect();
    assert_eq!(flag_for(&c), Flag::Unknown);
    assert_eq!(flag_name(ValueFlag::KbdRawLux), "kbd-raw-lux");
    assert_eq!(setting_for_flag(ValueFlag::Interval, &s("x")), None);
    assert_eq!(setting_for_flag(ValueFlag::KbdRawLux, &s("0")), Some(Setting::KbdRawLux(false)));
}

#[test]
fn defaults() {
    let a: Args<String> = Args::default();
    assert_eq!(a.interval_ms, 1000);
    assert_eq!(a.min_pct, "10");
    assert_eq!(a.max_pct, "100");
    assert_eq!(a.max_lux, "500");
    assert_eq!(a.smooth, "0.2");
    assert_eq!(a.hysteresis_pct, "2");
    assert_eq!(a.device, BACKLIGHT_DEVICE);
    assert_eq!(a.sensor_dir, SENSOR_DIR);
    assert!(a.kbd_enabled);
    assert_eq!(a.kbd_on_lux, "0.5");
    assert_eq!(a.kbd_off_lux, "2");
    assert_eq!(a.kbd_device, KBD_DEVICE);
    assert!(a.kbd_raw_lux);
    assert_eq!(a.kbd_service, None);
    assert!(a.nudge_enabled);
    assert!(!a.verbose);
}

#[test]
fn command_line_overrides_config() {
    let config = parse_config("device=from_file\nmax=80\nkbd_service=idle\n");
    let cli = parse_command_line(&args(&["--device", "from_cli", "--kbd-service", ""])).settings;
    let mut a: Args<String> = Args::default();
    a.apply_all(&config);
    a.apply_all(&cli);
    assert_eq!(a.device, "from_cli");
    assert_eq!(a.kbd_service, None);
    assert_eq!(a.max_pct, "80");
    assert_eq!(a.min_pct, "10");
}

#[test]
fn last_setting_wins() {
    let mut a: Args<String> = Args::default();
    a.apply_all(&[Setting::Verbose(true), Setting::Verbose(false), Setting::IntervalMs(3)]);
    assert!(!a.verbose);
    assert_eq!(a.interval_ms, 3);
    let mut b: Args<String> = Args::default();
    b.apply(&Setting::KbdOnLux(s("0.7")));
    assert_eq!(b.kbd_on_lux, "0.7");
    assert_eq!(b.kbd_off_lux, "2");
}
