use ambientd::config::{find_char, flag_value, lower_ascii, parse_config, parse_config_line, setting_for};
use ambientd::settings::{Args, Setting};

fn chars(s: &str) -> Vec<char> {
    s.chars().collect()
}

fn s(x: &str) -> String {
    x.to_string()
}

#[test]
fn readme_example_config() {
    let content = "# poll the sensor twice per second, snappier smoothing\ninterval=500\nsmooth=0.3\nhysteresis=1.5\nno_kbd=false\n";
    assert_eq!(
        parse_config(content),
        vec![
            Setting::IntervalMs(500),
            Setting::Smooth(s("0.3")),
            Setting::HysteresisPct(s("1.5")),
            Setting::KbdEnabled(true),
        ]
    );
}

#[test]
fn every_key() {
    let content = "interval=1\ninterval_ms=2\nmin=5\nmax=90\nmax_lux=300\nsmooth=0.5\nhysteresis=3\n\
device=intel_backlight\nsensor_dir=/tmp/s\nkbd_on=0.1\nkbd_off=4\nkbd_device=kbd\n\
kbd_raw_lux=false\nkbd-raw-lux=yes\nkbd_service=idle.service\nkbd-service=\nno_kbd=true\nno_nudge=1\n";
    assert_eq!(
        parse_config(content),
        vec![
            Setting::IntervalMs(1),
            Setting::IntervalMs(2),
            Setting::MinPct(s("5")),
            Setting::MaxPct(s("90")),
            Setting::MaxLux(s("300")),
            Setting::Smooth(s("0.5")),
            Setting::HysteresisPct(s("3")),
            Setting::Device(s("intel_backlight")),
            Setting::SensorDir(s("/tmp/s")),
            Setting::KbdOnLux(s("0.1")),
            Setting::KbdOffLux(s("4")),
            Setting::KbdDevice(s("kbd")),
            Setting::KbdRawLux(false),
            Setting::KbdRawLux(true),
            Setting::KbdService(Some(s("idle.service"))),
            Setting::KbdService(None),
            Setting::KbdEnabled(false),
            Setting::NudgeEnabled(false),
        ]
    );
}

#[test]
fn lines_that_make_no_setting() {
    let content = "\n   \n# interval=5\n  #min=3\nno equals sign\nunknown=1\ninterval=abc\ninterval=-5\n=7\n";
    assert_eq!(parse_config(content), vec![]);
    assert_eq!(parse_config(""), vec![]);
}

#[test]
fn whitespace_and_crlf_are_trimmed() {
    let content = "  device =  my dev \r\n\tkbd_device=\u{3000}k\u{3000}\r\nmin = 3 = 4\n";
    assert_eq!(
        parse_config(content),
        vec![Setting::Device(s("my dev")), Setting::KbdDevice(s("k")), Setting::MinPct(s("3 = 4"))]
    );
}

#[test]
fn values_keep_their_characters() {
    assert_eq!(parse_config("device=écran_1\n"), vec![Setting::Device(s("écran_1"))]);
}

#[test]
fn no_final_newline() {
    assert_eq!(parse_config("interval=250"), vec![Setting::IntervalMs(250)]);
}

#[test]
fn lines_stand_alone() {
    let a = "device=x\nmin=2";
    let b = "# c\nmax=50\n";
    let joined = format!("{}\n{}", a, b);
    let mut expect = parse_config(a);
    expect.extend(parse_config(b));
    assert_eq!(parse_config(&joined), expect);
}

#[test]
fn flag_values_match_the_lowercase_rule() {
    for v in ["0", "false", "FALSE", "False", "fAlSe", "1", "true", "", "00", "no", "falsey",
        "ſalse", "FALSE ", "İ", "ＦALSE"] {
        let expected = v != "0" && v.to_lowercase() != "false";
        assert_eq!(flag_value(&chars(v)), expected, "flag {:?}", v);
    }
}

#[test]
fn ascii_lowering() {
    assert_eq!(lower_ascii('A'), 'a');
    assert_eq!(lower_ascii('Z'), 'z');
    assert_eq!(lower_ascii('a'), 'a');
    assert_eq!(lower_ascii('@'), '@');
    assert_eq!(lower_ascii('['), '[');
    assert_eq!(lower_ascii('Ä'), 'Ä');
}

#[test]
fn first_equals_sign() {
    assert_eq!(find_char(&chars("a=b=c"), '='), Some(1));
    assert_eq!(find_char(&chars("abc"), '='), None);
    assert_eq!(find_char(&chars("=x"), '='), Some(0));
}

#[test]
fn single_lines() {
    assert_eq!(parse_config_line(&chars(" max = 80 ")), Some(Setting::MaxPct(s("80"))));
    assert_eq!(parse_config_line(&chars("#max=80")), None);
    assert_eq!(parse_config_line(&chars("max")), None);
    assert_eq!(setting_for(&chars("no_nudge"), &chars("false")), Some(Setting::NudgeEnabled(true)));
    assert_eq!(setting_for(&chars("verbose"), &chars("1")), None);
}

#[test]
fn config_applied_to_defaults() {
    let mut a: Args<String> = Args::default();
    a.apply_all(&parse_config("interval=500\ndevice=intel\nkbd_service=idle\n"));
    assert_eq!(a.interval_ms, 500);
    assert_eq!(a.device, "intel");
    assert_eq!(a.kbd_service, Some(s("idle")));
    assert_eq!(a.min_pct, "10");
    assert!(a.kbd_enabled);
}
