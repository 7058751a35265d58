use ambientd::cli::{float_flag_message, fractional_text};
use ambientd::options::{contains_text, is_accepted, read_options};
use ambientd::settings::{Args, Setting};

fn args(v: &[&str]) -> Vec<String> {
    v.iter().map(|x| x.to_string()).collect()
}

fn s(x: &str) -> String {
    x.to_string()
}

#[test]
fn defaults_then_file_then_command_line() {
    let config = "device=file_dev\nmax=80\ninterval=250\nkbd_service=idle\n";
    let a = read_options(config, &args(&["--device", "cli_dev", "--kbd-service", "", "-v"]), &[]).unwrap();
    let mut expect: Args<String> = Args::default();
    expect.device = s("cli_dev");
    expect.max_pct = s("80");
    expect.interval_ms = 250;
    expect.kbd_service = None;
    expect.verbose = true;
    assert_eq!(a, expect);
}

#[test]
fn no_file_no_arguments_gives_defaults() {
    let a = read_options("", &[], &[]).unwrap();
    assert_eq!(a, Args::default());
}

#[test]
fn file_value_that_is_not_a_number_is_ignored() {
    let a = read_options("min=5\nmin=abc\nmax=zz\n", &[], &args(&["abc", "zz"])).unwrap();
    assert_eq!(a.min_pct, "5");
    assert_eq!(a.max_pct, "100");
}

#[test]
fn command_line_value_that_is_not_a_number_stops() {
    let r = read_options("", &args(&["--max-lux", "lots", "--bogus"]), &args(&["lots"]));
    assert_eq!(r, Err(s("bad --max-lux")));
    let r = read_options("", &args(&["--kbd-on", "x"]), &args(&["x"]));
    assert_eq!(r, Err(s("bad --kbd-on")));
}

#[test]
fn command_line_stops() {
    assert_eq!(read_options("", &args(&["--help"]), &[]), Err(s("")));
    assert_eq!(read_options("", &args(&["--nope"]), &[]), Err(s("unknown arg: --nope")));
    assert_eq!(read_options("", &args(&["--interval", "x"]), &[]), Err(s("bad --interval")));
    assert_eq!(read_options("", &args(&["--min"]), &[]), Err(s("missing value for min")));
}

#[test]
fn non_number_texts_only_matter_for_fractional_values() {
    // "intel" is listed, but the device name is no number and is kept.
    let a = read_options("device=intel\n", &args(&["--device", "intel"]), &args(&["intel"])).unwrap();
    assert_eq!(a.device, "intel");
}

#[test]
fn fractional_settings_and_messages() {
    let cases = [
        (Setting::MinPct(s("1")), "bad --min"),
        (Setting::MaxPct(s("1")), "bad --max"),
        (Setting::MaxLux(s("1")), "bad --max-lux"),
        (Setting::Smooth(s("1")), "bad --smooth"),
        (Setting::HysteresisPct(s("1")), "bad --hysteresis"),
        (Setting::KbdOnLux(s("1")), "bad --kbd-on"),
        (Setting::KbdOffLux(s("1")), "bad --kbd-off"),
    ];
    for (setting, msg) in cases {
        assert_eq!(float_flag_message(&setting), Some(msg));
        assert_eq!(fractional_text(&setting), Some(&s("1")));
    }
    assert_eq!(float_flag_message(&Setting::Device(s("1"))), None);
    assert_eq!(fractional_text(&Setting::IntervalMs(1)), None);
}

#[test]
fn number_check() {
    let rejected = args(&["abc"]);
    assert!(contains_text(&rejected, &s("abc")));
    assert!(!contains_text(&rejected, &s("ab")));
    assert!(!is_accepted(&Setting::Smooth(s("abc")), &rejected));
    assert!(is_accepted(&Setting::Smooth(s("0.3")), &rejected));
    assert!(is_accepted(&Setting::SensorDir(s("abc")), &rejected));
}
