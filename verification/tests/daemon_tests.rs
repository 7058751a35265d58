use ambientd::commands::{brightness_args, kbd_args, systemctl_args, BRIGHTNESSCTL, SYSTEMCTL};
use ambientd::dirs::{config_path, runtime_dir};
use ambientd::keyboard::{kbd_decide, service_verb, stray_light, KbdDecision, ServiceAction};
use ambientd::lock::{lock_path, lock_step, lock_start, report_bind_error, BindResult, LockAction, LockEvent, LockOutcome, LockStage};
use ambientd::sysfs::{backlight_file, kbd_brightness_file, read_kbd_brightness, sensor_file, sensor_is_als};
use ambientd::usage::{usage_exit_code, usage_message};

fn s(x: &str) -> String {
    x.to_string()
}

#[test]
fn first_tick_always_writes() {
    let d = kbd_decide(None, true, false, false);
    assert_eq!(d, KbdDecision { want_on: false, switch: true, service: None, check_stray: true });
    let d = kbd_decide(None, true, true, true);
    assert_eq!(
        d,
        KbdDecision { want_on: true, switch: true, service: Some(ServiceAction::Start), check_stray: false }
    );
}

#[test]
fn schmitt_trigger_dead_zone() {
    // on=0.5, off=2: lux 1.0 is in the dead zone.
    assert!(kbd_decide(Some(true), true, false, true).want_on);
    assert!(!kbd_decide(Some(true), true, false, true).switch);
    assert!(!kbd_decide(Some(false), true, false, true).want_on);
    assert!(!kbd_decide(Some(false), true, false, true).switch);
}

#[test]
fn schmitt_trigger_switches() {
    // lux 3 while on: goes off, companion unit stops.
    assert_eq!(
        kbd_decide(Some(true), false, false, true),
        KbdDecision { want_on: false, switch: true, service: Some(ServiceAction::Stop), check_stray: true }
    );
    // lux 0.2 while off: goes on.
    assert_eq!(
        kbd_decide(Some(false), true, true, false),
        KbdDecision { want_on: true, switch: true, service: None, check_stray: false }
    );
}

#[test]
fn steady_reading_settles() {
    for state in [None, Some(true), Some(false)] {
        for (below_off, at_or_below_on) in [(true, true), (true, false), (false, false)] {
            let d = kbd_decide(state, below_off, at_or_below_on, true);
            let again = kbd_decide(Some(d.want_on), below_off, at_or_below_on, true);
            assert!(!again.switch);
            assert_eq!(again.service, None);
        }
    }
}

#[test]
fn stray_light_and_verbs() {
    assert!(stray_light(Some(2)));
    assert!(!stray_light(Some(0)));
    assert!(!stray_light(None));
    assert_eq!(service_verb(ServiceAction::Start), "start");
    assert_eq!(service_verb(ServiceAction::Stop), "stop");
}

#[test]
fn lock_fresh_bind() {
    assert_eq!(
        lock_start(Some("/run/user/5")),
        (LockStage::FirstBind, LockAction::Bind, Some(s("/run/user/5/ambientd.lock")))
    );
    assert_eq!(
        lock_step(LockStage::FirstBind, LockEvent::Bind(BindResult::Bound)),
        (LockStage::Done(LockOutcome::Held), LockAction::Finish(LockOutcome::Held))
    );
    assert_eq!(
        lock_step(LockStage::FirstBind, LockEvent::Bind(BindResult::Failed)),
        (LockStage::Done(LockOutcome::Unlocked), LockAction::Finish(LockOutcome::Unlocked))
    );
}

#[test]
fn lock_live_instance() {
    let (st, act) = lock_step(LockStage::FirstBind, LockEvent::Bind(BindResult::AddrInUse));
    assert_eq!((st, act), (LockStage::Probe, LockAction::Connect));
    assert_eq!(
        lock_step(st, LockEvent::Connect(true)),
        (LockStage::Done(LockOutcome::AlreadyRunning), LockAction::Finish(LockOutcome::AlreadyRunning))
    );
}

#[test]
fn lock_stale_socket_retried_once() {
    let (st, _) = lock_step(LockStage::FirstBind, LockEvent::Bind(BindResult::AddrInUse));
    let (st, act) = lock_step(st, LockEvent::Connect(false));
    assert_eq!((st, act), (LockStage::Rebind, LockAction::RemoveAndBind));
    assert_eq!(
        lock_step(st, LockEvent::Bind(BindResult::Bound)),
        (LockStage::Done(LockOutcome::Held), LockAction::Finish(LockOutcome::Held))
    );
    assert_eq!(
        lock_step(st, LockEvent::Bind(BindResult::AddrInUse)),
        (LockStage::Done(LockOutcome::Unlocked), LockAction::Finish(LockOutcome::Unlocked))
    );
    // An answer of the wrong kind asks again for the bind, without removing.
    assert_eq!(lock_step(st, LockEvent::Connect(false)), (LockStage::Rebind, LockAction::Bind));
}

#[test]
fn lock_socket_path() {
    assert_eq!(lock_path("/run/user/1000"), "/run/user/1000/ambientd.lock");
}

#[test]
fn runtime_directory() {
    assert_eq!(runtime_dir(Some("/run/user/7"), Some("9"), Some(5)), Some(s("/run/user/7")));
    assert_eq!(runtime_dir(Some(""), Some("9"), Some(5)), Some(s("/run/user/9")));
    assert_eq!(runtime_dir(None, Some("x9"), Some(5)), Some(s("/run/user/5")));
    assert_eq!(runtime_dir(None, Some("4294967296"), Some(0)), Some(s("/run/user/0")));
    assert_eq!(runtime_dir(None, None, Some(1000)), Some(s("/run/user/1000")));
    assert_eq!(runtime_dir(None, Some("+42"), None), Some(s("/run/user/42")));
    assert_eq!(runtime_dir(None, None, None), None);
}

#[test]
fn config_file_location() {
    assert_eq!(config_path(Some("/cfg"), Some("/home/u")), Some(s("/cfg/ambientd/config")));
    assert_eq!(config_path(Some(""), Some("/home/u")), Some(s("/home/u/.config/ambientd/config")));
    assert_eq!(config_path(None, Some("/home/u")), Some(s("/home/u/.config/ambientd/config")));
    assert_eq!(config_path(None, None), None);
    assert_eq!(config_path(Some(""), None), None);
}

#[test]
fn sysfs_paths() {
    assert_eq!(sensor_file("/sys/x", "in_illuminance_raw"), "/sys/x/in_illuminance_raw");
    assert_eq!(backlight_file("amdgpu_bl1", "max_brightness"), "/sys/class/backlight/amdgpu_bl1/max_brightness");
    assert_eq!(kbd_brightness_file("asus::kbd_backlight"), "/sys/class/leds/asus::kbd_backlight/brightness");
}

#[test]
fn keyboard_brightness_text() {
    assert_eq!(read_kbd_brightness(Some("3\n")), Some(3));
    assert_eq!(read_kbd_brightness(Some("  0 ")), Some(0));
    assert_eq!(read_kbd_brightness(Some("4294967295")), Some(u32::MAX));
    assert_eq!(read_kbd_brightness(Some("4294967296")), None);
    assert_eq!(read_kbd_brightness(Some("")), None);
    assert_eq!(read_kbd_brightness(Some("-1")), None);
    assert_eq!(read_kbd_brightness(None), None);
}

#[test]
fn als_name() {
    assert!(sensor_is_als(Some("als\n")));
    assert!(!sensor_is_als(Some("accel_3d\n")));
    assert!(!sensor_is_als(Some("alsa")));
    assert!(!sensor_is_als(None));
}

#[test]
fn command_arguments() {
    assert_eq!(BRIGHTNESSCTL, "brightnessctl");
    assert_eq!(SYSTEMCTL, "systemctl");
    assert_eq!(brightness_args(55, "amdgpu_bl1"), vec!["--device", "amdgpu_bl1", "--quiet", "set", "55%"]);
    assert_eq!(brightness_args(0, "d"), vec!["--device", "d", "--quiet", "set", "0%"]);
    assert_eq!(kbd_args(true, "k"), vec!["--device", "k", "--quiet", "set", "1"]);
    assert_eq!(kbd_args(false, "k"), vec!["--device", "k", "--quiet", "set", "0"]);
    assert_eq!(systemctl_args("stop", "idle.service"), vec!["--user", "stop", "idle.service"]);
}

#[test]
fn usage() {
    let help = usage_message("");
    assert!(help.starts_with("ambientd — auto brightness from ambient light sensor\n\nUSAGE: ambientd [OPTIONS]\n"));
    assert!(help.contains("  --sensor-dir <path>   iio sensor dir (default /sys/bus/iio/devices/iio:device0)\n"));
    assert!(help.ends_with("  -v, --verbose         log every reading\n"));
    assert_eq!(usage_exit_code(""), 0);
    let err = usage_message("bad --min");
    assert_eq!(err, format!("error: bad --min\n\n{}", help));
    assert_eq!(usage_exit_code("bad --min"), 2);
}

#[test]
fn lock_without_runtime_dir() {
    assert_eq!(
        lock_start(None),
        (LockStage::Done(LockOutcome::Unlocked), LockAction::Finish(LockOutcome::Unlocked), None)
    );
}

#[test]
fn which_bind_failures_are_reported() {
    assert!(report_bind_error(LockStage::FirstBind, LockEvent::Bind(BindResult::Failed)));
    assert!(!report_bind_error(LockStage::FirstBind, LockEvent::Bind(BindResult::AddrInUse)));
    assert!(!report_bind_error(LockStage::FirstBind, LockEvent::Bind(BindResult::Bound)));
    assert!(report_bind_error(LockStage::Rebind, LockEvent::Bind(BindResult::AddrInUse)));
    assert!(report_bind_error(LockStage::Rebind, LockEvent::Bind(BindResult::Failed)));
    assert!(!report_bind_error(LockStage::Rebind, LockEvent::Bind(BindResult::Bound)));
    assert!(!report_bind_error(LockStage::Probe, LockEvent::Connect(false)));
}
