//! The command line. Options given here take precedence over the config
//! file: the daemon applies these settings after the file's.
use vstd::prelude::*;
use vstd::string::*;
use crate::text::{to_chars, eq_lit, parse_unsigned, parse_unsigned_spec};
use crate::settings::{Setting, setting_views};
use crate::config::{flag_true, flag_value, lemma_false_word};

verus! {

/// The options that take a value, which is the next argument.
#[derive(Debug, Clone, Copy, PartialEq, Eq)]
pub enum ValueFlag {
    Interval,
    Min,
    Max,
    MaxLux,
    Smooth,
    Hysteresis,
    Device,
    SensorDir,
    KbdOn,
    KbdOff,
    KbdDevice,
    KbdRawLux,
    KbdService,
}

/// What one argument asks for.
#[derive(Debug, Clone, Copy, PartialEq, Eq)]
pub enum Flag {
    Value(ValueFlag),
    NoKbd,
    NoNudge,
    Verbose,
    Help,
    Unknown,
}

/// The flag that an argument spells.
pub open spec fn flag_of(a: Seq<char>) -> Flag {
    if a == "--interval"@ {
        Flag::Value(ValueFlag::Interval)
    } else if a == "--min"@ {
        Flag::Value(ValueFlag::Min)
    } else if a == "--max"@ {
        Flag::Value(ValueFlag::Max)
    } else if a == "--max-lux"@ {
        Flag::Value(ValueFlag::MaxLux)
    } else if a == "--smooth"@ {
        Flag::Value(ValueFlag::Smooth)
    } else if a == "--hysteresis"@ {
        Flag::Value(ValueFlag::Hysteresis)
    } else if a == "--device"@ {
        Flag::Value(ValueFlag::Device)
    } else if a == "--sensor-dir"@ {
        Flag::Value(ValueFlag::SensorDir)
    } else if a == "--kbd-on"@ {
        Flag::Value(ValueFlag::KbdOn)
    } else if a == "--kbd-off"@ {
        Flag::Value(ValueFlag::KbdOff)
    } else if a == "--kbd-device"@ {
        Flag::Value(ValueFlag::KbdDevice)
    } else if a == "--kbd-raw-lux"@ {
        Flag::Value(ValueFlag::KbdRawLux)
    } else if a == "--kbd-service"@ {
        Flag::Value(ValueFlag::KbdService)
    } else if a == "--no-kbd"@ {
        Flag::NoKbd
    } else if a == "--no-nudge"@ {
        Flag::NoNudge
    } else if a == "-v"@ || a == "--verbose"@ {
        Flag::Verbose
    } else if a == "-h"@ || a == "--help"@ {
        Flag::Help
    } else {
        Flag::Unknown
    }
}

/// The name of a value flag in "missing value for ..." (the flag without `--`).
pub open spec fn value_flag_name(f: ValueFlag) -> Seq<char> {
    match f {
        ValueFlag::Interval => "interval"@,
        ValueFlag::Min => "min"@,
        ValueFlag::Max => "max"@,
        ValueFlag::MaxLux => "max-lux"@,
        ValueFlag::Smooth => "smooth"@,
        ValueFlag::Hysteresis => "hysteresis"@,
        ValueFlag::Device => "device"@,
        ValueFlag::SensorDir => "sensor-dir"@,
        ValueFlag::KbdOn => "kbd-on"@,
        ValueFlag::KbdOff => "kbd-off"@,
        ValueFlag::KbdDevice => "kbd-device"@,
        ValueFlag::KbdRawLux => "kbd-raw-lux"@,
        ValueFlag::KbdService => "kbd-service"@,
    }
}

/// The setting a value flag makes with its value; none when `--interval`
/// is not given a number.
pub open spec fn value_setting(f: ValueFlag, v: Seq<char>) -> Option<Setting<Seq<char>>> {
    match f {
        ValueFlag::Interval => match parse_unsigned_spec(v, u64::MAX as nat) {
            Some(n) => Some(Setting::IntervalMs(n as u64)),
            None => None,
        },
        ValueFlag::Min => Some(Setting::MinPct(v)),
        ValueFlag::Max => Some(Setting::MaxPct(v)),
        ValueFlag::MaxLux => Some(Setting::MaxLux(v)),
        ValueFlag::Smooth => Some(Setting::Smooth(v)),
        ValueFlag::Hysteresis => Some(Setting::HysteresisPct(v)),
        ValueFlag::Device => Some(Setting::Device(v)),
        ValueFlag::SensorDir => Some(Setting::SensorDir(v)),
        ValueFlag::KbdOn => Some(Setting::KbdOnLux(v)),
        ValueFlag::KbdOff => Some(Setting::KbdOffLux(v)),
        ValueFlag::KbdDevice => Some(Setting::KbdDevice(v)),
        ValueFlag::KbdRawLux => Some(Setting::KbdRawLux(flag_true(v))),
        ValueFlag::KbdService => Some(
            Setting::KbdService(
                if v.len() == 0 {
                    None
                } else {
                    Some(v)
                },
            ),
        ),
    }
}

/// What reading the command line gives: the settings in order, and the
/// message to stop with (the help when it is empty), if it stops.
pub type CliResult = (Seq<Setting<Seq<char>>>, Option<Seq<char>>);

/// `s` in front of the rest of a command line's result.
pub open spec fn prepend(s: Setting<Seq<char>>, r: CliResult) -> CliResult {
    (seq![s] + r.0, r.1)
}

/// The result of reading the arguments (the program's name left out), first
/// to last. Reading stops at the help flag, an unknown argument, a value
/// flag with no value, or an interval that is not a number.
pub open spec fn cli_spec(args: Seq<Seq<char>>) -> CliResult
    decreases args.len(),
{
    if args.len() == 0 {
        (seq![], None)
    } else {
        let a = args[0];
        match flag_of(a) {
            Flag::NoKbd => prepend(Setting::KbdEnabled(false), cli_spec(args.drop_first())),
            Flag::NoNudge => prepend(Setting::NudgeEnabled(false), cli_spec(args.drop_first())),
            Flag::Verbose => prepend(Setting::Verbose(true), cli_spec(args.drop_first())),
            Flag::Help => (seq![], Some(seq![])),
            Flag::Unknown => (seq![], Some("unknown arg: "@ + a)),
            Flag::Value(f) => if args.len() < 2 {
                (seq![], Some("missing value for "@ + value_flag_name(f)))
            } else {
                match value_setting(f, args[1]) {
                    Some(s) => prepend(s, cli_spec(args.skip(2))),
                    None => (seq![], Some("bad --interval"@)),
                }
            },
        }
    }
}

/// The text of each argument.
pub open spec fn arg_views(args: Seq<String>) -> Seq<Seq<char>> {
    args.map_values(|s: String| s@)
}

/// What the command line asks for.
#[derive(Debug, Clone, PartialEq, Eq)]
pub struct CommandLine {
    /// The settings, in the order given.
    pub settings: Vec<Setting<String>>,
    /// When reading stopped early: the message to show with the usage text
    /// (empty for `--help`).
    pub stop: Option<String>,
}

/// The text of a fractional setting (a percentage, a lux level, the
/// smoothing factor), which must parse as a number.
pub open spec fn fractional_text_spec(s: Setting<Seq<char>>) -> Option<Seq<char>> {
    match s {
        Setting::MinPct(t) => Some(t),
        Setting::MaxPct(t) => Some(t),
        Setting::MaxLux(t) => Some(t),
        Setting::Smooth(t) => Some(t),
        Setting::HysteresisPct(t) => Some(t),
        Setting::KbdOnLux(t) => Some(t),
        Setting::KbdOffLux(t) => Some(t),
        _ => None,
    }
}

/// The message the command line stops with when a fractional setting's
/// text is not a number.
pub open spec fn float_flag_message_spec(s: Setting<Seq<char>>) -> Option<Seq<char>> {
    match s {
        Setting::MinPct(_) => Some("bad --min"@),
        Setting::MaxPct(_) => Some("bad --max"@),
        Setting::MaxLux(_) => Some("bad --max-lux"@),
        Setting::Smooth(_) => Some("bad --smooth"@),
        Setting::HysteresisPct(_) => Some("bad --hysteresis"@),
        Setting::KbdOnLux(_) => Some("bad --kbd-on"@),
        Setting::KbdOffLux(_) => Some("bad --kbd-off"@),
        _ => None,
    }
}

/// The text of a fractional setting, if `s` is one.
pub fn fractional_text(s: &Setting<String>) -> (r: Option<&String>)
    ensures
        match r {
            Some(t) => fractional_text_spec(s@) == Some(t@),
            None => fractional_text_spec(s@) is None,
        },
{
    match s {
        Setting::MinPct(t) => Some(t),
        Setting::MaxPct(t) => Some(t),
        Setting::MaxLux(t) => Some(t),
        Setting::Smooth(t) => Some(t),
        Setting::HysteresisPct(t) => Some(t),
        Setting::KbdOnLux(t) => Some(t),
        Setting::KbdOffLux(t) => Some(t),
        _ => None,
    }
}

/// The message for a fractional setting whose text is not a number.
pub fn float_flag_message(s: &Setting<String>) -> (r: Option<&'static str>)
    ensures
        match r {
            Some(m) => float_flag_message_spec(s@) == Some(m@),
            None => float_flag_message_spec(s@) is None,
        },
{
    match s {
        Setting::MinPct(_) => Some("bad --min"),
        Setting::MaxPct(_) => Some("bad --max"),
        Setting::MaxLux(_) => Some("bad --max-lux"),
        Setting::Smooth(_) => Some("bad --smooth"),
        Setting::HysteresisPct(_) => Some("bad --hysteresis"),
        Setting::KbdOnLux(_) => Some("bad --kbd-on"),
        Setting::KbdOffLux(_) => Some("bad --kbd-off"),
        _ => None,
    }
}

/// Which flag `--no-kbd` and `--kbd-raw-lux` are.
pub proof fn lemma_flag_texts()
    ensures
        flag_of("--no-kbd"@) == Flag::NoKbd,
        flag_of("--no-nudge"@) == Flag::NoNudge,
        flag_of("--kbd-raw-lux"@) == Flag::Value(ValueFlag::KbdRawLux),
{
    reveal_strlit("--interval");
    assert("--interval"@.len() == 10);
    assert("--interval"@[1] == '-');
    assert("--interval"@[2] == 'i');
    assert("--interval"@[6] == 'r');
    reveal_strlit("--min");
    assert("--min"@.len() == 5);
    assert("--min"@[1] == '-');
    assert("--min"@[2] == 'm');
    reveal_strlit("--max");
    assert("--max"@.len() == 5);
    assert("--max"@[1] == '-');
    assert("--max"@[2] == 'm');
    reveal_strlit("--max-lux");
    assert("--max-lux"@.len() == 9);
    assert("--max-lux"@[1] == '-');
    assert("--max-lux"@[2] == 'm');
    assert("--max-lux"@[6] == 'l');
    reveal_strlit("--smooth");
    assert("--smooth"@.len() == 8);
    assert("--smooth"@[1] == '-');
    assert("--smooth"@[2] == 's');
    assert("--smooth"@[6] == 't');
    reveal_strlit("--hysteresis");
    assert("--hysteresis"@.len() == 12);
    assert("--hysteresis"@[1] == '-');
    assert("--hysteresis"@[2] == 'h');
    assert("--hysteresis"@[6] == 'e');
    reveal_strlit("--device");
    assert("--device"@.len() == 8);
    assert("--device"@[1] == '-');
    assert("--device"@[2] == 'd');
    assert("--device"@[6] == 'c');
    reveal_strlit("--sensor-dir");
    assert("--sensor-dir"@.len() == 12);
    assert("--sensor-dir"@[1] == '-');
    assert("--sensor-dir"@[2] == 's');
    assert("--sensor-dir"@[6] == 'o');
    reveal_strlit("--kbd-on");
    assert("--kbd-on"@.len() == 8);
    assert("--kbd-on"@[1] == '-');
    assert("--kbd-on"@[2] == 'k');
    assert("--kbd-on"@[6] == 'o');
    reveal_strlit("--kbd-off");
    assert("--kbd-off"@.len() == 9);
    assert("--kbd-off"@[1] == '-');
    assert("--kbd-off"@[2] == 'k');
    assert("--kbd-off"@[6] == 'o');
    reveal_strlit("--kbd-device");
    assert("--kbd-device"@.len() == 12);
    assert("--kbd-device"@[1] == '-');
    assert("--kbd-device"@[2] == 'k');
    assert("--kbd-device"@[6] == 'd');
    reveal_strlit("--kbd-raw-lux");
    assert("--kbd-raw-lux"@.len() == 13);
    assert("--kbd-raw-lux"@[1] == '-');
    assert("--kbd-raw-lux"@[2] == 'k');
    assert("--kbd-raw-lux"@[6] == 'r');
    reveal_strlit("--kbd-service");
    assert("--kbd-service"@.len() == 13);
    assert("--kbd-service"@[1] == '-');
    assert("--kbd-service"@[2] == 'k');
    assert("--kbd-service"@[6] == 's');
    reveal_strlit("--no-kbd");
    assert("--no-kbd"@.len() == 8);
    assert("--no-kbd"@[1] == '-');
    assert("--no-kbd"@[2] == 'n');
    assert("--no-kbd"@[6] == 'b');
    reveal_strlit("--no-nudge");
    assert("--no-nudge"@.len() == 10);
    assert("--no-nudge"@[1] == '-');
    assert("--no-nudge"@[2] == 'n');
    assert("--no-nudge"@[6] == 'u');
    reveal_strlit("-v");
    assert("-v"@.len() == 2);
    assert("-v"@[1] == 'v');
    reveal_strlit("--verbose");
    assert("--verbose"@.len() == 9);
    assert("--verbose"@[1] == '-');
    assert("--verbose"@[2] == 'v');
    assert("--verbose"@[6] == 'o');
    reveal_strlit("-h");
    assert("-h"@.len() == 2);
    assert("-h"@[1] == 'h');
    reveal_strlit("--help");
    assert("--help"@.len() == 6);
    assert("--help"@[1] == '-');
    assert("--help"@[2] == 'h');
}

/// `--no-kbd` disables keyboard handling and reading goes on with the next
/// argument; `--no-nudge` likewise disables nudges.
pub proof fn lemma_disable_flags(rest: Seq<Seq<char>>)
    ensures
        cli_spec(seq!["--no-kbd"@] + rest) == ((seq![Setting::<Seq<char>>::KbdEnabled(false)]
            + cli_spec(rest).0), cli_spec(rest).1),
        cli_spec(seq!["--no-nudge"@] + rest) == ((seq![Setting::<Seq<char>>::NudgeEnabled(false)]
            + cli_spec(rest).0), cli_spec(rest).1),
{
    lemma_flag_texts();
    assert((seq!["--no-kbd"@] + rest).drop_first() =~= rest);
    assert((seq!["--no-nudge"@] + rest).drop_first() =~= rest);
}

/// `--kbd-raw-lux v` reads `v` by the boolean rule: false exactly when it is
/// "0" or the word "false" with any of its letters capital (so "true" and
/// "1" are true); reading goes on after the value.
pub proof fn lemma_kbd_raw_lux_flag(v: Seq<char>, rest: Seq<Seq<char>>)
    ensures
        ({
            let falsy = v == seq!['0'] || (v.len() == 5 && (v[0] == 'f' || v[0] == 'F') && (v[1]
                == 'a' || v[1] == 'A') && (v[2] == 'l' || v[2] == 'L') && (v[3] == 's' || v[3]
                == 'S') && (v[4] == 'e' || v[4] == 'E'));
            &&& value_setting(ValueFlag::KbdRawLux, v) == Some(
                Setting::<Seq<char>>::KbdRawLux(!falsy),
            )
            &&& cli_spec(seq!["--kbd-raw-lux"@, v] + rest) == ((seq![
                Setting::<Seq<char>>::KbdRawLux(!falsy),
            ] + cli_spec(rest).0), cli_spec(rest).1)
        }),
{
    lemma_flag_texts();
    lemma_false_word(v);
    let args = seq!["--kbd-raw-lux"@, v] + rest;
    assert(args[0] == "--kbd-raw-lux"@);
    assert(args[1] == v);
    assert(args.skip(2) =~= rest);
}

/// The flag that an argument spells.
pub fn flag_for(a: &[char]) -> (r: Flag)
    ensures
        r == flag_of(a@),
{
    if eq_lit(a, "--interval") {
        Flag::Value(ValueFlag::Interval)
    } else if eq_lit(a, "--min") {
        Flag::Value(ValueFlag::Min)
    } else if eq_lit(a, "--max") {
        Flag::Value(ValueFlag::Max)
    } else if eq_lit(a, "--max-lux") {
        Flag::Value(ValueFlag::MaxLux)
    } else if eq_lit(a, "--smooth") {
        Flag::Value(ValueFlag::Smooth)
    } else if eq_lit(a, "--hysteresis") {
        Flag::Value(ValueFlag::Hysteresis)
    } else if eq_lit(a, "--device") {
        Flag::Value(ValueFlag::Device)
    } else if eq_lit(a, "--sensor-dir") {
        Flag::Value(ValueFlag::SensorDir)
    } else if eq_lit(a, "--kbd-on") {
        Flag::Value(ValueFlag::KbdOn)
    } else if eq_lit(a, "--kbd-off") {
        Flag::Value(ValueFlag::KbdOff)
    } else if eq_lit(a, "--kbd-device") {
        Flag::Value(ValueFlag::KbdDevice)
    } else if eq_lit(a, "--kbd-raw-lux") {
        Flag::Value(ValueFlag::KbdRawLux)
    } else if eq_lit(a, "--kbd-service") {
        Flag::Value(ValueFlag::KbdService)
    } else if eq_lit(a, "--no-kbd") {
        Flag::NoKbd
    } else if eq_lit(a, "--no-nudge") {
        Flag::NoNudge
    } else if eq_lit(a, "-v") || eq_lit(a, "--verbose") {
        Flag::Verbose
    } else if eq_lit(a, "-h") || eq_lit(a, "--help") {
        Flag::Help
    } else {
        Flag::Unknown
    }
}

/// The name of a value flag, as the "missing value" message gives it.
pub fn flag_name(f: ValueFlag) -> (r: &'static str)
    ensures
        r@ == value_flag_name(f),
{
    match f {
        ValueFlag::Interval => "interval",
        ValueFlag::Min => "min",
        ValueFlag::Max => "max",
        ValueFlag::MaxLux => "max-lux",
        ValueFlag::Smooth => "smooth",
        ValueFlag::Hysteresis => "hysteresis",
        ValueFlag::Device => "device",
        ValueFlag::SensorDir => "sensor-dir",
        ValueFlag::KbdOn => "kbd-on",
        ValueFlag::KbdOff => "kbd-off",
        ValueFlag::KbdDevice => "kbd-device",
        ValueFlag::KbdRawLux => "kbd-raw-lux",
        ValueFlag::KbdService => "kbd-service",
    }
}

/// The setting a value flag makes with its value, if the value is good.
pub fn setting_for_flag(f: ValueFlag, v: &String) -> (r: Option<Setting<String>>)
    ensures
        match r {
            Some(s) => value_setting(f, v@) == Some(s@),
            None => value_setting(f, v@) is None,
        },
{
    match f {
        ValueFlag::Interval => {
            let c = to_chars(v.as_str());
            match parse_unsigned(c.as_slice(), u64::MAX) {
                Some(n) => Some(Setting::IntervalMs(n)),
                None => None,
            }
        },
        ValueFlag::Min => Some(Setting::MinPct(v.clone())),
        ValueFlag::Max => Some(Setting::MaxPct(v.clone())),
        ValueFlag::MaxLux => Some(Setting::MaxLux(v.clone())),
        ValueFlag::Smooth => Some(Setting::Smooth(v.clone())),
        ValueFlag::Hysteresis => Some(Setting::HysteresisPct(v.clone())),
        ValueFlag::Device => Some(Setting::Device(v.clone())),
        ValueFlag::SensorDir => Some(Setting::SensorDir(v.clone())),
        ValueFlag::KbdOn => Some(Setting::KbdOnLux(v.clone())),
        ValueFlag::KbdOff => Some(Setting::KbdOffLux(v.clone())),
        ValueFlag::KbdDevice => Some(Setting::KbdDevice(v.clone())),
        ValueFlag::KbdRawLux => {
            let c = to_chars(v.as_str());
            Some(Setting::KbdRawLux(flag_value(c.as_slice())))
        },
        ValueFlag::KbdService => {
            let c = to_chars(v.as_str());
            if c.len() == 0 {
                Some(Setting::KbdService(None))
            } else {
                Some(Setting::KbdService(Some(v.clone())))
            }
        },
    }
}

/// Reads the command line's arguments (the program's name left out).
pub fn parse_command_line(args: &[String]) -> (r: CommandLine)
    ensures
        (setting_views(r.settings@), match r.stop {
            Some(m) => Some(m@),
            None => None,
        }) == cli_spec(arg_views(args@)),
{
    let ghost all = arg_views(args@);
    let n = args.len();
    let mut out: Vec<Setting<String>> = Vec::new();
    let mut i: usize = 0;
    assert(all.skip(0) =~= all);
    assert(setting_views(out@) =~= seq![]);
    while i < n
        invariant
            n == args@.len() == all.len(),
            all == arg_views(args@),
            i <= n,
            cli_spec(all) == (setting_views(out@) + cli_spec(all.skip(i as int)).0, cli_spec(
                all.skip(i as int),
            ).1),
        decreases n - i,
    {
        let ghost rest = all.skip(i as int);
        assert(rest[0] == args@[i as int]@);
        let a = to_chars(args[i].as_str());
        match flag_for(a.as_slice()) {
            Flag::NoKbd | Flag::NoNudge | Flag::Verbose => {
                let f = flag_for(a.as_slice());
                let s = match f {
                    Flag::NoKbd => Setting::KbdEnabled(false),
                    Flag::NoNudge => Setting::NudgeEnabled(false),
                    _ => Setting::Verbose(true),
                };
                assert(rest.drop_first() =~= all.skip(i + 1));
                let ghost before = out@;
                out.push(s);
                assert(setting_views(out@) =~= setting_views(before).push(s@));
                assert(setting_views(before).push(s@) + cli_spec(all.skip(i + 1)).0
                    =~= setting_views(before) + (seq![s@] + cli_spec(all.skip(i + 1)).0));
                i = i + 1;
            },
            Flag::Help => {
                return CommandLine { settings: out, stop: Some(String::new()) };
            },
            Flag::Unknown => {
                let m = String::from_str("unknown arg: ").concat(args[i].as_str());
                return CommandLine { settings: out, stop: Some(m) };
            },
            Flag::Value(f) => {
                if i + 1 >= n {
                    let m = String::from_str("missing value for ").concat(flag_name(f));
                    return CommandLine { settings: out, stop: Some(m) };
                }
                assert(rest[1] == args@[i + 1]@);
                match setting_for_flag(f, &args[i + 1]) {
                    Some(s) => {
                        assert(rest.skip(2) =~= all.skip(i + 2));
                        let ghost before = out@;
                        out.push(s);
                        assert(setting_views(out@) =~= setting_views(before).push(s@));
                        assert(setting_views(before).push(s@) + cli_spec(all.skip(i + 2)).0
                            =~= setting_views(before) + (seq![s@] + cli_spec(
                            all.skip(i + 2),
                        ).0));
                        i = i + 2;
                    },
                    None => {
                        return CommandLine {
                            settings: out,
                            stop: Some(String::from_str("bad --interval")),
                        };
                    },
                }
            },
        }
    }
    assert(setting_views(out@) + seq![] =~= setting_views(out@));
    CommandLine { settings: out, stop: None }
}

} // verus!
