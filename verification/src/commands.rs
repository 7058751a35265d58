//! The commands the daemon runs: `brightnessctl` for the lights and
//! `systemctl --user` for the companion unit.
use vstd::prelude::*;
use vstd::string::*;
use crate::text::{decimal, decimal_chars, string_from_chars};

verus! {

/// The program that sets the lights.
pub const BRIGHTNESSCTL: &'static str = "brightnessctl";

/// The program that starts and stops the companion unit.
pub const SYSTEMCTL: &'static str = "systemctl";

/// The texts of a list of strings.
pub open spec fn string_views(v: Seq<String>) -> Seq<Seq<char>> {
    v.map_values(|s: String| s@)
}

/// The arguments that set the screen backlight to `pct` percent.
pub fn brightness_args(pct: u32, device: &str) -> (r: Vec<String>)
    ensures
        string_views(r@) == seq![
            "--device"@,
            device@,
            "--quiet"@,
            "set"@,
            decimal(pct as nat) + "%"@,
        ],
{
    let digits = decimal_chars(pct as u64);
    let level = string_from_chars(digits.as_slice()).concat("%");
    let r = vec![
        String::from_str("--device"),
        String::from_str(device),
        String::from_str("--quiet"),
        String::from_str("set"),
        level,
    ];
    assert(string_views(r@) =~= seq![
        "--device"@,
        device@,
        "--quiet"@,
        "set"@,
        decimal(pct as nat) + "%"@,
    ]);
    r
}

/// The arguments that turn the keyboard backlight on (level 1) or off.
pub fn kbd_args(on: bool, device: &str) -> (r: Vec<String>)
    ensures
        string_views(r@) == seq![
            "--device"@,
            device@,
            "--quiet"@,
            "set"@,
            if on {
                "1"@
            } else {
                "0"@
            },
        ],
{
    let level = if on {
        String::from_str("1")
    } else {
        String::from_str("0")
    };
    let r = vec![
        String::from_str("--device"),
        String::from_str(device),
        String::from_str("--quiet"),
        String::from_str("set"),
        level,
    ];
    assert(string_views(r@) =~= seq![
        "--device"@,
        device@,
        "--quiet"@,
        "set"@,
        if on {
            "1"@
        } else {
            "0"@
        },
    ]);
    r
}

/// The arguments of `systemctl` that apply `action` to a user unit.
pub fn systemctl_args(action: &str, unit: &str) -> (r: Vec<String>)
    ensures
        string_views(r@) == seq!["--user"@, action@, unit@],
{
    let r = vec![String::from_str("--user"), String::from_str(action), String::from_str(unit)];
    assert(string_views(r@) =~= seq!["--user"@, action@, unit@]);
    r
}

} // verus!
