//! The usage text, and how the daemon stops when the command line asks.
use vstd::prelude::*;
use vstd::string::*;
use crate::settings::SENSOR_DIR;

verus! {

/// The usage text up to the default sensor directory.
pub const USAGE_HEAD: &'static str = "ambientd — auto brightness from ambient light sensor

USAGE: ambientd [OPTIONS]

OPTIONS:
  --interval <ms>       poll interval (default 1000)
  --min <pct>           minimum brightness percent (default 10)
  --max <pct>           maximum brightness percent (default 100)
  --max-lux <lux>       lux mapped to full brightness (default 500)
  --smooth <0..1>       EMA smoothing factor, lower = smoother (default 0.2)
  --hysteresis <pct>    only apply changes larger than this (default 2)
  --device <name>       backlight device (default amdgpu_bl1)
  --sensor-dir <path>   iio sensor dir (default ";

/// The usage text after the default sensor directory.
pub const USAGE_TAIL: &'static str = ")
  --kbd-on <lux>        keyboard backlight on at/below this lux (default 0.5)
  --kbd-off <lux>       keyboard backlight off at/above this lux (default 2)
  --kbd-device <name>   keyboard backlight device (default asus::kbd_backlight)
  --kbd-raw-lux <bool>  react to raw lux instead of smoothed EMA for keyboard
                        decisions (default true: instant room changes)
  --kbd-service <unit>  companion unit: stop when bright, start when dark
                        (e.g. asus-backlight-idle.service; default: none)
  --no-kbd              disable keyboard backlight automation
  --no-nudge            disable user-nudge baseline shifting

CONFIG FILE:
  ~/.config/ambientd/config (key=value per line, CLI flags override it)
  e.g. interval=500
  -v, --verbose         log every reading
";

/// The usage text.
pub open spec fn usage_text() -> Seq<char> {
    USAGE_HEAD@ + SENSOR_DIR@ + USAGE_TAIL@
}
/// What is printed when stopping with `msg`: an "error:" line for a
/// non-empty message, then the usage text.
pub open spec fn usage_message_spec(msg: Seq<char>) -> Seq<char> {
    if msg.len() == 0 {
        usage_text()
    } else {
        "error: "@ + msg + "\n\n"@ + usage_text()
    }
}

/// The text to print when stopping with `msg` (empty for `--help`).
pub fn usage_message(msg: &str) -> (r: String)
    ensures
        r@ == usage_message_spec(msg@),
{
    if msg.is_empty() {
        String::from_str(USAGE_HEAD).concat(SENSOR_DIR).concat(USAGE_TAIL)
    } else {
        String::from_str("error: ").concat(msg).concat("\n\n").concat(USAGE_HEAD).concat(
            SENSOR_DIR,
        ).concat(USAGE_TAIL)
    }
}

/// The exit status when stopping with `msg`: 0 for the help, 2 for an error.
pub fn usage_exit_code(msg: &str) -> (r: i32)
    ensures
        r == (if msg@.len() == 0 {
            0i32
        } else {
            2i32
        }),
{
    if msg.is_empty() {
        0
    } else {
        2
    }
}

} // verus!
