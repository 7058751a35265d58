//! The sysfs files that the daemon reads, and what it makes of their text.
use vstd::prelude::*;
use vstd::string::*;
use crate::text::{to_chars, trim, trim_chars, eq_lit, parse_unsigned, parse_unsigned_spec};
use crate::dirs::str_opt_view;

verus! {

/// A file of the sensor's directory.
pub fn sensor_file(sensor_dir: &str, name: &str) -> (r: String)
    ensures
        r@ == sensor_dir@ + "/"@ + name@,
{
    String::from_str(sensor_dir).concat("/").concat(name)
}

/// A file of a backlight device (`brightness`, `max_brightness`).
pub fn backlight_file(device: &str, which: &str) -> (r: String)
    ensures
        r@ == "/sys/class/backlight/"@ + device@ + "/"@ + which@,
{
    String::from_str("/sys/class/backlight/").concat(device).concat("/").concat(which)
}

/// The brightness file of a keyboard backlight device.
pub fn kbd_brightness_file(device: &str) -> (r: String)
    ensures
        r@ == "/sys/class/leds/"@ + device@ + "/brightness"@,
{
    String::from_str("/sys/class/leds/").concat(device).concat("/brightness")
}

/// The keyboard light's brightness from its file's text (none when the
/// file could not be read): the trimmed text as a `u32`.
pub open spec fn kbd_brightness_spec(content: Option<Seq<char>>) -> Option<nat> {
    match content {
        Some(c) => parse_unsigned_spec(trim(c), u32::MAX as nat),
        None => None,
    }
}

/// Reads the keyboard light's brightness from the text of its file, `None`
/// when the file could not be read or does not hold a `u32`.
pub fn read_kbd_brightness(content: Option<&str>) -> (r: Option<u32>)
    ensures
        match kbd_brightness_spec(str_opt_view(content)) {
            Some(n) => r == Some(n as u32),
            None => r is None,
        },
{
    match content {
        Some(c) => {
            let chars = to_chars(c);
            let t = trim_chars(chars.as_slice());
            match parse_unsigned(t.as_slice(), u32::MAX as u64) {
                Some(n) => Some(n as u32),
                None => None,
            }
        },
        None => None,
    }
}

/// Whether the sensor's `name` file (its text, none when unreadable) says
/// it is an ambient light sensor: the trimmed text is `als`.
pub fn sensor_is_als(name_content: Option<&str>) -> (r: bool)
    ensures
        r == (str_opt_view(name_content) matches Some(c) && trim(c) == "als"@),
{
    match name_content {
        Some(c) => {
            let chars = to_chars(c);
            let t = trim_chars(chars.as_slice());
            eq_lit(t.as_slice(), "als")
        },
        None => false,
    }
}

} // verus!
