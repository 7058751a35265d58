//! The config file: `key=value` lines, with `#` comments.
use vstd::prelude::*;
use crate::text::{
    trim, trim_chars, to_chars, copy_range, eq_lit, string_from_chars, parse_unsigned,
    parse_unsigned_spec,
};
use crate::settings::{Setting, setting_views};

verus! {

/// `c` with an ASCII capital letter turned into its small letter.
pub open spec fn ascii_lower(c: char) -> char {
    if 65 <= (c as u32) <= 90 {
        ((c as u32) + 32) as char
    } else {
        c
    }
}

/// The word "false" in any mix of capital and small letters: exactly the
/// texts whose lowercase form is "false".
pub open spec fn is_false_word(v: Seq<char>) -> bool {
    &&& v.len() == 5
    &&& ascii_lower(v[0]) == 'f'
    &&& ascii_lower(v[1]) == 'a'
    &&& ascii_lower(v[2]) == 'l'
    &&& ascii_lower(v[3]) == 's'
    &&& ascii_lower(v[4]) == 'e'
}

/// A boolean value: anything but "0" and "false" (in any case) is true.
pub open spec fn flag_true(v: Seq<char>) -> bool {
    v != seq!['0'] && !is_false_word(v)
}

/// The small letter of an ASCII capital; any other character unchanged.
pub fn lower_ascii(c: char) -> (r: char)
    ensures
        r == ascii_lower(c),
{
    let n = c as u32;
    if 65 <= n && n <= 90 {
        ((n + 32) as u8) as char
    } else {
        c
    }
}

/// Reads a boolean value as the config file and `--kbd-raw-lux` do.
pub fn flag_value(v: &[char]) -> (r: bool)
    ensures
        r == flag_true(v@),
{
    if v.len() == 1 && v[0] == '0' {
        assert(v@ =~= seq!['0']);
        return false;
    }
    assert(v@ != seq!['0']);
    if v.len() == 5 && lower_ascii(v[0]) == 'f' && lower_ascii(v[1]) == 'a' && lower_ascii(v[2])
        == 'l' && lower_ascii(v[3]) == 's' && lower_ascii(v[4]) == 'e' {
        return false;
    }
    true
}

/// Whether `c` occurs in `s`.
pub open spec fn has_char(s: Seq<char>, c: char) -> bool {
    exists|i: int| 0 <= i < s.len() && s[i] == c
}

/// `i` is the position of the first `c` in `s`.
pub open spec fn is_first_index(s: Seq<char>, c: char, i: int) -> bool {
    &&& 0 <= i < s.len()
    &&& s[i] == c
    &&& forall|j: int| 0 <= j < i ==> s[j] != c
}

/// The position of the first `c` in `s` (meaningful when `has_char(s, c)`).
pub open spec fn first_index(s: Seq<char>, c: char) -> int {
    choose|i: int| is_first_index(s, c, i)
}

/// There is one first position.
pub proof fn lemma_first_index(s: Seq<char>, c: char, p: int)
    requires
        is_first_index(s, c, p),
    ensures
        first_index(s, c) == p,
{
    let q = first_index(s, c);
    assert(is_first_index(s, c, q));
    if q < p {
        assert(s[q] != c);
    } else if p < q {
        assert(s[p] != c);
    }
}

/// The position of the first `c` in `s`, if any.
pub fn find_char(s: &[char], c: char) -> (r: Option<usize>)
    ensures
        match r {
            Some(p) => is_first_index(s@, c, p as int),
            None => !has_char(s@, c),
        },
{
    let n = s.len();
    let mut i: usize = 0;
    while i < n
        invariant
            n == s@.len(),
            i <= n,
            forall|j: int| 0 <= j < i ==> s@[j] != c,
        decreases n - i,
    {
        if s[i] == c {
            return Some(i);
        }
        i = i + 1;
    }
    None
}

/// The setting that a config key gives with a value, if the key is known
/// (and, for the interval, the value is a number).
pub open spec fn setting_for_key(k: Seq<char>, v: Seq<char>) -> Option<Setting<Seq<char>>> {
    if k == "interval"@ || k == "interval_ms"@ {
        match parse_unsigned_spec(v, u64::MAX as nat) {
            Some(n) => Some(Setting::IntervalMs(n as u64)),
            None => None,
        }
    } else if k == "min"@ {
        Some(Setting::MinPct(v))
    } else if k == "max"@ {
        Some(Setting::MaxPct(v))
    } else if k == "max_lux"@ {
        Some(Setting::MaxLux(v))
    } else if k == "smooth"@ {
        Some(Setting::Smooth(v))
    } else if k == "hysteresis"@ {
        Some(Setting::HysteresisPct(v))
    } else if k == "device"@ {
        Some(Setting::Device(v))
    } else if k == "sensor_dir"@ {
        Some(Setting::SensorDir(v))
    } else if k == "kbd_on"@ {
        Some(Setting::KbdOnLux(v))
    } else if k == "kbd_off"@ {
        Some(Setting::KbdOffLux(v))
    } else if k == "kbd_device"@ {
        Some(Setting::KbdDevice(v))
    } else if k == "kbd_raw_lux"@ || k == "kbd-raw-lux"@ {
        Some(Setting::KbdRawLux(flag_true(v)))
    } else if k == "kbd_service"@ || k == "kbd-service"@ {
        Some(
            Setting::KbdService(
                if v.len() == 0 {
                    None
                } else {
                    Some(v)
                },
            ),
        )
    } else if k == "no_kbd"@ {
        Some(Setting::KbdEnabled(!flag_true(v)))
    } else if k == "no_nudge"@ {
        Some(Setting::NudgeEnabled(!flag_true(v)))
    } else {
        None
    }
}

/// The boolean keys read a value as false exactly when it is "0" or the
/// word "false" with any of its letters capital: `kbd_raw_lux=v` gives that
/// truth value, and `no_kbd=v` / `no_nudge=v` disable keyboard or nudge
/// handling exactly when `v` is true.
pub proof fn lemma_boolean_keys(v: Seq<char>)
    ensures
        ({
            let falsy = v == seq!['0'] || (v.len() == 5 && (v[0] == 'f' || v[0] == 'F') && (v[1]
                == 'a' || v[1] == 'A') && (v[2] == 'l' || v[2] == 'L') && (v[3] == 's' || v[3]
                == 'S') && (v[4] == 'e' || v[4] == 'E'));
            &&& setting_for_key("kbd_raw_lux"@, v) == Some(Setting::<Seq<char>>::KbdRawLux(!falsy))
            &&& setting_for_key("kbd-raw-lux"@, v) == Some(Setting::<Seq<char>>::KbdRawLux(!falsy))
            &&& setting_for_key("no_kbd"@, v) == Some(Setting::<Seq<char>>::KbdEnabled(falsy))
            &&& setting_for_key("no_nudge"@, v) == Some(Setting::<Seq<char>>::NudgeEnabled(falsy))
        }),
{
    reveal_strlit("interval");
    assert("interval"@.len() == 8);
    assert("interval"@[0] == 'i');
    assert("interval"@[3] == 'e');
    assert("interval"@[4] == 'r');
    reveal_strlit("interval_ms");
    assert("interval_ms"@.len() == 11);
    assert("interval_ms"@[0] == 'i');
    assert("interval_ms"@[3] == 'e');
    assert("interval_ms"@[4] == 'r');
    reveal_strlit("min");
    assert("min"@.len() == 3);
    assert("min"@[0] == 'm');
    reveal_strlit("max");
    assert("max"@.len() == 3);
    assert("max"@[0] == 'm');
    reveal_strlit("max_lux");
    assert("max_lux"@.len() == 7);
    assert("max_lux"@[0] == 'm');
    assert("max_lux"@[3] == '_');
    assert("max_lux"@[4] == 'l');
    reveal_strlit("smooth");
    assert("smooth"@.len() == 6);
    assert("smooth"@[0] == 's');
    assert("smooth"@[3] == 'o');
    assert("smooth"@[4] == 't');
    reveal_strlit("hysteresis");
    assert("hysteresis"@.len() == 10);
    assert("hysteresis"@[0] == 'h');
    assert("hysteresis"@[3] == 't');
    assert("hysteresis"@[4] == 'e');
    reveal_strlit("device");
    assert("device"@.len() == 6);
    assert("device"@[0] == 'd');
    assert("device"@[3] == 'i');
    assert("device"@[4] == 'c');
    reveal_strlit("sensor_dir");
    assert("sensor_dir"@.len() == 10);
    assert("sensor_dir"@[0] == 's');
    assert("sensor_dir"@[3] == 's');
    assert("sensor_dir"@[4] == 'o');
    reveal_strlit("kbd_on");
    assert("kbd_on"@.len() == 6);
    assert("kbd_on"@[0] == 'k');
    assert("kbd_on"@[3] == '_');
    assert("kbd_on"@[4] == 'o');
    reveal_strlit("kbd_off");
    assert("kbd_off"@.len() == 7);
    assert("kbd_off"@[0] == 'k');
    assert("kbd_off"@[3] == '_');
    assert("kbd_off"@[4] == 'o');
    reveal_strlit("kbd_device");
    assert("kbd_device"@.len() == 10);
    assert("kbd_device"@[0] == 'k');
    assert("kbd_device"@[3] == '_');
    assert("kbd_device"@[4] == 'd');
    reveal_strlit("kbd_raw_lux");
    assert("kbd_raw_lux"@.len() == 11);
    assert("kbd_raw_lux"@[0] == 'k');
    assert("kbd_raw_lux"@[3] == '_');
    assert("kbd_raw_lux"@[4] == 'r');
    reveal_strlit("kbd-raw-lux");
    assert("kbd-raw-lux"@.len() == 11);
    assert("kbd-raw-lux"@[0] == 'k');
    assert("kbd-raw-lux"@[3] == '-');
    assert("kbd-raw-lux"@[4] == 'r');
    reveal_strlit("kbd_service");
    assert("kbd_service"@.len() == 11);
    assert("kbd_service"@[0] == 'k');
    assert("kbd_service"@[3] == '_');
    assert("kbd_service"@[4] == 's');
    reveal_strlit("kbd-service");
    assert("kbd-service"@.len() == 11);
    assert("kbd-service"@[0] == 'k');
    assert("kbd-service"@[3] == '-');
    assert("kbd-service"@[4] == 's');
    reveal_strlit("no_kbd");
    assert("no_kbd"@.len() == 6);
    assert("no_kbd"@[0] == 'n');
    assert("no_kbd"@[3] == 'k');
    assert("no_kbd"@[4] == 'b');
    reveal_strlit("no_nudge");
    assert("no_nudge"@.len() == 8);
    assert("no_nudge"@[0] == 'n');
    assert("no_nudge"@[3] == 'n');
    assert("no_nudge"@[4] == 'u');
    lemma_false_word(v);
}

/// The word "false" in any case, letter by letter.
pub proof fn lemma_false_word(v: Seq<char>)
    ensures
        is_false_word(v) <==> (v.len() == 5 && (v[0] == 'f' || v[0] == 'F') && (v[1] == 'a'
            || v[1] == 'A') && (v[2] == 'l' || v[2] == 'L') && (v[3] == 's' || v[3] == 'S') && (
        v[4] == 'e' || v[4] == 'E')),
{
    if v.len() == 5 {
        lemma_lower_is(v[0], 'f', 'F');
        lemma_lower_is(v[1], 'a', 'A');
        lemma_lower_is(v[2], 'l', 'L');
        lemma_lower_is(v[3], 's', 'S');
        lemma_lower_is(v[4], 'e', 'E');
    }
}

/// An ASCII small letter is reached by lowering exactly itself and its capital.
pub proof fn lemma_lower_is(c: char, small: char, capital: char)
    requires
        97 <= small as u32 <= 122,
        capital as u32 == small as u32 - 32,
    ensures
        ascii_lower(c) == small <==> (c == small || c == capital),
{
    if 65 <= (c as u32) <= 90 {
        assert((((c as u32) + 32) as char) as u32 == (c as u32) + 32);
        assert((small as u32 == (c as u32) + 32) <==> (capital as u32 == c as u32));
    }
}

/// The setting of one config line, if it makes one: a line is trimmed;
/// an empty line, a `#` comment and a line without `=` make none; else the
/// trimmed text before the first `=` is the key, the trimmed rest the value.
pub open spec fn config_line(line: Seq<char>) -> Option<Setting<Seq<char>>> {
    let t = trim(line);
    if t.len() == 0 || t[0] == '#' || !has_char(t, '=') {
        None
    } else {
        let p = first_index(t, '=');
        setting_for_key(trim(t.take(p)), trim(t.skip(p + 1)))
    }
}

/// The settings of a sequence of lines, in order.
pub open spec fn config_lines(ls: Seq<Seq<char>>) -> Seq<Setting<Seq<char>>>
    decreases ls.len(),
{
    if ls.len() == 0 {
        seq![]
    } else {
        let p = config_lines(ls.drop_last());
        match config_line(ls.last()) {
            Some(s) => p.push(s),
            None => p,
        }
    }
}

/// The pieces of `s` between newlines (a piece may end in `'\r'`, which
/// trimming removes).
pub open spec fn lines(s: Seq<char>) -> Seq<Seq<char>>
    decreases s.len(),
{
    if s.len() == 0 {
        seq![seq![]]
    } else {
        let p = lines(s.drop_last());
        if s.last() == '\n' {
            p.push(seq![])
        } else {
            p.update(p.len() - 1, p.last().push(s.last()))
        }
    }
}

/// There is always at least one piece.
pub proof fn lemma_lines_len(s: Seq<char>)
    ensures
        lines(s).len() >= 1,
    decreases s.len(),
{
    if s.len() > 0 {
        lemma_lines_len(s.drop_last());
    }
}

/// How one more character extends the pieces.
pub open spec fn extend_lines(p: Seq<Seq<char>>, c: char) -> Seq<Seq<char>> {
    if c == '\n' {
        p.push(seq![])
    } else {
        p.update(p.len() - 1, p.last().push(c))
    }
}

/// Text after a newline splits into its own pieces, after the pieces of
/// the text before it.
pub proof fn lemma_lines_append(a: Seq<char>, b: Seq<char>)
    ensures
        lines(a.push('\n') + b) == lines(a) + lines(b),
    decreases b.len(),
{
    let s = a.push('\n') + b;
    if b.len() == 0 {
        assert(s =~= a.push('\n'));
        assert(s.drop_last() =~= a);
    } else {
        assert(s.drop_last() =~= a.push('\n') + b.drop_last());
        lemma_lines_append(a, b.drop_last());
        lemma_lines_len(b.drop_last());
        lemma_lines_len(a);
        let x = lines(a);
        let y = lines(b.drop_last());
        assert(s.last() == b.last());
        if b.last() == '\n' {
            assert((x + y).push(seq![]) =~= x + y.push(seq![]));
        } else {
            assert((x + y).update((x + y).len() - 1, (x + y).last().push(b.last())) =~= x
                + y.update(y.len() - 1, y.last().push(b.last())));
        }
    }
}

/// The settings of two runs of lines, one after the other.
pub proof fn lemma_config_lines_append(x: Seq<Seq<char>>, y: Seq<Seq<char>>)
    ensures
        config_lines(x + y) == config_lines(x) + config_lines(y),
    decreases y.len(),
{
    if y.len() == 0 {
        assert(x + y =~= x);
        assert(config_lines(x) + seq![] =~= config_lines(x));
    } else {
        assert((x + y).drop_last() =~= x + y.drop_last());
        assert((x + y).last() == y.last());
        lemma_config_lines_append(x, y.drop_last());
        match config_line(y.last()) {
            Some(st) => {
                assert((config_lines(x) + config_lines(y.drop_last())).push(st) =~= config_lines(x)
                    + config_lines(y.drop_last()).push(st));
            },
            None => {},
        }
    }
}

/// Each line of the config file stands alone: the settings of two texts
/// joined by a newline are those of the first, then those of the second.
pub proof fn lemma_config_lines_stand_alone(a: Seq<char>, b: Seq<char>)
    ensures
        config_settings(a.push('\n') + b) == config_settings(a) + config_settings(b),
{
    lemma_lines_append(a, b);
    lemma_config_lines_append(lines(a), lines(b));
}

/// The settings that a config file's text makes, in the order of its lines.
pub open spec fn config_settings(content: Seq<char>) -> Seq<Setting<Seq<char>>> {
    config_lines(lines(content))
}

/// The setting for a known key and its value.
pub fn setting_for(k: &[char], v: &[char]) -> (r: Option<Setting<String>>)
    ensures
        match r {
            Some(s) => setting_for_key(k@, v@) == Some(s@),
            None => setting_for_key(k@, v@) is None,
        },
{
    if eq_lit(k, "interval") || eq_lit(k, "interval_ms") {
        match parse_unsigned(v, u64::MAX) {
            Some(n) => Some(Setting::IntervalMs(n)),
            None => None,
        }
    } else if eq_lit(k, "min") {
        Some(Setting::MinPct(string_from_chars(v)))
    } else if eq_lit(k, "max") {
        Some(Setting::MaxPct(string_from_chars(v)))
    } else if eq_lit(k, "max_lux") {
        Some(Setting::MaxLux(string_from_chars(v)))
    } else if eq_lit(k, "smooth") {
        Some(Setting::Smooth(string_from_chars(v)))
    } else if eq_lit(k, "hysteresis") {
        Some(Setting::HysteresisPct(string_from_chars(v)))
    } else if eq_lit(k, "device") {
        Some(Setting::Device(string_from_chars(v)))
    } else if eq_lit(k, "sensor_dir") {
        Some(Setting::SensorDir(string_from_chars(v)))
    } else if eq_lit(k, "kbd_on") {
        Some(Setting::KbdOnLux(string_from_chars(v)))
    } else if eq_lit(k, "kbd_off") {
        Some(Setting::KbdOffLux(string_from_chars(v)))
    } else if eq_lit(k, "kbd_device") {
        Some(Setting::KbdDevice(string_from_chars(v)))
    } else if eq_lit(k, "kbd_raw_lux") || eq_lit(k, "kbd-raw-lux") {
        Some(Setting::KbdRawLux(flag_value(v)))
    } else if eq_lit(k, "kbd_service") || eq_lit(k, "kbd-service") {
        if v.len() == 0 {
            Some(Setting::KbdService(None))
        } else {
            Some(Setting::KbdService(Some(string_from_chars(v))))
        }
    } else if eq_lit(k, "no_kbd") {
        Some(Setting::KbdEnabled(!flag_value(v)))
    } else if eq_lit(k, "no_nudge") {
        Some(Setting::NudgeEnabled(!flag_value(v)))
    } else {
        None
    }
}

/// The setting that one config line makes, if any.
pub fn parse_config_line(line: &[char]) -> (r: Option<Setting<String>>)
    ensures
        match r {
            Some(s) => config_line(line@) == Some(s@),
            None => config_line(line@) is None,
        },
{
    let t = trim_chars(line);
    if t.len() == 0 || t[0] == '#' {
        return None;
    }
    match find_char(t.as_slice(), '=') {
        None => None,
        Some(p) => {
            proof {
                lemma_first_index(t@, '=', p as int);
            }
            let k = copy_range(t.as_slice(), 0, p);
            let v = copy_range(t.as_slice(), p + 1, t.len());
            assert(k@ =~= t@.take(p as int));
            assert(v@ =~= t@.skip(p + 1));
            let kt = trim_chars(k.as_slice());
            let vt = trim_chars(v.as_slice());
            setting_for(kt.as_slice(), vt.as_slice())
        },
    }
}

/// The settings that a config file's text makes, in the order of its lines.
pub fn parse_config(content: &str) -> (r: Vec<Setting<String>>)
    ensures
        setting_views(r@) == config_settings(content@),
{
    let s = to_chars(content);
    let n = s.len();
    let mut out: Vec<Setting<String>> = Vec::new();
    let mut cur: Vec<char> = Vec::new();
    let ghost mut done: Seq<Seq<char>> = seq![];
    let mut i: usize = 0;
    assert(s@.take(0) =~= Seq::<char>::empty());
    assert(done.push(cur@) =~= seq![seq![]]);
    while i < n
        invariant
            n == s@.len(),
            i <= n,
            lines(s@.take(i as int)) == done.push(cur@),
            setting_views(out@) == config_lines(done),
        decreases n - i,
    {
        let c = s[i];
        assert(s@.take(i + 1).drop_last() =~= s@.take(i as int));
        assert(s@.take(i + 1).last() == c);
        if c == '\n' {
            let r = parse_config_line(cur.as_slice());
            let ghost old_done = done;
            proof {
                done = done.push(cur@);
                assert(done.drop_last() =~= old_done);
            }
            match r {
                Some(x) => {
                    let ghost before = out@;
                    out.push(x);
                    assert(setting_views(out@) =~= setting_views(before).push(x@));
                },
                None => {},
            }
            cur = Vec::new();
            assert(lines(s@.take(i + 1)) =~= done.push(cur@));
        } else {
            let ghost old_cur = cur@;
            cur.push(c);
            assert(lines(s@.take(i + 1)) =~= done.push(cur@));
        }
        i = i + 1;
    }
    assert(s@.take(n as int) =~= s@);
    let r = parse_config_line(cur.as_slice());
    let ghost all = done.push(cur@);
    assert(all.drop_last() =~= done);
    match r {
        Some(x) => {
            let ghost before = out@;
            out.push(x);
            assert(setting_views(out@) =~= setting_views(before).push(x@));
        },
        None => {},
    }
    out
}

} // verus!
