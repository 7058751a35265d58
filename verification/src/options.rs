//! Reading all options: the defaults, then the config file's settings, then
//! the command line's, with every fractional value checked to be a number.
use vstd::prelude::*;
use crate::settings::{
    Args, Setting, setting_views, default_args, apply_settings,
};
use crate::config::{
    parse_config, config_settings, config_line, config_lines, lines, has_char,
    lemma_config_lines_stand_alone,
};
use crate::cli::{
    parse_command_line, cli_spec, arg_views, CliResult, fractional_text, fractional_text_spec,
    float_flag_message, float_flag_message_spec, lemma_disable_flags, flag_of, Flag,
    value_setting,
};

verus! {

/// Whether a setting passes the number check: a fractional setting whose
/// text is among the texts that do not parse as a number fails it.
pub open spec fn accepted(s: Setting<Seq<char>>, rejected: Seq<Seq<char>>) -> bool {
    match fractional_text_spec(s) {
        Some(t) => !rejected.contains(t),
        None => true,
    }
}

/// The settings that pass the number check, in order: a config file's
/// setting whose value is not a number is ignored.
pub open spec fn kept(ss: Seq<Setting<Seq<char>>>, rejected: Seq<Seq<char>>) -> Seq<
    Setting<Seq<char>>,
>
    decreases ss.len(),
{
    if ss.len() == 0 {
        seq![]
    } else if accepted(ss.last(), rejected) {
        kept(ss.drop_last(), rejected).push(ss.last())
    } else {
        kept(ss.drop_last(), rejected)
    }
}

/// Every setting passes the number check.
pub open spec fn all_accepted(ss: Seq<Setting<Seq<char>>>, rejected: Seq<Seq<char>>) -> bool {
    forall|i: int| 0 <= i < ss.len() ==> accepted(#[trigger] ss[i], rejected)
}

/// `i` is the first setting that fails the number check.
pub open spec fn is_first_rejected(ss: Seq<Setting<Seq<char>>>, rejected: Seq<Seq<char>>, i: int) -> bool {
    &&& 0 <= i < ss.len()
    &&& !accepted(ss[i], rejected)
    &&& forall|j: int| 0 <= j < i ==> accepted(#[trigger] ss[j], rejected)
}

/// The command line's outcome once fractional values are checked: it stops
/// at the first value that is not a number, with that flag's message; else
/// it stops as reading it stopped, or gives its settings.
pub open spec fn cli_checked(r: CliResult, rejected: Seq<Seq<char>>) -> Result<
    Seq<Setting<Seq<char>>>,
    Seq<char>,
> {
    if all_accepted(r.0, rejected) {
        match r.1 {
            Some(m) => Err(m),
            None => Ok(r.0),
        }
    } else {
        let i = choose|i: int| is_first_rejected(r.0, rejected, i);
        match float_flag_message_spec(r.0[i]) {
            Some(m) => Err(m),
            None => Err(seq![]),
        }
    }
}

/// The options that the config file's text and the arguments give (or the
/// message to stop with): the defaults, then the file's settings that pass
/// the number check, then the command line's.
pub open spec fn read_options_spec(
    config: Seq<char>,
    argv: Seq<Seq<char>>,
    rejected: Seq<Seq<char>>,
) -> Result<Args<Seq<char>>, Seq<char>> {
    let base = apply_settings(default_args(), kept(config_settings(config), rejected));
    match cli_checked(cli_spec(argv), rejected) {
        Ok(cli) => Ok(apply_settings(base, cli)),
        Err(m) => Err(m),
    }
}

/// There is one first rejected setting.
pub proof fn lemma_first_rejected(ss: Seq<Setting<Seq<char>>>, rejected: Seq<Seq<char>>, p: int)
    requires
        is_first_rejected(ss, rejected, p),
    ensures
        (choose|i: int| is_first_rejected(ss, rejected, i)) == p,
{
    let q = choose|i: int| is_first_rejected(ss, rejected, i);
    assert(is_first_rejected(ss, rejected, q));
    if q < p {
        assert(accepted(ss[q], rejected));
    } else if p < q {
        assert(accepted(ss[p], rejected));
    }
}

/// Whether `t` is one of `list`.
pub fn contains_text(list: &[String], t: &String) -> (r: bool)
    ensures
        r == arg_views(list@).contains(t@),
{
    let n = list.len();
    let mut i: usize = 0;
    while i < n
        invariant
            n == list@.len(),
            i <= n,
            forall|j: int| 0 <= j < i ==> list@[j]@ != t@,
        decreases n - i,
    {
        if list[i] == *t {
            assert(arg_views(list@)[i as int] == t@);
            return true;
        }
        i = i + 1;
    }
    assert forall|j: int| 0 <= j < arg_views(list@).len() implies arg_views(list@)[j] != t@ by {
        assert(arg_views(list@)[j] == list@[j]@);
    }
    false
}

/// Whether a setting passes the number check.
pub fn is_accepted(s: &Setting<String>, rejected: &[String]) -> (r: bool)
    ensures
        r == accepted(s@, arg_views(rejected@)),
{
    match fractional_text(s) {
        Some(t) => !contains_text(rejected, t),
        None => true,
    }
}

/// Reads all options from the config file's text (empty when there is no
/// file), the arguments (the program's name left out) and the fractional
/// texts that do not parse as a number. `Err` holds the message to stop with
/// (empty for `--help`).
pub fn read_options(config: &str, argv: &[String], rejected: &[String]) -> (r: Result<
    Args<String>,
    String,
>)
    ensures
        match read_options_spec(config@, arg_views(argv@), arg_views(rejected@)) {
            Ok(a) => r matches Ok(x) && x@ == a,
            Err(m) => r matches Err(x) && x@ == m,
        },
        all_accepted(cli_spec(arg_views(argv@)).0, arg_views(rejected@)) && cli_spec(
            arg_views(argv@),
        ).1 is None ==> (r matches Ok(x) && x@ == apply_settings(
            apply_settings(
                default_args(),
                kept(config_settings(config@), arg_views(rejected@)),
            ),
            cli_spec(arg_views(argv@)).0,
        )),
{
    let ghost rej = arg_views(rejected@);
    let mut a: Args<String> = Args::default();
    let cfg = parse_config(config);
    let n = cfg.len();
    let mut i: usize = 0;
    assert(setting_views(cfg@.take(0)) =~= seq![]);
    while i < n
        invariant
            n == cfg@.len(),
            i <= n,
            rej == arg_views(rejected@),
            a@ == apply_settings(default_args(), kept(setting_views(cfg@.take(i as int)), rej)),
        decreases n - i,
    {
        let ghost before = setting_views(cfg@.take(i as int));
        let ghost after = setting_views(cfg@.take(i + 1));
        assert(after.drop_last() =~= before);
        assert(after.last() == cfg@[i as int]@);
        if is_accepted(&cfg[i], rejected) {
            assert(kept(after, rej) == kept(before, rej).push(after.last()));
            assert(kept(before, rej).push(after.last()).drop_last() =~= kept(before, rej));
            a.apply(&cfg[i]);
        } else {
            assert(kept(after, rej) == kept(before, rej));
        }
        i = i + 1;
    }
    assert(cfg@.take(n as int) =~= cfg@);
    let ghost base = a@;
    let cl = parse_command_line(argv);
    let ghost all = setting_views(cl.settings@);
    assert(all == cli_spec(arg_views(argv@)).0);
    assert(cl.stop matches Some(x) ==> cli_spec(arg_views(argv@)).1 == Some(x@));
    let m = cl.settings.len();
    let mut k: usize = 0;
    assert(setting_views(cl.settings@.take(0)) =~= seq![]);
    while k < m
        invariant
            m == cl.settings@.len(),
            k <= m,
            rej == arg_views(rejected@),
            all == setting_views(cl.settings@),
            all == cli_spec(arg_views(argv@)).0,
            cl.stop matches Some(x) ==> cli_spec(arg_views(argv@)).1 == Some(x@),
            cl.stop is None ==> cli_spec(arg_views(argv@)).1 is None,
            base == apply_settings(default_args(), kept(config_settings(config@), rej)),
            a@ == apply_settings(base, setting_views(cl.settings@.take(k as int))),
            forall|j: int| 0 <= j < k ==> accepted(#[trigger] all[j], rej),
        decreases m - k,
    {
        assert(all[k as int] == cl.settings@[k as int]@);
        if !is_accepted(&cl.settings[k], rejected) {
            proof {
                lemma_first_rejected(all, rej, k as int);
                assert(!all_accepted(all, rej));
            }
            match float_flag_message(&cl.settings[k]) {
                Some(msg) => {
                    return Err(String::from_str(msg));
                },
                None => {
                    return Err(String::new());
                },
            }
        }
        let ghost before = setting_views(cl.settings@.take(k as int));
        let ghost after = setting_views(cl.settings@.take(k + 1));
        assert(after.drop_last() =~= before);
        assert(after.last() == all[k as int]);
        a.apply(&cl.settings[k]);
        k = k + 1;
    }
    assert(cl.settings@.take(m as int) =~= cl.settings@);
    assert(all_accepted(all, rej));
    match cl.stop {
        Some(msg) => Err(msg),
        None => Ok(a),
    }
}

/// The number check keeps or drops each setting on its own: the settings
/// kept from two runs one after the other are those kept from the first,
/// then those kept from the second.
pub proof fn lemma_kept_append(x: Seq<Setting<Seq<char>>>, y: Seq<Setting<Seq<char>>>, rejected: Seq<Seq<char>>)
    ensures
        kept(x + y, rejected) == kept(x, rejected) + kept(y, rejected),
    decreases y.len(),
{
    if y.len() == 0 {
        assert(x + y =~= x);
        assert(kept(x, rejected) + seq![] =~= kept(x, rejected));
    } else {
        assert((x + y).drop_last() =~= x + y.drop_last());
        assert((x + y).last() == y.last());
        lemma_kept_append(x, y.drop_last(), rejected);
        if accepted(y.last(), rejected) {
            assert((kept(x, rejected) + kept(y.drop_last(), rejected)).push(y.last()) =~= kept(
                x,
                rejected,
            ) + kept(y.drop_last(), rejected).push(y.last()));
        }
    }
}

/// A single setting is kept exactly when it passes the number check.
pub proof fn lemma_kept_single(s: Setting<Seq<char>>, rejected: Seq<Seq<char>>)
    ensures
        kept(seq![s], rejected) == (if accepted(s, rejected) {
            seq![s]
        } else {
            seq![]
        }),
{
    let e = Seq::<Setting<Seq<char>>>::empty();
    assert(seq![s].drop_last() =~= e);
    assert(seq![s].last() == s);
    assert(kept(e, rejected) == e);
    assert(e.push(s) =~= seq![s]);
}

/// Text without a newline is one piece.
pub proof fn lemma_one_line(l: Seq<char>)
    requires
        !has_char(l, '\n'),
    ensures
        lines(l) == seq![l],
    decreases l.len(),
{
    if l.len() > 0 {
        assert(!has_char(l.drop_last(), '\n')) by {
            if has_char(l.drop_last(), '\n') {
                let i = choose|i: int| 0 <= i < l.drop_last().len() && l.drop_last()[i] == '\n';
                assert(l[i] == '\n');
            }
        }
        lemma_one_line(l.drop_last());
        assert(l.last() != '\n') by {
            assert(l[l.len() - 1] == l.last());
        }
        assert(l.drop_last().push(l.last()) =~= l);
        let p = lines(l.drop_last());
        assert(p.len() == 1);
        assert(p.last() == l.drop_last());
        assert(p.last().push(l.last()) == l);
        assert(lines(l) == p.update(p.len() - 1, p.last().push(l.last())));
        assert(p.update(0, l) =~= seq![l]);
    } else {
        assert(l =~= Seq::<char>::empty());
    }
}

/// The settings of a single piece are those of its line.
pub proof fn lemma_config_lines_one(l: Seq<char>)
    ensures
        config_lines(seq![l]) == (match config_line(l) {
            Some(s) => seq![s],
            None => Seq::<Setting<Seq<char>>>::empty(),
        }),
{
    let e = Seq::<Seq<char>>::empty();
    assert(seq![l].drop_last() =~= e);
    assert(seq![l].last() == l);
    assert(config_lines(e) == Seq::<Setting<Seq<char>>>::empty());
    match config_line(l) {
        Some(s) => {
            assert(Seq::<Setting<Seq<char>>>::empty().push(s) =~= seq![s]);
        },
        None => {},
    }
}

/// A config line that gives no setting, or one whose value is not a number,
/// is skipped on its own: the options read with it between two texts are
/// those read from the two texts alone, whatever the command line.
pub proof fn lemma_rejected_line_skipped(
    a: Seq<char>,
    l: Seq<char>,
    b: Seq<char>,
    argv: Seq<Seq<char>>,
    rejected: Seq<Seq<char>>,
)
    requires
        !has_char(l, '\n'),
        match config_line(l) {
            Some(s) => !accepted(s, rejected),
            None => true,
        },
    ensures
        read_options_spec(a.push('\n') + (l.push('\n') + b), argv, rejected) == read_options_spec(
            a.push('\n') + b,
            argv,
            rejected,
        ),
{
    lemma_config_lines_stand_alone(a, l.push('\n') + b);
    lemma_config_lines_stand_alone(l, b);
    lemma_config_lines_stand_alone(a, b);
    lemma_one_line(l);
    lemma_config_lines_one(l);
    let cl = config_settings(l);
    assert(cl == config_lines(seq![l]));
    assert(kept(cl, rejected) =~= Seq::<Setting<Seq<char>>>::empty()) by {
        match config_line(l) {
            Some(s) => {
                assert(cl == seq![s]);
                lemma_kept_single(s, rejected);
            },
            None => {
                assert(cl =~= Seq::<Setting<Seq<char>>>::empty());
            },
        }
    }
    let ca = config_settings(a);
    let cb = config_settings(b);
    lemma_kept_append(ca, cl + cb, rejected);
    lemma_kept_append(cl, cb, rejected);
    lemma_kept_append(ca, cb, rejected);
    assert(kept(cl, rejected) + kept(cb, rejected) =~= kept(cb, rejected));
}

/// A config line whose setting passes the number check is applied whatever
/// lines before or after it were rejected: its setting is kept between the
/// settings kept from the text before and the text after it.
pub proof fn lemma_accepted_line_kept(
    a: Seq<char>,
    l: Seq<char>,
    b: Seq<char>,
    s: Setting<Seq<char>>,
    rejected: Seq<Seq<char>>,
)
    requires
        !has_char(l, '\n'),
        config_line(l) == Some(s),
        accepted(s, rejected),
    ensures
        kept(config_settings(a.push('\n') + (l.push('\n') + b)), rejected) == kept(
            config_settings(a),
            rejected,
        ) + seq![s] + kept(config_settings(b), rejected),
{
    lemma_config_lines_stand_alone(a, l.push('\n') + b);
    lemma_config_lines_stand_alone(l, b);
    lemma_one_line(l);
    lemma_config_lines_one(l);
    let cl = config_settings(l);
    assert(cl == config_lines(seq![l]));
    assert(cl == seq![s]);
    lemma_kept_single(s, rejected);
    let ca = config_settings(a);
    let cb = config_settings(b);
    lemma_kept_append(ca, cl + cb, rejected);
    lemma_kept_append(cl, cb, rejected);
    assert(kept(ca, rejected) + (seq![s] + kept(cb, rejected)) =~= kept(ca, rejected) + seq![s]
        + kept(cb, rejected));
}

/// Applying two runs of settings is applying the first, then the second.
pub proof fn lemma_apply_settings_append(
    a: Args<Seq<char>>,
    x: Seq<Setting<Seq<char>>>,
    y: Seq<Setting<Seq<char>>>,
)
    ensures
        apply_settings(a, x + y) == apply_settings(apply_settings(a, x), y),
    decreases y.len(),
{
    if y.len() == 0 {
        assert(x + y =~= x);
    } else {
        assert((x + y).drop_last() =~= x + y.drop_last());
        assert((x + y).last() == y.last());
        lemma_apply_settings_append(a, x, y.drop_last());
    }
}

/// `--no-kbd` on the command line disables keyboard handling, whatever the
/// config file says and whatever valid arguments follow it (no flag turns
/// it back on).
pub proof fn lemma_no_kbd_disables(
    config: Seq<char>,
    rest: Seq<Seq<char>>,
    rejected: Seq<Seq<char>>,
)
    requires
        cli_checked(cli_spec(rest), rejected) is Ok,
    ensures
        read_options_spec(config, seq!["--no-kbd"@] + rest, rejected) matches Ok(x)
            && !x.kbd_enabled,
{
    lemma_disable_flags(rest);
    let r = cli_spec(rest);
    let ss = r.0;
    let ke = Setting::<Seq<char>>::KbdEnabled(false);
    let all = seq![ke] + ss;
    assert(all_accepted(ss, rejected));
    assert forall|i: int| 0 <= i < all.len() implies accepted(#[trigger] all[i], rejected) by {
        if i > 0 {
            assert(all[i] == ss[i - 1]);
        }
    }
    lemma_no_enable_flag(rest);
    let base = apply_settings(default_args(), kept(config_settings(config), rejected));
    lemma_apply_settings_append(base, seq![ke], ss);
    assert(seq![ke].drop_last() =~= Seq::<Setting<Seq<char>>>::empty());
    lemma_kbd_stays_off(apply_settings(base, seq![ke]), ss);
}

/// No command-line flag enables keyboard handling.
pub proof fn lemma_no_enable_flag(args: Seq<Seq<char>>)
    ensures
        forall|i: int|
            0 <= i < cli_spec(args).0.len() ==> #[trigger] cli_spec(args).0[i]
                != Setting::<Seq<char>>::KbdEnabled(true),
    decreases args.len(),
{
    if args.len() > 0 {
        let r = cli_spec(args);
        let a0 = args[0];
        let tail = if flag_of(a0) is Value {
            args.skip(2)
        } else {
            args.drop_first()
        };
        if args.len() >= 2 || !(flag_of(a0) is Value) {
            lemma_no_enable_flag(tail);
        }
        match flag_of(a0) {
            Flag::NoKbd | Flag::NoNudge | Flag::Verbose => {
                assert forall|i: int| 0 <= i < r.0.len() implies #[trigger] r.0[i]
                    != Setting::<Seq<char>>::KbdEnabled(true) by {
                    if i > 0 {
                        assert(r.0[i] == cli_spec(tail).0[i - 1]);
                    }
                }
            },
            Flag::Value(f) => {
                if args.len() >= 2 {
                    match value_setting(f, args[1]) {
                        Some(x) => {
                            assert forall|i: int| 0 <= i < r.0.len() implies #[trigger] r.0[i]
                                != Setting::<Seq<char>>::KbdEnabled(true) by {
                                if i > 0 {
                                    assert(r.0[i] == cli_spec(tail).0[i - 1]);
                                }
                            }
                        },
                        None => {},
                    }
                }
            },
            _ => {},
        }
    }
}

/// Keyboard handling, once disabled, stays disabled through settings that
/// never enable it.
pub proof fn lemma_kbd_stays_off(a: Args<Seq<char>>, ss: Seq<Setting<Seq<char>>>)
    requires
        !a.kbd_enabled,
        forall|i: int| 0 <= i < ss.len() ==> #[trigger] ss[i] != Setting::<Seq<char>>::KbdEnabled(true),
    ensures
        !apply_settings(a, ss).kbd_enabled,
    decreases ss.len(),
{
    if ss.len() > 0 {
        assert forall|i: int| 0 <= i < ss.drop_last().len() implies #[trigger] ss.drop_last()[i]
            != Setting::<Seq<char>>::KbdEnabled(true) by {
            assert(ss.drop_last()[i] == ss[i]);
        }
        lemma_kbd_stays_off(a, ss.drop_last());
        assert(ss[ss.len() - 1] == ss.last());
    }
}

} // verus!
