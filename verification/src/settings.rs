//! The daemon's options, and the settings that the config file and the
//! command line make to them.
use vstd::prelude::*;
use vstd::string::*;

verus! {

/// The iio directory of the ambient light sensor used when none is given.
pub const SENSOR_DIR: &'static str = "/sys/bus/iio/devices/iio:device0";

/// The backlight device used when none is given.
pub const BACKLIGHT_DEVICE: &'static str = "amdgpu_bl1";

/// The keyboard backlight device used when none is given.
pub const KBD_DEVICE: &'static str = "asus::kbd_backlight";

/// One assignment to one option. `S` is the text type: `String` in running
/// code, `Seq<char>` in specifications. A fractional option (a percentage,
/// a lux level, the smoothing factor) carries the text that gives its value.
#[derive(Debug, Clone, PartialEq, Eq)]
pub enum Setting<S> {
    IntervalMs(u64),
    MinPct(S),
    MaxPct(S),
    MaxLux(S),
    Smooth(S),
    HysteresisPct(S),
    Device(S),
    SensorDir(S),
    KbdOnLux(S),
    KbdOffLux(S),
    KbdDevice(S),
    KbdRawLux(bool),
    KbdService(Option<S>),
    KbdEnabled(bool),
    NudgeEnabled(bool),
    Verbose(bool),
}

/// The text of an optional string.
pub open spec fn opt_view(o: Option<String>) -> Option<Seq<char>> {
    match o {
        Some(s) => Some(s@),
        None => None,
    }
}

impl View for Setting<String> {
    type V = Setting<Seq<char>>;

    open spec fn view(&self) -> Setting<Seq<char>> {
        match self {
            Setting::IntervalMs(n) => Setting::IntervalMs(*n),
            Setting::MinPct(s) => Setting::MinPct(s@),
            Setting::MaxPct(s) => Setting::MaxPct(s@),
            Setting::MaxLux(s) => Setting::MaxLux(s@),
            Setting::Smooth(s) => Setting::Smooth(s@),
            Setting::HysteresisPct(s) => Setting::HysteresisPct(s@),
            Setting::Device(s) => Setting::Device(s@),
            Setting::SensorDir(s) => Setting::SensorDir(s@),
            Setting::KbdOnLux(s) => Setting::KbdOnLux(s@),
            Setting::KbdOffLux(s) => Setting::KbdOffLux(s@),
            Setting::KbdDevice(s) => Setting::KbdDevice(s@),
            Setting::KbdRawLux(b) => Setting::KbdRawLux(*b),
            Setting::KbdService(o) => Setting::KbdService(opt_view(*o)),
            Setting::KbdEnabled(b) => Setting::KbdEnabled(*b),
            Setting::NudgeEnabled(b) => Setting::NudgeEnabled(*b),
            Setting::Verbose(b) => Setting::Verbose(*b),
        }
    }
}

/// The views of a sequence of settings.
pub open spec fn setting_views(v: Seq<Setting<String>>) -> Seq<Setting<Seq<char>>> {
    v.map_values(|x: Setting<String>| x@)
}

/// All options of the daemon. A fractional option is held as the decimal
/// text that gives its value.
#[derive(Debug, Clone, PartialEq, Eq)]
pub struct Args<S> {
    pub interval_ms: u64,
    pub min_pct: S,
    pub max_pct: S,
    pub max_lux: S,
    pub smooth: S,
    pub hysteresis_pct: S,
    pub device: S,
    pub sensor_dir: S,
    pub kbd_enabled: bool,
    pub kbd_on_lux: S,
    pub kbd_off_lux: S,
    pub kbd_device: S,
    /// Keyboard decisions follow the raw lux rather than the smoothed one.
    pub kbd_raw_lux: bool,
    /// A companion unit stopped when the room is bright and started when dark.
    pub kbd_service: Option<S>,
    pub nudge_enabled: bool,
    pub verbose: bool,
}

impl View for Args<String> {
    type V = Args<Seq<char>>;

    open spec fn view(&self) -> Args<Seq<char>> {
        Args {
            interval_ms: self.interval_ms,
            min_pct: self.min_pct@,
            max_pct: self.max_pct@,
            max_lux: self.max_lux@,
            smooth: self.smooth@,
            hysteresis_pct: self.hysteresis_pct@,
            device: self.device@,
            sensor_dir: self.sensor_dir@,
            kbd_enabled: self.kbd_enabled,
            kbd_on_lux: self.kbd_on_lux@,
            kbd_off_lux: self.kbd_off_lux@,
            kbd_device: self.kbd_device@,
            kbd_raw_lux: self.kbd_raw_lux,
            kbd_service: opt_view(self.kbd_service),
            nudge_enabled: self.nudge_enabled,
            verbose: self.verbose,
        }
    }
}

/// The options before the config file and the command line are read.
pub open spec fn default_args() -> Args<Seq<char>> {
    Args {
        interval_ms: 1000,
        min_pct: "10"@,
        max_pct: "100"@,
        max_lux: "500"@,
        smooth: "0.2"@,
        hysteresis_pct: "2"@,
        device: BACKLIGHT_DEVICE@,
        sensor_dir: SENSOR_DIR@,
        kbd_enabled: true,
        kbd_on_lux: "0.5"@,
        kbd_off_lux: "2"@,
        kbd_device: KBD_DEVICE@,
        kbd_raw_lux: true,
        kbd_service: None,
        nudge_enabled: true,
        verbose: false,
    }
}

impl Default for Args<String> {
    fn default() -> (r: Self)
        ensures
            r@ == default_args(),
    {
        Args {
            interval_ms: 1000,
            min_pct: String::from_str("10"),
            max_pct: String::from_str("100"),
            max_lux: String::from_str("500"),
            smooth: String::from_str("0.2"),
            hysteresis_pct: String::from_str("2"),
            device: String::from_str(BACKLIGHT_DEVICE),
            sensor_dir: String::from_str(SENSOR_DIR),
            kbd_enabled: true,
            kbd_on_lux: String::from_str("0.5"),
            kbd_off_lux: String::from_str("2"),
            kbd_device: String::from_str(KBD_DEVICE),
            kbd_raw_lux: true,
            kbd_service: None,
            nudge_enabled: true,
            verbose: false,
        }
    }
}

/// The options after one setting: the option it names takes its value,
/// every other option keeps its own.
pub open spec fn apply_setting(a: Args<Seq<char>>, s: Setting<Seq<char>>) -> Args<Seq<char>> {
    match s {
        Setting::IntervalMs(n) => Args { interval_ms: n, ..a },
        Setting::MinPct(v) => Args { min_pct: v, ..a },
        Setting::MaxPct(v) => Args { max_pct: v, ..a },
        Setting::MaxLux(v) => Args { max_lux: v, ..a },
        Setting::Smooth(v) => Args { smooth: v, ..a },
        Setting::HysteresisPct(v) => Args { hysteresis_pct: v, ..a },
        Setting::Device(v) => Args { device: v, ..a },
        Setting::SensorDir(v) => Args { sensor_dir: v, ..a },
        Setting::KbdOnLux(v) => Args { kbd_on_lux: v, ..a },
        Setting::KbdOffLux(v) => Args { kbd_off_lux: v, ..a },
        Setting::KbdDevice(v) => Args { kbd_device: v, ..a },
        Setting::KbdRawLux(b) => Args { kbd_raw_lux: b, ..a },
        Setting::KbdService(o) => Args { kbd_service: o, ..a },
        Setting::KbdEnabled(b) => Args { kbd_enabled: b, ..a },
        Setting::NudgeEnabled(b) => Args { nudge_enabled: b, ..a },
        Setting::Verbose(b) => Args { verbose: b, ..a },
    }
}

/// The options after a sequence of settings, applied first to last.
pub open spec fn apply_settings(a: Args<Seq<char>>, s: Seq<Setting<Seq<char>>>) -> Args<Seq<char>>
    decreases s.len(),
{
    if s.len() == 0 {
        a
    } else {
        apply_setting(apply_settings(a, s.drop_last()), s.last())
    }
}

/// The options, one per field of `Args`.
#[derive(Debug, Clone, Copy, PartialEq, Eq)]
pub enum Opt {
    IntervalMs,
    MinPct,
    MaxPct,
    MaxLux,
    Smooth,
    HysteresisPct,
    Device,
    SensorDir,
    KbdOnLux,
    KbdOffLux,
    KbdDevice,
    KbdRawLux,
    KbdService,
    KbdEnabled,
    NudgeEnabled,
    Verbose,
}

/// The option that a setting assigns.
pub open spec fn option_of(s: Setting<Seq<char>>) -> Opt {
    match s {
        Setting::IntervalMs(_) => Opt::IntervalMs,
        Setting::MinPct(_) => Opt::MinPct,
        Setting::MaxPct(_) => Opt::MaxPct,
        Setting::MaxLux(_) => Opt::MaxLux,
        Setting::Smooth(_) => Opt::Smooth,
        Setting::HysteresisPct(_) => Opt::HysteresisPct,
        Setting::Device(_) => Opt::Device,
        Setting::SensorDir(_) => Opt::SensorDir,
        Setting::KbdOnLux(_) => Opt::KbdOnLux,
        Setting::KbdOffLux(_) => Opt::KbdOffLux,
        Setting::KbdDevice(_) => Opt::KbdDevice,
        Setting::KbdRawLux(_) => Opt::KbdRawLux,
        Setting::KbdService(_) => Opt::KbdService,
        Setting::KbdEnabled(_) => Opt::KbdEnabled,
        Setting::NudgeEnabled(_) => Opt::NudgeEnabled,
        Setting::Verbose(_) => Opt::Verbose,
    }
}

/// Whether two option sets give option `o` the same value.
pub open spec fn same_option(a: Args<Seq<char>>, b: Args<Seq<char>>, o: Opt) -> bool {
    match o {
        Opt::IntervalMs => a.interval_ms == b.interval_ms,
        Opt::MinPct => a.min_pct == b.min_pct,
        Opt::MaxPct => a.max_pct == b.max_pct,
        Opt::MaxLux => a.max_lux == b.max_lux,
        Opt::Smooth => a.smooth == b.smooth,
        Opt::HysteresisPct => a.hysteresis_pct == b.hysteresis_pct,
        Opt::Device => a.device == b.device,
        Opt::SensorDir => a.sensor_dir == b.sensor_dir,
        Opt::KbdOnLux => a.kbd_on_lux == b.kbd_on_lux,
        Opt::KbdOffLux => a.kbd_off_lux == b.kbd_off_lux,
        Opt::KbdDevice => a.kbd_device == b.kbd_device,
        Opt::KbdRawLux => a.kbd_raw_lux == b.kbd_raw_lux,
        Opt::KbdService => a.kbd_service == b.kbd_service,
        Opt::KbdEnabled => a.kbd_enabled == b.kbd_enabled,
        Opt::NudgeEnabled => a.nudge_enabled == b.nudge_enabled,
        Opt::Verbose => a.verbose == b.verbose,
    }
}

/// Whether some setting of `us` assigns option `o`.
pub open spec fn sets_option(us: Seq<Setting<Seq<char>>>, o: Opt) -> bool {
    exists|i: int| 0 <= i < us.len() && option_of(#[trigger] us[i]) == o
}

/// Applying a setting gives its option exactly the value the setting
/// carries, whatever the options were.
pub proof fn lemma_setting_sets_its_value(a: Args<Seq<char>>, s: Setting<Seq<char>>)
    ensures
        match s {
            Setting::IntervalMs(n) => apply_setting(a, s).interval_ms == n,
            Setting::MinPct(v) => apply_setting(a, s).min_pct == v,
            Setting::MaxPct(v) => apply_setting(a, s).max_pct == v,
            Setting::MaxLux(v) => apply_setting(a, s).max_lux == v,
            Setting::Smooth(v) => apply_setting(a, s).smooth == v,
            Setting::HysteresisPct(v) => apply_setting(a, s).hysteresis_pct == v,
            Setting::Device(v) => apply_setting(a, s).device == v,
            Setting::SensorDir(v) => apply_setting(a, s).sensor_dir == v,
            Setting::KbdOnLux(v) => apply_setting(a, s).kbd_on_lux == v,
            Setting::KbdOffLux(v) => apply_setting(a, s).kbd_off_lux == v,
            Setting::KbdDevice(v) => apply_setting(a, s).kbd_device == v,
            Setting::KbdRawLux(b) => apply_setting(a, s).kbd_raw_lux == b,
            Setting::KbdService(o) => apply_setting(a, s).kbd_service == o,
            Setting::KbdEnabled(b) => apply_setting(a, s).kbd_enabled == b,
            Setting::NudgeEnabled(b) => apply_setting(a, s).nudge_enabled == b,
            Setting::Verbose(b) => apply_setting(a, s).verbose == b,
        },
{
}

/// Disabling keyboard or nudge handling, or turning on verbose logging,
/// takes effect whatever the options were.
pub proof fn lemma_switches_take_effect(a: Args<Seq<char>>, b: bool)
    ensures
        apply_setting(a, Setting::KbdEnabled(b)).kbd_enabled == b,
        apply_setting(a, Setting::NudgeEnabled(b)).nudge_enabled == b,
        apply_setting(a, Setting::Verbose(b)).verbose == b,
        apply_setting(a, Setting::KbdRawLux(b)).kbd_raw_lux == b,
{
}

/// A setting leaves every option but its own as it was.
pub proof fn lemma_setting_touches_one_option(a: Args<Seq<char>>, s: Setting<Seq<char>>, o: Opt)
    requires
        option_of(s) != o,
    ensures
        same_option(apply_setting(a, s), a, o),
{
}

/// A setting gives its option the same value whatever the options were.
pub proof fn lemma_setting_decides_its_option(
    a: Args<Seq<char>>,
    b: Args<Seq<char>>,
    s: Setting<Seq<char>>,
)
    ensures
        same_option(apply_setting(a, s), apply_setting(b, s), option_of(s)),
{
}

/// Settings leave an option that none of them assigns as it was.
pub proof fn lemma_unset_option_kept(a: Args<Seq<char>>, us: Seq<Setting<Seq<char>>>, o: Opt)
    requires
        !sets_option(us, o),
    ensures
        same_option(apply_settings(a, us), a, o),
    decreases us.len(),
{
    if us.len() > 0 {
        assert(!sets_option(us.drop_last(), o)) by {
            if sets_option(us.drop_last(), o) {
                let i = choose|i: int|
                    0 <= i < us.drop_last().len() && option_of(#[trigger] us.drop_last()[i]) == o;
                assert(us[i] == us.drop_last()[i]);
            }
        }
        assert(option_of(us[us.len() - 1]) != o);
        lemma_unset_option_kept(a, us.drop_last(), o);
        lemma_setting_touches_one_option(apply_settings(a, us.drop_last()), us.last(), o);
    }
}

/// An option that a sequence of settings assigns ends with the same value
/// whatever the options were before them: the last assignment wins.
pub proof fn lemma_last_setting_wins(
    a: Args<Seq<char>>,
    b: Args<Seq<char>>,
    us: Seq<Setting<Seq<char>>>,
    o: Opt,
)
    requires
        sets_option(us, o),
    ensures
        same_option(apply_settings(a, us), apply_settings(b, us), o),
    decreases us.len(),
{
    let last = us.last();
    let aa = apply_settings(a, us.drop_last());
    let bb = apply_settings(b, us.drop_last());
    if option_of(last) == o {
        lemma_setting_decides_its_option(aa, bb, last);
    } else {
        let i = choose|i: int| 0 <= i < us.len() && option_of(#[trigger] us[i]) == o;
        assert(i < us.len() - 1);
        assert(us.drop_last()[i] == us[i]);
        assert(sets_option(us.drop_last(), o));
        lemma_last_setting_wins(a, b, us.drop_last(), o);
        lemma_setting_touches_one_option(aa, last, o);
        lemma_setting_touches_one_option(bb, last, o);
    }
}

/// Command-line flags take precedence over the config file: the daemon
/// applies the file's settings, then the command line's. An option that the
/// command line sets has the command line's value whatever the file said;
/// any other option has the value the file (or the default) gave it.
pub proof fn lemma_command_line_overrides_config(
    base: Args<Seq<char>>,
    config: Seq<Setting<Seq<char>>>,
    cli: Seq<Setting<Seq<char>>>,
    o: Opt,
)
    ensures
        sets_option(cli, o) ==> same_option(
            apply_settings(apply_settings(base, config), cli),
            apply_settings(base, cli),
            o,
        ),
        !sets_option(cli, o) ==> same_option(
            apply_settings(apply_settings(base, config), cli),
            apply_settings(base, config),
            o,
        ),
{
    if sets_option(cli, o) {
        lemma_last_setting_wins(apply_settings(base, config), base, cli, o);
    } else {
        lemma_unset_option_kept(apply_settings(base, config), cli, o);
    }
}

/// A copy of an optional string.
pub fn clone_opt(o: &Option<String>) -> (r: Option<String>)
    ensures
        opt_view(r) == opt_view(*o),
{
    match o {
        Some(s) => Some(s.clone()),
        None => None,
    }
}

impl Args<String> {
    /// Gives the option that `s` names the value that `s` carries.
    pub fn apply(&mut self, s: &Setting<String>)
        ensures
            final(self)@ == apply_setting(old(self)@, s@),
    {
        match s {
            Setting::IntervalMs(n) => self.interval_ms = *n,
            Setting::MinPct(v) => self.min_pct = v.clone(),
            Setting::MaxPct(v) => self.max_pct = v.clone(),
            Setting::MaxLux(v) => self.max_lux = v.clone(),
            Setting::Smooth(v) => self.smooth = v.clone(),
            Setting::HysteresisPct(v) => self.hysteresis_pct = v.clone(),
            Setting::Device(v) => self.device = v.clone(),
            Setting::SensorDir(v) => self.sensor_dir = v.clone(),
            Setting::KbdOnLux(v) => self.kbd_on_lux = v.clone(),
            Setting::KbdOffLux(v) => self.kbd_off_lux = v.clone(),
            Setting::KbdDevice(v) => self.kbd_device = v.clone(),
            Setting::KbdRawLux(b) => self.kbd_raw_lux = *b,
            Setting::KbdService(o) => self.kbd_service = clone_opt(o),
            Setting::KbdEnabled(b) => self.kbd_enabled = *b,
            Setting::NudgeEnabled(b) => self.nudge_enabled = *b,
            Setting::Verbose(b) => self.verbose = *b,
        }
    }

    /// Applies the settings in order, first to last.
    pub fn apply_all(&mut self, settings: &[Setting<String>])
        ensures
            final(self)@ == apply_settings(old(self)@, setting_views(settings@)),
    {
        let n = settings.len();
        let mut i: usize = 0;
        while i < n
            invariant
                n == settings@.len(),
                i <= n,
                self@ == apply_settings(old(self)@, setting_views(settings@.take(i as int))),
            decreases n - i,
        {
            self.apply(&settings[i]);
            assert(setting_views(settings@.take(i + 1)).drop_last() =~= setting_views(
                settings@.take(i as int),
            ));
            i = i + 1;
        }
        assert(settings@.take(n as int) =~= settings@);
    }
}

} // verus!
