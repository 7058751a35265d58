//! The keyboard backlight: a Schmitt trigger on the lux, with a dead zone
//! between the "on" and the "off" threshold so that the light does not
//! flap when the room sits near one of them.
use vstd::prelude::*;

verus! {

/// What to do with the companion unit when the keyboard light switches.
#[derive(Debug, Clone, Copy, PartialEq, Eq)]
pub enum ServiceAction {
    /// The room went dark: hand control back to the unit.
    Start,
    /// The room went bright: stop the unit.
    Stop,
}

/// The decision of one tick.
#[derive(Debug, Clone, Copy, PartialEq, Eq)]
pub struct KbdDecision {
    /// Whether the keyboard light should be on.
    pub want_on: bool,
    /// Whether to write the new state (it differs from the known one, or
    /// none is known yet).
    pub switch: bool,
    /// What to do with the companion unit, if there is one and the light switches.
    pub service: Option<ServiceAction>,
    /// Whether to look for stray light: while the policy says "dark", any
    /// light that someone else turned on is turned off again.
    pub check_stray: bool,
}

/// Whether the light should be on: once on, it stays on while the lux is
/// below the "off" threshold; otherwise it goes on at or below the "on"
/// threshold.
pub open spec fn want_on(state: Option<bool>, below_off: bool, at_or_below_on: bool) -> bool {
    match state {
        Some(true) => below_off,
        _ => at_or_below_on,
    }
}

/// The decision of a tick, from the known state of the light (none before
/// the first tick) and the lux compared with the two thresholds:
/// `below_off` is "lux < kbd-off", `at_or_below_on` is "lux <= kbd-on".
pub open spec fn decide(
    state: Option<bool>,
    below_off: bool,
    at_or_below_on: bool,
    has_service: bool,
) -> KbdDecision {
    let w = want_on(state, below_off, at_or_below_on);
    let switch = state != Some(w);
    KbdDecision {
        want_on: w,
        switch,
        service: if switch && has_service {
            Some(
                if w {
                    ServiceAction::Start
                } else {
                    ServiceAction::Stop
                },
            )
        } else {
            None
        },
        check_stray: !w,
    }
}

/// Decides one tick of the keyboard light.
pub fn kbd_decide(state: Option<bool>, below_off: bool, at_or_below_on: bool, has_service: bool) -> (r:
    KbdDecision)
    ensures
        r == decide(state, below_off, at_or_below_on, has_service),
        // The first tick always writes the state.
        state is None ==> r.switch,
        // It goes on only at or below the "on" threshold ...
        r.want_on && state != Some(true) ==> at_or_below_on,
        // ... and off only at or above the "off" threshold.
        !r.want_on && state == Some(true) ==> !below_off,
        // In the dead zone the known state stays.
        state is Some && below_off && !at_or_below_on ==> !r.switch,
        // Stray light is looked for on every tick that wants the light off.
        r.check_stray == !r.want_on,
        // The companion unit is started or stopped only when the light switches.
        r.service is Some <==> (r.switch && has_service),
        r.service == Some(ServiceAction::Start) ==> r.want_on,
        r.service == Some(ServiceAction::Stop) ==> !r.want_on,
{
    let w = match state {
        Some(true) => below_off,
        _ => at_or_below_on,
    };
    let switch = match state {
        Some(s) => s != w,
        None => true,
    };
    let service = if switch && has_service {
        Some(
            if w {
                ServiceAction::Start
            } else {
                ServiceAction::Stop
            },
        )
    } else {
        None
    };
    KbdDecision { want_on: w, switch, service, check_stray: !w }
}

/// The state of the light after a tick.
pub open spec fn next_state(d: KbdDecision) -> Option<bool> {
    Some(d.want_on)
}

/// With a dead zone (every lux at or below "on" is below "off"), a steady
/// reading switches the light at most once: the tick after a decision,
/// on the same reading, switches nothing.
pub proof fn lemma_steady_reading_settles(
    state: Option<bool>,
    below_off: bool,
    at_or_below_on: bool,
    has_service: bool,
)
    requires
        at_or_below_on ==> below_off,
    ensures
        !decide(
            next_state(decide(state, below_off, at_or_below_on, has_service)),
            below_off,
            at_or_below_on,
            has_service,
        ).switch,
{
}

/// The stray-light watchdog runs on every tick whose policy is "dark",
/// whether or not that tick switches the light; it never runs when the
/// policy is "light".
pub proof fn lemma_stray_check_whenever_dark(
    state: Option<bool>,
    below_off: bool,
    at_or_below_on: bool,
    has_service: bool,
)
    ensures
        decide(state, below_off, at_or_below_on, has_service).check_stray == !decide(
            state,
            below_off,
            at_or_below_on,
            has_service,
        ).want_on,
        // A light known off in a bright room: no switch, but the watchdog runs.
        state == Some(false) && !at_or_below_on ==> !decide(
            state,
            below_off,
            at_or_below_on,
            has_service,
        ).switch && decide(state, below_off, at_or_below_on, has_service).check_stray,
{
}

/// Whether stray light must be turned off: the light's brightness was read
/// and is above zero.
pub fn stray_light(brightness: Option<u32>) -> (r: bool)
    ensures
        r == (brightness matches Some(b) && b > 0),
{
    match brightness {
        Some(b) => b > 0,
        None => false,
    }
}

/// The `systemctl --user` verb for a service action.
pub fn service_verb(a: ServiceAction) -> (r: &'static str)
    ensures
        r@ == (match a {
            ServiceAction::Start => "start"@,
            ServiceAction::Stop => "stop"@,
        }),
{
    match a {
        ServiceAction::Start => "start",
        ServiceAction::Stop => "stop",
    }
}

} // verus!
