//! The scheduling decision: once per polling cycle, decide whether socket 1
//! should be on, from the current local date and time and today's sunset.
//!
//! Fixed calendar rules are tried first, in a strict priority order, and the
//! first applicable rule wins; only when every rule declines does the
//! decision fall back to the sunset comparison (on after sunset, off
//! otherwise).

use crate::transmitter::Energenie;
use crate::transmitter::Step;
use crate::transmitter::blocking_ms;
use crate::transmitter::off_code_spec;
use crate::transmitter::on_code_spec;
use crate::transmitter::state_after_send;
use crate::transmitter::transmission_steps;
use vstd::prelude::*;

verus! {

/// 07:00 as seconds since midnight.
pub const AM7_S: u32 = 7 * 3600;

/// 09:00 as seconds since midnight.
pub const AM9_S: u32 = 9 * 3600;

/// 15:00 as seconds since midnight.
pub const PM3_S: u32 = 15 * 3600;

/// 16:00 as seconds since midnight.
pub const PM4_S: u32 = 16 * 3600;

/// 23:00 as seconds since midnight.
pub const PM11_S: u32 = 23 * 3600;

/// Seconds in a day; a time of day is a value strictly below this.
pub const DAY_S: u32 = 24 * 3600;

/// One local instant, reduced to the fields the schedule reads: calendar
/// month and day, day of the week, and the time of day in whole seconds.
#[derive(Clone, Copy, Debug, PartialEq, Eq)]
pub struct Moment {
    /// Calendar month, 1 (January) ..= 12 (December).
    pub month: u8,
    /// Day of the month, 1..=31.
    pub day: u8,
    /// Day of the week, counted from Sunday = 0 to Saturday = 6.
    pub weekday: u8,
    /// Seconds since local midnight, below `DAY_S`.
    pub time: u32,
}

impl Moment {
    /// Every field in its calendar range.
    pub open spec fn valid(self) -> bool {
        &&& 1 <= self.month <= 12
        &&& 1 <= self.day <= 31
        &&& self.weekday <= 6
        &&& self.time < DAY_S
    }
}

/// December 25, the date whose display hours override every other rule.
pub open spec fn is_christmas(m: Moment) -> bool {
    m.day == 25 && m.month == 12
}

/// Monday (1) through Friday (5), counted from Sunday = 0.
pub open spec fn is_weekday(m: Moment) -> bool {
    1 <= m.weekday <= 5
}

/// The fixed-rule cascade, first match wins:
/// on December 25, on strictly between 07:00 and 23:00, otherwise off;
/// else on a weekday, on strictly between 15:00 and 16:00, otherwise off;
/// else (a weekend) off after 23:00 or before 07:00, on before 09:00,
/// and no decision otherwise.
pub open spec fn fixed_state_spec(m: Moment) -> Option<bool> {
    if is_christmas(m) {
        Some(AM7_S < m.time && m.time < PM11_S)
    } else if is_weekday(m) {
        Some(PM3_S < m.time && m.time < PM4_S)
    } else if m.time > PM11_S || m.time < AM7_S {
        Some(false)
    } else if m.time < AM9_S {
        Some(true)
    } else {
        None
    }
}

/// Evaluates the fixed calendar rules on `now`: `Some(state)` forces the
/// socket to `state`, `None` defers to the sunset comparison.
pub fn fixed_state(now: &Moment) -> (forced: Option<bool>)
    ensures
        forced == fixed_state_spec(*now),
{
    let time = now.time;
    if now.day == 25 && now.month == 12 {
        return Some(time > AM7_S && time < PM11_S);
    }
    if 1 <= now.weekday && now.weekday <= 5 {
        return Some(time > PM3_S && time < PM4_S);
    }
    if time > PM11_S || time < AM7_S {
        Some(false)
    } else if time < AM9_S {
        Some(true)
    } else {
        None
    }
}

/// What the whole schedule decides: the forced state where a fixed rule
/// fires, else on exactly when the time of day is strictly after sunset.
pub open spec fn desired_state_spec(m: Moment, sunset_s: u32) -> bool {
    match fixed_state_spec(m) {
        Some(forced) => forced,
        None => m.time > sunset_s,
    }
}

/// Decides whether the socket should be on at `now`, with today's sunset at
/// `sunset_s` seconds since midnight.
pub fn desired_state(now: &Moment, sunset_s: u32) -> (on: bool)
    ensures
        on == desired_state_spec(*now, sunset_s),
{
    match fixed_state(now) {
        Some(forced) => forced,
        None => now.time > sunset_s,
    }
}

/// The code one polling cycle transmits for socket 1: its on-code when the
/// schedule wants the socket on at `m`, its off-code otherwise.
pub open spec fn cycle_code(m: Moment, sunset_s: u32) -> u8 {
    if desired_state_spec(m, sunset_s) {
        on_code_spec(1)
    } else {
        off_code_spec(1)
    }
}

/// One polling cycle: decides whether socket 1 should be on at `now` —
/// fixed rules first, sunset comparison as the fallback — and applies the
/// decision to the transmitter, returning the timed plan to perform on the
/// physical pins.
pub fn run_cycle(lights: &mut Energenie, now: &Moment, sunset_s: u32) -> (steps: Vec<Step>)
    ensures
        *final(lights) == state_after_send(*old(lights), cycle_code(*now, sunset_s)),
        steps@ == transmission_steps(cycle_code(*now, sunset_s)),
        blocking_ms(steps@) == crate::transmitter::SETTLE_MS + crate::transmitter::HOLD_MS,
{
    let on = desired_state(now, sunset_s);
    lights.set_state(1, on)
}

/// Where a fixed rule fires, the decision is the forced state, whatever the
/// sunset: the rule table takes strict precedence over daylight sensing.
pub proof fn lemma_fixed_rule_overrides_sunset(m: Moment, forced: bool, sunset_s: u32)
    requires
        fixed_state_spec(m) == Some(forced),
    ensures
        desired_state_spec(m, sunset_s) == forced,
{
}

/// On December 25 and on weekdays the cascade always decides, so the sunset
/// never influences those days.
pub proof fn lemma_terminal_rules_decide(m: Moment)
    requires
        is_christmas(m) || is_weekday(m),
    ensures
        fixed_state_spec(m) is Some,
        forall|s1: u32, s2: u32| desired_state_spec(m, s1) == desired_state_spec(m, s2),
{
}

} // verus!
