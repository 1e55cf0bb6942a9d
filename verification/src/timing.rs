//! Durations, in milliseconds, that govern the loading scenes.

use vstd::prelude::*;

verus! {

/// Length of the startup scene's fade-in.
pub const STARTUP_FADE_IN_MS: u64 = 500;

/// After the main scene has loaded, the startup scene stays at least this long,
/// so that it does not merely flash on screen.
pub const MIN_SHOW_MS: u64 = 800;

/// Length of the chart loading scene's fade-in.
pub const LOADING_FADE_IN_MS: u64 = 600;

/// Delay between the chart finishing to load and the start of the outro.
pub const BEFORE_MS: u64 = 1000;

/// Length of the outro slide when motion is not reduced.
pub const TRANSITION_MS: u64 = 1400;

/// Pause after the outro before the game scene takes over, when motion is not reduced.
pub const WAIT_MS: u64 = 400;

/// Length of the loading indicator's fade-out during the outro.
pub const INDICATOR_FADE_OUT_MS: u64 = 400;

/// The outro slide length: none when the user prefers reduced motion.
pub open spec fn spec_transition_time(reduced_motion: bool) -> Option<u64> {
    if reduced_motion { None } else { Some(TRANSITION_MS) }
}

/// The pause after the outro: nothing when the user prefers reduced motion.
pub open spec fn spec_wait_time(reduced_motion: bool) -> u64 {
    if reduced_motion { 0 } else { WAIT_MS }
}

/// Length of the outro slide, or `None` when the user prefers reduced motion.
pub fn transition_time(reduced_motion: bool) -> (r: Option<u64>)
    ensures
        r == spec_transition_time(reduced_motion),
{
    if reduced_motion {
        None
    } else {
        Some(TRANSITION_MS)
    }
}

/// Pause between the outro and the hand-over; zero when the user prefers reduced motion.
pub fn wait_time(reduced_motion: bool) -> (r: u64)
    ensures
        r == spec_wait_time(reduced_motion),
{
    if reduced_motion {
        0
    } else {
        WAIT_MS
    }
}

/// Delay before the "Loading..." sweep animation starts.
pub const SWEEP_DELAY_MS: u64 = 300;

/// Length of one sweep of the "Loading..." animation: a 600 ms fill, a 600 ms
/// clear, and a 200 ms pause.
pub const SWEEP_CYCLE_MS: u64 = 1400;

/// Where in its cycle the "Loading..." sweep stands at `now`.
pub open spec fn spec_sweep_phase(now: u64) -> int {
    if now > SWEEP_DELAY_MS { (now - SWEEP_DELAY_MS) % (SWEEP_CYCLE_MS as int) } else { 0 }
}

/// Position of the "Loading..." sweep within its cycle at `now`: zero during
/// the initial delay, then the time since the delay, modulo the cycle.
pub fn sweep_phase(now: u64) -> (r: u64)
    ensures
        r == spec_sweep_phase(now),
        r < SWEEP_CYCLE_MS,
        now <= SWEEP_DELAY_MS ==> r == 0,
        now > SWEEP_DELAY_MS ==> r == (now - SWEEP_DELAY_MS) % (SWEEP_CYCLE_MS as int),
{
    if now > SWEEP_DELAY_MS {
        (now - SWEEP_DELAY_MS) % SWEEP_CYCLE_MS
    } else {
        0
    }
}

/// The outro lasts 1.4 s and the pause after it 0.4 s; with reduced motion
/// there is neither.
pub proof fn law_outro_durations(reduced_motion: bool)
    ensures
        reduced_motion ==> spec_transition_time(reduced_motion) is None && spec_wait_time(reduced_motion)
            == 0,
        !reduced_motion ==> spec_transition_time(reduced_motion) == Some(1400u64) && spec_wait_time(
            reduced_motion,
        ) == 400,
{
}

/// The sweep stands still at the start of its cycle during the delay, then
/// advances with time, one millisecond per millisecond, wrapping around at the
/// end of each 1.4 s cycle.
pub proof fn law_sweep_advances(now: u64)
    ensures
        now <= SWEEP_DELAY_MS ==> spec_sweep_phase(now) == 0,
        now > SWEEP_DELAY_MS ==> spec_sweep_phase(now) == (now - 300) % 1400,
        0 <= spec_sweep_phase(now) < 1400,
        SWEEP_DELAY_MS <= now < u64::MAX ==> spec_sweep_phase((now + 1) as u64) == (spec_sweep_phase(now)
            + 1) % 1400,
{
    if SWEEP_DELAY_MS <= now < u64::MAX {
        let x = now - 300;
        assert((x + 1) % 1400 == (x % 1400 + 1) % 1400) by {
            vstd::arithmetic::div_mod::lemma_add_mod_noop(x, 1, 1400);
        }
    }
}

} // verus!
