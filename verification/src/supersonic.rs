use vstd::prelude::*;

verus! {

/// An object closer than this many centimetres is an intrusion.
pub const INTRUSION_DISTANCE_CM: u64 = 10;

/// Once an intrusion is seen, it lasts until the object is at least this many
/// centimetres further than `INTRUSION_DISTANCE_CM`.
pub const RELEASE_MARGIN_CM: u64 = 2;

/// Time the trigger pin is held low before a measurement, in microseconds.
pub const TRIGGER_SETTLE_US: u64 = 2;

/// Length of the trigger pulse, in microseconds.
pub const TRIGGER_PULSE_US: u64 = 10;

/// Pause between two measurements, in milliseconds.
pub const MEASURE_PERIOD_MS: u64 = 60;

/// Whether an intrusion is under way.
#[derive(Clone, Copy, Debug, PartialEq, Eq, Structural)]
pub enum IntrusionStates {
    Danger,
    Safe,
}

/// Whether an echo of `pulse_us` microseconds comes from an object closer
/// than `cm` centimetres. Sound travels 0.0343 cm per microsecond and the
/// echo covers the distance twice, so the distance is `pulse_us * 343 / 20000`
/// centimetres; the comparison is exact.
pub open spec fn closer_than(pulse_us: int, cm: int) -> bool {
    pulse_us * 343 < cm * 20000
}

/// The intrusion state after an echo of `pulse_us` microseconds.
pub open spec fn next_intrusion_state(current: IntrusionStates, pulse_us: int) -> IntrusionStates {
    if closer_than(pulse_us, INTRUSION_DISTANCE_CM as int) || (current == IntrusionStates::Danger
        && closer_than(pulse_us, (INTRUSION_DISTANCE_CM + RELEASE_MARGIN_CM) as int)) {
        IntrusionStates::Danger
    } else {
        IntrusionStates::Safe
    }
}

/// Whether an echo of `pulse_us` microseconds comes from an object closer
/// than `cm` centimetres.
fn echo_closer_than(pulse_us: u64, cm: u64) -> (res: bool)
    ensures
        res == closer_than(pulse_us as int, cm as int),
{
    (pulse_us as u128) * 343 < (cm as u128) * 20000
}

/// The intrusion state after an echo of `pulse_us` microseconds, with a
/// hysteresis of `RELEASE_MARGIN_CM`.
pub fn intrusion_state_after(current: IntrusionStates, pulse_us: u64) -> (next: IntrusionStates)
    ensures
        next == next_intrusion_state(current, pulse_us as int),
{
    if echo_closer_than(pulse_us, INTRUSION_DISTANCE_CM) || (current == IntrusionStates::Danger
        && echo_closer_than(pulse_us, INTRUSION_DISTANCE_CM + RELEASE_MARGIN_CM)) {
        IntrusionStates::Danger
    } else {
        IntrusionStates::Safe
    }
}

/// What a measurement gives: the echo's length, the new intrusion state, and
/// whether that state differs from the previous one and so must be shared.
#[derive(Clone, Copy, Debug, PartialEq, Eq, Structural)]
pub struct EchoOutcome {
    pub pulse_width_us: u64,
    pub state: IntrusionStates,
    pub state_changed: bool,
}

/// Follows the intrusion state from one measurement to the next.
#[derive(Clone, Copy, Debug, PartialEq, Eq, Structural)]
pub struct IntrusionMonitor {
    pub state: IntrusionStates,
}

impl IntrusionMonitor {
    /// A monitor that starts in the safe state.
    pub fn new() -> (res: IntrusionMonitor)
        ensures
            res.state == IntrusionStates::Safe,
    {
        IntrusionMonitor { state: IntrusionStates::Safe }
    }

    /// Takes in the times, in microseconds, at which the echo pin rose and
    /// fell.
    pub fn on_echo(&mut self, rise_us: u64, fall_us: u64) -> (out: EchoOutcome)
        requires
            rise_us <= fall_us,
        ensures
            out.pulse_width_us == fall_us - rise_us,
            out.state == next_intrusion_state(old(self).state, out.pulse_width_us as int),
            out.state_changed == (out.state != old(self).state),
            final(self).state == out.state,
    {
        let pulse_width_us = fall_us - rise_us;
        let state = intrusion_state_after(self.state, pulse_width_us);
        let state_changed = state != self.state;
        self.state = state;
        EchoOutcome { pulse_width_us, state, state_changed }
    }
}

/// An object closer than `INTRUSION_DISTANCE_CM` is an intrusion whatever
/// the state before; one at `INTRUSION_DISTANCE_CM + RELEASE_MARGIN_CM` or
/// further is none.
pub proof fn lemma_intrusion_thresholds(current: IntrusionStates, pulse_us: int)
    ensures
        closer_than(pulse_us, 10) ==> next_intrusion_state(current, pulse_us)
            == IntrusionStates::Danger,
        !closer_than(pulse_us, 12) ==> next_intrusion_state(current, pulse_us)
            == IntrusionStates::Safe,
{
}

/// Between the two thresholds the state stays what it was: a safe state is
/// entered into danger only below `INTRUSION_DISTANCE_CM`, and danger is left
/// only at `INTRUSION_DISTANCE_CM + RELEASE_MARGIN_CM` or further.
pub proof fn lemma_intrusion_hysteresis(current: IntrusionStates, pulse_us: int)
    ensures
        !closer_than(pulse_us, 10) && closer_than(pulse_us, 12) ==> next_intrusion_state(
            current,
            pulse_us,
        ) == current,
        current == IntrusionStates::Safe && next_intrusion_state(current, pulse_us)
            == IntrusionStates::Danger ==> closer_than(pulse_us, 10),
        current == IntrusionStates::Danger && next_intrusion_state(current, pulse_us)
            == IntrusionStates::Safe ==> !closer_than(pulse_us, 12),
{
}

/// The shared intrusion state, written only when a measurement changes the
/// state, stays equal to the monitor's state: if it held the state before
/// the measurement, it holds the new one after.
pub proof fn lemma_shared_state_follows(current: IntrusionStates, shared: IntrusionStates, pulse_us: int)
    requires
        shared == current,
    ensures
        (if next_intrusion_state(current, pulse_us) != current {
            next_intrusion_state(current, pulse_us)
        } else {
            shared
        }) == next_intrusion_state(current, pulse_us),
{
}

/// The intrusion decision on the echo length itself. With the distance
/// `pulse_us * 0.0343 / 2` centimetres: an echo from closer than 10 cm
/// (`pulse_us * 343 < 200000`) is an intrusion whatever the state before;
/// one from 12 cm or further (`pulse_us * 343 >= 240000`) is none; in
/// between the state stays what it was.
pub proof fn lemma_intrusion_by_echo_length(current: IntrusionStates, pulse_us: int)
    requires
        0 <= pulse_us,
    ensures
        pulse_us * 343 < 200000 ==> next_intrusion_state(current, pulse_us)
            == IntrusionStates::Danger,
        pulse_us * 343 >= 240000 ==> next_intrusion_state(current, pulse_us)
            == IntrusionStates::Safe,
        200000 <= pulse_us * 343 < 240000 ==> next_intrusion_state(current, pulse_us) == current,
        pulse_us <= 583 ==> next_intrusion_state(current, pulse_us) == IntrusionStates::Danger,
        pulse_us >= 700 ==> next_intrusion_state(current, pulse_us) == IntrusionStates::Safe,
        584 <= pulse_us <= 699 ==> next_intrusion_state(current, pulse_us) == current,
{
}

/// What a measurement reports, on the echo times themselves: the echo
/// length is `fall_us - rise_us`, a length of 700 us or more (12 cm or
/// further) always ends in the safe state, one of 583 us or less (under
/// 10 cm) always in danger, and the state is reported as changed exactly
/// when it differs from the one before.
pub proof fn lemma_echo_outcome(
    before: IntrusionMonitor,
    after: IntrusionMonitor,
    rise_us: u64,
    fall_us: u64,
    out: EchoOutcome,
)
    requires
        rise_us <= fall_us,
        out.pulse_width_us == fall_us - rise_us,
        out.state == next_intrusion_state(before.state, out.pulse_width_us as int),
        out.state_changed == (out.state != before.state),
        after.state == out.state,
    ensures
        out.pulse_width_us as int == fall_us as int - rise_us as int,
        fall_us as int - rise_us as int >= 700 ==> after.state == IntrusionStates::Safe
            && out.state_changed == (before.state == IntrusionStates::Danger),
        fall_us as int - rise_us as int <= 583 ==> after.state == IntrusionStates::Danger
            && out.state_changed == (before.state == IntrusionStates::Safe),
        584 <= fall_us as int - rise_us as int <= 699 ==> after.state == before.state
            && !out.state_changed,
{
    lemma_intrusion_by_echo_length(before.state, out.pulse_width_us as int);
}

/// The same echo measured again leaves the state where the first one put it.
pub proof fn lemma_intrusion_stable(current: IntrusionStates, pulse_us: int)
    ensures
        next_intrusion_state(next_intrusion_state(current, pulse_us), pulse_us)
            == next_intrusion_state(current, pulse_us),
{
}

} // verus!
