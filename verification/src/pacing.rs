//! The cadence of the analysis loop, in whole microseconds.
//!
//! The loop is tied to the nominal sample rate: one cycle per transform's
//! worth of samples. It neither measures nor corrects drift between the
//! capture device's clock and the wall clock. Reading the clock, sleeping,
//! transforming and locking are the caller's business; what to do next is
//! decided here.

use vstd::prelude::*;

verus! {

/// How long before the next cycle is due the loop wakes, in microseconds.
/// Sleeps may overshoot, and waking late is worse than waking early and
/// polling the clock.
pub const EARLY_WAKE_US: u64 = 2_000;

/// The time that `fft_size` samples take to arrive at `sample_rate` samples
/// per second, in microseconds, rounded to the nearest whole number (halves
/// up).
pub open spec fn spec_frame_interval_us(fft_size: nat, sample_rate: nat) -> nat
    recommends
        sample_rate > 0,
{
    (2 * fft_size * 1_000_000 + sample_rate) / (2 * sample_rate)
}

/// The rounded interval is within half a microsecond of the exact one:
/// `interval * sample_rate` differs from `fft_size * 1_000_000` by at most
/// half of `sample_rate`.
pub proof fn lemma_frame_interval_is_nearest(fft_size: nat, sample_rate: nat)
    requires
        sample_rate > 0,
    ensures
        2 * fft_size * 1_000_000 - sample_rate < 2 * sample_rate * spec_frame_interval_us(
            fft_size,
            sample_rate,
        ) <= 2 * fft_size * 1_000_000 + sample_rate,
{
    let n = (2 * fft_size * 1_000_000 + sample_rate) as int;
    let d = (2 * sample_rate) as int;
    vstd::arithmetic::div_mod::lemma_fundamental_div_mod(n, d);
    vstd::arithmetic::div_mod::lemma_mod_bound(n, d);
}

/// The expected time between two cycles of the analysis, or `None` where the
/// sample rate is zero or the interval does not fit 64 bits.
pub fn frame_interval_us(fft_size: usize, sample_rate: u32) -> (interval: Option<u64>)
    ensures
        match interval {
            Some(us) => sample_rate > 0 && us == spec_frame_interval_us(
                fft_size as nat,
                sample_rate as nat,
            ),
            None => sample_rate == 0 || spec_frame_interval_us(fft_size as nat, sample_rate as nat)
                > u64::MAX,
        },
{
    if sample_rate == 0 {
        return None;
    }
    let doubled: u128 = 2 * (fft_size as u128) * 1_000_000 + sample_rate as u128;
    let rounded: u128 = doubled / (2 * sample_rate as u128);
    if rounded > u64::MAX as u128 {
        None
    } else {
        Some(rounded as u64)
    }
}

/// How long the loop may sleep after a cycle that took `spent_us`: the rest
/// of the interval less the early-wake margin, and nothing once that is used
/// up.
pub open spec fn spec_sleep_budget_us(interval_us: nat, spent_us: nat) -> nat {
    if interval_us >= spent_us + EARLY_WAKE_US {
        (interval_us - spent_us - EARLY_WAKE_US) as nat
    } else {
        0
    }
}

/// Whether the next cycle is due: more than the interval has passed since the
/// last one began.
pub fn frame_due(elapsed_us: u128, interval_us: u64) -> (due: bool)
    ensures
        due == (elapsed_us > interval_us),
{
    elapsed_us > interval_us as u128
}

/// The time to sleep until shortly before the next cycle is due. A cycle
/// that overran gets no sleep; the subtraction never wraps.
pub fn sleep_budget_us(interval_us: u64, spent_us: u128) -> (budget: u64)
    ensures
        budget == spec_sleep_budget_us(interval_us as nat, spent_us as nat),
        budget <= interval_us,
{
    if spent_us >= interval_us as u128 {
        return 0;
    }
    let rest: u64 = interval_us - spent_us as u64;
    if rest >= EARLY_WAKE_US {
        rest - EARLY_WAKE_US
    } else {
        0
    }
}

/// Where the analysis loop stands within its cycle.
#[derive(Clone, Copy, Debug, PartialEq, Eq, Structural)]
pub enum Phase {
    /// Polling the clock until the next cycle is due.
    Idle,
    /// Taking one transform's worth of samples out of the queue.
    Draining,
    /// Running the transform. The texture is not locked.
    Transforming,
    /// Holding the texture's lock and writing the new row.
    Publishing,
    /// Sleeping until shortly before the next cycle.
    Sleeping,
}

/// What the caller reports back after doing what it was told.
#[derive(Clone, Copy, Debug, PartialEq, Eq, Structural)]
pub enum Event {
    /// The clock was read: so long since the current cycle began.
    Tick { elapsed_us: u128 },
    /// The frame was filled, with or without an underrun.
    Drained { underrun: bool },
    /// The transform is done.
    Transformed,
    /// The row is written and the lock released; the cycle has taken so long.
    Published { spent_us: u128 },
    /// The sleep is over.
    Woke,
}

/// What the caller is to do next.
#[derive(Clone, Copy, Debug, PartialEq, Eq, Structural)]
pub enum Action {
    /// Read the clock and report a `Tick`.
    Poll,
    /// Restart the cycle clock, fill the frame from the queue and window it.
    Drain,
    /// Run the transform, after reporting the underrun if there was one.
    Transform { report_underrun: bool },
    /// Lock the texture, write the new row, unlock.
    Publish,
    /// Sleep for so many microseconds.
    Sleep { micros: u64 },
}

/// The phase that follows `phase` in the cycle.
pub open spec fn successor(phase: Phase) -> Phase {
    match phase {
        Phase::Idle => Phase::Draining,
        Phase::Draining => Phase::Transforming,
        Phase::Transforming => Phase::Publishing,
        Phase::Publishing => Phase::Sleeping,
        Phase::Sleeping => Phase::Idle,
    }
}

/// The transition function of the loop: the next phase and the action, or
/// `None` for an event that does not belong to the phase.
pub open spec fn spec_step(phase: Phase, interval_us: u64, event: Event) -> Option<
    (Phase, Action),
> {
    match (phase, event) {
        (Phase::Idle, Event::Tick { elapsed_us }) => if elapsed_us > interval_us {
            Some((Phase::Draining, Action::Drain))
        } else {
            Some((Phase::Idle, Action::Poll))
        },
        (Phase::Draining, Event::Drained { underrun }) => Some(
            (Phase::Transforming, Action::Transform { report_underrun: underrun }),
        ),
        (Phase::Transforming, Event::Transformed) => Some((Phase::Publishing, Action::Publish)),
        (Phase::Publishing, Event::Published { spent_us }) => Some(
            (
                Phase::Sleeping,
                Action::Sleep {
                    micros: spec_sleep_budget_us(interval_us as nat, spent_us as nat) as u64,
                },
            ),
        ),
        (Phase::Sleeping, Event::Woke) => Some((Phase::Idle, Action::Poll)),
        _ => None,
    }
}

/// The phases follow one another in a fixed ring. An accepted event either
/// moves the loop to the next phase, or, for a tick that comes too early,
/// leaves it idle and polling. So the texture is locked only after the
/// transform is over and is released before the loop sleeps, and a sleep is
/// never longer than the interval.
pub proof fn lemma_phases_in_order(phase: Phase, interval_us: u64, event: Event)
    ensures
        match spec_step(phase, interval_us, event) {
            Some((next, action)) => {
                &&& next == successor(phase) || (phase == Phase::Idle && next == Phase::Idle
                    && action == Action::Poll)
                &&& action == Action::Publish <==> phase == Phase::Transforming
                &&& action is Sleep <==> phase == Phase::Publishing
                &&& action is Sleep ==> action->micros <= interval_us
            },
            None => true,
        },
{
}

/// The analysis loop as a state machine: it is told what happened and
/// answers what to do.
pub struct AnalysisLoop {
    phase: Phase,
    interval_us: u64,
}

impl AnalysisLoop {
    /// Where the loop stands.
    pub closed spec fn spec_phase(&self) -> Phase {
        self.phase
    }

    /// The time between two cycles, in microseconds.
    pub closed spec fn spec_interval_us(&self) -> u64 {
        self.interval_us
    }

    /// An idle loop with the given time between cycles.
    pub fn new(interval_us: u64) -> (machine: Self)
        ensures
            machine.spec_phase() == Phase::Idle,
            machine.spec_interval_us() == interval_us,
    {
        AnalysisLoop { phase: Phase::Idle, interval_us }
    }

    /// Where the loop stands.
    pub fn phase(&self) -> (phase: Phase)
        ensures
            phase == self.spec_phase(),
    {
        self.phase
    }

    /// The time between two cycles, in microseconds.
    pub fn interval_us(&self) -> (interval_us: u64)
        ensures
            interval_us == self.spec_interval_us(),
    {
        self.interval_us
    }

    /// Takes an event and answers with the next action. An event that does
    /// not belong to the current phase is refused with `None` and changes
    /// nothing.
    pub fn step(&mut self, event: Event) -> (action: Option<Action>)
        ensures
            final(self).spec_interval_us() == old(self).spec_interval_us(),
            match spec_step(old(self).spec_phase(), old(self).spec_interval_us(), event) {
                Some((next, act)) => action == Some(act) && final(self).spec_phase() == next,
                None => action.is_none() && final(self).spec_phase() == old(self).spec_phase(),
            },
    {
        match (self.phase, event) {
            (Phase::Idle, Event::Tick { elapsed_us }) => {
                if frame_due(elapsed_us, self.interval_us) {
                    self.phase = Phase::Draining;
                    Some(Action::Drain)
                } else {
                    Some(Action::Poll)
                }
            },
            (Phase::Draining, Event::Drained { underrun }) => {
                self.phase = Phase::Transforming;
                Some(Action::Transform { report_underrun: underrun })
            },
            (Phase::Transforming, Event::Transformed) => {
                self.phase = Phase::Publishing;
                Some(Action::Publish)
            },
            (Phase::Publishing, Event::Published { spent_us }) => {
                self.phase = Phase::Sleeping;
                Some(Action::Sleep { micros: sleep_budget_us(self.interval_us, spent_us) })
            },
            (Phase::Sleeping, Event::Woke) => {
                self.phase = Phase::Idle;
                Some(Action::Poll)
            },
            _ => None,
        }
    }
}

} // verus!
