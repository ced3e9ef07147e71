//! Timed output pulses.
//!
//! Publishers leave requests on an [`OutputBoard`]; the service owner observes
//! them once per generation, starts their deadlines and folds the live ones
//! into the persistent output baseline.  Times are nanoseconds on the service
//! owner's monotonic clock.

use vstd::prelude::*;

use crate::bits::OUTPUT_WORD_BITS;
#[allow(unused_imports)]
use crate::bits::{has_bit, lemma_bit_mask_test, lemma_empty_word_is_neutral, word_of, wrapping_next};

verus! {

/// Reserved request bit marking a pulse that inverts its baseline.
///
/// No CM119 or parallel output mask uses this bit.
pub const TIMED_PULSE_INVERT_BASELINE_BIT: u32 = 0x8000_0000;

/// Nanoseconds in one requested millisecond.
pub const NANOSECONDS_PER_MILLISECOND: u128 = 1_000_000;

/// The instant `duration_milliseconds` after `now`.
pub open spec fn deadline_after(now: u64, duration_milliseconds: u32) -> u128 {
    (now + duration_milliseconds * NANOSECONDS_PER_MILLISECOND) as u128
}

/// Start one deadline; the wider result cannot overflow.
fn start_deadline(now: u64, duration_milliseconds: u32) -> (deadline: u128)
    ensures
        deadline == deadline_after(now, duration_milliseconds),
        deadline == now + duration_milliseconds * 1_000_000,
{
    now as u128 + duration_milliseconds as u128 * NANOSECONDS_PER_MILLISECOND
}

/// One packed pulse request: duration above, inversion flag and mask below.
pub open spec fn timed_request(mask: u32, duration_milliseconds: u32, invert_baseline: bool) -> u64 {
    ((duration_milliseconds as u64) << 32) | (mask as u64) | (if invert_baseline {
        TIMED_PULSE_INVERT_BASELINE_BIT as u64
    } else {
        0u64
    })
}

/// The mask and inversion flag of a packed request.
pub open spec fn request_bits(request: u64) -> u32 {
    request as u32
}

/// The duration of a packed request in milliseconds.
pub open spec fn request_duration(request: u64) -> u32 {
    (request >> 32) as u32
}

/// Service-owner state for one timed output pulse.
#[derive(Clone, Copy, Debug)]
pub struct TimedPulseState {
    /// Last pulse request observed by the service owner.
    pub observed_generation: u64,
    /// Output bits active for the current pulse.
    pub active_pulse_mask: u32,
    /// Whether the active mask XORs rather than ORs its persistent baseline.
    pub pulse_inverts_baseline: bool,
    /// Expiry of the active pulse, if any.
    pub pulse_deadline: Option<u128>,
}

impl TimedPulseState {
    /// A pulse without a deadline has no effect.
    pub open spec fn well_formed(self) -> bool {
        self.pulse_deadline is None ==> self.active_pulse_mask == 0 && !self.pulse_inverts_baseline
    }

    /// The state with no pulse active, having observed `generation`.
    pub open spec fn idle(generation: u64) -> Self {
        TimedPulseState {
            observed_generation: generation,
            active_pulse_mask: 0,
            pulse_inverts_baseline: false,
            pulse_deadline: None,
        }
    }

    /// The state after looking at the newest request.
    pub open spec fn observed(self, now: u64, generation: u64, request: u64) -> Self {
        if generation == self.observed_generation {
            self
        } else if request_duration(request) == 0 {
            Self::idle(generation)
        } else {
            TimedPulseState {
                observed_generation: generation,
                active_pulse_mask: request_bits(request) & !TIMED_PULSE_INVERT_BASELINE_BIT,
                pulse_inverts_baseline: request_bits(request) & TIMED_PULSE_INVERT_BASELINE_BIT
                    != 0,
                pulse_deadline: Some(deadline_after(now, request_duration(request))),
            }
        }
    }

    /// Whether the active pulse has reached its deadline.
    pub open spec fn is_due(self, now: u64) -> bool {
        self.pulse_deadline matches Some(deadline) && now >= deadline
    }

    /// The state once a due pulse has been dropped.
    pub open spec fn expired(self, now: u64) -> Self {
        if self.is_due(now) {
            Self::idle(self.observed_generation)
        } else {
            self
        }
    }

    /// The baseline with the pulse that is live at `now` folded in.
    pub open spec fn output(self, baseline: u32, now: u64) -> u32 {
        let live = self.expired(now);
        if live.pulse_inverts_baseline {
            baseline ^ live.active_pulse_mask
        } else {
            baseline | live.active_pulse_mask
        }
    }

    /// Construct an idle service-owner pulse state.
    pub fn new() -> (state: Self)
        ensures
            state == Self::idle(0),
            state.well_formed(),
    {
        Self {
            observed_generation: 0,
            active_pulse_mask: 0,
            pulse_inverts_baseline: false,
            pulse_deadline: None,
        }
    }

    /// Observe the newest packed request at the service boundary.
    pub fn observe_request(&mut self, now: u64, generation: u64, request: u64)
        ensures
            *final(self) == old(self).observed(now, generation, request),
            old(self).well_formed() ==> final(self).well_formed(),
    {
        if generation == self.observed_generation {
            return;
        }
        self.observed_generation = generation;
        let request_bits: u32 = #[verifier::truncate] (request as u32);
        let duration_milliseconds: u32 = #[verifier::truncate] ((request >> 32) as u32);
        if duration_milliseconds == 0 {
            self.active_pulse_mask = 0;
            self.pulse_inverts_baseline = false;
            self.pulse_deadline = None;
            return;
        }
        self.active_pulse_mask = request_bits & !TIMED_PULSE_INVERT_BASELINE_BIT;
        self.pulse_inverts_baseline = request_bits & TIMED_PULSE_INVERT_BASELINE_BIT != 0;
        self.pulse_deadline = Some(start_deadline(now, duration_milliseconds));
    }

    /// Return the output value after expiring and applying a current pulse.
    pub fn apply_to(&mut self, baseline: u32, now: u64) -> (output: u32)
        ensures
            *final(self) == old(self).expired(now),
            old(self).well_formed() ==> final(self).well_formed(),
            output == old(self).output(baseline, now),
    {
        if let Some(deadline) = self.pulse_deadline {
            if now as u128 >= deadline {
                self.active_pulse_mask = 0;
                self.pulse_inverts_baseline = false;
                self.pulse_deadline = None;
            }
        }
        if self.pulse_inverts_baseline {
            baseline ^ self.active_pulse_mask
        } else {
            baseline | self.active_pulse_mask
        }
    }
}

/// Service-owner state for independently timed baseline-inverting output bits.
#[derive(Clone, Copy, Debug)]
pub struct ScheduledPulseState {
    /// Last observed publication generation for each independently scheduled bit.
    pub observed_generations: [u64; OUTPUT_WORD_BITS],
    /// Per-bit deadlines; `None` means no scheduled inversion.
    pub deadlines: [Option<u128>; OUTPUT_WORD_BITS],
}

/// Whether a bit with this deadline is still inverted at `now`.
pub open spec fn is_live(deadline: Option<u128>, now: u64) -> bool {
    deadline matches Some(instant) && now < instant
}

/// One bit's deadline after looking at its newest publication.
pub open spec fn observed_deadline(
    deadline: Option<u128>,
    observed_generation: u64,
    now: u64,
    duration_milliseconds: u32,
    generation: u64,
) -> Option<u128> {
    if generation == observed_generation {
        deadline
    } else if duration_milliseconds == 0 {
        None
    } else {
        Some(deadline_after(now, duration_milliseconds))
    }
}

/// The word of all bits whose deadline is still ahead of `now`.
pub open spec fn live_word(deadlines: Seq<Option<u128>>, now: u64) -> u32 {
    word_of(|bit: int| is_live(deadlines[bit], now), 32)
}

/// The per-bit schedule as mathematical sequences.
#[verifier::ext_equal]
pub struct ScheduledPulseView {
    /// Generation last seen for each bit.
    pub observed_generations: Seq<u64>,
    /// Deadline of each bit, if it is inverted.
    pub deadlines: Seq<Option<u128>>,
}

impl View for ScheduledPulseState {
    type V = ScheduledPulseView;

    open spec fn view(&self) -> ScheduledPulseView {
        ScheduledPulseView {
            observed_generations: self.observed_generations@,
            deadlines: self.deadlines@,
        }
    }
}

impl ScheduledPulseView {
    /// The schedule with nothing inverted and nothing observed.
    pub open spec fn idle() -> Self {
        ScheduledPulseView {
            observed_generations: Seq::new(32, |bit: int| 0),
            deadlines: Seq::new(32, |bit: int| None),
        }
    }

    /// The schedule after looking at every bit's newest publication.
    pub open spec fn observed(self, now: u64, durations: Seq<u32>, generations: Seq<u64>) -> Self {
        ScheduledPulseView {
            observed_generations: generations,
            deadlines: Seq::new(
                32,
                |bit: int|
                    observed_deadline(
                        self.deadlines[bit],
                        self.observed_generations[bit],
                        now,
                        durations[bit],
                        generations[bit],
                    ),
            ),
        }
    }

    /// The schedule with every expired deadline dropped.
    pub open spec fn expired(self, now: u64) -> Self {
        ScheduledPulseView {
            observed_generations: self.observed_generations,
            deadlines: Seq::new(
                32,
                |bit: int|
                    if is_live(self.deadlines[bit], now) {
                        self.deadlines[bit]
                    } else {
                        None
                    },
            ),
        }
    }

    /// The baseline with every bit that is live at `now` inverted.
    pub open spec fn output(self, baseline: u32, now: u64) -> u32 {
        baseline ^ live_word(self.deadlines, now)
    }
}

impl ScheduledPulseState {
    /// Construct an idle per-bit schedule.
    pub fn new() -> (state: Self)
        ensures
            state@ == ScheduledPulseView::idle(),
    {
        let state = Self {
            observed_generations: [0; OUTPUT_WORD_BITS],
            deadlines: [None; OUTPUT_WORD_BITS],
        };
        assert(state@ =~= ScheduledPulseView::idle());
        state
    }

    /// Apply each independently published schedule or cancellation once.
    ///
    /// Per-bit generations retain separate pin requests that arrive before one
    /// service cycle. A later publication for the same bit deliberately wins.
    pub fn observe_requests(
        &mut self,
        now: u64,
        durations: &[u32; OUTPUT_WORD_BITS],
        generations: &[u64; OUTPUT_WORD_BITS],
    )
        ensures
            final(self)@ == old(self)@.observed(now, durations@, generations@),
    {
        let ghost start = *self;
        let ghost target = start@.observed(now, durations@, generations@).deadlines;
        let mut bit: usize = 0;
        while bit < OUTPUT_WORD_BITS
            invariant
                bit <= 32,
                target == start@.observed(now, durations@, generations@).deadlines,
                forall|index: int|
                    0 <= index < bit ==> #[trigger] self.observed_generations@[index]
                        == generations@[index],
                forall|index: int|
                    0 <= index < bit ==> #[trigger] self.deadlines@[index] == target[index],
                forall|index: int|
                    bit <= index < 32 ==> #[trigger] self.observed_generations@[index]
                        == start.observed_generations@[index],
                forall|index: int|
                    bit <= index < 32 ==> #[trigger] self.deadlines@[index]
                        == start.deadlines@[index],
            decreases 32 - bit,
        {
            let generation: u64 = generations[bit];
            if generation != self.observed_generations[bit] {
                self.observed_generations[bit] = generation;
                let duration_milliseconds: u32 = durations[bit];
                self.deadlines[bit] = if duration_milliseconds != 0 {
                    Some(start_deadline(now, duration_milliseconds))
                } else {
                    None
                };
            }
            bit += 1;
        }
        assert(self@ =~= start@.observed(now, durations@, generations@));
    }

    /// Invert all independently scheduled live bits in one current baseline.
    pub fn apply_to(&mut self, baseline: u32, now: u64) -> (output: u32)
        ensures
            final(self)@ == old(self)@.expired(now),
            output == old(self)@.output(baseline, now),
    {
        let ghost start = *self;
        let ghost live = |bit: int| is_live(start.deadlines@[bit], now);
        let mut active_mask: u32 = 0;
        let mut bit: usize = 0;
        while bit < OUTPUT_WORD_BITS
            invariant
                bit <= 32,
                live == (|index: int| is_live(start.deadlines@[index], now)),
                active_mask == word_of(live, bit as nat),
                self.observed_generations@ == start.observed_generations@,
                forall|index: int|
                    0 <= index < bit ==> #[trigger] self.deadlines@[index] == (if live(index) {
                        start.deadlines@[index]
                    } else {
                        None
                    }),
                forall|index: int|
                    bit <= index < 32 ==> #[trigger] self.deadlines@[index]
                        == start.deadlines@[index],
            decreases 32 - bit,
        {
            let bit_mask: u32 = 1_u32 << (bit as u32);
            if let Some(deadline) = self.deadlines[bit] {
                if now as u128 >= deadline {
                    self.deadlines[bit] = None;
                }
            }
            if self.deadlines[bit].is_some() {
                active_mask = active_mask | bit_mask;
            }
            bit += 1;
        }
        assert(self@ =~= start@.expired(now));
        baseline ^ active_mask
    }
}

/// Publish one packed timed pulse.
///
/// The request and its generation form a pair for the single service owner.
/// Callers validate their mask before using this helper.
pub fn publish_timed_pulse(
    pulse_request: &mut u64,
    pulse_generation: &mut u64,
    mask: u32,
    duration_milliseconds: u32,
    invert_baseline: bool,
)
    requires
        mask & TIMED_PULSE_INVERT_BASELINE_BIT == 0,
    ensures
        *final(pulse_request) == timed_request(mask, duration_milliseconds, invert_baseline),
        *final(pulse_generation) == wrapping_next(*old(pulse_generation)),
{
    let invert_bit: u64 = if invert_baseline {
        TIMED_PULSE_INVERT_BASELINE_BIT as u64
    } else {
        0
    };
    *pulse_request = ((duration_milliseconds as u64) << 32) | (mask as u64) | invert_bit;
    *pulse_generation = pulse_generation.wrapping_add(1);
}

/// Whether a publication for these two masks addresses `bit`.
pub open spec fn addresses_bit(schedule: u32, cancel: u32, bit: int) -> bool {
    has_bit(schedule, bit) || has_bit(cancel, bit)
}

/// Per-bit durations after one publication.
pub open spec fn published_durations(
    durations: Seq<u32>,
    schedule: u32,
    cancel: u32,
    duration: u32,
) -> Seq<u32> {
    Seq::new(
        32,
        |bit: int|
            if has_bit(schedule, bit) {
                duration
            } else if has_bit(cancel, bit) {
                0
            } else {
                durations[bit]
            },
    )
}

/// Per-bit generations after one publication.
pub open spec fn published_generations(generations: Seq<u64>, schedule: u32, cancel: u32) -> Seq<
    u64,
> {
    Seq::new(
        32,
        |bit: int|
            if addresses_bit(schedule, cancel, bit) {
                wrapping_next(generations[bit])
            } else {
                generations[bit]
            },
    )
}

/// Publish selected independent deadlines.
///
/// Each selected pin receives its own publication generation, preserving
/// disjoint requests made before the next service cycle. Callers validate
/// output masks before this helper.
pub fn publish_scheduled_pulse(
    durations: &mut [u32; OUTPUT_WORD_BITS],
    generations: &mut [u64; OUTPUT_WORD_BITS],
    schedule: u32,
    cancel: u32,
    duration: u32,
)
    ensures
        final(durations)@ == published_durations(old(durations)@, schedule, cancel, duration),
        final(generations)@ == published_generations(old(generations)@, schedule, cancel),
{
    let ghost start_durations = durations@;
    let ghost start_generations = generations@;
    let ghost end_durations = published_durations(start_durations, schedule, cancel, duration);
    let ghost end_generations = published_generations(start_generations, schedule, cancel);
    let mut bit: usize = 0;
    while bit < OUTPUT_WORD_BITS
        invariant
            bit <= 32,
            end_durations == published_durations(start_durations, schedule, cancel, duration),
            end_generations == published_generations(start_generations, schedule, cancel),
            forall|index: int|
                0 <= index < bit ==> #[trigger] durations@[index] == end_durations[index],
            forall|index: int|
                0 <= index < bit ==> #[trigger] generations@[index] == end_generations[index],
            forall|index: int|
                bit <= index < 32 ==> #[trigger] durations@[index] == start_durations[index],
            forall|index: int|
                bit <= index < 32 ==> #[trigger] generations@[index] == start_generations[index],
        decreases 32 - bit,
    {
        let bit_mask: u32 = 1_u32 << (bit as u32);
        proof {
            lemma_bit_mask_test(schedule, bit as u32);
            lemma_bit_mask_test(cancel, bit as u32);
        }
        if schedule & bit_mask != 0 || cancel & bit_mask != 0 {
            durations[bit] = if schedule & bit_mask != 0 {
                duration
            } else {
                0
            };
            let generation: u64 = generations[bit];
            generations[bit] = generation.wrapping_add(1);
        }
        bit += 1;
    }
    assert(durations@ =~= end_durations);
    assert(generations@ =~= end_generations);
}

/// Everything that publishers hand to the service owner.
#[derive(Clone, Copy, Debug)]
pub struct OutputBoard {
    /// Latest desired persistent output word.
    pub desired_outputs: u32,
    /// Latest packed timed pulse request.
    pub pulse_request: u64,
    /// Generation paired with `pulse_request`.
    pub pulse_generation: u64,
    /// Per-bit durations for independently expiring baseline-inverting pulses.
    pub scheduled_pulse_durations: [u32; OUTPUT_WORD_BITS],
    /// Per-bit publication generations for independently scheduled pulse bits.
    pub scheduled_pulse_generations: [u64; OUTPUT_WORD_BITS],
}

/// The publications as mathematical sequences.
#[verifier::ext_equal]
pub struct OutputBoardView {
    /// Latest desired persistent output word.
    pub desired_outputs: u32,
    /// Latest packed timed pulse request.
    pub pulse_request: u64,
    /// Generation paired with `pulse_request`.
    pub pulse_generation: u64,
    /// Published duration of each bit.
    pub durations: Seq<u32>,
    /// Publication generation of each bit.
    pub generations: Seq<u64>,
}

impl View for OutputBoard {
    type V = OutputBoardView;

    open spec fn view(&self) -> OutputBoardView {
        OutputBoardView {
            desired_outputs: self.desired_outputs,
            pulse_request: self.pulse_request,
            pulse_generation: self.pulse_generation,
            durations: self.scheduled_pulse_durations@,
            generations: self.scheduled_pulse_generations@,
        }
    }
}

impl OutputBoardView {
    /// The board on which only a persistent output has been published.
    pub open spec fn quiet(desired_outputs: u32) -> Self {
        OutputBoardView {
            desired_outputs,
            pulse_request: 0,
            pulse_generation: 0,
            durations: Seq::new(32, |bit: int| 0),
            generations: Seq::new(32, |bit: int| 0),
        }
    }

    /// The board after a persistent output was published.
    pub open spec fn with_outputs(self, desired_outputs: u32) -> Self {
        OutputBoardView { desired_outputs, ..self }
    }

    /// The board after one timed pulse was published.
    pub open spec fn with_pulse(
        self,
        mask: u32,
        duration_milliseconds: u32,
        invert_baseline: bool,
    ) -> Self {
        OutputBoardView {
            pulse_request: timed_request(mask, duration_milliseconds, invert_baseline),
            pulse_generation: wrapping_next(self.pulse_generation),
            ..self
        }
    }

    /// The board after selected bits were scheduled or cancelled.
    pub open spec fn with_schedule(
        self,
        schedule: u32,
        cancel: u32,
        duration_milliseconds: u32,
    ) -> Self {
        OutputBoardView {
            durations: published_durations(
                self.durations,
                schedule,
                cancel,
                duration_milliseconds,
            ),
            generations: published_generations(self.generations, schedule, cancel),
            ..self
        }
    }

    /// The board after every pulse was cancelled.
    pub open spec fn with_pulses_cancelled(self) -> Self {
        self.with_pulse(0, 0, false).with_schedule(0, u32::MAX, 0)
    }
}

impl OutputBoard {
    /// Construct a board with one persistent output and no pulse.
    pub fn new(desired_outputs: u32) -> (board: Self)
        ensures
            board@ == OutputBoardView::quiet(desired_outputs),
    {
        let board = Self {
            desired_outputs,
            pulse_request: 0,
            pulse_generation: 0,
            scheduled_pulse_durations: [0; OUTPUT_WORD_BITS],
            scheduled_pulse_generations: [0; OUTPUT_WORD_BITS],
        };
        assert(board@ =~= OutputBoardView::quiet(desired_outputs));
        board
    }

    /// Cancel the timed pulse and every scheduled bit.
    pub fn cancel_pulses(&mut self)
        ensures
            final(self)@ == old(self)@.with_pulses_cancelled(),
    {
        proof {
            lemma_empty_word_is_neutral(TIMED_PULSE_INVERT_BASELINE_BIT);
        }
        publish_timed_pulse(&mut self.pulse_request, &mut self.pulse_generation, 0, 0, false);
        publish_scheduled_pulse(
            &mut self.scheduled_pulse_durations,
            &mut self.scheduled_pulse_generations,
            0,
            u32::MAX,
            0,
        );
    }
}

/// Service-owner pulse timing for one device.
#[derive(Clone, Copy, Debug)]
pub struct PulseEngine {
    /// The single timed pulse.
    pub timed: TimedPulseState,
    /// The independently scheduled bits.
    pub scheduled: ScheduledPulseState,
}

/// The pulse timing as mathematical values.
#[verifier::ext_equal]
pub struct PulseEngineView {
    /// The single timed pulse.
    pub timed: TimedPulseState,
    /// The independently scheduled bits.
    pub scheduled: ScheduledPulseView,
}

impl View for PulseEngine {
    type V = PulseEngineView;

    open spec fn view(&self) -> PulseEngineView {
        PulseEngineView { timed: self.timed, scheduled: self.scheduled@ }
    }
}

impl PulseEngineView {
    /// The timing with no pulse active.
    pub open spec fn idle() -> Self {
        PulseEngineView {
            timed: TimedPulseState::idle(0),
            scheduled: ScheduledPulseView::idle(),
        }
    }

    /// The timing after looking at every publication.
    pub open spec fn observed(self, board: OutputBoardView, now: u64) -> Self {
        PulseEngineView {
            timed: self.timed.observed(now, board.pulse_generation, board.pulse_request),
            scheduled: self.scheduled.observed(now, board.durations, board.generations),
        }
    }

    /// The timing after one service cycle: publications observed, due pulses dropped.
    pub open spec fn serviced(self, board: OutputBoardView, now: u64) -> Self {
        let seen = self.observed(board, now);
        PulseEngineView {
            timed: seen.timed.expired(now),
            scheduled: seen.scheduled.expired(now),
        }
    }

    /// The output word that is in effect at `now`.
    pub open spec fn effective(self, board: OutputBoardView, now: u64) -> u32 {
        let seen = self.observed(board, now);
        seen.scheduled.output(seen.timed.output(board.desired_outputs, now), now)
    }
}

impl PulseEngine {
    /// Construct idle pulse timing.
    pub fn new() -> (engine: Self)
        ensures
            engine@ == PulseEngineView::idle(),
    {
        Self { timed: TimedPulseState::new(), scheduled: ScheduledPulseState::new() }
    }

    /// Observe the board and compute the output word in effect at `now`.
    pub fn effective_output(&mut self, board: &OutputBoard, now: u64) -> (output: u32)
        ensures
            final(self)@ == old(self)@.serviced(board@, now),
            output == old(self)@.effective(board@, now),
    {
        self.timed.observe_request(now, board.pulse_generation, board.pulse_request);
        self.scheduled.observe_requests(
            now,
            &board.scheduled_pulse_durations,
            &board.scheduled_pulse_generations,
        );
        let baseline: u32 = self.timed.apply_to(board.desired_outputs, now);
        self.scheduled.apply_to(baseline, now)
    }
}

} // verus!
