//! Trigger and clock detectors: hysteresis state machines that turn a
//! continuous control signal into discrete events, and a fixed-length
//! trigger pulse generator.
use vstd::prelude::*;

verus! {

/// Where a control sample stands against the two hysteresis thresholds.
///
/// `Low` is at or below the release threshold (a quarter), `High` is above
/// the rise threshold (three quarters), `Mid` is everything in between.
#[derive(Debug, Clone, Copy, PartialEq, Eq, Structural)]
pub enum TrigLevel {
    Low,
    Mid,
    High,
}

/// Whether a detector that is `held` (has seen a rise and no release yet)
/// stays held after a sample at `level`.
pub open spec fn held_after(held: bool, level: TrigLevel) -> bool {
    if held {
        level != TrigLevel::Low
    } else {
        level == TrigLevel::High
    }
}

/// Whether a sample at `level` is a rising edge for a detector in state `held`.
pub open spec fn is_rising_edge(held: bool, level: TrigLevel) -> bool {
    !held && level == TrigLevel::High
}

/// How many rising edges a detector starting in state `held` reports over `levels`.
pub open spec fn edge_count(held: bool, levels: Seq<TrigLevel>) -> nat
    decreases levels.len(),
{
    if levels.len() == 0 {
        0
    } else {
        (if is_rising_edge(held, levels[0]) { 1nat } else { 0nat })
            + edge_count(held_after(held, levels[0]), levels.drop_first())
    }
}

/// A signal that never leaves the low band reports no trigger.
pub proof fn lemma_low_signal_never_triggers(held: bool, levels: Seq<TrigLevel>)
    requires
        forall|i: int| 0 <= i < levels.len() ==> levels[i] == TrigLevel::Low,
    ensures
        edge_count(held, levels) == 0,
    decreases levels.len(),
{
    if levels.len() > 0 {
        lemma_low_signal_never_triggers(held_after(held, levels[0]), levels.drop_first());
    }
}

/// Starting released, a signal that rises and then never falls back to the
/// low band reports exactly one trigger: further rises before a release
/// report nothing.
pub proof fn lemma_single_rise_triggers_once(levels: Seq<TrigLevel>)
    requires
        levels.len() > 0,
        levels[0] == TrigLevel::High,
        forall|i: int| 1 <= i < levels.len() ==> levels[i] != TrigLevel::Low,
    ensures
        edge_count(false, levels) == 1,
{
    lemma_held_stays_silent(levels.drop_first());
}

/// A held detector fed no low sample reports nothing.
proof fn lemma_held_stays_silent(levels: Seq<TrigLevel>)
    requires
        forall|i: int| 0 <= i < levels.len() ==> levels[i] != TrigLevel::Low,
    ensures
        edge_count(true, levels) == 0,
    decreases levels.len(),
{
    if levels.len() > 0 {
        lemma_held_stays_silent(levels.drop_first());
    }
}

/// Rising-edge detector with hysteresis.
#[derive(Debug, Clone, Copy)]
pub struct Trigger {
    triggered: bool,
}

impl View for Trigger {
    type V = bool;

    /// Whether the detector is held high.
    closed spec fn view(&self) -> bool {
        self.triggered
    }
}

impl Trigger {
    pub fn new() -> (t: Self)
        ensures
            t@ == false,
    {
        Trigger { triggered: false }
    }

    pub fn reset(&mut self)
        ensures
            final(self)@ == false,
    {
        self.triggered = false;
    }

    /// Reports `true` exactly on a rising edge.
    pub fn check_trigger(&mut self, input: TrigLevel) -> (r: bool)
        ensures
            r == is_rising_edge(old(self)@, input),
            final(self)@ == held_after(old(self)@, input),
    {
        if self.triggered {
            if input == TrigLevel::Low {
                self.triggered = false;
            }
            false
        } else if input == TrigLevel::High {
            self.triggered = true;
            true
        } else {
            false
        }
    }
}

/// The state of a `TriggerSampleClock`: whether it is held, whether a
/// rising edge has been seen since it was made or reset, the last measured
/// period and the samples counted since the last rising edge.
pub struct SampleClockState {
    pub held: bool,
    pub seen_edge: bool,
    pub period: u32,
    pub counter: u32,
}

/// A counter after one more sample, saturating at `u32::MAX`.
pub open spec fn count_up(n: u32) -> u32 {
    if n == u32::MAX {
        n
    } else {
        (n + 1) as u32
    }
}

/// The state a sample clock moves to on a sample at `level`. A rising edge
/// takes the count as the period only when an earlier edge started it.
pub open spec fn sample_clock_next(s: SampleClockState, level: TrigLevel) -> SampleClockState {
    let edge = is_rising_edge(s.held, level);
    SampleClockState {
        held: held_after(s.held, level),
        seen_edge: s.seen_edge || edge,
        period: if edge && s.seen_edge { s.counter } else { s.period },
        counter: count_up(if edge { 0 } else { s.counter }),
    }
}

/// Measures, in samples, the time between the last two rising edges.
///
/// The sample counter saturates at `u32::MAX`.
#[derive(Debug, Clone, Copy)]
pub struct TriggerSampleClock {
    prev_trigger: bool,
    seen_edge: bool,
    clock_samples: u32,
    counter: u32,
}

impl View for TriggerSampleClock {
    type V = SampleClockState;

    closed spec fn view(&self) -> SampleClockState {
        SampleClockState {
            held: self.prev_trigger,
            seen_edge: self.seen_edge,
            period: self.clock_samples,
            counter: self.counter,
        }
    }
}

impl TriggerSampleClock {
    /// A clock that waits for a release before it counts an edge.
    pub fn new() -> (c: Self)
        ensures
            c@ == (SampleClockState { held: true, seen_edge: false, period: 0, counter: 0 }),
    {
        TriggerSampleClock { prev_trigger: true, seen_edge: false, clock_samples: 0, counter: 0 }
    }

    /// Forgets the measured period, the count and the edges seen; the
    /// hysteresis state stays.
    pub fn reset(&mut self)
        ensures
            final(self)@ == (SampleClockState {
                held: old(self)@.held,
                seen_edge: false,
                period: 0,
                counter: 0,
            }),
    {
        self.seen_edge = false;
        self.clock_samples = 0;
        self.counter = 0;
    }

    /// Takes one sample and returns the period between the last two rising
    /// edges (0 until two have been seen).
    pub fn next(&mut self, trigger_in: TrigLevel) -> (r: u32)
        ensures
            final(self)@ == sample_clock_next(old(self)@, trigger_in),
            r == final(self)@.period,
    {
        if self.prev_trigger {
            if trigger_in == TrigLevel::Low {
                self.prev_trigger = false;
            }
        } else if trigger_in == TrigLevel::High {
            self.prev_trigger = true;
            if self.seen_edge {
                self.clock_samples = self.counter;
            }
            self.seen_edge = true;
            self.counter = 0;
        }
        if self.counter < u32::MAX {
            self.counter = self.counter + 1;
        }
        self.clock_samples
    }
}

/// A sample clock reports 0 until it has seen two rising edges since it was
/// made or reset.
pub proof fn lemma_sample_clock_silent_before_second_edge(
    s: SampleClockState,
    levels: Seq<TrigLevel>,
)
    requires
        !s.seen_edge,
        s.period == 0,
        edge_count(s.held, levels) <= 1,
    ensures
        sample_clock_run(s, levels).period == 0,
    decreases levels.len(),
{
    if levels.len() > 0 {
        let t = sample_clock_next(s, levels[0]);
        if is_rising_edge(s.held, levels[0]) {
            lemma_sample_clock_no_edge_keeps_period(t, levels.drop_first());
        } else {
            lemma_sample_clock_silent_before_second_edge(t, levels.drop_first());
        }
    }
}

/// Without a rising edge the reported period does not change.
proof fn lemma_sample_clock_no_edge_keeps_period(s: SampleClockState, levels: Seq<TrigLevel>)
    requires
        edge_count(s.held, levels) == 0,
    ensures
        sample_clock_run(s, levels).period == s.period,
    decreases levels.len(),
{
    if levels.len() > 0 {
        lemma_sample_clock_no_edge_keeps_period(sample_clock_next(s, levels[0]), levels.drop_first());
    }
}

/// The state of a sample clock after each of `levels`, in order.
pub open spec fn sample_clock_run(s: SampleClockState, levels: Seq<TrigLevel>) -> SampleClockState
    decreases levels.len(),
{
    if levels.len() == 0 {
        s
    } else {
        sample_clock_run(sample_clock_next(s, levels[0]), levels.drop_first())
    }
}

/// The edge and period tracking of a phase clock: whether it is held,
/// whether a rising edge has been seen since it was made or reset, and the
/// samples counted since the last rising edge.
pub struct ClockEdgeState {
    pub held: bool,
    pub seen_edge: bool,
    pub counted: u32,
}

/// The period a phase clock in state `s` learns from a sample at `level`:
/// on a rising edge that follows an earlier one, the samples counted since
/// that earlier edge.
pub open spec fn clock_edge_period(s: ClockEdgeState, level: TrigLevel) -> Option<u32> {
    if is_rising_edge(s.held, level) && s.seen_edge {
        Some(s.counted)
    } else {
        None
    }
}

/// The state a phase clock's edge tracker moves to on a sample at `level`.
pub open spec fn clock_edge_next(s: ClockEdgeState, level: TrigLevel) -> ClockEdgeState {
    let edge = is_rising_edge(s.held, level);
    ClockEdgeState {
        held: held_after(s.held, level),
        seen_edge: s.seen_edge || edge,
        counted: count_up(if edge { 0 } else { s.counted }),
    }
}

/// Tracks the trigger edges that drive a phase clock and measures, in
/// samples, the time between two rising edges. The count saturates at
/// `u32::MAX`.
#[derive(Debug, Clone, Copy)]
pub struct ClockEdges {
    prev_trigger: bool,
    seen_edge: bool,
    clock_samples: u32,
}

impl View for ClockEdges {
    type V = ClockEdgeState;

    closed spec fn view(&self) -> ClockEdgeState {
        ClockEdgeState {
            held: self.prev_trigger,
            seen_edge: self.seen_edge,
            counted: self.clock_samples,
        }
    }
}

impl ClockEdges {
    /// A tracker that waits for a release before it counts an edge.
    pub fn new() -> (c: Self)
        ensures
            c@ == (ClockEdgeState { held: true, seen_edge: false, counted: 0 }),
    {
        ClockEdges { prev_trigger: true, seen_edge: false, clock_samples: 0 }
    }

    pub fn reset(&mut self)
        ensures
            final(self)@ == (ClockEdgeState { held: true, seen_edge: false, counted: 0 }),
    {
        self.prev_trigger = true;
        self.seen_edge = false;
        self.clock_samples = 0;
    }

    /// Takes one sample; returns the newly measured period on a rising edge
    /// that follows an earlier one.
    pub fn next(&mut self, trigger_in: TrigLevel) -> (r: Option<u32>)
        ensures
            r == clock_edge_period(old(self)@, trigger_in),
            final(self)@ == clock_edge_next(old(self)@, trigger_in),
    {
        let mut period: Option<u32> = None;
        if self.prev_trigger {
            if trigger_in == TrigLevel::Low {
                self.prev_trigger = false;
            }
        } else if trigger_in == TrigLevel::High {
            self.prev_trigger = true;
            if self.seen_edge {
                period = Some(self.clock_samples);
            }
            self.seen_edge = true;
            self.clock_samples = 0;
        }
        if self.clock_samples < u32::MAX {
            self.clock_samples = self.clock_samples + 1;
        }
        period
    }
}

/// Length of a trigger pulse in milliseconds.
pub const TRIG_SIGNAL_LENGTH_MS: u32 = 2;

/// The default sample rate in Hz.
pub const DEFAULT_SAMPLE_RATE: u32 = 44100;

/// Samples in a trigger pulse at `srate` Hz: the pulse time rounded up to
/// whole samples.
pub open spec fn trig_pulse_len(srate: nat) -> nat {
    let exact: nat = srate * (TRIG_SIGNAL_LENGTH_MS as nat);
    if exact % 1000 == 0 {
        exact / 1000
    } else {
        (exact / 1000 + 1) as nat
    }
}

/// Emits a pulse of a fixed length once triggered.
#[derive(Debug, Clone, Copy)]
pub struct TrigSignal {
    length: u32,
    scount: u32,
}

impl View for TrigSignal {
    /// The pulse length, and the samples of the current pulse still to come.
    type V = (nat, nat);

    closed spec fn view(&self) -> (nat, nat) {
        (self.length as nat, self.scount as nat)
    }
}

impl TrigSignal {
    pub fn new() -> (s: Self)
        ensures
            s@ == (trig_pulse_len(DEFAULT_SAMPLE_RATE as nat), 0nat),
    {
        TrigSignal { length: Self::pulse_len(DEFAULT_SAMPLE_RATE), scount: 0 }
    }

    fn pulse_len(srate: u32) -> (r: u32)
        ensures
            r == trig_pulse_len(srate as nat),
    {
        let exact: u64 = srate as u64 * TRIG_SIGNAL_LENGTH_MS as u64;
        let n: u64 = if exact % 1000 == 0 {
            exact / 1000
        } else {
            exact / 1000 + 1
        };
        n as u32
    }

    pub fn reset(&mut self)
        ensures
            final(self)@ == (old(self)@.0, 0nat),
    {
        self.scount = 0;
    }

    /// Sets the pulse length for `srate` Hz and ends a running pulse.
    pub fn set_sample_rate(&mut self, srate: u32)
        ensures
            final(self)@ == (trig_pulse_len(srate as nat), 0nat),
    {
        self.length = Self::pulse_len(srate);
        self.scount = 0;
    }

    /// Starts a pulse, or restarts the running one.
    pub fn trigger(&mut self)
        ensures
            final(self)@ == (old(self)@.0, old(self)@.0),
    {
        self.scount = self.length;
    }

    /// Whether the pulse is high on this sample.
    pub fn next(&mut self) -> (r: bool)
        ensures
            r == (old(self)@.1 > 0),
            final(self)@ == (old(self)@.0, if r { (old(self)@.1 - 1) as nat } else { 0nat }),
    {
        if self.scount > 0 {
            self.scount = self.scount - 1;
            true
        } else {
            false
        }
    }
}

impl Default for TrigSignal {
    fn default() -> (s: Self)
        ensures
            s@ == (trig_pulse_len(DEFAULT_SAMPLE_RATE as nat), 0nat),
    {
        Self::new()
    }
}

} // verus!
