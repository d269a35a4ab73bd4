//! The frame pump: the loop that polls for shutdown, fetches a frame, hands it
//! to the backend and sleeps out the rest of the frame period.
//!
//! The pump decides; it does not wait, fetch or send. Each call of
//! [`FramePump::step`] takes what happened to the last request and the time,
//! and answers with the next request. The caller owns the display, the
//! backend and the clock.

use crate::backend::BackendKind;
use crate::text::{chars_of, contains_text, find_text};
use crate::video::{ModeView, VideoMode};
use vstd::prelude::*;

verus! {

/// How long one poll of the shutdown signal may wait, in milliseconds.
pub const POLL_INTERVAL_MILLIS: u64 = 10;

/// Number of delivered frames between two rate reports.
pub const REPORT_EVERY: u64 = 60;

/// Nanoseconds in one second.
pub const NANOS_PER_SECOND: u64 = 1_000_000_000;

/// What a poll of the shutdown signal found.
#[derive(Clone, Copy, Debug, PartialEq, Eq, Structural)]
pub enum PollOutcome {
    /// The signal was raised.
    Signaled,
    /// The sender is gone; nobody can raise the signal any more.
    Disconnected,
    /// Nothing came within the poll interval.
    TimedOut,
}

/// What happened to the pump's last request. `F` is the caller's frame.
#[derive(Debug, PartialEq, Eq)]
pub enum Event<F> {
    /// Answer to `Poll`.
    Polled(PollOutcome),
    /// Answer to `Fetch`: the display delivered a frame.
    Fetched(F),
    /// Answer to `Fetch`: the display failed, with this description.
    FetchFailed(String),
    /// Answer to `Dispatch`: the backend took the frame.
    Dispatched,
    /// Answer to `Dispatch`: the backend refused the frame.
    DispatchFailed,
    /// Answer to `Sleep`.
    Slept,
}

/// Delivered frames and the time they took, for the operator's log.
#[derive(Clone, Copy, Debug, PartialEq, Eq, Structural)]
pub struct RateReport {
    /// Frames delivered since the pump started.
    pub frames: u64,
    /// Nanoseconds since the pump started.
    pub elapsed_nanos: u64,
}

/// What the pump asks for next. `F` is the caller's frame.
#[derive(Debug, PartialEq, Eq)]
pub enum Action<F> {
    /// Wait for the shutdown signal, no longer than the timeout.
    Poll { timeout_millis: u64 },
    /// Fetch the next frame from the display.
    Fetch,
    /// Hand this frame to the backend.
    Dispatch(F),
    /// Sleep, and log the report first if there is one.
    Sleep { nanos: u64, report: Option<RateReport> },
    /// Leave the loop, after telling the backend that the stream has ended
    /// if so asked.
    Stop { end_of_stream: bool },
}

/// Which answer the pump is waiting for.
#[derive(Clone, Copy, Debug, PartialEq, Eq, Structural)]
pub enum Phase {
    Polling,
    Fetching,
    Dispatching,
    Sleeping,
    /// Terminal: the pump has left the loop.
    Stopped,
}

/// A pump, as plain values.
pub struct PumpView {
    pub backend: BackendKind,
    /// Length of one frame period.
    pub period_nanos: u64,
    pub phase: Phase,
    /// When the pump started.
    pub started_at: u64,
    /// When the current iteration started.
    pub iteration_at: u64,
    /// Frames delivered so far.
    pub frames: u64,
}

/// The frame pump.
#[derive(Debug)]
pub struct FramePump {
    backend: BackendKind,
    period_nanos: u64,
    phase: Phase,
    started_at: u64,
    iteration_at: u64,
    frames: u64,
}

/// `later - earlier`, or zero where the clock went backwards.
pub open spec fn elapsed(earlier: u64, later: u64) -> u64 {
    if later >= earlier {
        (later - earlier) as u64
    } else {
        0
    }
}

/// Length of one frame period at `rate` frames per second, rounded down to
/// whole nanoseconds.
pub open spec fn period_of(rate: u32) -> u64 {
    (NANOS_PER_SECOND as int / rate as int) as u64
}

/// Whether the description of a fetch failure says that the source is
/// shutting down: it mentions `Flushing` or `Eos`.
pub open spec fn is_draining(description: Seq<char>) -> bool {
    contains_text(description, "Flushing"@) || contains_text(description, "Eos"@)
}

/// The frames of the `Fetched` events among `inputs`, in order.
pub open spec fn fetched<F>(inputs: Seq<(Event<F>, u64)>) -> Seq<F>
    decreases inputs.len(),
{
    if inputs.len() == 0 {
        seq![]
    } else {
        match inputs.last().0 {
            Event::Fetched(frame) => fetched(inputs.drop_last()).push(frame),
            _ => fetched(inputs.drop_last()),
        }
    }
}

/// The frames of the `Dispatch` actions among `actions`, in order.
pub open spec fn dispatched<F>(actions: Seq<Action<F>>) -> Seq<F>
    decreases actions.len(),
{
    if actions.len() == 0 {
        seq![]
    } else {
        match actions.last() {
            Action::Dispatch(frame) => dispatched(actions.drop_last()).push(frame),
            _ => dispatched(actions.drop_last()),
        }
    }
}

impl RateReport {
    /// The mean frame rate in hundredths of a frame per second, rounded
    /// down; `None` where no time has passed.
    pub open spec fn centihertz_of(self) -> Option<int> {
        if self.elapsed_nanos == 0 {
            None
        } else {
            Some(self.frames * 100 * NANOS_PER_SECOND / self.elapsed_nanos as int)
        }
    }

    /// The mean frame rate in hundredths of a frame per second, rounded
    /// down. `None` where no time has passed or the rate does not fit.
    pub fn centihertz(&self) -> (r: Option<u64>)
        ensures
            r is Some <==> self.centihertz_of() is Some && self.centihertz_of()->0 <= u64::MAX,
            r matches Some(rate) ==> self.centihertz_of() == Some(rate as int),
    {
        if self.elapsed_nanos == 0 {
            return None;
        }
        let scaled: u128 = self.frames as u128 * 100_000_000_000u128;
        let rate: u128 = scaled / self.elapsed_nanos as u128;
        if rate > u64::MAX as u128 {
            None
        } else {
            Some(rate as u64)
        }
    }
}

impl PumpView {
    /// Whether the pump is still in its loop.
    pub open spec fn running(self) -> bool {
        self.phase != Phase::Stopped
    }

    /// How long to sleep at `now` to fill the frame period: the period less
    /// the time this iteration has taken, and nothing where it has taken
    /// longer.
    pub open spec fn pause_at(self, now: u64) -> u64 {
        let spent = elapsed(self.iteration_at, now);
        if self.period_nanos > spent {
            (self.period_nanos - spent) as u64
        } else {
            0
        }
    }

    /// The request to sleep out the period, with an optional report.
    pub open spec fn sleep_action<F>(self, now: u64, report: Option<RateReport>) -> Action<F> {
        Action::Sleep { nanos: self.pause_at(now), report }
    }

    /// The request to leave the loop. Only a streaming backend is sent an
    /// end-of-stream.
    pub open spec fn stop_action<F>(self) -> Action<F> {
        Action::Stop { end_of_stream: self.backend.ends_stream() }
    }

    /// This pump in another phase.
    pub open spec fn in_phase(self, phase: Phase) -> PumpView {
        PumpView { phase, ..self }
    }

    /// The frame count after one more delivered frame. It stops at the
    /// largest number it can hold.
    pub open spec fn counted(self) -> u64 {
        if self.frames < u64::MAX {
            (self.frames + 1) as u64
        } else {
            self.frames
        }
    }

    /// The report due after one more delivered frame at `now`: one for every
    /// sixty frames.
    pub open spec fn report_due(self, now: u64) -> Option<RateReport> {
        if self.counted() % REPORT_EVERY == 0 {
            Some(RateReport { frames: self.counted(), elapsed_nanos: elapsed(self.started_at, now) })
        } else {
            None
        }
    }

    /// The pump and its request after `event` at time `now`, or `None` where
    /// `event` does not answer the outstanding request.
    ///
    /// * A poll that times out leads to a fetch; any other poll outcome
    ///   stops the pump.
    /// * A fetched frame is dispatched, unless the backend is disabled: then
    ///   it is released and the pump sleeps.
    /// * A failed fetch stops the pump if the source is draining; else the
    ///   pump sleeps and tries again in the next iteration.
    /// * After a dispatch the pump sleeps, whether the backend took the frame
    ///   or not; only a taken frame is counted.
    /// * After the sleep a new iteration starts with a poll.
    pub open spec fn next<F>(self, event: Event<F>, now: u64) -> Option<(PumpView, Action<F>)> {
        match (self.phase, event) {
            (Phase::Polling, Event::Polled(PollOutcome::TimedOut)) => Some(
                (self.in_phase(Phase::Fetching), Action::Fetch),
            ),
            (Phase::Polling, Event::Polled(_)) => Some(
                (self.in_phase(Phase::Stopped), self.stop_action()),
            ),
            (Phase::Fetching, Event::Fetched(frame)) => if self.backend.delivers() {
                Some((self.in_phase(Phase::Dispatching), Action::Dispatch(frame)))
            } else {
                Some((self.in_phase(Phase::Sleeping), self.sleep_action(now, None)))
            },
            (Phase::Fetching, Event::FetchFailed(description)) => if is_draining(description@) {
                Some((self.in_phase(Phase::Stopped), self.stop_action()))
            } else {
                Some((self.in_phase(Phase::Sleeping), self.sleep_action(now, None)))
            },
            (Phase::Dispatching, Event::Dispatched) => Some(
                (
                    PumpView { phase: Phase::Sleeping, frames: self.counted(), ..self },
                    self.sleep_action(now, self.report_due(now)),
                ),
            ),
            (Phase::Dispatching, Event::DispatchFailed) => Some(
                (self.in_phase(Phase::Sleeping), self.sleep_action(now, None)),
            ),
            (Phase::Sleeping, Event::Slept) => Some(
                (
                    PumpView { phase: Phase::Polling, iteration_at: now, ..self },
                    Action::Poll { timeout_millis: POLL_INTERVAL_MILLIS },
                ),
            ),
            _ => None,
        }
    }

    /// The pump after `inputs`, each an event and the time it came. An event
    /// that does not answer the outstanding request changes nothing.
    pub open spec fn after_all<F>(self, inputs: Seq<(Event<F>, u64)>) -> PumpView
        decreases inputs.len(),
    {
        if inputs.len() == 0 {
            self
        } else {
            let before = self.after_all(inputs.drop_last());
            match before.next(inputs.last().0, inputs.last().1) {
                Some((pump, _)) => pump,
                None => before,
            }
        }
    }

    /// The requests made in answer to `inputs`, one for each event that
    /// answered the request outstanding when it came.
    pub open spec fn actions<F>(self, inputs: Seq<(Event<F>, u64)>) -> Seq<Action<F>>
        decreases inputs.len(),
    {
        if inputs.len() == 0 {
            seq![]
        } else {
            let before = self.after_all(inputs.drop_last());
            match before.next(inputs.last().0, inputs.last().1) {
                Some((_, action)) => self.actions(inputs.drop_last()).push(action),
                None => self.actions(inputs.drop_last()),
            }
        }
    }

    /// Every one of `inputs` answered the request that was outstanding when
    /// it came.
    pub open spec fn answered_by<F>(self, inputs: Seq<(Event<F>, u64)>) -> bool
        decreases inputs.len(),
    {
        inputs.len() == 0 || {
            &&& self.answered_by(inputs.drop_last())
            &&& self.after_all(inputs.drop_last()).next(inputs.last().0, inputs.last().1) is Some
        }
    }

    /// The pump as it starts at `now`: about to poll, nothing delivered.
    pub open spec fn started(mode: ModeView, backend: BackendKind, now: u64) -> PumpView {
        PumpView {
            backend,
            period_nanos: period_of(mode.rate),
            phase: Phase::Polling,
            started_at: now,
            iteration_at: now,
            frames: 0,
        }
    }
}

impl View for FramePump {
    type V = PumpView;

    closed spec fn view(&self) -> PumpView {
        PumpView {
            backend: self.backend,
            period_nanos: self.period_nanos,
            phase: self.phase,
            started_at: self.started_at,
            iteration_at: self.iteration_at,
            frames: self.frames,
        }
    }
}

/// Length of one frame period at the rate of `mode`, in nanoseconds.
pub fn frame_period_nanos(mode: &VideoMode) -> (r: u64)
    ensures
        r == period_of(mode@.rate),
        r <= NANOS_PER_SECOND,
{
    let rate = mode.rate();
    assert(NANOS_PER_SECOND as int / rate as int <= NANOS_PER_SECOND) by (nonlinear_arith)
        requires
            rate >= 1,
    ;
    NANOS_PER_SECOND / rate as u64
}

/// Whether the description of a fetch failure says that the source is
/// shutting down.
pub fn draining(description: &str) -> (r: bool)
    ensures
        r == is_draining(description@),
{
    let text = chars_of(description);
    let flushing = chars_of("Flushing");
    let eos = chars_of("Eos");
    find_text(text.as_slice(), flushing.as_slice()) || find_text(text.as_slice(), eos.as_slice())
}

impl FramePump {
    /// Starts a pump at time `now_nanos`. The first request is a poll of the
    /// shutdown signal.
    pub fn start<F>(mode: &VideoMode, backend: BackendKind, now_nanos: u64) -> (r: (
        FramePump,
        Action<F>,
    ))
        ensures
            r.0@ == PumpView::started(mode@, backend, now_nanos),
            r.1 == (Action::<F>::Poll { timeout_millis: POLL_INTERVAL_MILLIS }),
    {
        let pump = FramePump {
            backend,
            period_nanos: frame_period_nanos(mode),
            phase: Phase::Polling,
            started_at: now_nanos,
            iteration_at: now_nanos,
            frames: 0,
        };
        (pump, Action::Poll { timeout_millis: POLL_INTERVAL_MILLIS })
    }

    /// Which answer the pump is waiting for.
    pub fn phase(&self) -> (r: Phase)
        ensures
            r == self@.phase,
    {
        self.phase
    }

    /// Whether the pump is still in its loop.
    pub fn is_running(&self) -> (r: bool)
        ensures
            r == self@.running(),
    {
        match self.phase {
            Phase::Stopped => false,
            _ => true,
        }
    }

    /// Frames delivered so far.
    pub fn frames(&self) -> (r: u64)
        ensures
            r == self@.frames,
    {
        self.frames
    }

    /// Length of one frame period, in nanoseconds.
    pub fn period_nanos(&self) -> (r: u64)
        ensures
            r == self@.period_nanos,
    {
        self.period_nanos
    }

    fn stop<F>(&mut self) -> (r: Action<F>)
        ensures
            final(self)@ == old(self)@.in_phase(Phase::Stopped),
            r == old(self)@.stop_action::<F>(),
    {
        self.phase = Phase::Stopped;
        Action::Stop { end_of_stream: self.backend.is_ending_stream() }
    }

    fn pause<F>(&mut self, now_nanos: u64, report: Option<RateReport>) -> (r: Action<F>)
        ensures
            final(self)@ == old(self)@.in_phase(Phase::Sleeping),
            r == old(self)@.sleep_action::<F>(now_nanos, report),
    {
        let spent: u64 = if now_nanos >= self.iteration_at {
            now_nanos - self.iteration_at
        } else {
            0
        };
        let nanos: u64 = if self.period_nanos > spent {
            self.period_nanos - spent
        } else {
            0
        };
        self.phase = Phase::Sleeping;
        Action::Sleep { nanos, report }
    }

    fn count(&mut self, now_nanos: u64) -> (r: Option<RateReport>)
        ensures
            final(self)@ == (PumpView { frames: old(self)@.counted(), ..old(self)@ }),
            r == old(self)@.report_due(now_nanos),
    {
        if self.frames < u64::MAX {
            self.frames = self.frames + 1;
        }
        if self.frames % REPORT_EVERY == 0 {
            let elapsed_nanos: u64 = if now_nanos >= self.started_at {
                now_nanos - self.started_at
            } else {
                0
            };
            Some(RateReport { frames: self.frames, elapsed_nanos })
        } else {
            None
        }
    }

    /// Takes the answer to the outstanding request and the time, and says
    /// what to do next.
    ///
    /// Returns `None`, and changes nothing, exactly when `event` does not
    /// answer the outstanding request; a stopped pump accepts no event.
    pub fn step<F>(&mut self, event: Event<F>, now_nanos: u64) -> (r: Option<Action<F>>)
        ensures
            match old(self)@.next(event, now_nanos) {
                Some((pump, action)) => final(self)@ == pump && r == Some(action),
                None => final(self)@ == old(self)@ && r is None,
            },
    {
        match self.phase {
            Phase::Polling => match event {
                Event::Polled(PollOutcome::TimedOut) => {
                    self.phase = Phase::Fetching;
                    Some(Action::Fetch)
                },
                Event::Polled(_) => Some(self.stop()),
                _ => None,
            },
            Phase::Fetching => match event {
                Event::Fetched(frame) => {
                    if self.backend.is_delivering() {
                        self.phase = Phase::Dispatching;
                        Some(Action::Dispatch(frame))
                    } else {
                        Some(self.pause(now_nanos, None))
                    }
                },
                Event::FetchFailed(description) => {
                    if draining(description.as_str()) {
                        Some(self.stop())
                    } else {
                        Some(self.pause(now_nanos, None))
                    }
                },
                _ => None,
            },
            Phase::Dispatching => match event {
                Event::Dispatched => {
                    let ghost before = self@;
                    let report = self.count(now_nanos);
                    let action = self.pause(now_nanos, report);
                    assert(action == before.sleep_action::<F>(now_nanos, report));
                    Some(action)
                },
                Event::DispatchFailed => Some(self.pause(now_nanos, None)),
                _ => None,
            },
            Phase::Sleeping => match event {
                Event::Slept => {
                    self.phase = Phase::Polling;
                    self.iteration_at = now_nanos;
                    Some(Action::Poll { timeout_millis: POLL_INTERVAL_MILLIS })
                },
                _ => None,
            },
            Phase::Stopped => None,
        }
    }
}

/// Shutdown is obeyed at the next poll: a pump that polls and finds the
/// signal raised, or its sender gone, stops on the spot. It asks for an
/// end-of-stream exactly when it feeds a streaming backend, and it never waits
/// for the signal longer than the poll interval.
pub proof fn shutdown_stops_pump<F>(pump: PumpView, outcome: PollOutcome, now: u64)
    requires
        pump.phase == Phase::Polling,
        outcome != PollOutcome::TimedOut,
    ensures
        pump.next(Event::<F>::Polled(outcome), now) == Some(
            (
                pump.in_phase(Phase::Stopped),
                Action::<F>::Stop { end_of_stream: pump.backend == BackendKind::Streaming },
            ),
        ),
        pump.next(Event::<F>::Slept, now) is None,
{
}

/// A stopped pump stays stopped: it accepts no event and makes no request,
/// whatever it is told and however often the signal is raised again.
pub proof fn stopped_pump_is_final<F>(pump: PumpView, inputs: Seq<(Event<F>, u64)>)
    requires
        pump.phase == Phase::Stopped,
    ensures
        pump.after_all(inputs) == pump,
        pump.actions(inputs) == Seq::<Action<F>>::empty(),
    decreases inputs.len(),
{
    if inputs.len() > 0 {
        stopped_pump_is_final(pump, inputs.drop_last());
    }
}

/// Whatever happens, a pump keeps its backend and its frame period.
pub proof fn pump_keeps_its_backend<F>(pump: PumpView, inputs: Seq<(Event<F>, u64)>)
    ensures
        pump.after_all(inputs).backend == pump.backend,
        pump.after_all(inputs).period_nanos == pump.period_nanos,
    decreases inputs.len(),
{
    if inputs.len() > 0 {
        pump_keeps_its_backend(pump, inputs.drop_last());
    }
}

/// Frames leave in the order they came, each exactly once. In a run in which
/// every event answers the request before it, the frames handed out for
/// dispatch are the frames that were fetched, in the same order, none left
/// out and none repeated. With the disabled backend no frame is handed out.
pub proof fn frames_dispatched_in_order<F>(pump: PumpView, inputs: Seq<(Event<F>, u64)>)
    requires
        pump.answered_by(inputs),
    ensures
        pump.backend.delivers() ==> dispatched(pump.actions(inputs)) == fetched(inputs),
        !pump.backend.delivers() ==> dispatched(pump.actions(inputs)) == Seq::<F>::empty(),
    decreases inputs.len(),
{
    if inputs.len() > 0 {
        let front = inputs.drop_last();
        frames_dispatched_in_order(pump, front);
        pump_keeps_its_backend(pump, front);
        let before = pump.after_all(front);
        let earlier = pump.actions(front);
        let step = before.next(inputs.last().0, inputs.last().1);
        assert(step is Some);
        let action = step.unwrap().1;
        let all = earlier.push(action);
        assert(pump.actions(inputs) == all);
        assert(all.drop_last() =~= earlier);
        assert(all.last() == action);
    }
}

/// The pump looks for the shutdown signal in every iteration: of any four
/// requests in a row, made in a run in which every event answers the request
/// before it, at least one is a poll or the stop.
pub proof fn every_iteration_polls<F>(pump: PumpView, inputs: Seq<(Event<F>, u64)>)
    requires
        inputs.len() == 4,
        pump.answered_by(inputs),
    ensures
        pump.actions(inputs).len() == 4,
        exists|i: int|
            0 <= i < 4 && (#[trigger] pump.actions(inputs)[i] is Poll || pump.actions(inputs)[i] is Stop),
{
    let upto4 = inputs;
    let upto3 = upto4.drop_last();
    let upto2 = upto3.drop_last();
    let upto1 = upto2.drop_last();
    let upto0 = upto1.drop_last();
    assert(upto0.len() == 0);
    assert(pump.answered_by(upto3) && pump.answered_by(upto2) && pump.answered_by(upto1));
    let state0 = pump.after_all(upto0);
    assert(state0 == pump);
    let state1 = pump.after_all(upto1);
    let state2 = pump.after_all(upto2);
    let state3 = pump.after_all(upto3);
    let act1 = state0.next(upto1.last().0, upto1.last().1).unwrap().1;
    let act2 = state1.next(upto2.last().0, upto2.last().1).unwrap().1;
    let act3 = state2.next(upto3.last().0, upto3.last().1).unwrap().1;
    let act4 = state3.next(upto4.last().0, upto4.last().1).unwrap().1;
    assert(pump.actions(upto0) =~= seq![]);
    assert(pump.actions(upto1) =~= seq![act1]);
    assert(pump.actions(upto2) =~= seq![act1, act2]);
    assert(pump.actions(upto3) =~= seq![act1, act2, act3]);
    assert(pump.actions(upto4) =~= seq![act1, act2, act3, act4]);
    let all = pump.actions(inputs);
    assert(all[0] == act1 && all[1] == act2 && all[2] == act3 && all[3] == act4);
    if act1 is Poll || act1 is Stop {
        assert(all[0] is Poll || all[0] is Stop);
    } else if act2 is Poll || act2 is Stop {
        assert(all[1] is Poll || all[1] is Stop);
    } else if act3 is Poll || act3 is Stop {
        assert(all[2] is Poll || all[2] is Stop);
    } else {
        assert(all[3] is Poll || all[3] is Stop);
    }
}

} // verus!
