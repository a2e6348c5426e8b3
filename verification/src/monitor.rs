//! The change-detection state machine of the price monitor.
//!
//! The monitor itself performs no fetch and no wait. A host runs the loop: it
//! starts the monitor, carries out the action it is handed (wait, then fetch),
//! and feeds the outcome of each fetch back in. Every decision (whether a
//! price counts as changed, whether a failure ends the run, whether to go on)
//! is made here.

use vstd::prelude::*;
use crate::error::PriceError;

verus! {

/// Where a monitor stands in its life.
#[derive(Clone, Copy, Debug, PartialEq, Eq, Structural)]
pub enum Phase {
    /// Built, not yet started.
    Idle,
    /// Started: a fetch is expected, first for the baseline and then once per
    /// tick.
    Polling,
    /// Finished: by an initial failure, by a change under the stop policy, or
    /// by cancellation.
    Terminated,
}

/// What the host has to do next.
#[derive(Clone, Copy, Debug, PartialEq, Eq, Structural)]
pub enum Action {
    /// Wait `delay` seconds, then fetch once and hand the outcome to
    /// [`Monitor::observe`].
    Fetch { delay: u64 },
    /// Nothing: the monitor is not polling.
    Halt,
}

/// The mathematical state of a monitor.
pub struct MonitorState {
    /// Seconds between two ticks.
    pub interval: u64,
    /// Whether the first detected change ends the run.
    pub stop_on_change: bool,
    /// The last price observed, absent until a fetch has succeeded.
    pub previous: Option<Seq<char>>,
    /// The phase.
    pub phase: Phase,
}

/// What one observation amounted to, over mathematical strings.
pub enum Verdict {
    /// The first price of the run.
    Baseline { price: Seq<char> },
    /// The price equals the stored one.
    Unchanged,
    /// The price differs from the stored one.
    Changed { from: Seq<char>, to: Seq<char> },
    /// A tick failed; the stored price stands and polling goes on.
    Failed { error: PriceError },
    /// The baseline could not be established; the run is over.
    Aborted { error: PriceError },
    /// The monitor was not polling; nothing happened.
    Ignored,
}

/// The outcome of one attempt to observe the price, over mathematical strings.
pub type Outcome = Result<Seq<char>, PriceError>;

impl MonitorState {
    /// The state of a monitor that was just built.
    pub open spec fn initial(interval: u64, stop_on_change: bool) -> MonitorState {
        MonitorState { interval, stop_on_change, previous: None, phase: Phase::Idle }
    }

    /// No price is stored before the monitor has started.
    pub open spec fn well_formed(self) -> bool {
        self.phase == Phase::Idle ==> self.previous is None
    }

    /// The state after the host has started the monitor. Only an idle monitor
    /// starts.
    pub open spec fn started(self) -> MonitorState {
        if self.phase == Phase::Idle {
            MonitorState { phase: Phase::Polling, ..self }
        } else {
            self
        }
    }

    /// The state after the host has cancelled the monitor.
    pub open spec fn cancelled(self) -> MonitorState {
        MonitorState { phase: Phase::Terminated, ..self }
    }

    /// The state after one outcome has been observed.
    ///
    /// Outside the polling phase nothing changes. While polling, a price is
    /// stored whenever one arrives; a failure leaves the stored price alone.
    /// The run ends when the baseline fails, or when a price differs from the
    /// stored one under the stop policy.
    pub open spec fn observed(self, outcome: Outcome) -> MonitorState {
        if self.phase != Phase::Polling {
            self
        } else {
            match (self.previous, outcome) {
                (None, Ok(price)) => MonitorState { previous: Some(price), ..self },
                (None, Err(_)) => MonitorState { phase: Phase::Terminated, ..self },
                (Some(stored), Ok(price)) => if price == stored {
                    self
                } else {
                    MonitorState {
                        previous: Some(price),
                        phase: if self.stop_on_change {
                            Phase::Terminated
                        } else {
                            Phase::Polling
                        },
                        ..self
                    }
                },
                (Some(_), Err(_)) => self,
            }
        }
    }

    /// What observing one outcome in this state amounts to.
    pub open spec fn verdict(self, outcome: Outcome) -> Verdict {
        if self.phase != Phase::Polling {
            Verdict::Ignored
        } else {
            match (self.previous, outcome) {
                (None, Ok(price)) => Verdict::Baseline { price },
                (None, Err(error)) => Verdict::Aborted { error },
                (Some(stored), Ok(price)) => if price == stored {
                    Verdict::Unchanged
                } else {
                    Verdict::Changed { from: stored, to: price }
                },
                (Some(_), Err(error)) => Verdict::Failed { error },
            }
        }
    }

    /// What the host has to do in this state: fetch at once for the baseline,
    /// fetch after the interval once a baseline is stored, nothing outside
    /// the polling phase.
    pub open spec fn pending(self) -> Action {
        if self.phase != Phase::Polling {
            Action::Halt
        } else if self.previous is None {
            Action::Fetch { delay: 0 }
        } else {
            Action::Fetch { delay: self.interval }
        }
    }

    /// The state after a sequence of outcomes has been observed in order.
    pub open spec fn observed_all(self, outcomes: Seq<Outcome>) -> MonitorState
        decreases outcomes.len(),
    {
        if outcomes.len() == 0 {
            self
        } else {
            self.observed_all(outcomes.drop_last()).observed(outcomes.last())
        }
    }

    /// The verdicts of a sequence of outcomes observed in order, one each.
    pub open spec fn verdicts(self, outcomes: Seq<Outcome>) -> Seq<Verdict>
        decreases outcomes.len(),
    {
        if outcomes.len() == 0 {
            Seq::empty()
        } else {
            let before = outcomes.drop_last();
            self.verdicts(before).push(self.observed_all(before).verdict(outcomes.last()))
        }
    }
}

/// The mathematical value of one outcome.
pub open spec fn outcome_view(outcome: Result<String, PriceError>) -> Outcome {
    match outcome {
        Ok(price) => Ok(price@),
        Err(error) => Err(error),
    }
}

/// The mathematical values of a recorded run of outcomes.
pub open spec fn outcomes_view(outcomes: Seq<Result<String, PriceError>>) -> Seq<Outcome> {
    outcomes.map_values(|outcome: Result<String, PriceError>| outcome_view(outcome))
}

/// The mathematical values of a list of reports.
pub open spec fn reports_view(reports: Seq<Report>) -> Seq<Verdict> {
    reports.map_values(|report: Report| report@)
}

/// What one observation amounted to.
#[derive(Debug, PartialEq, Eq)]
pub enum Report {
    /// The first price of the run.
    Baseline { price: String },
    /// The price equals the stored one.
    Unchanged,
    /// The price differs from the stored one.
    Changed { from: String, to: String },
    /// A tick failed; the stored price stands and polling goes on.
    Failed { error: PriceError },
    /// The baseline could not be established; the run is over.
    Aborted { error: PriceError },
    /// The monitor was not polling; nothing happened.
    Ignored,
}

impl View for Report {
    type V = Verdict;

    open spec fn view(&self) -> Verdict {
        match self {
            Report::Baseline { price } => Verdict::Baseline { price: price@ },
            Report::Unchanged => Verdict::Unchanged,
            Report::Changed { from, to } => Verdict::Changed { from: from@, to: to@ },
            Report::Failed { error } => Verdict::Failed { error: *error },
            Report::Aborted { error } => Verdict::Aborted { error: *error },
            Report::Ignored => Verdict::Ignored,
        }
    }
}

/// A price monitor: the poll interval, the stop policy, the last price
/// observed and the phase.
pub struct Monitor {
    interval: u64,
    stop_on_change: bool,
    previous: Option<String>,
    phase: Phase,
}

impl View for Monitor {
    type V = MonitorState;

    closed spec fn view(&self) -> MonitorState {
        MonitorState {
            interval: self.interval,
            stop_on_change: self.stop_on_change,
            previous: match self.previous {
                Some(price) => Some(price@),
                None => None,
            },
            phase: self.phase,
        }
    }
}

impl Monitor {
    #[verifier::type_invariant]
    spec fn stores_nothing_while_idle(self) -> bool {
        self.phase == Phase::Idle ==> self.previous is None
    }

    /// Builds an idle monitor with no price stored.
    pub fn new(interval: u64, stop_on_change: bool) -> (monitor: Monitor)
        ensures
            monitor@ == MonitorState::initial(interval, stop_on_change),
    {
        Monitor { interval, stop_on_change, previous: None, phase: Phase::Idle }
    }

    /// Starts an idle monitor and says what to do next; a monitor that was
    /// started or has finished is left as it is.
    pub fn start(&mut self) -> (action: Action)
        ensures
            final(self)@ == old(self)@.started(),
            action == final(self)@.pending(),
    {
        if self.phase == Phase::Idle {
            self.phase = Phase::Polling;
        }
        self.pending()
    }

    /// Ends the run, whatever the phase. The stored price stays readable.
    pub fn cancel(&mut self)
        ensures
            final(self)@ == old(self)@.cancelled(),
    {
        self.phase = Phase::Terminated;
    }

    /// Takes in the outcome of one fetch: decides what it amounts to, updates
    /// the stored price and the phase, and reports the decision.
    pub fn observe(&mut self, outcome: Result<String, PriceError>) -> (report: Report)
        ensures
            final(self)@ == old(self)@.observed(outcome_view(outcome)),
            report@ == old(self)@.verdict(outcome_view(outcome)),
    {
        if self.phase != Phase::Polling {
            return Report::Ignored;
        }
        match outcome {
            Ok(price) => {
                match &self.previous {
                    None => {
                        self.previous = Some(price.clone());
                        Report::Baseline { price }
                    },
                    Some(stored) => {
                        if price == *stored {
                            Report::Unchanged
                        } else {
                            let from = stored.clone();
                            self.previous = Some(price.clone());
                            if self.stop_on_change {
                                self.phase = Phase::Terminated;
                            }
                            Report::Changed { from, to: price }
                        }
                    },
                }
            },
            Err(error) => {
                if self.previous.is_none() {
                    self.phase = Phase::Terminated;
                    Report::Aborted { error }
                } else {
                    Report::Failed { error }
                }
            },
        }
    }

    /// Takes in a recorded run of outcomes, in order, as
    /// [`Monitor::observe`] takes in each, and reports on each.
    pub fn observe_all(&mut self, outcomes: &Vec<Result<String, PriceError>>) -> (reports: Vec<
        Report,
    >)
        ensures
            final(self)@ == old(self)@.observed_all(outcomes_view(outcomes@)),
            reports_view(reports@) == old(self)@.verdicts(outcomes_view(outcomes@)),
    {
        let ghost run = outcomes_view(outcomes@);
        let mut reports: Vec<Report> = Vec::new();
        let mut i: usize = 0;
        assert(run.take(0).len() == 0);
        while i < outcomes.len()
            invariant
                i <= outcomes.len(),
                run == outcomes_view(outcomes@),
                self@ == old(self)@.observed_all(run.take(i as int)),
                reports_view(reports@) =~= old(self)@.verdicts(run.take(i as int)),
            decreases outcomes.len() - i,
        {
            let outcome = match &outcomes[i] {
                Ok(price) => Ok(price.clone()),
                Err(error) => Err(*error),
            };
            assert(outcome_view(outcome) == run[i as int]);
            let ghost before = reports@;
            let report = self.observe(outcome);
            reports.push(report);
            proof {
                let longer = run.take(i + 1);
                assert(longer.drop_last() =~= run.take(i as int));
                assert(longer.last() == run[i as int]);
                assert(reports_view(reports@) =~= reports_view(before).push(report@));
            }
            i = i + 1;
        }
        assert(run.take(i as int) =~= run);
        reports
    }

    /// Seconds between two ticks.
    pub fn interval(&self) -> (seconds: u64)
        ensures
            seconds == self@.interval,
    {
        self.interval
    }

    /// Whether the first detected change ends the run.
    pub fn stop_on_change(&self) -> (stop: bool)
        ensures
            stop == self@.stop_on_change,
    {
        self.stop_on_change
    }

    /// The phase. Every monitor is well formed: while idle it stores no price.
    pub fn phase(&self) -> (phase: Phase)
        ensures
            phase == self@.phase,
            self@.well_formed(),
    {
        proof {
            use_type_invariant(self);
        }
        self.phase
    }

    /// The last price observed, if any.
    pub fn previous_price(&self) -> (price: Option<&String>)
        ensures
            match price {
                Some(p) => self@.previous == Some(p@),
                None => self@.previous is None,
            },
    {
        self.previous.as_ref()
    }

    /// What the host has to do next.
    pub fn pending(&self) -> (action: Action)
        ensures
            action == self@.pending(),
    {
        if self.phase != Phase::Polling {
            Action::Halt
        } else if self.previous.is_none() {
            Action::Fetch { delay: 0 }
        } else {
            Action::Fetch { delay: self.interval }
        }
    }
}

/// Starting, observing and cancelling keep a state well formed.
pub proof fn lemma_steps_keep_well_formed(s: MonitorState, outcome: Outcome)
    requires
        s.well_formed(),
    ensures
        s.started().well_formed(),
        s.observed(outcome).well_formed(),
        s.cancelled().well_formed(),
{
}

/// No step changes the interval or the stop policy.
pub proof fn lemma_configuration_is_fixed(s: MonitorState, outcome: Outcome)
    ensures
        s.started().interval == s.interval && s.started().stop_on_change == s.stop_on_change,
        s.cancelled().interval == s.interval && s.cancelled().stop_on_change == s.stop_on_change,
        s.observed(outcome).interval == s.interval && s.observed(outcome).stop_on_change
            == s.stop_on_change,
{
}

/// A failure never touches the stored price, in any phase; neither does
/// starting or cancelling.
pub proof fn lemma_failure_never_overwrites(s: MonitorState, error: PriceError)
    ensures
        s.observed(Err(error)).previous == s.previous,
        s.started().previous == s.previous,
        s.cancelled().previous == s.previous,
{
}

/// A run yields one verdict per outcome.
pub proof fn lemma_one_verdict_each(s: MonitorState, outcomes: Seq<Outcome>)
    ensures
        s.verdicts(outcomes).len() == outcomes.len(),
    decreases outcomes.len(),
{
    if outcomes.len() > 0 {
        lemma_one_verdict_each(s, outcomes.drop_last());
    }
}

/// Outside the polling phase an outcome changes nothing and is reported as
/// ignored; in particular a finished monitor stays finished.
pub proof fn lemma_only_polling_observes(s: MonitorState, outcome: Outcome)
    requires
        s.phase != Phase::Polling,
    ensures
        s.observed(outcome) == s,
        s.verdict(outcome) == Verdict::Ignored,
        s.pending() == Action::Halt,
{
}

/// Three prices in a row, of which the first two agree and the third differs,
/// fed to a freshly started monitor: the first is the baseline, the first
/// tick reports no change and polling goes on, the second tick reports the
/// change and stores the third price. Under the stop policy the run ends at
/// that second tick; otherwise polling goes on.
pub proof fn lemma_change_found_at_second_tick(
    interval: u64,
    stop_on_change: bool,
    first: Seq<char>,
    second: Seq<char>,
    third: Seq<char>,
)
    requires
        first == second,
        second != third,
    ensures
        ({
            let fresh = MonitorState::initial(interval, stop_on_change).started();
            let outcomes = seq![Ok::<Seq<char>, PriceError>(first), Ok(second), Ok(third)];
            let after_one_tick = fresh.observed_all(outcomes.take(2));
            let after_two_ticks = fresh.observed_all(outcomes);
            &&& fresh.verdicts(outcomes) == seq![
                Verdict::Baseline { price: first },
                Verdict::Unchanged,
                Verdict::Changed { from: second, to: third },
            ]
            &&& after_one_tick.phase == Phase::Polling
            &&& after_one_tick.previous == Some(first)
            &&& after_two_ticks.previous == Some(third)
            &&& after_two_ticks.phase == if stop_on_change {
                Phase::Terminated
            } else {
                Phase::Polling
            }
            &&& after_two_ticks.pending() == if stop_on_change {
                Action::Halt
            } else {
                Action::Fetch { delay: interval }
            }
        }),
{
    let fresh = MonitorState::initial(interval, stop_on_change).started();
    let outcomes = seq![Ok::<Seq<char>, PriceError>(first), Ok(second), Ok(third)];
    let two = outcomes.take(2);
    let one = two.drop_last();
    assert(one.drop_last().len() == 0);
    assert(outcomes.drop_last() == two);
    reveal_with_fuel(MonitorState::observed_all, 4);
    reveal_with_fuel(MonitorState::verdicts, 4);
    assert(fresh.observed_all(one) == fresh.observed(Ok(first)));
    assert(fresh.verdicts(outcomes) =~= seq![
        Verdict::Baseline { price: first },
        Verdict::Unchanged,
        Verdict::Changed { from: second, to: third },
    ]);
}

/// A tick that fails once a baseline is stored changes nothing: the stored
/// price stands, polling goes on after the usual interval, and the next
/// price is judged against the price from before the failure.
pub proof fn lemma_failed_tick_changes_nothing(s: MonitorState, error: PriceError, next: Seq<char>)
    requires
        s.phase == Phase::Polling,
        s.previous is Some,
    ensures
        s.verdict(Err(error)) == (Verdict::Failed { error }),
        s.observed(Err(error)) == s,
        s.observed(Err(error)).pending() == (Action::Fetch { delay: s.interval }),
        s.observed(Err(error)).verdict(Ok(next)) == s.verdict(Ok(next)),
        s.observed(Err(error)).observed(Ok(next)) == s.observed(Ok(next)),
{
}

/// However often the stored price arrives again, and under either policy,
/// no change is reported, the state stays as it is, and polling goes on.
pub proof fn lemma_same_price_never_reported(s: MonitorState, outcomes: Seq<Outcome>)
    requires
        s.phase == Phase::Polling,
        s.previous is Some,
        forall|i: int| 0 <= i < outcomes.len() ==> #[trigger] outcomes[i] == Ok::<Seq<char>, PriceError>(s.previous->0),
    ensures
        s.observed_all(outcomes) == s,
        s.verdicts(outcomes).len() == outcomes.len(),
        forall|i: int| 0 <= i < outcomes.len() ==> #[trigger] s.verdicts(outcomes)[i] == Verdict::Unchanged,
    decreases outcomes.len(),
{
    if outcomes.len() > 0 {
        let before = outcomes.drop_last();
        lemma_same_price_never_reported(s, before);
        assert(outcomes.last() == outcomes[outcomes.len() - 1]);
    }
}

} // verus!
