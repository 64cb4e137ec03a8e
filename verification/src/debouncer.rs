//! Debouncing of a button line.
//!
//! A mechanical contact bounces: one press shows up as a burst of edges. The
//! debouncer notes the level of the line, waits for an edge, lets the line
//! settle for a fixed time and looks again. If the level is the one it began
//! with, the edge was noise and the round starts over; otherwise the new
//! level is reported.
//!
//! The debouncer does not touch the line or the clock. It says what it needs
//! next ([`Debouncer::request`]) and is told the outcome
//! ([`Debouncer::debounce`]).

use vstd::prelude::*;
use crate::event::Level;

verus! {

/// Settle time used for the buttons, in milliseconds.
pub const BUTTON_SETTLE_MS: u64 = 20;

/// Where the debouncer stands in a round. From the second step on it carries
/// the level noted at the start of the round.
#[derive(Clone, Copy, Debug, PartialEq, Eq, Structural)]
pub enum DebouncePhase {
    /// About to note the level of the line.
    Sampling,
    /// Waiting for the line to change.
    AwaitingEdge(Level),
    /// Letting the line settle.
    Settling(Level),
    /// About to look at the line again.
    Comparing(Level),
}

/// What the debouncer needs next.
#[derive(Clone, Copy, Debug, PartialEq, Eq, Structural)]
pub enum LineRequest {
    /// Read the level of the line now.
    ReadLevel,
    /// Wait until the line changes level.
    WaitForEdge,
    /// Sleep for the given number of milliseconds.
    Sleep(u64),
}

/// The outcome of a request.
#[derive(Clone, Copy, Debug, PartialEq, Eq, Structural)]
pub enum LineObservation {
    /// The level that was read.
    Level(Level),
    /// The line changed level.
    Edge,
    /// The sleep is over.
    Elapsed,
}

/// Mathematical state of a debouncer.
pub struct DebouncerState {
    pub settle: nat,
    pub phase: DebouncePhase,
}

impl DebouncerState {
    /// The state after `observation`. An observation that does not answer the
    /// current request changes nothing.
    pub open spec fn next(self, observation: LineObservation) -> DebouncerState {
        match (self.phase, observation) {
            (DebouncePhase::Sampling, LineObservation::Level(level)) => DebouncerState {
                phase: DebouncePhase::AwaitingEdge(level),
                ..self
            },
            (DebouncePhase::AwaitingEdge(noted), LineObservation::Edge) => DebouncerState {
                phase: DebouncePhase::Settling(noted),
                ..self
            },
            (DebouncePhase::Settling(noted), LineObservation::Elapsed) => DebouncerState {
                phase: DebouncePhase::Comparing(noted),
                ..self
            },
            (DebouncePhase::Comparing(_), LineObservation::Level(_)) => DebouncerState {
                phase: DebouncePhase::Sampling,
                ..self
            },
            _ => self,
        }
    }

    /// The level reported on `observation`: the level read at the end of a
    /// round, if it differs from the one noted at its start.
    pub open spec fn report(self, observation: LineObservation) -> Option<Level> {
        match (self.phase, observation) {
            (DebouncePhase::Comparing(noted), LineObservation::Level(level)) => if level != noted {
                Some(level)
            } else {
                None
            },
            _ => None,
        }
    }

    /// The request that goes with the current phase.
    pub open spec fn request(self) -> LineRequest {
        match self.phase {
            DebouncePhase::Sampling => LineRequest::ReadLevel,
            DebouncePhase::AwaitingEdge(_) => LineRequest::WaitForEdge,
            DebouncePhase::Settling(_) => LineRequest::Sleep(self.settle as u64),
            DebouncePhase::Comparing(_) => LineRequest::ReadLevel,
        }
    }
}

/// A debouncer for one line.
pub struct Debouncer {
    settle_ms: u64,
    phase: DebouncePhase,
}

impl View for Debouncer {
    type V = DebouncerState;

    closed spec fn view(&self) -> DebouncerState {
        DebouncerState { settle: self.settle_ms as nat, phase: self.phase }
    }
}

impl Debouncer {
    /// A debouncer that lets the line settle for `settle_ms` milliseconds.
    pub fn new(settle_ms: u64) -> (debouncer: Debouncer)
        ensures
            debouncer@ == (DebouncerState {
                settle: settle_ms as nat,
                phase: DebouncePhase::Sampling,
            }),
    {
        Debouncer { settle_ms, phase: DebouncePhase::Sampling }
    }

    /// What the debouncer needs next.
    pub fn request(&self) -> (request: LineRequest)
        ensures
            request == self@.request(),
    {
        match self.phase {
            DebouncePhase::Sampling => LineRequest::ReadLevel,
            DebouncePhase::AwaitingEdge(_) => LineRequest::WaitForEdge,
            DebouncePhase::Settling(_) => LineRequest::Sleep(self.settle_ms),
            DebouncePhase::Comparing(_) => LineRequest::ReadLevel,
        }
    }

    /// Takes the outcome of the last request. Returns the new level once the
    /// line has changed and settled.
    pub fn debounce(&mut self, observation: LineObservation) -> (report: Option<Level>)
        ensures
            final(self)@ == old(self)@.next(observation),
            report == old(self)@.report(observation),
    {
        match (self.phase, observation) {
            (DebouncePhase::Sampling, LineObservation::Level(level)) => {
                self.phase = DebouncePhase::AwaitingEdge(level);
                None
            },
            (DebouncePhase::AwaitingEdge(noted), LineObservation::Edge) => {
                self.phase = DebouncePhase::Settling(noted);
                None
            },
            (DebouncePhase::Settling(noted), LineObservation::Elapsed) => {
                self.phase = DebouncePhase::Comparing(noted);
                None
            },
            (DebouncePhase::Comparing(noted), LineObservation::Level(level)) => {
                self.phase = DebouncePhase::Sampling;
                if level != noted {
                    Some(level)
                } else {
                    None
                }
            },
            _ => None,
        }
    }
}

/// The first moment after `now` at which the line `line` changes level, if
/// it ever does. A line is given by its level at each moment, from 0 on.
pub open spec fn next_edge(line: Seq<Level>, now: int) -> Option<int>
    decreases line.len() - now,
{
    if now < 0 || now + 1 >= line.len() {
        None
    } else if line[now + 1] != line[now] {
        Some(now + 1)
    } else {
        next_edge(line, now + 1)
    }
}

/// The order in which the phases follow each other within one moment.
pub open spec fn phase_rank(phase: DebouncePhase) -> nat {
    match phase {
        DebouncePhase::Settling(_) => 3,
        DebouncePhase::Comparing(_) => 2,
        DebouncePhase::Sampling => 1,
        DebouncePhase::AwaitingEdge(_) => 0,
    }
}

/// What a debouncer in state `debouncer` reports when it is served against
/// the line `line` from the moment `now` on, and when: each request is served
/// as it comes, a read by the level of the line at that moment, a wait by the
/// next edge, a sleep by the passing of the settle time. `None` if the line
/// as far as it is given leads to no report.
pub open spec fn debounced(debouncer: DebouncerState, line: Seq<Level>, now: int) -> Option<
    (Level, int),
>
    decreases line.len() - now, phase_rank(debouncer.phase),
{
    if now < 0 || now >= line.len() {
        None
    } else {
        match debouncer.phase {
            DebouncePhase::Sampling => debounced(
                debouncer.next(LineObservation::Level(line[now])),
                line,
                now,
            ),
            DebouncePhase::AwaitingEdge(_) => match next_edge(line, now) {
                Some(edge) => if now < edge < line.len() {
                    debounced(debouncer.next(LineObservation::Edge), line, edge)
                } else {
                    None
                },
                None => None,
            },
            DebouncePhase::Settling(_) => if now + debouncer.settle < line.len() {
                debounced(debouncer.next(LineObservation::Elapsed), line, now + debouncer.settle)
            } else {
                None
            },
            DebouncePhase::Comparing(_) => match debouncer.report(
                LineObservation::Level(line[now]),
            ) {
                Some(level) => Some((level, now)),
                None => debounced(debouncer.next(LineObservation::Level(line[now])), line, now),
            },
        }
    }
}

/// An edge found by `next_edge` lies after `now`, changes the level, and is
/// the first to do so.
proof fn lemma_next_edge_is_first(line: Seq<Level>, now: int)
    requires
        next_edge(line, now) is Some,
    ensures
        now < next_edge(line, now)->0 < line.len(),
        line[next_edge(line, now)->0] != line[now],
        forall|i: int| now <= i < next_edge(line, now)->0 ==> line[i] == line[now],
    decreases line.len() - now,
{
    if line[now + 1] == line[now] {
        lemma_next_edge_is_first(line, now + 1);
    }
}

/// On a line at rest from `now` until it changes at `edge`, the next edge
/// after `now` is `edge`.
proof fn lemma_next_edge_after_rest(line: Seq<Level>, now: int, edge: int)
    requires
        0 <= now < edge < line.len(),
        forall|i: int| now <= i < edge ==> line[i] == line[now],
        line[edge] != line[now],
    ensures
        next_edge(line, now) == Some(edge),
    decreases edge - now,
{
    if now + 1 < edge {
        assert(line[now + 1] == line[now]);
        lemma_next_edge_after_rest(line, now + 1, edge);
    }
}

/// What holds of a report, whatever the phase the debouncer was in.
proof fn lemma_report_from_any_phase(debouncer: DebouncerState, line: Seq<Level>, now: int)
    requires
        debounced(debouncer, line, now) is Some,
        match debouncer.phase {
            DebouncePhase::Sampling => true,
            DebouncePhase::AwaitingEdge(noted) => line[now] == noted,
            DebouncePhase::Settling(noted) => 1 <= now && line[now - 1] == noted && line[now]
                != noted,
            DebouncePhase::Comparing(noted) => 1 <= now - debouncer.settle && line[now
                - debouncer.settle - 1] == noted && line[now - debouncer.settle] != noted,
        },
    ensures
        ({
            let (level, at) = debounced(debouncer, line, now)->0;
            let edge = at - debouncer.settle;
            &&& 1 <= edge <= at < line.len()
            &&& now <= at
            &&& (debouncer.phase is Sampling || debouncer.phase is AwaitingEdge) ==> now < edge
            &&& debouncer.phase is Settling ==> now <= edge
            &&& debouncer.phase is Comparing ==> now - debouncer.settle <= edge
            &&& line[edge] != line[edge - 1]
            &&& level == line[at]
            &&& level != line[edge - 1]
        }),
    decreases line.len() - now, phase_rank(debouncer.phase),
{
    match debouncer.phase {
        DebouncePhase::Sampling => {
            let armed = debouncer.next(LineObservation::Level(line[now]));
            assert(debounced(debouncer, line, now) == debounced(armed, line, now));
            lemma_report_from_any_phase(armed, line, now);
        },
        DebouncePhase::AwaitingEdge(_) => {
            lemma_next_edge_is_first(line, now);
            let edge = next_edge(line, now)->0;
            assert(line[edge - 1] == line[now]);
            lemma_report_from_any_phase(debouncer.next(LineObservation::Edge), line, edge);
        },
        DebouncePhase::Settling(_) => {
            lemma_report_from_any_phase(
                debouncer.next(LineObservation::Elapsed),
                line,
                now + debouncer.settle,
            );
        },
        DebouncePhase::Comparing(_) => {
            if debouncer.report(LineObservation::Level(line[now])) is None {
                lemma_report_from_any_phase(
                    debouncer.next(LineObservation::Level(line[now])),
                    line,
                    now,
                );
            }
        },
    }
}

/// A report is never made before the line has had its settle time: whenever a
/// debouncer that starts a round at `start` reports, the line changed level
/// at some moment after `start`, exactly one settle time has passed since
/// that edge, and the level reported is the one the line has at the moment of
/// the report, which is not the level it had before that edge.
pub proof fn lemma_report_follows_settled_edge(
    debouncer: DebouncerState,
    line: Seq<Level>,
    start: int,
)
    requires
        debouncer.phase is Sampling,
        debounced(debouncer, line, start) is Some,
    ensures
        ({
            let (level, at) = debounced(debouncer, line, start)->0;
            let edge = at - debouncer.settle;
            &&& start < edge <= at < line.len()
            &&& line[edge] != line[edge - 1]
            &&& level == line[at]
            &&& level != line[edge - 1]
        }),
{
    lemma_report_from_any_phase(debouncer, line, start);
}

/// A burst of edges followed by a quiet line is reported once, as the level
/// the line came to rest at.
///
/// The line rests from `start` until the burst begins at `first`; the burst
/// ends at `last`, no later than one settle time after it began; from `last`
/// on the line keeps its level for a settle time at least, and that level is
/// not the one from before the burst. Then a debouncer that starts a round at
/// `start` reports that level, one settle time after the burst began, which
/// is not before its last edge. For a single edge this is one settle time
/// after the edge.
pub proof fn lemma_burst_is_reported_once(
    debouncer: DebouncerState,
    line: Seq<Level>,
    start: int,
    first: int,
    last: int,
)
    requires
        debouncer.phase is Sampling,
        0 <= start < first <= last <= first + debouncer.settle,
        last + debouncer.settle < line.len(),
        forall|i: int| start <= i < first ==> line[i] == line[start],
        line[first] != line[start],
        forall|i: int| last <= i <= last + debouncer.settle ==> line[i] == line[last],
        line[last] != line[start],
    ensures
        debounced(debouncer, line, start) == Some((line[last], first + debouncer.settle)),
{
    lemma_next_edge_after_rest(line, start, first);
    let noted = line[start];
    let armed = debouncer.next(LineObservation::Level(noted));
    let settling = armed.next(LineObservation::Edge);
    let comparing = settling.next(LineObservation::Elapsed);
    let at = first + debouncer.settle;
    assert(line[at] == line[last]);
    assert(debounced(comparing, line, at) == Some((line[last], at)));
    assert(debounced(settling, line, first) == debounced(comparing, line, at));
    assert(debounced(armed, line, start) == debounced(settling, line, first));
    assert(debounced(debouncer, line, start) == debounced(armed, line, start));
}

/// An edge that the line has taken back by the end of the settle time is
/// noise: the round is given up and a new one starts at that moment.
pub proof fn lemma_noise_is_discarded(
    debouncer: DebouncerState,
    line: Seq<Level>,
    start: int,
    edge: int,
)
    requires
        debouncer.phase is Sampling,
        0 <= start < edge,
        edge + debouncer.settle < line.len(),
        forall|i: int| start <= i < edge ==> line[i] == line[start],
        line[edge] != line[start],
        line[edge + debouncer.settle] == line[start],
    ensures
        debounced(debouncer, line, start) == debounced(
            debouncer,
            line,
            edge + debouncer.settle,
        ),
{
    lemma_next_edge_after_rest(line, start, edge);
    let noted = line[start];
    let armed = debouncer.next(LineObservation::Level(noted));
    let settling = armed.next(LineObservation::Edge);
    let comparing = settling.next(LineObservation::Elapsed);
    let at = edge + debouncer.settle;
    assert(comparing.next(LineObservation::Level(line[at])) == debouncer);
    assert(debounced(comparing, line, at) == debounced(debouncer, line, at));
    assert(debounced(settling, line, edge) == debounced(comparing, line, at));
    assert(debounced(armed, line, start) == debounced(settling, line, edge));
    assert(debounced(debouncer, line, start) == debounced(armed, line, start));
}

} // verus!
