//! One collection run as a state machine: connect, stamp an empty snapshot,
//! run every aggregate query in order while tolerating each one's failure,
//! then publish the snapshot once. The caller performs each action and hands
//! back what happened as an event.

use vstd::prelude::*;
use crate::point::{measurement_name, point_fields, point_measurement, point_time_micros};
use crate::query::QueryFailed;
use crate::stats::{LemmyStats, Metric, METRIC_COUNT, metric_index};

verus! {

/// Why a run ended without publishing its snapshot.
#[derive(Clone, Copy, Debug, PartialEq, Eq, Structural)]
pub enum RunError {
    /// The database connection could not be opened; nothing was collected.
    ConnectionFailed,
    /// The system clock read before the Unix epoch, so no snapshot could be
    /// stamped; nothing was collected.
    ClockBeforeEpoch,
    /// The snapshot was collected, but writing it to the metrics store failed.
    PublishFailed,
}

/// Where a run stands.
#[derive(Clone, Copy, Debug, PartialEq, Eq, Structural)]
pub enum RunState {
    /// Waiting for the database connection.
    Connecting,
    /// Waiting for the answer to the query of metric number `next`.
    Collecting { stats: LemmyStats, next: usize },
    /// Waiting for the outcome of the single write of `stats`.
    Publishing { stats: LemmyStats },
    /// The run is over: the snapshot, if one was collected, and the reason
    /// it was not published, if it was not.
    Finished { snapshot: Option<LemmyStats>, error: Option<RunError> },
}

/// What happened to the action a run asked for.
#[derive(Debug)]
pub enum Event {
    /// The database connection is open.
    Connected,
    /// The database connection could not be opened.
    ConnectFailed,
    /// The answer to the pending query.
    Answered(Result<i64, QueryFailed>),
    /// The write of the snapshot finished, successfully or not.
    Written { ok: bool },
}

/// What a run asks its caller to do next.
pub enum Action {
    /// Open the database connection.
    Connect,
    /// Run `statement`, the aggregate query of `metric`.
    Query { metric: Metric, statement: String },
    /// Write `point` to the metrics store, once.
    Publish { point: influxdb::WriteQuery },
    /// The run is over.
    Stop,
    /// The event answered nothing that was pending; nothing new to do.
    Wait,
}

/// The abstract form of an action.
#[derive(Clone, Copy, Debug, PartialEq, Eq, Structural)]
pub enum Move {
    Connect,
    Query(Metric),
    Publish(LemmyStats),
    Stop,
    Wait,
}

impl Action {
    /// This action is the concrete form of `mv`.
    pub open spec fn fits(self, mv: Move) -> bool {
        match (self, mv) {
            (Action::Connect, Move::Connect) => true,
            (Action::Query { metric, statement }, Move::Query(m)) => metric == m
                && statement@ == m.statement_spec(),
            (Action::Publish { point }, Move::Publish(stats)) => point_measurement(point)
                == measurement_name() && point_time_micros(point) == stats.captured_at as int
                && point_fields(point) == stats.fields_spec(),
            (Action::Stop, Move::Stop) => true,
            (Action::Wait, Move::Wait) => true,
            _ => false,
        }
    }
}

/// The snapshot after the answer for metric `m`: a count replaces the
/// counter, a failure or a negative number leaves it as it was.
pub open spec fn recorded(stats: LemmyStats, m: Metric, answer: Result<i64, QueryFailed>) -> LemmyStats {
    match answer {
        Ok(v) => if v >= 0 {
            stats.with(m, v)
        } else {
            stats
        },
        Err(_) => stats,
    }
}

/// The state after an event and the move that goes with it. `fresh` is the
/// empty snapshot stamped when the connection opens, none if the clock read
/// before the Unix epoch.
pub open spec fn next(s: RunState, e: Event, fresh: Option<LemmyStats>) -> (RunState, Move) {
    match (s, e) {
        (RunState::Connecting, Event::Connected) => match fresh {
            Some(f) => (RunState::Collecting { stats: f, next: 0 }, Move::Query(Metric::at_spec(0))),
            None => (
                RunState::Finished { snapshot: None, error: Some(RunError::ClockBeforeEpoch) },
                Move::Stop,
            ),
        },
        (RunState::Connecting, Event::ConnectFailed) => (
            RunState::Finished { snapshot: None, error: Some(RunError::ConnectionFailed) },
            Move::Stop,
        ),
        (RunState::Collecting { stats, next }, Event::Answered(answer)) => {
            let after = recorded(stats, Metric::at_spec(next as int), answer);
            if next >= METRIC_COUNT {
                (s, Move::Wait)
            } else if next + 1 < METRIC_COUNT {
                (
                    RunState::Collecting { stats: after, next: (next + 1) as usize },
                    Move::Query(Metric::at_spec(next + 1)),
                )
            } else {
                (RunState::Publishing { stats: after }, Move::Publish(after))
            }
        },
        (RunState::Publishing { stats }, Event::Written { ok }) => (
            RunState::Finished {
                snapshot: Some(stats),
                error: if ok {
                    None
                } else {
                    Some(RunError::PublishFailed)
                },
            },
            Move::Stop,
        ),
        _ => (s, Move::Wait),
    }
}

/// The state is consistent: counters are never negative and the query index
/// stays in range.
pub open spec fn state_wf(s: RunState) -> bool {
    match s {
        RunState::Connecting => true,
        RunState::Collecting { stats, next } => stats.wf() && next < METRIC_COUNT,
        RunState::Publishing { stats } => stats.wf(),
        RunState::Finished { snapshot, error } => match snapshot {
            Some(x) => x.wf() && error != Some(RunError::ConnectionFailed) && error != Some(
                RunError::ClockBeforeEpoch,
            ),
            None => error == Some(RunError::ConnectionFailed) || error == Some(
                RunError::ClockBeforeEpoch,
            ),
        },
    }
}

/// A collection run.
pub struct Run {
    /// Where the run stands.
    pub state: RunState,
    /// The metrics whose query failed so far, in order.
    pub failed: Vec<Metric>,
}

impl Run {
    /// The run is consistent.
    pub open spec fn wf(&self) -> bool {
        state_wf(self.state)
    }

    /// A run that has not connected yet, and its first action: connect.
    pub fn start() -> (r: (Run, Action))
        ensures
            r.0.state == RunState::Connecting,
            r.0.failed@ == Seq::<Metric>::empty(),
            r.0.wf(),
            r.1.fits(Move::Connect),
    {
        (Run { state: RunState::Connecting, failed: Vec::new() }, Action::Connect)
    }

    /// Takes in what happened to the last action, and returns the next one.
    /// On `Connected` the snapshot is created and stamped with the current
    /// time, before the first query is asked for; a clock that reads before
    /// the Unix epoch ends the run there. An event that answers
    /// nothing pending changes nothing and asks for nothing.
    pub fn step(&mut self, event: Event) -> (a: Action)
        ensures
            old(self).wf() ==> final(self).wf(),
            exists|fresh: Option<LemmyStats>|
                {
                    &&& (fresh is Some ==> fresh->Some_0.all_zero())
                    &&& final(self).state == #[trigger] next(old(self).state, event, fresh).0
                    &&& a.fits(next(old(self).state, event, fresh).1)
                },
            final(self).failed@ == match (old(self).state, event) {
                (RunState::Collecting { next, .. }, Event::Answered(answer)) => if next
                    >= METRIC_COUNT || (answer is Ok && answer->Ok_0 >= 0) {
                    old(self).failed@
                } else {
                    old(self).failed@.push(Metric::at_spec(next as int))
                },
                _ => old(self).failed@,
            },
    {
        let ghost fresh_any = Some(LemmyStats::empty(0));
        let ghost ev = event;
        match (self.state, event) {
            (RunState::Connecting, Event::Connected) => {
                let fresh = LemmyStats::new();
                match fresh {
                    Some(f) => {
                        self.state = RunState::Collecting { stats: f, next: 0 };
                        let m = Metric::at(0);
                        assert(final(self).state == next(old(self).state, Event::Connected, fresh).0);
                        Action::Query { metric: m, statement: m.statement() }
                    },
                    None => {
                        self.state = RunState::Finished {
                            snapshot: None,
                            error: Some(RunError::ClockBeforeEpoch),
                        };
                        assert(final(self).state == next(old(self).state, Event::Connected, fresh).0);
                        Action::Stop
                    },
                }
            },
            (RunState::Connecting, Event::ConnectFailed) => {
                self.state = RunState::Finished {
                    snapshot: None,
                    error: Some(RunError::ConnectionFailed),
                };
                assert(final(self).state == next(old(self).state, Event::ConnectFailed, fresh_any).0);
                Action::Stop
            },
            (RunState::Collecting { next: i, .. }, Event::Answered(_)) if i >= METRIC_COUNT => {
                Action::Wait
            },
            (RunState::Collecting { stats, next: i }, Event::Answered(answer)) => {
                let m = Metric::at(i);
                let mut after = stats;
                match answer {
                    Ok(v) => {
                        if v >= 0 {
                            after.set(m, v);
                        } else {
                            self.failed.push(m);
                        }
                    },
                    Err(_) => {
                        self.failed.push(m);
                    },
                }
                assert(after == recorded(stats, m, answer));
                if i + 1 < METRIC_COUNT {
                    self.state = RunState::Collecting { stats: after, next: i + 1 };
                    let m2 = Metric::at(i + 1);
                    let a = Action::Query { metric: m2, statement: m2.statement() };
                    assert(a.fits(next(old(self).state, ev, fresh_any).1));
                    a
                } else {
                    self.state = RunState::Publishing { stats: after };
                    let a = Action::Publish { point: after.to_point() };
                    assert(a.fits(next(old(self).state, ev, fresh_any).1));
                    a
                }
            },
            (RunState::Publishing { stats }, Event::Written { ok }) => {
                self.state = RunState::Finished {
                    snapshot: Some(stats),
                    error: if ok {
                        None
                    } else {
                        Some(RunError::PublishFailed)
                    },
                };
                assert(final(self).state == next(old(self).state, ev, fresh_any).0);
                Action::Stop
            },
            _ => {
                assert(final(self).state == next(old(self).state, ev, fresh_any).0);
                Action::Wait
            },
        }
    }
}

} // verus!
