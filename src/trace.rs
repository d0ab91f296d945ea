//! What holds of whole runs: the state reached after a sequence of events,
//! the moves asked for on the way, and the laws that tie them together.

use vstd::prelude::*;
use crate::query::QueryFailed;
use crate::run::{Event, Move, RunError, RunState, next, recorded};
use crate::stats::{LemmyStats, Metric, METRIC_COUNT, lemma_at_index, lemma_metric_index, metric_index};

verus! {

/// The state after each of `evs` in turn, starting from `s`; `fresh` is the
/// snapshot stamped when the connection opens.
pub open spec fn run_events(s: RunState, evs: Seq<Event>, fresh: Option<LemmyStats>) -> RunState
    decreases evs.len(),
{
    if evs.len() == 0 {
        s
    } else {
        run_events(next(s, evs[0], fresh).0, evs.drop_first(), fresh)
    }
}

/// The moves asked for while taking in `evs`, starting from `s`.
pub open spec fn run_moves(s: RunState, evs: Seq<Event>, fresh: Option<LemmyStats>) -> Seq<Move>
    decreases evs.len(),
{
    if evs.len() == 0 {
        Seq::empty()
    } else {
        seq![next(s, evs[0], fresh).1] + run_moves(next(s, evs[0], fresh).0, evs.drop_first(), fresh)
    }
}

/// How many of `ms` are publish moves.
pub open spec fn publishes(ms: Seq<Move>) -> nat
    decreases ms.len(),
{
    if ms.len() == 0 {
        0
    } else {
        (if ms[0] is Publish {
            1nat
        } else {
            0nat
        }) + publishes(ms.drop_first())
    }
}

/// The snapshot a state holds, if any.
pub open spec fn snapshot_of(s: RunState) -> Option<LemmyStats> {
    match s {
        RunState::Connecting => None,
        RunState::Collecting { stats, .. } => Some(stats),
        RunState::Publishing { stats } => Some(stats),
        RunState::Finished { snapshot, .. } => snapshot,
    }
}

/// Collection is complete: the snapshot is being or has been published.
pub open spec fn collected(s: RunState) -> bool {
    s is Publishing || (s is Finished && snapshot_of(s) is Some)
}

/// The counter an answer leaves behind: its count, or zero on failure.
pub open spec fn answer_count(answer: Result<i64, QueryFailed>) -> i64 {
    match answer {
        Ok(v) => if v >= 0 {
            v
        } else {
            0
        },
        Err(_) => 0,
    }
}

/// The answers, as events.
pub open spec fn answer_events(answers: Seq<Result<i64, QueryFailed>>) -> Seq<Event> {
    answers.map_values(|a: Result<i64, QueryFailed>| Event::Answered(a))
}

/// `stats` after recording the first `k` answers, one per metric in order.
pub open spec fn filled(stats: LemmyStats, answers: Seq<Result<i64, QueryFailed>>, k: int) -> LemmyStats
    decreases k,
{
    if k <= 0 {
        stats
    } else {
        recorded(filled(stats, answers, k - 1), Metric::at_spec(k - 1), answers[k - 1])
    }
}

/// The moves asked for while answering the queries from number `i` on: each
/// later metric's query in order, then the publish of `full`.
pub open spec fn collect_moves(i: int, full: LemmyStats) -> Seq<Move> {
    Seq::new(
        (METRIC_COUNT - i) as nat,
        |j: int|
            if i + j + 1 < METRIC_COUNT {
                Move::Query(Metric::at_spec(i + j + 1))
            } else {
                Move::Publish(full)
            },
    )
}

proof fn lemma_with_field(s: LemmyStats, m: Metric, v: i64, k: Metric)
    ensures
        s.with(m, v).field(k) == if k == m {
            v
        } else {
            s.field(k)
        },
        s.with(m, v).captured_at == s.captured_at,
{
}

proof fn lemma_filled(stats: LemmyStats, answers: Seq<Result<i64, QueryFailed>>, k: int, m: Metric)
    requires
        0 <= k <= METRIC_COUNT,
        k <= answers.len(),
    ensures
        filled(stats, answers, k).captured_at == stats.captured_at,
        filled(stats, answers, k).field(m) == if metric_index(m) < k {
            if answers[metric_index(m)] is Ok && answers[metric_index(m)]->Ok_0 >= 0 {
                answers[metric_index(m)]->Ok_0
            } else {
                stats.field(m)
            }
        } else {
            stats.field(m)
        },
    decreases k,
{
    if k > 0 {
        lemma_filled(stats, answers, k - 1, m);
        let prev = filled(stats, answers, k - 1);
        let mk = Metric::at_spec(k - 1);
        assert(metric_index(mk) == k - 1);
        lemma_metric_index(m);
        match answers[k - 1] {
            Ok(v) => if v >= 0 {
                lemma_with_field(prev, mk, v, m);
            },
            Err(_) => {},
        }
    }
}

proof fn lemma_collect_from(
    stats: LemmyStats,
    answers: Seq<Result<i64, QueryFailed>>,
    i: int,
    fresh: Option<LemmyStats>,
)
    requires
        0 <= i < METRIC_COUNT,
        answers.len() == METRIC_COUNT,
    ensures
        ({
            let s = RunState::Collecting { stats: filled(stats, answers, i), next: i as usize };
            let evs = answer_events(answers).subrange(i, METRIC_COUNT as int);
            let full = filled(stats, answers, METRIC_COUNT as int);
            &&& run_events(s, evs, fresh) == (RunState::Publishing { stats: full })
            &&& run_moves(s, evs, fresh) == collect_moves(i, full)
        }),
    decreases METRIC_COUNT - i,
{
    let evs = answer_events(answers).subrange(i, METRIC_COUNT as int);
    let s = RunState::Collecting { stats: filled(stats, answers, i), next: i as usize };
    assert(evs[0] == Event::Answered(answers[i]));
    assert(evs.drop_first() =~= answer_events(answers).subrange(i + 1, METRIC_COUNT as int));
    let rest = evs.drop_first();
    let s2 = next(s, evs[0], fresh).0;
    let tail = run_moves(s2, rest, fresh);
    assert(run_moves(s, evs, fresh) == seq![next(s, evs[0], fresh).1] + tail);
    if i + 1 < METRIC_COUNT {
        lemma_collect_from(stats, answers, i + 1, fresh);
        assert(s2 == RunState::Collecting {
            stats: filled(stats, answers, i + 1),
            next: (i + 1) as usize,
        });
        assert(seq![next(s, evs[0], fresh).1] + tail =~= collect_moves(
            i,
            filled(stats, answers, METRIC_COUNT as int),
        ));
    } else {
        assert(rest.len() == 0);
        assert(filled(stats, answers, i + 1) == recorded(
            filled(stats, answers, i),
            Metric::at_spec(i),
            answers[i],
        ));
        assert(s2 == RunState::Publishing { stats: filled(stats, answers, METRIC_COUNT as int) });
        assert(run_events(s2, rest, fresh) == s2);
        assert(tail == Seq::<Move>::empty());
        assert(run_moves(s, evs, fresh) =~= collect_moves(
            i,
            filled(stats, answers, METRIC_COUNT as int),
        ));
    }
}

/// Collection never stops at a failed query: after one answer per metric,
/// in order, the run is publishing a complete snapshot whose counters are the
/// counts that came back, zero for each query that failed, and whose capture
/// time is the one stamped at the start.
pub proof fn lemma_failures_leave_zero(
    stats: LemmyStats,
    answers: Seq<Result<i64, QueryFailed>>,
    fresh: Option<LemmyStats>,
)
    requires
        stats.all_zero(),
        answers.len() == METRIC_COUNT,
    ensures
        ({
            let end = run_events(RunState::Collecting { stats, next: 0 }, answer_events(answers), fresh);
            &&& end is Publishing
            &&& end->Publishing_stats.captured_at == stats.captured_at
            &&& forall|m: Metric|
                #[trigger] end->Publishing_stats.field(m) == answer_count(answers[metric_index(m)])
        }),
{
    lemma_collect_from(stats, answers, 0, fresh);
    assert(answer_events(answers).subrange(0, METRIC_COUNT as int) =~= answer_events(answers));
    let end = filled(stats, answers, METRIC_COUNT as int);
    assert forall|m: Metric| #[trigger] end.field(m) == answer_count(answers[metric_index(m)]) by {
        lemma_metric_index(m);
        lemma_filled(stats, answers, METRIC_COUNT as int, m);
    }
    lemma_filled(stats, answers, METRIC_COUNT as int, Metric::RegisteredUsers);
}

/// When every query returns a count, each counter of the snapshot is exactly
/// the count its own query returned.
pub proof fn lemma_all_counts_kept(stats: LemmyStats, counts: Seq<i64>, fresh: Option<LemmyStats>)
    requires
        stats.all_zero(),
        counts.len() == METRIC_COUNT,
        forall|i: int| 0 <= i < counts.len() ==> #[trigger] counts[i] >= 0,
    ensures
        ({
            let answers = counts.map_values(|c: i64| Ok::<i64, QueryFailed>(c));
            let end = run_events(RunState::Collecting { stats, next: 0 }, answer_events(answers), fresh);
            &&& end is Publishing
            &&& forall|m: Metric| #[trigger] end->Publishing_stats.field(m) == counts[metric_index(m)]
        }),
{
    let answers = counts.map_values(|c: i64| Ok::<i64, QueryFailed>(c));
    lemma_failures_leave_zero(stats, answers, fresh);
    assert forall|m: Metric| #[trigger] answer_count(answers[metric_index(m)]) == counts[metric_index(m)] by {
        lemma_metric_index(m);
    }
}

proof fn lemma_unfold(s: RunState, evs: Seq<Event>, fresh: Option<LemmyStats>)
    requires
        evs.len() > 0,
    ensures
        publishes(run_moves(s, evs, fresh)) == (if next(s, evs[0], fresh).1 is Publish {
            1nat
        } else {
            0nat
        }) + publishes(run_moves(next(s, evs[0], fresh).0, evs.drop_first(), fresh)),
        run_events(s, evs, fresh) == run_events(next(s, evs[0], fresh).0, evs.drop_first(), fresh),
{
    let head = seq![next(s, evs[0], fresh).1];
    let tail = run_moves(next(s, evs[0], fresh).0, evs.drop_first(), fresh);
    assert((head + tail)[0] == next(s, evs[0], fresh).1);
    assert((head + tail).drop_first() =~= tail);
}

proof fn lemma_finished_stays(s: RunState, evs: Seq<Event>, fresh: Option<LemmyStats>)
    requires
        s is Finished,
    ensures
        run_events(s, evs, fresh) == s,
        publishes(run_moves(s, evs, fresh)) == 0,
    decreases evs.len(),
{
    if evs.len() > 0 {
        lemma_unfold(s, evs, fresh);
        lemma_finished_stays(s, evs.drop_first(), fresh);
    }
}

/// A run whose connection cannot be opened ends at once, with no snapshot,
/// and asks for no publish whatever happens afterwards.
pub proof fn lemma_no_connection_no_snapshot(evs: Seq<Event>, fresh: Option<LemmyStats>)
    ensures
        ({
            let all = seq![Event::ConnectFailed] + evs;
            &&& run_events(RunState::Connecting, all, fresh) == (RunState::Finished {
                snapshot: None,
                error: Some(RunError::ConnectionFailed),
            })
            &&& publishes(run_moves(RunState::Connecting, all, fresh)) == 0
        }),
{
    let all = seq![Event::ConnectFailed] + evs;
    assert(all[0] == Event::ConnectFailed);
    assert(all.drop_first() =~= evs);
    lemma_unfold(RunState::Connecting, all, fresh);
    let done = RunState::Finished { snapshot: None, error: Some(RunError::ConnectionFailed) };
    lemma_finished_stays(done, evs, fresh);
}

proof fn lemma_step_keeps_stamp(s: RunState, e: Event, fresh: Option<LemmyStats>)
    requires
        snapshot_of(s) is Some,
    ensures
        snapshot_of(next(s, e, fresh).0) is Some,
        snapshot_of(next(s, e, fresh).0)->Some_0.captured_at == snapshot_of(s)->Some_0.captured_at,
{
    match (s, e) {
        (RunState::Collecting { stats, next }, Event::Answered(answer)) => {
            match answer {
                Ok(v) => if v >= 0 {
                    lemma_with_field(stats, Metric::at_spec(next as int), v, Metric::RegisteredUsers);
                },
                Err(_) => {},
            }
        },
        _ => {},
    }
}

/// Once a run holds a snapshot, every later state holds one with the same
/// capture time: the snapshot is never stamped again.
pub proof fn lemma_captured_at_stable(s: RunState, evs: Seq<Event>, fresh: Option<LemmyStats>)
    requires
        snapshot_of(s) is Some,
    ensures
        snapshot_of(run_events(s, evs, fresh)) is Some,
        snapshot_of(run_events(s, evs, fresh))->Some_0.captured_at == snapshot_of(s)->Some_0.captured_at,
    decreases evs.len(),
{
    if evs.len() > 0 {
        lemma_unfold(s, evs, fresh);
        lemma_step_keeps_stamp(s, evs[0], fresh);
        lemma_captured_at_stable(next(s, evs[0], fresh).0, evs.drop_first(), fresh);
    }
}

/// The snapshot of a run is the one stamped when the connection opened: its
/// capture time is taken once, before the first query, and kept to the end.
pub proof fn lemma_stamped_once(evs: Seq<Event>, fresh: Option<LemmyStats>)
    ensures
        snapshot_of(run_events(RunState::Connecting, evs, fresh)) is Some ==> fresh is Some
            && snapshot_of(run_events(RunState::Connecting, evs, fresh))->Some_0.captured_at
            == fresh->Some_0.captured_at,
    decreases evs.len(),
{
    if evs.len() > 0 {
        lemma_unfold(RunState::Connecting, evs, fresh);
        let s2 = next(RunState::Connecting, evs[0], fresh).0;
        match evs[0] {
            Event::Connected => if fresh is Some {
                lemma_captured_at_stable(s2, evs.drop_first(), fresh);
            } else {
                lemma_finished_stays(s2, evs.drop_first(), fresh);
            },
            Event::ConnectFailed => lemma_finished_stays(s2, evs.drop_first(), fresh),
            _ => lemma_stamped_once(evs.drop_first(), fresh),
        }
    }
}

proof fn lemma_publish_count(s: RunState, evs: Seq<Event>, fresh: Option<LemmyStats>)
    ensures
        collected(s) ==> collected(run_events(s, evs, fresh)),
        publishes(run_moves(s, evs, fresh)) + (if collected(s) {
            1nat
        } else {
            0nat
        }) == (if collected(run_events(s, evs, fresh)) {
            1nat
        } else {
            0nat
        }),
    decreases evs.len(),
{
    if evs.len() > 0 {
        lemma_unfold(s, evs, fresh);
        lemma_publish_count(next(s, evs[0], fresh).0, evs.drop_first(), fresh);
    }
}

/// A run asks for a publish exactly once if it completes collection, and
/// never otherwise, whatever events it is given.
pub proof fn lemma_single_publish(evs: Seq<Event>, fresh: Option<LemmyStats>)
    ensures
        publishes(run_moves(RunState::Connecting, evs, fresh)) == if collected(
            run_events(RunState::Connecting, evs, fresh),
        ) {
            1nat
        } else {
            0nat
        },
{
    lemma_publish_count(RunState::Connecting, evs, fresh);
}

/// A failed registered-users query does not stop the run: that counter stays
/// zero, every other counter is its own query's count, and the snapshot is
/// handed on for publishing.
pub proof fn lemma_registered_users_failure(
    stats: LemmyStats,
    answers: Seq<Result<i64, QueryFailed>>,
    fresh: Option<LemmyStats>,
)
    requires
        stats.all_zero(),
        answers.len() == METRIC_COUNT,
        answers[0] is Err,
        forall|i: int| 1 <= i < METRIC_COUNT ==> (#[trigger] answers[i]) is Ok && answers[i]->Ok_0 >= 0,
    ensures
        ({
            let end = run_events(RunState::Collecting { stats, next: 0 }, answer_events(answers), fresh);
            &&& end is Publishing
            &&& end->Publishing_stats.registered_users == 0
            &&& forall|m: Metric|
                m != Metric::RegisteredUsers ==> #[trigger] end->Publishing_stats.field(m)
                    == answers[metric_index(m)]->Ok_0
        }),
{
    lemma_failures_leave_zero(stats, answers, fresh);
    let end = run_events(RunState::Collecting { stats, next: 0 }, answer_events(answers), fresh);
    assert(end->Publishing_stats.field(Metric::RegisteredUsers) == 0);
    assert forall|m: Metric|
        m != Metric::RegisteredUsers implies #[trigger] end->Publishing_stats.field(m)
            == answers[metric_index(m)]->Ok_0 by {
        lemma_metric_index(m);
        assert(end->Publishing_stats.field(m) == answer_count(answers[metric_index(m)]));
    }
}

/// Every metric's query is asked for exactly once, in collection order, and
/// then the snapshot is published once, whatever the answers were: a failed
/// query is neither retried nor stops the queries after it.
pub proof fn lemma_queries_in_order(
    answers: Seq<Result<i64, QueryFailed>>,
    fresh: LemmyStats,
)
    requires
        fresh.all_zero(),
        answers.len() == METRIC_COUNT,
    ensures
        ({
            let evs = seq![Event::Connected] + answer_events(answers);
            let moves = run_moves(RunState::Connecting, evs, Some(fresh));
            &&& moves.len() == METRIC_COUNT + 1
            &&& forall|j: int| 0 <= j < METRIC_COUNT ==> #[trigger] moves[j] == Move::Query(Metric::at_spec(j))
            &&& moves[METRIC_COUNT as int] is Publish
            &&& forall|j: int|
                0 <= j <= METRIC_COUNT && (#[trigger] moves[j]) is Query ==> metric_index(
                    moves[j]->Query_0,
                ) == j
        }),
{
    let evs = seq![Event::Connected] + answer_events(answers);
    let full = filled(fresh, answers, METRIC_COUNT as int);
    assert(evs[0] == Event::Connected);
    assert(evs.drop_first() =~= answer_events(answers).subrange(0, METRIC_COUNT as int));
    lemma_collect_from(fresh, answers, 0, Some(fresh));
    let moves = run_moves(RunState::Connecting, evs, Some(fresh));
    assert(moves == seq![Move::Query(Metric::at_spec(0))] + collect_moves(0, full));
    assert forall|j: int|
        0 <= j <= METRIC_COUNT && (#[trigger] moves[j]) is Query implies metric_index(
            moves[j]->Query_0,
        ) == j by {
        lemma_at_index(j);
    }
}

} // verus!
