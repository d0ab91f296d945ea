use influxdb::Query;
use lemmy_stats::query::QueryFailed;
use lemmy_stats::run::{Action, Event, Run, RunError, RunState};
use lemmy_stats::stats::{LemmyStats, Metric, METRIC_COUNT};

/// Connects, answers each query from `answers`, and returns the run with the
/// line that it asked to publish.
fn collect(answers: &[Result<i64, QueryFailed>]) -> (Run, String) {
    let (mut run, first) = Run::start();
    assert!(matches!(first, Action::Connect));
    let mut action = run.step(Event::Connected);
    let mut i = 0;
    loop {
        match action {
            Action::Query { metric, statement } => {
                assert_eq!(metric, Metric::at(i));
                assert_eq!(statement, metric.statement());
                action = run.step(Event::Answered(answers[i].clone()));
                i += 1;
            }
            Action::Publish { point } => {
                assert_eq!(i, METRIC_COUNT);
                return (run, point.build().unwrap().get());
            }
            _ => panic!("unexpected action during collection"),
        }
    }
}

fn snapshot(run: &Run) -> LemmyStats {
    match run.state {
        RunState::Publishing { stats } => stats,
        RunState::Finished { snapshot: Some(stats), .. } => stats,
        _ => panic!("no snapshot"),
    }
}

fn failed() -> Result<i64, QueryFailed> {
    Err(QueryFailed { statement: "SELECT count(1) FROM local_user".to_string() })
}

#[test]
fn every_answer_lands_in_its_field() {
    let answers: Vec<Result<i64, QueryFailed>> = (0..METRIC_COUNT).map(|i| Ok(10 + i as i64)).collect();
    let (run, _) = collect(&answers);
    let s = snapshot(&run);
    for i in 0..METRIC_COUNT {
        assert_eq!(s.get(Metric::at(i)), 10 + i as i64);
    }
    assert_eq!(s.local_upvotes, 23);
    assert_eq!(s.local_downvotes, 24);
}

#[test]
fn empty_database_gives_all_zero_snapshot() {
    let answers: Vec<Result<i64, QueryFailed>> = (0..METRIC_COUNT).map(|_| Ok(0)).collect();
    let (mut run, line) = collect(&answers);
    let s = snapshot(&run);
    assert!(s.captured_at > 1_600_000_000_000_000);
    for i in 0..METRIC_COUNT {
        assert_eq!(s.get(Metric::at(i)), 0);
    }
    assert!(line.starts_with("stats registered_users=0i,"));
    assert!(line.ends_with(&format!("local_downvotes=0i {}", s.captured_at)));
    assert!(matches!(run.step(Event::Written { ok: true }), Action::Stop));
    assert_eq!(run.state, RunState::Finished { snapshot: Some(s), error: None });
}

#[test]
fn failed_registered_users_query_leaves_zero() {
    let mut answers: Vec<Result<i64, QueryFailed>> = (0..METRIC_COUNT).map(|i| Ok(1 + i as i64)).collect();
    answers[0] = failed();
    let (run, line) = collect(&answers);
    let s = snapshot(&run);
    assert_eq!(s.registered_users, 0);
    for i in 1..METRIC_COUNT {
        assert_eq!(s.get(Metric::at(i)), 1 + i as i64);
    }
    assert_eq!(run.failed, vec![Metric::RegisteredUsers]);
    assert!(line.starts_with("stats registered_users=0i,verified_users=2i,"));
}

#[test]
fn any_failed_queries_leave_zero_others_kept() {
    let mut answers: Vec<Result<i64, QueryFailed>> = (0..METRIC_COUNT).map(|i| Ok(5 * i as i64)).collect();
    answers[3] = failed();
    answers[14] = failed();
    answers[7] = Ok(-2);
    let (run, _) = collect(&answers);
    let s = snapshot(&run);
    assert_eq!(s.approved_users, 0);
    assert_eq!(s.local_downvotes, 0);
    assert_eq!(s.known_communities, 0);
    assert_eq!(s.unapproved_users, 20);
    assert_eq!(s.local_upvotes, 65);
    assert_eq!(run.failed, vec![Metric::ApprovedUsers, Metric::KnownCommunities, Metric::LocalDownvotes]);
}

#[test]
fn verified_and_unverified_split() {
    let mut answers: Vec<Result<i64, QueryFailed>> = (0..METRIC_COUNT).map(|_| Ok(0)).collect();
    answers[0] = Ok(100);
    answers[1] = Ok(60);
    answers[2] = Ok(40);
    let (run, _) = collect(&answers);
    let s = snapshot(&run);
    assert_eq!(s.registered_users, 100);
    assert_eq!(s.verified_users, 60);
    assert_eq!(s.unverified_users, 40);
}

#[test]
fn connection_failure_ends_run_without_snapshot() {
    let (mut run, _) = Run::start();
    assert!(matches!(run.step(Event::ConnectFailed), Action::Stop));
    let done = RunState::Finished { snapshot: None, error: Some(RunError::ConnectionFailed) };
    assert_eq!(run.state, done);
    assert!(matches!(run.step(Event::Connected), Action::Wait));
    assert!(matches!(run.step(Event::Written { ok: true }), Action::Wait));
    assert_eq!(run.state, done);
}

#[test]
fn capture_time_is_stamped_once() {
    let (mut run, _) = Run::start();
    run.step(Event::Connected);
    let stamp = snapshot_at_collect(&run);
    for _ in 0..METRIC_COUNT {
        run.step(Event::Answered(Ok(1)));
    }
    assert_eq!(snapshot(&run).captured_at, stamp);
    run.step(Event::Written { ok: false });
    assert_eq!(snapshot(&run).captured_at, stamp);
}

fn snapshot_at_collect(run: &Run) -> u64 {
    match run.state {
        RunState::Collecting { stats, next } => {
            assert_eq!(next, 0);
            stats.captured_at
        }
        _ => panic!("not collecting"),
    }
}

#[test]
fn publish_is_asked_for_once() {
    let answers: Vec<Result<i64, QueryFailed>> = (0..METRIC_COUNT).map(|_| failed()).collect();
    let (mut run, line) = collect(&answers);
    assert_eq!(line.matches('=').count(), METRIC_COUNT);
    assert!(matches!(run.step(Event::Answered(Ok(3))), Action::Wait));
    assert!(matches!(run.step(Event::Written { ok: false }), Action::Stop));
    assert_eq!(run.state, RunState::Finished { snapshot: Some(snapshot(&run)), error: Some(RunError::PublishFailed) });
    assert!(matches!(run.step(Event::Written { ok: true }), Action::Wait));
    assert_eq!(run.failed.len(), METRIC_COUNT);
}

#[test]
fn answer_past_last_metric_is_ignored() {
    let stats = LemmyStats::starting_at(9);
    let mut run = Run { state: RunState::Collecting { stats, next: METRIC_COUNT }, failed: Vec::new() };
    assert!(matches!(run.step(Event::Answered(Ok(4))), Action::Wait));
    assert_eq!(run.state, RunState::Collecting { stats, next: METRIC_COUNT });
    assert!(run.failed.is_empty());
}
