use influxdb::Query;
use lemmy_stats::query::{count_from_reply, count_of_first_row, count_statement, count_statement_where, QueryFailed};
use lemmy_stats::stats::{LemmyStats, Metric, METRIC_COUNT};

#[test]
fn count_statement_counts_whole_table() {
    assert_eq!(count_statement("local_user"), "SELECT count(1) FROM local_user");
}

#[test]
fn count_statement_where_adds_condition() {
    assert_eq!(
        count_statement_where("local_user", "email_verified = true"),
        "SELECT count(1) FROM local_user WHERE email_verified = true"
    );
}

#[test]
fn pending_applications_test_for_null() {
    assert_eq!(
        Metric::PendingApplications.statement(),
        "SELECT count(1) FROM registration_application WHERE admin_id IS NULL"
    );
}

#[test]
fn vote_statements_split_by_score_sign() {
    assert!(Metric::LocalUpvotes.statement().ends_with("WHERE score = 1"));
    assert!(Metric::LocalDownvotes.statement().ends_with("WHERE score = -1"));
    assert!(Metric::LocalComments.statement().starts_with("SELECT count(1) FROM comment INNER JOIN local_user"));
}

#[test]
fn metrics_in_collection_order() {
    assert_eq!(Metric::at(0), Metric::RegisteredUsers);
    assert_eq!(Metric::at(5), Metric::PendingApplications);
    assert_eq!(Metric::at(METRIC_COUNT - 1), Metric::LocalDownvotes);
    assert_eq!(Metric::at(1).name(), "verified_users");
}

#[test]
fn no_rows_count_as_zero() {
    assert_eq!(count_of_first_row("SELECT 1", None), Ok(0));
    assert_eq!(count_from_reply("SELECT 1", Ok(Vec::new())), Ok(0));
}

#[test]
fn first_row_value_is_the_count() {
    assert_eq!(count_of_first_row("SELECT 1", Some(Some(60))), Ok(60));
}

#[test]
fn unreadable_column_fails_with_statement() {
    assert_eq!(
        count_of_first_row("SELECT x", Some(None)),
        Err(QueryFailed { statement: "SELECT x".to_string() })
    );
}

#[test]
fn negative_value_is_returned() {
    assert_eq!(count_of_first_row("SELECT y", Some(Some(-3))), Ok(-3));
}

#[test]
fn new_snapshot_is_zero_and_stamped_now() {
    let s = LemmyStats::new().unwrap();
    // 2020-09-13 in microseconds since the epoch
    assert!(s.captured_at > 1_600_000_000_000_000);
    for i in 0..METRIC_COUNT {
        assert_eq!(s.get(Metric::at(i)), 0);
    }
}

#[test]
fn set_changes_one_counter() {
    let mut s = LemmyStats::starting_at(5);
    s.set(Metric::KnownPosts, 12);
    assert_eq!(s.known_posts, 12);
    assert_eq!(s.get(Metric::KnownPosts), 12);
    assert_eq!(s.known_comments, 0);
    assert_eq!(s.captured_at, 5);
}

#[test]
fn point_line_holds_every_field() {
    let mut s = LemmyStats::starting_at(1_700_000_000_000_000);
    s.set(Metric::RegisteredUsers, 100);
    s.set(Metric::LocalDownvotes, 3);
    let line = s.to_point().build().unwrap().get();
    assert_eq!(
        line,
        "stats registered_users=100i,verified_users=0i,unverified_users=0i,approved_users=0i,\
unapproved_users=0i,pending_applications=0i,denied_applications=0i,known_communities=0i,\
known_instances=0i,known_comments=0i,known_posts=0i,local_comments=0i,local_posts=0i,\
local_upvotes=0i,local_downvotes=3i 1700000000000000"
    );
}

#[test]
fn clock_before_epoch_gives_no_snapshot() {
    assert_eq!(LemmyStats::from_clock(-1), None);
    assert_eq!(LemmyStats::from_clock(0), Some(LemmyStats::starting_at(0)));
    assert_eq!(LemmyStats::from_clock(42).unwrap().captured_at, 42);
}
