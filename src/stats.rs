//! The snapshot record: fifteen non-negative counters and the moment at
//! which their collection began.

use vstd::prelude::*;

verus! {

/// One of the counters of a snapshot, in collection order.
#[derive(Clone, Copy, Debug, PartialEq, Eq, Structural)]
pub enum Metric {
    RegisteredUsers,
    VerifiedUsers,
    UnverifiedUsers,
    ApprovedUsers,
    UnapprovedUsers,
    PendingApplications,
    DeniedApplications,
    KnownCommunities,
    KnownInstances,
    KnownComments,
    KnownPosts,
    LocalComments,
    LocalPosts,
    LocalUpvotes,
    LocalDownvotes,
}

/// How many metrics a snapshot holds.
pub const METRIC_COUNT: usize = 15;

/// The position of a metric in collection order.
pub open spec fn metric_index(m: Metric) -> int {
    match m {
        Metric::RegisteredUsers => 0,
        Metric::VerifiedUsers => 1,
        Metric::UnverifiedUsers => 2,
        Metric::ApprovedUsers => 3,
        Metric::UnapprovedUsers => 4,
        Metric::PendingApplications => 5,
        Metric::DeniedApplications => 6,
        Metric::KnownCommunities => 7,
        Metric::KnownInstances => 8,
        Metric::KnownComments => 9,
        Metric::KnownPosts => 10,
        Metric::LocalComments => 11,
        Metric::LocalPosts => 12,
        Metric::LocalUpvotes => 13,
        Metric::LocalDownvotes => 14,
    }
}

impl Metric {
    /// The metric at position `i` of collection order.
    pub open spec fn at_spec(i: int) -> Metric
        recommends
            0 <= i < METRIC_COUNT,
    {
        if i == 0 {
            Metric::RegisteredUsers
        } else if i == 1 {
            Metric::VerifiedUsers
        } else if i == 2 {
            Metric::UnverifiedUsers
        } else if i == 3 {
            Metric::ApprovedUsers
        } else if i == 4 {
            Metric::UnapprovedUsers
        } else if i == 5 {
            Metric::PendingApplications
        } else if i == 6 {
            Metric::DeniedApplications
        } else if i == 7 {
            Metric::KnownCommunities
        } else if i == 8 {
            Metric::KnownInstances
        } else if i == 9 {
            Metric::KnownComments
        } else if i == 10 {
            Metric::KnownPosts
        } else if i == 11 {
            Metric::LocalComments
        } else if i == 12 {
            Metric::LocalPosts
        } else if i == 13 {
            Metric::LocalUpvotes
        } else {
            Metric::LocalDownvotes
        }
    }

    /// The metric at position `i` of collection order.
    pub fn at(i: usize) -> (m: Metric)
        requires
            i < METRIC_COUNT,
        ensures
            m == Metric::at_spec(i as int),
            metric_index(m) == i,
    {
        if i == 0 {
            Metric::RegisteredUsers
        } else if i == 1 {
            Metric::VerifiedUsers
        } else if i == 2 {
            Metric::UnverifiedUsers
        } else if i == 3 {
            Metric::ApprovedUsers
        } else if i == 4 {
            Metric::UnapprovedUsers
        } else if i == 5 {
            Metric::PendingApplications
        } else if i == 6 {
            Metric::DeniedApplications
        } else if i == 7 {
            Metric::KnownCommunities
        } else if i == 8 {
            Metric::KnownInstances
        } else if i == 9 {
            Metric::KnownComments
        } else if i == 10 {
            Metric::KnownPosts
        } else if i == 11 {
            Metric::LocalComments
        } else if i == 12 {
            Metric::LocalPosts
        } else if i == 13 {
            Metric::LocalUpvotes
        } else {
            Metric::LocalDownvotes
        }
    }

    /// The field name under which the metric is stored and published.
    pub open spec fn name_spec(self) -> Seq<char> {
        match self {
            Metric::RegisteredUsers => "registered_users"@,
            Metric::VerifiedUsers => "verified_users"@,
            Metric::UnverifiedUsers => "unverified_users"@,
            Metric::ApprovedUsers => "approved_users"@,
            Metric::UnapprovedUsers => "unapproved_users"@,
            Metric::PendingApplications => "pending_applications"@,
            Metric::DeniedApplications => "denied_applications"@,
            Metric::KnownCommunities => "known_communities"@,
            Metric::KnownInstances => "known_instances"@,
            Metric::KnownComments => "known_comments"@,
            Metric::KnownPosts => "known_posts"@,
            Metric::LocalComments => "local_comments"@,
            Metric::LocalPosts => "local_posts"@,
            Metric::LocalUpvotes => "local_upvotes"@,
            Metric::LocalDownvotes => "local_downvotes"@,
        }
    }

    /// The field name under which the metric is stored and published.
    pub fn name(self) -> (r: &'static str)
        ensures
            r@ == self.name_spec(),
    {
        match self {
            Metric::RegisteredUsers => "registered_users",
            Metric::VerifiedUsers => "verified_users",
            Metric::UnverifiedUsers => "unverified_users",
            Metric::ApprovedUsers => "approved_users",
            Metric::UnapprovedUsers => "unapproved_users",
            Metric::PendingApplications => "pending_applications",
            Metric::DeniedApplications => "denied_applications",
            Metric::KnownCommunities => "known_communities",
            Metric::KnownInstances => "known_instances",
            Metric::KnownComments => "known_comments",
            Metric::KnownPosts => "known_posts",
            Metric::LocalComments => "local_comments",
            Metric::LocalPosts => "local_posts",
            Metric::LocalUpvotes => "local_upvotes",
            Metric::LocalDownvotes => "local_downvotes",
        }
    }
}

/// Every metric has its own position in collection order.
pub proof fn lemma_metric_index(m: Metric)
    ensures
        0 <= metric_index(m) < METRIC_COUNT,
        Metric::at_spec(metric_index(m)) == m,
{
}

/// Position `i` of collection order holds the metric whose index is `i`.
pub proof fn lemma_at_index(i: int)
    requires
        0 <= i < METRIC_COUNT,
    ensures
        metric_index(Metric::at_spec(i)) == i,
{
}

/// A snapshot of the counters, taken once per collection run.
#[derive(Clone, Copy, Debug, PartialEq, Eq, Structural)]
pub struct LemmyStats {
    /// When collection began, in microseconds since the Unix epoch (UTC).
    pub captured_at: u64,
    pub registered_users: i64,
    pub verified_users: i64,
    pub unverified_users: i64,
    pub approved_users: i64,
    pub unapproved_users: i64,
    pub pending_applications: i64,
    pub denied_applications: i64,
    pub known_communities: i64,
    pub known_instances: i64,
    pub known_comments: i64,
    pub known_posts: i64,
    pub local_comments: i64,
    pub local_posts: i64,
    pub local_upvotes: i64,
    pub local_downvotes: i64,
}

impl LemmyStats {
    /// The counter that holds metric `m`.
    pub open spec fn field(self, m: Metric) -> i64 {
        match m {
            Metric::RegisteredUsers => self.registered_users,
            Metric::VerifiedUsers => self.verified_users,
            Metric::UnverifiedUsers => self.unverified_users,
            Metric::ApprovedUsers => self.approved_users,
            Metric::UnapprovedUsers => self.unapproved_users,
            Metric::PendingApplications => self.pending_applications,
            Metric::DeniedApplications => self.denied_applications,
            Metric::KnownCommunities => self.known_communities,
            Metric::KnownInstances => self.known_instances,
            Metric::KnownComments => self.known_comments,
            Metric::KnownPosts => self.known_posts,
            Metric::LocalComments => self.local_comments,
            Metric::LocalPosts => self.local_posts,
            Metric::LocalUpvotes => self.local_upvotes,
            Metric::LocalDownvotes => self.local_downvotes,
        }
    }

    /// This snapshot with `value` as the counter of metric `m`.
    pub open spec fn with(self, m: Metric, value: i64) -> LemmyStats {
        match m {
            Metric::RegisteredUsers => LemmyStats { registered_users: value, ..self },
            Metric::VerifiedUsers => LemmyStats { verified_users: value, ..self },
            Metric::UnverifiedUsers => LemmyStats { unverified_users: value, ..self },
            Metric::ApprovedUsers => LemmyStats { approved_users: value, ..self },
            Metric::UnapprovedUsers => LemmyStats { unapproved_users: value, ..self },
            Metric::PendingApplications => LemmyStats { pending_applications: value, ..self },
            Metric::DeniedApplications => LemmyStats { denied_applications: value, ..self },
            Metric::KnownCommunities => LemmyStats { known_communities: value, ..self },
            Metric::KnownInstances => LemmyStats { known_instances: value, ..self },
            Metric::KnownComments => LemmyStats { known_comments: value, ..self },
            Metric::KnownPosts => LemmyStats { known_posts: value, ..self },
            Metric::LocalComments => LemmyStats { local_comments: value, ..self },
            Metric::LocalPosts => LemmyStats { local_posts: value, ..self },
            Metric::LocalUpvotes => LemmyStats { local_upvotes: value, ..self },
            Metric::LocalDownvotes => LemmyStats { local_downvotes: value, ..self },
        }
    }

    /// No counter is negative.
    pub open spec fn wf(self) -> bool {
        forall|m: Metric| #[trigger] self.field(m) >= 0
    }

    /// Every counter is zero.
    pub open spec fn all_zero(self) -> bool {
        forall|m: Metric| #[trigger] self.field(m) == 0
    }

    /// The empty snapshot whose collection began at `captured_at`.
    pub open spec fn empty(captured_at: u64) -> LemmyStats {
        LemmyStats {
            captured_at,
            registered_users: 0,
            verified_users: 0,
            unverified_users: 0,
            approved_users: 0,
            unapproved_users: 0,
            pending_applications: 0,
            denied_applications: 0,
            known_communities: 0,
            known_instances: 0,
            known_comments: 0,
            known_posts: 0,
            local_comments: 0,
            local_posts: 0,
            local_upvotes: 0,
            local_downvotes: 0,
        }
    }

    /// An empty snapshot whose collection began at `captured_at`.
    pub fn starting_at(captured_at: u64) -> (r: LemmyStats)
        ensures
            r == LemmyStats::empty(captured_at),
            r.captured_at == captured_at,
            r.all_zero(),
            r.wf(),
    {
        LemmyStats {
            captured_at,
            registered_users: 0,
            verified_users: 0,
            unverified_users: 0,
            approved_users: 0,
            unapproved_users: 0,
            pending_applications: 0,
            denied_applications: 0,
            known_communities: 0,
            known_instances: 0,
            known_comments: 0,
            known_posts: 0,
            local_comments: 0,
            local_posts: 0,
            local_upvotes: 0,
            local_downvotes: 0,
        }
    }

    /// An empty snapshot stamped with a clock reading in microseconds since
    /// the Unix epoch; none for a reading before the epoch, which no snapshot
    /// can carry.
    pub fn from_clock(micros: i64) -> (r: Option<LemmyStats>)
        ensures
            r == if micros >= 0 {
                Some(LemmyStats::empty(micros as u64))
            } else {
                None::<LemmyStats>
            },
    {
        if micros >= 0 {
            Some(LemmyStats::starting_at(micros as u64))
        } else {
            None
        }
    }

    /// An empty snapshot stamped with the current time; none while the system
    /// clock reads before the Unix epoch.
    pub fn new() -> (r: Option<LemmyStats>)
        ensures
            r is Some ==> r->Some_0.all_zero() && r->Some_0.wf(),
    {
        let now = utc_now_micros();
        LemmyStats::from_clock(now)
    }

    /// The counter that holds metric `m`.
    pub fn get(&self, m: Metric) -> (r: i64)
        ensures
            r == self.field(m),
    {
        match m {
            Metric::RegisteredUsers => self.registered_users,
            Metric::VerifiedUsers => self.verified_users,
            Metric::UnverifiedUsers => self.unverified_users,
            Metric::ApprovedUsers => self.approved_users,
            Metric::UnapprovedUsers => self.unapproved_users,
            Metric::PendingApplications => self.pending_applications,
            Metric::DeniedApplications => self.denied_applications,
            Metric::KnownCommunities => self.known_communities,
            Metric::KnownInstances => self.known_instances,
            Metric::KnownComments => self.known_comments,
            Metric::KnownPosts => self.known_posts,
            Metric::LocalComments => self.local_comments,
            Metric::LocalPosts => self.local_posts,
            Metric::LocalUpvotes => self.local_upvotes,
            Metric::LocalDownvotes => self.local_downvotes,
        }
    }

    /// Stores `value` as the counter of metric `m`; nothing else changes.
    pub fn set(&mut self, m: Metric, value: i64)
        requires
            value >= 0,
        ensures
            old(self).wf() ==> final(self).wf(),
            *final(self) == old(self).with(m, value),
            final(self).field(m) == value,
            forall|k: Metric| k != m ==> #[trigger] final(self).field(k) == old(self).field(k),
            final(self).captured_at == old(self).captured_at,
    {
        let ghost before = *self;
        match m {
            Metric::RegisteredUsers => self.registered_users = value,
            Metric::VerifiedUsers => self.verified_users = value,
            Metric::UnverifiedUsers => self.unverified_users = value,
            Metric::ApprovedUsers => self.approved_users = value,
            Metric::UnapprovedUsers => self.unapproved_users = value,
            Metric::PendingApplications => self.pending_applications = value,
            Metric::DeniedApplications => self.denied_applications = value,
            Metric::KnownCommunities => self.known_communities = value,
            Metric::KnownInstances => self.known_instances = value,
            Metric::KnownComments => self.known_comments = value,
            Metric::KnownPosts => self.known_posts = value,
            Metric::LocalComments => self.local_comments = value,
            Metric::LocalPosts => self.local_posts = value,
            Metric::LocalUpvotes => self.local_upvotes = value,
            Metric::LocalDownvotes => self.local_downvotes = value,
        }
        assert(before.wf() ==> self.wf()) by {
            if before.wf() {
                assert forall|k: Metric| #[trigger] self.field(k) >= 0 by {
                    assert(before.field(k) >= 0);
                }
            }
        }
    }
}

/// Relies on chrono's `From<SystemTime> for DateTime<Utc>`, read through
/// DateTime::timestamp_micros: the system clock in microseconds since the
/// Unix epoch, negative before it. Nothing is promised of the reading.
#[verifier::external_body]
fn utc_now_micros() -> (r: i64) {
    chrono::DateTime::<chrono::Utc>::from(std::time::SystemTime::now()).timestamp_micros()
}

} // verus!
