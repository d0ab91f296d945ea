//! The query executor: the statement behind each metric, and the reading of
//! a count out of what the database answered.

use vstd::prelude::*;
use vstd::string::StringExecFns;
use crate::stats::Metric;

verus! {

#[verifier::external_type_specification]
#[verifier::external_body]
pub struct ExRow(tokio_postgres::Row);

#[verifier::external_type_specification]
#[verifier::external_body]
pub struct ExPgError(tokio_postgres::Error);

/// An aggregate query that could not be run or whose answer was no count.
#[derive(Clone, Debug, PartialEq, Eq)]
pub struct QueryFailed {
    /// The statement that failed.
    pub statement: String,
}

/// `SELECT count(1) FROM <table>`.
pub open spec fn count_text(table: Seq<char>) -> Seq<char> {
    "SELECT count(1) FROM "@ + table
}

/// `SELECT count(1) FROM <table> WHERE <condition>`.
pub open spec fn count_where_text(table: Seq<char>, condition: Seq<char>) -> Seq<char> {
    "SELECT count(1) FROM "@ + table + " WHERE "@ + condition
}

/// The statement that counts all rows of `table`.
pub fn count_statement(table: &str) -> (r: String)
    ensures
        r@ == count_text(table@),
{
    let mut s = String::from_str("SELECT count(1) FROM ");
    s.append(table);
    s
}

/// The statement that counts the rows of `table` that meet `condition`.
pub fn count_statement_where(table: &str, condition: &str) -> (r: String)
    ensures
        r@ == count_where_text(table@, condition@),
{
    let mut s = String::from_str("SELECT count(1) FROM ");
    s.append(table);
    s.append(" WHERE ");
    s.append(condition);
    s
}

impl Metric {
    /// The aggregate statement whose single integer answer is the metric.
    pub open spec fn statement_spec(self) -> Seq<char> {
        match self {
            Metric::RegisteredUsers => count_text("local_user"@),
            Metric::VerifiedUsers => count_where_text("local_user"@, "email_verified = true"@),
            Metric::UnverifiedUsers => count_where_text("local_user"@, "email_verified = false"@),
            Metric::ApprovedUsers => count_where_text("local_user"@, "accepted_application = true"@),
            Metric::UnapprovedUsers => count_where_text(
                "local_user"@,
                "accepted_application = false"@,
            ),
            Metric::PendingApplications => count_where_text(
                "registration_application"@,
                "admin_id IS NULL"@,
            ),
            Metric::DeniedApplications => count_where_text(
                "registration_application"@,
                "deny_reason IS NOT NULL"@,
            ),
            Metric::KnownCommunities => count_text("community"@),
            Metric::KnownInstances => count_text("instance"@),
            Metric::KnownComments => count_text("comment"@),
            Metric::KnownPosts => count_text("post"@),
            Metric::LocalComments => "SELECT count(1) FROM comment INNER JOIN local_user ON creator_id = local_user.person_id"@,
            Metric::LocalPosts => "SELECT count(1) FROM post INNER JOIN local_user ON creator_id = local_user.person_id"@,
            Metric::LocalUpvotes => "SELECT count(1) FROM comment_like INNER JOIN local_user ON comment_like.person_id = local_user.person_id WHERE score = 1"@,
            Metric::LocalDownvotes => "SELECT count(1) FROM comment_like INNER JOIN local_user ON comment_like.person_id = local_user.person_id WHERE score = -1"@,
        }
    }

    /// The aggregate statement whose single integer answer is the metric.
    pub fn statement(self) -> (r: String)
        ensures
            r@ == self.statement_spec(),
    {
        match self {
            Metric::RegisteredUsers => count_statement("local_user"),
            Metric::VerifiedUsers => count_statement_where("local_user", "email_verified = true"),
            Metric::UnverifiedUsers => count_statement_where("local_user", "email_verified = false"),
            Metric::ApprovedUsers => count_statement_where(
                "local_user",
                "accepted_application = true",
            ),
            Metric::UnapprovedUsers => count_statement_where(
                "local_user",
                "accepted_application = false",
            ),
            Metric::PendingApplications => count_statement_where(
                "registration_application",
                "admin_id IS NULL",
            ),
            Metric::DeniedApplications => count_statement_where(
                "registration_application",
                "deny_reason IS NOT NULL",
            ),
            Metric::KnownCommunities => count_statement("community"),
            Metric::KnownInstances => count_statement("instance"),
            Metric::KnownComments => count_statement("comment"),
            Metric::KnownPosts => count_statement("post"),
            Metric::LocalComments => String::from_str("SELECT count(1) FROM comment INNER JOIN local_user ON creator_id = local_user.person_id"),
            Metric::LocalPosts => String::from_str("SELECT count(1) FROM post INNER JOIN local_user ON creator_id = local_user.person_id"),
            Metric::LocalUpvotes => String::from_str("SELECT count(1) FROM comment_like INNER JOIN local_user ON comment_like.person_id = local_user.person_id WHERE score = 1"),
            Metric::LocalDownvotes => String::from_str("SELECT count(1) FROM comment_like INNER JOIN local_user ON comment_like.person_id = local_user.person_id WHERE score = -1"),
        }
    }
}

/// What a count query yields, given the first column of its first row:
/// `None` when no row came back, `Some(None)` when that column is no
/// 64-bit integer. No row counts as zero; otherwise the integer is the
/// answer, whatever its sign.
pub open spec fn count_of_spec(first: Option<Option<i64>>) -> Option<i64> {
    match first {
        None => Some(0),
        Some(Some(v)) => Some(v),
        Some(None) => None,
    }
}

/// Reads the count out of the first column of the first row of the answer
/// to `statement`; see `count_of_spec`.
pub fn count_of_first_row(statement: &str, first: Option<Option<i64>>) -> (r: Result<
    i64,
    QueryFailed,
>)
    ensures
        match count_of_spec(first) {
            Some(v) => r == Ok::<i64, QueryFailed>(v),
            None => r is Err && r->Err_0.statement@ == statement@,
        },
{
    match first {
        None => Ok(0),
        Some(Some(v)) => Ok(v),
        Some(None) => Err(QueryFailed { statement: String::from_str(statement) }),
    }
}

/// Turns the database's answer to `statement` into a count: an execution
/// error fails; otherwise the first row's first column decides, as
/// `count_of_first_row` says, and any later rows are not read.
pub fn count_from_reply(
    statement: &str,
    reply: Result<Vec<tokio_postgres::Row>, tokio_postgres::Error>,
) -> (r: Result<i64, QueryFailed>)
    ensures
        reply is Err ==> r is Err,
        reply is Ok && reply->Ok_0@.len() == 0 ==> r == Ok::<i64, QueryFailed>(0),
        reply is Ok && reply->Ok_0@.len() > 0 ==> match count_of_spec(
            Some(first_column_of(reply->Ok_0@[0])),
        ) {
            Some(v) => r == Ok::<i64, QueryFailed>(v),
            None => r is Err,
        },
        r is Err ==> r->Err_0.statement@ == statement@,
{
    match reply {
        Err(_) => Err(QueryFailed { statement: String::from_str(statement) }),
        Ok(rows) => {
            if rows.len() == 0 {
                count_of_first_row(statement, None)
            } else {
                let c = first_column_i64(&rows[0]);
                count_of_first_row(statement, Some(c))
            }
        },
    }
}

/// What a row holds in its first column, read as a 64-bit integer: `None`
/// where the row has no column, or the first one is NULL or of another type.
pub uninterp spec fn first_column_of(row: tokio_postgres::Row) -> Option<i64>;

/// Relies on tokio_postgres::Row::try_get: the first column read as a
/// 64-bit integer, or `None` where the row has no such column or it holds
/// another type. It does not panic, and depends on the row alone.
#[verifier::external_body]
fn first_column_i64(row: &tokio_postgres::Row) -> (r: Option<i64>)
    ensures
        r == first_column_of(*row),
{
    row.try_get::<usize, i64>(0).ok()
}

} // verus!
