//! The publisher's side of a snapshot: one InfluxDB point that carries every
//! counter as a field and the capture time as its timestamp.

use vstd::prelude::*;
use crate::stats::{LemmyStats, Metric, METRIC_COUNT, lemma_metric_index, metric_index};

verus! {

#[verifier::external_type_specification]
#[verifier::external_body]
pub struct ExWriteQuery(influxdb::WriteQuery);

/// The fields of a point, in the order they were added, each as its name and
/// signed-integer value. Every point built here holds only such fields.
pub uninterp spec fn point_fields(q: influxdb::WriteQuery) -> Seq<(Seq<char>, i64)>;

/// The measurement a point is written to.
pub uninterp spec fn point_measurement(q: influxdb::WriteQuery) -> Seq<char>;

/// The timestamp of a point, in microseconds since the Unix epoch.
pub uninterp spec fn point_time_micros(q: influxdb::WriteQuery) -> int;

/// Relies on influxdb::WriteQuery::new, given a Timestamp::Microseconds: a
/// point with that time and measurement, and no fields or tags yet.
#[verifier::external_body]
fn new_point(micros: u64, measurement: &str) -> (q: influxdb::WriteQuery)
    ensures
        point_fields(q) == Seq::<(Seq<char>, i64)>::empty(),
        point_measurement(q) == measurement@,
        point_time_micros(q) == micros as int,
{
    influxdb::WriteQuery::new(influxdb::Timestamp::Microseconds(micros as u128), measurement)
}

/// Relies on influxdb::WriteQuery::add_field: the field goes after those
/// already there, as a signed integer; time and measurement stay.
#[verifier::external_body]
fn add_i64_field(q: influxdb::WriteQuery, name: &str, value: i64) -> (r: influxdb::WriteQuery)
    ensures
        point_fields(r) == point_fields(q).push((name@, value)),
        point_measurement(r) == point_measurement(q),
        point_time_micros(r) == point_time_micros(q),
{
    q.add_field(name, value)
}

/// The measurement every snapshot is written to.
pub open spec fn measurement_name() -> Seq<char> {
    "stats"@
}

impl LemmyStats {
    /// Every counter as a named field, in collection order.
    pub open spec fn fields_spec(self) -> Seq<(Seq<char>, i64)> {
        Seq::new(
            METRIC_COUNT as nat,
            |i: int| (Metric::at_spec(i).name_spec(), self.field(Metric::at_spec(i))),
        )
    }

    /// The point that publishes this snapshot: measurement `stats`, the
    /// capture time as timestamp, and every counter as a field.
    pub fn to_point(&self) -> (q: influxdb::WriteQuery)
        ensures
            point_measurement(q) == measurement_name(),
            point_time_micros(q) == self.captured_at as int,
            point_fields(q) == self.fields_spec(),
    {
        let mut q = new_point(self.captured_at, "stats");
        let mut i: usize = 0;
        while i < METRIC_COUNT
            invariant
                i <= METRIC_COUNT,
                point_measurement(q) == measurement_name(),
                point_time_micros(q) == self.captured_at as int,
                point_fields(q) == self.fields_spec().take(i as int),
            decreases METRIC_COUNT - i,
        {
            let m = Metric::at(i);
            q = add_i64_field(q, m.name(), self.get(m));
            assert(self.fields_spec().take(i + 1) == self.fields_spec().take(i as int).push(
                (m.name_spec(), self.field(m)),
            ));
            i = i + 1;
        }
        assert(self.fields_spec().take(METRIC_COUNT as int) == self.fields_spec());
        q
    }
}

/// The published point carries every counter, zero or not: one field per
/// metric, at the metric's position, under its name and with its value.
pub proof fn lemma_point_has_every_metric(stats: LemmyStats)
    ensures
        stats.fields_spec().len() == METRIC_COUNT,
        forall|m: Metric|
            #[trigger] stats.fields_spec()[metric_index(m)] == (m.name_spec(), stats.field(m)),
{
    assert forall|m: Metric|
        #[trigger] stats.fields_spec()[metric_index(m)] == (m.name_spec(), stats.field(m)) by {
        lemma_metric_index(m);
    }
}

} // verus!
