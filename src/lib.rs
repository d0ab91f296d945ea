//! Collects a fixed set of aggregate counts from a Lemmy database into one
//! timestamped snapshot, and turns that snapshot into a single InfluxDB point.
//!
//! `stats` holds the snapshot record, `query` the aggregate statements and the
//! reading of their answers, `point` the InfluxDB point, `run` the state
//! machine of one collection run, and `trace` what holds of whole runs.

pub mod point;
pub mod query;
pub mod run;
pub mod stats;
pub mod trace;
