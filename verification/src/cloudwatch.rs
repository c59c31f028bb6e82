//! The metrics-driven sizing computation.
//!
//! This backend discovers buckets by sweeping the monitoring catalog for
//! the bucket-size metric (the grouping itself is in `metrics`), and sizes
//! a bucket with one statistics query scoped to that bucket's standard
//! storage tier over the most recent full day: the provider publishes the
//! measure roughly daily with a day's lag, so that window holds the latest
//! available point. Only the standard tier is queried; callers needing a
//! cross-tier total through this backend must issue one query per tier,
//! a named limitation of this path.

use vstd::prelude::*;

use crate::metrics::{Dimension, DimensionModel, MetricSeries, MetricSeriesModel};
use crate::pagination::Page;

verus! {

/// Seconds in one day: the statistics period, chosen so the query window
/// holds at most one point.
pub const SECONDS_PER_DAY: i64 = 86400;

/// The upper bound of the timestamps the query builder accepts; the
/// formatter is relied on below this bound only.
pub const MAX_QUERY_SECS: i64 = 253_402_300_800;

/// The RFC 3339 text, in UTC with a `Z` suffix and whole seconds, of a
/// UNIX timestamp: a function of the timestamp alone.
pub uninterp spec fn rfc3339_of(secs: i64) -> Seq<char>;

/// Relies on chrono's `DateTime::from_timestamp` and `to_rfc3339_opts`:
/// together they format a UNIX timestamp as RFC 3339 text in UTC (whole
/// seconds, `Z` suffix), and the result depends on the timestamp alone.
/// `from_timestamp` returns a value for every timestamp admitted here.
#[verifier::external_body]
fn rfc3339_utc(secs: i64) -> (r: String)
    requires
        0 <= secs < MAX_QUERY_SECS,
    ensures
        r@ == rfc3339_of(secs),
{
    match chrono::DateTime::from_timestamp(secs, 0) {
        Some(dt) => dt.to_rfc3339_opts(chrono::SecondsFormat::Secs, true),
        None => String::new(),
    }
}

/// One statistics query, ready for the caller to send: which metric, for
/// which bucket and tier, over which window.
#[derive(Debug, Clone, PartialEq, Eq)]
pub struct MetricStatisticsQuery {
    pub namespace: String,
    pub metric_name: String,
    pub dimensions: Vec<Dimension>,
    pub start_time: String,
    pub end_time: String,
    pub period: i64,
}

/// Builds the statistics query that sizes `bucket`: the bucket-size
/// metric of the storage namespace, scoped to the bucket's standard
/// storage tier, over the day ending at `now_secs`, with a one-day
/// period.
pub fn build_size_query(bucket: &str, now_secs: i64) -> (r: MetricStatisticsQuery)
    requires
        SECONDS_PER_DAY <= now_secs < MAX_QUERY_SECS,
    ensures
        r.namespace@ == "AWS/S3"@,
        r.metric_name@ == "BucketSizeBytes"@,
        r.dimensions.deep_view() == seq![
            DimensionModel { name: "BucketName"@, value: bucket@ },
            DimensionModel { name: "StorageType"@, value: "StandardStorage"@ },
        ],
        r.start_time@ == rfc3339_of((now_secs - SECONDS_PER_DAY) as i64),
        r.end_time@ == rfc3339_of(now_secs),
        r.period == SECONDS_PER_DAY,
{
    let start_time = rfc3339_utc(now_secs - SECONDS_PER_DAY);
    let end_time = rfc3339_utc(now_secs);
    let mut dimensions: Vec<Dimension> = Vec::new();
    dimensions.push(Dimension { name: "BucketName".to_owned(), value: bucket.to_owned() });
    dimensions.push(
        Dimension { name: "StorageType".to_owned(), value: "StandardStorage".to_owned() },
    );
    proof {
        assert(dimensions.deep_view() =~~= seq![
            DimensionModel { name: "BucketName"@, value: bucket@ },
            DimensionModel { name: "StorageType"@, value: "StandardStorage"@ },
        ]);
    }
    MetricStatisticsQuery {
        namespace: "AWS/S3".to_owned(),
        metric_name: "BucketSizeBytes".to_owned(),
        dimensions,
        start_time,
        end_time,
        period: SECONDS_PER_DAY,
    }
}

/// One statistic point of the sizing query: when it was measured and the
/// measured size in bytes.
#[derive(Debug, Clone, Copy, PartialEq, Eq, Structural)]
pub struct Datapoint {
    pub timestamp_secs: i64,
    pub bytes: u64,
}

/// The most recent point of a statistics response; of points measured at
/// the same instant, the first listed. `None` for an empty response.
pub open spec fn latest_point(s: Seq<Datapoint>) -> Option<Datapoint>
    decreases s.len(),
{
    if s.len() == 0 {
        None
    } else {
        match latest_point(s.drop_last()) {
            None => Some(s.last()),
            Some(b) => if s.last().timestamp_secs > b.timestamp_secs {
                Some(s.last())
            } else {
                Some(b)
            },
        }
    }
}

/// The size the sizing query reports: the most recent point's bytes, and
/// zero when no statistic is published yet — the documented "no data
/// yet" answer for a new or inactive bucket, not an error.
pub open spec fn latest_bytes(s: Seq<Datapoint>) -> u64 {
    match latest_point(s) {
        None => 0,
        Some(d) => d.bytes,
    }
}

/// Picks the sizing answer out of a statistics response: the most recent
/// point's size, or zero when the response holds no point.
pub fn latest_datapoint_bytes(points: &Vec<Datapoint>) -> (r: u64)
    ensures
        r == latest_bytes(points@),
{
    let mut best: Option<Datapoint> = None;
    let mut i: usize = 0;
    while i < points.len()
        invariant
            i <= points.len(),
            best == latest_point(points@.take(i as int)),
        decreases points.len() - i,
    {
        proof {
            assert(points@.take(i as int + 1).drop_last() =~= points@.take(i as int));
            assert(points@.take(i as int + 1).last() == points@[i as int]);
        }
        let replace = match best {
            None => true,
            Some(b) => points[i].timestamp_secs > b.timestamp_secs,
        };
        if replace {
            best = Some(points[i]);
        }
        i += 1;
    }
    proof {
        assert(points@.take(points.len() as int) =~= points@);
    }
    match best {
        None => 0,
        Some(d) => d.bytes,
    }
}

/// Shapes a metric-catalog response into a page for the pager. This
/// provider convention signals truncation by token presence: a returned
/// token continues the sweep and its absence ends it.
pub fn metrics_page(
    metrics: Option<Vec<MetricSeries>>,
    next_token: Option<String>,
) -> (r: Page<MetricSeries, String>)
    ensures
        r.items.deep_view() == (match metrics {
            Some(m) => m.deep_view(),
            None => Seq::<MetricSeriesModel>::empty(),
        }),
        r.next == next_token,
{
    let items = match metrics {
        Some(m) => m,
        None => Vec::new(),
    };
    Page { items, next: next_token }
}

} // verus!
