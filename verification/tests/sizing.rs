//! Tests of the two sizing computations and the pagination protocol.

use s3du::cloudwatch::{build_size_query, latest_datapoint_bytes, metrics_page, Datapoint};
use s3du::metrics::MetricSeries;
use s3du::pagination::Pager;
use s3du::s3::{objects_page, sum_object_sizes, versions_page, ObjectEntry, SizingState};

fn object(key: &str, size: Option<u64>) -> ObjectEntry {
    ObjectEntry { key: Some(key.into()), size }
}

#[test]
fn s3_test_bucket_size() {
    let objects = vec![object("file1", Some(1024)), object("file2", Some(32768))];

    let ret = sum_object_sizes(&objects);

    let expected = 33792;

    assert_eq!(ret, expected);
}

#[test]
fn bucket_sizer_test_bucket_size() {
    // The same listing, driven through the per-page accumulator a caller
    // uses while paginating.
    let mut sizing = SizingState::new();
    sizing.add_page(&vec![object("file1", Some(1024)), object("file2", Some(32768))]);

    let expected = 33792;

    assert_eq!(sizing.total, expected);
}

#[test]
fn test_missing_sizes_count_as_zero() {
    let objects = vec![
        object("file1", Some(1024)),
        // A delete marker carries no size.
        object("marker", None),
        object("file2", Some(32768)),
    ];

    assert_eq!(sum_object_sizes(&objects), 33792);
}

#[test]
fn test_sizing_accumulates_across_pages() {
    let mut sizing = SizingState::new();
    sizing.add_page(&vec![object("a", Some(1)), object("b", Some(2))]);
    sizing.add_page(&vec![]);
    sizing.add_page(&vec![object("c", Some(39))]);
    assert_eq!(sizing.total, 42);
}

#[test]
fn test_pagination_accumulates_all_pages() {
    // Three pages with a token chain; the pager must collect exactly the
    // items of the equivalent unpaginated listing.
    let mut pager: Pager<ObjectEntry, String> = Pager::new();
    assert!(pager.cursor.is_none());
    assert!(!pager.done);

    pager.step(objects_page(
        Some(vec![object("file1", Some(1))]),
        Some(true),
        Some("token-1".into()),
    ));
    assert!(!pager.done);
    assert_eq!(pager.cursor, Some("token-1".into()));

    pager.step(objects_page(
        Some(vec![object("file2", Some(2)), object("file3", Some(3))]),
        Some(true),
        Some("token-2".into()),
    ));
    assert!(!pager.done);
    assert_eq!(pager.cursor, Some("token-2".into()));

    pager.step(objects_page(Some(vec![object("file4", Some(4))]), Some(false), None));
    assert!(pager.done);
    assert!(pager.cursor.is_none());

    let keys: Vec<String> = pager.items.iter().map(|o| o.key.clone().unwrap()).collect();
    assert_eq!(keys, vec!["file1", "file2", "file3", "file4"]);
    assert_eq!(pager.items.len(), 4);
}

#[test]
fn test_objects_page_truncation_signals() {
    // Not truncated: any token in the response is not a continuation.
    let page = objects_page(None, Some(false), Some("ignored".into()));
    assert!(page.items.is_empty());
    assert!(page.next.is_none());

    // Missing flag ends the listing too.
    let page = objects_page(Some(vec![object("k", None)]), None, Some("ignored".into()));
    assert_eq!(page.items.len(), 1);
    assert!(page.next.is_none());
}

#[test]
fn test_versions_page_markers() {
    let page = versions_page(
        Some(vec![object("k", Some(7))]),
        Some(true),
        Some("key-marker".into()),
        Some("version-marker".into()),
    );
    let marker = page.next.expect("truncated listing continues");
    assert_eq!(marker.key_marker, Some("key-marker".into()));
    assert_eq!(marker.version_id_marker, Some("version-marker".into()));

    let page = versions_page(Some(vec![]), Some(false), Some("k".into()), None);
    assert!(page.next.is_none());
}

#[test]
fn test_metrics_page_token_presence() {
    let series = MetricSeries {
        metric_name: Some("BucketSizeBytes".into()),
        namespace: Some("AWS/S3".into()),
        dimensions: None,
    };
    let page = metrics_page(Some(vec![series]), Some("next".into()));
    assert_eq!(page.items.len(), 1);
    assert_eq!(page.next, Some("next".into()));

    let page = metrics_page(None, None);
    assert!(page.items.is_empty());
    assert!(page.next.is_none());
}

#[test]
fn test_build_size_query() {
    // Two days into the epoch: the window is the most recent full day.
    let query = build_size_query("test-bucket", 2 * 86400);

    assert_eq!(query.namespace, "AWS/S3");
    assert_eq!(query.metric_name, "BucketSizeBytes");
    assert_eq!(query.period, 86400);
    assert_eq!(query.start_time, "1970-01-02T00:00:00Z");
    assert_eq!(query.end_time, "1970-01-03T00:00:00Z");

    assert_eq!(query.dimensions.len(), 2);
    assert_eq!(query.dimensions[0].name, "BucketName");
    assert_eq!(query.dimensions[0].value, "test-bucket");
    assert_eq!(query.dimensions[1].name, "StorageType");
    assert_eq!(query.dimensions[1].value, "StandardStorage");
}

#[test]
fn test_latest_datapoint_bytes() {
    // No data published yet: zero, not an error.
    assert_eq!(latest_datapoint_bytes(&vec![]), 0);

    let points = vec![
        Datapoint { timestamp_secs: 100, bytes: 10 },
        Datapoint { timestamp_secs: 300, bytes: 30 },
        Datapoint { timestamp_secs: 200, bytes: 20 },
    ];
    assert_eq!(latest_datapoint_bytes(&points), 30);

    // Of two points at the same instant, the first listed wins.
    let points = vec![
        Datapoint { timestamp_secs: 300, bytes: 31 },
        Datapoint { timestamp_secs: 300, bytes: 32 },
    ];
    assert_eq!(latest_datapoint_bytes(&points), 31);
}
