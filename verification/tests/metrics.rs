//! Tests of metric-series grouping and bucket-name extraction.

use s3du::metrics::{BucketMetrics, Dimension, MetricSeries};

fn series(dimensions: Option<Vec<(&str, &str)>>) -> MetricSeries {
    MetricSeries {
        metric_name: Some("BucketSizeBytes".into()),
        namespace: Some("AWS/S3".into()),
        dimensions: dimensions.map(|dims| {
            dims.into_iter()
                .map(|(name, value)| Dimension { name: name.into(), value: value.into() })
                .collect()
        }),
    }
}

#[test]
fn test_bucket_metrics_from() {
    let metrics = vec![
        series(Some(vec![
            ("StorageType", "StandardStorage"),
            ("BucketName", "some-bucket-name"),
            ("StorageType", "StandardIAStorage"),
        ])),
        series(Some(vec![
            ("StorageType", "StandardStorage"),
            ("BucketName", "some-other-bucket-name"),
        ])),
    ];

    let metrics = BucketMetrics::from_series(&metrics);

    let types = metrics
        .storage_types_for(&"some-bucket-name".to_string())
        .expect("entry for some-bucket-name");
    assert_eq!(types, vec!["StandardStorage", "StandardIAStorage"]);

    let types = metrics
        .storage_types_for(&"some-other-bucket-name".to_string())
        .expect("entry for some-other-bucket-name");
    assert_eq!(types, vec!["StandardStorage"]);

    assert_eq!(metrics.bucket_names().len(), 2);
}

#[test]
fn test_bucket_names() {
    let metrics = vec![
        series(Some(vec![
            ("StorageType", "StandardStorage"),
            ("BucketName", "some-bucket-name"),
            ("StorageType", "StandardIAStorage"),
        ])),
        series(Some(vec![
            ("StorageType", "StandardStorage"),
            ("BucketName", "some-other-bucket-name"),
        ])),
    ];

    let metrics = BucketMetrics::from_series(&metrics);

    let expected = vec!["some-bucket-name", "some-other-bucket-name"];

    let mut ret = metrics.bucket_names();

    // Without sorting the order will be flakey
    ret.sort();

    assert_eq!(ret, expected);
}

#[test]
fn test_grouping_scenario() {
    // Series for b1 arrive in two installments; b2 has one.
    let metrics = vec![
        series(Some(vec![
            ("BucketName", "b1"),
            ("StorageType", "StandardStorage"),
        ])),
        series(Some(vec![
            ("BucketName", "b1"),
            ("StorageType", "StandardIAStorage"),
        ])),
        series(Some(vec![
            ("BucketName", "b2"),
            ("StorageType", "StandardStorage"),
        ])),
    ];

    let grouped = BucketMetrics::from_series(&metrics);

    let mut names = grouped.bucket_names();
    names.sort();
    assert_eq!(names, vec!["b1", "b2"]);

    // b1's tiers are collected across its series, in order, duplicates
    // preserved.
    let types = grouped.storage_types_for(&"b1".to_string()).unwrap();
    assert_eq!(types, vec!["StandardStorage", "StandardIAStorage"]);
    let types = grouped.storage_types_for(&"b2".to_string()).unwrap();
    assert_eq!(types, vec!["StandardStorage"]);
}

#[test]
fn test_grouping_skips_unattributable_series() {
    let metrics = vec![
        // No dimensions at all: skipped.
        series(None),
        // Dimensions, but no bucket name: skipped.
        series(Some(vec![("StorageType", "StandardStorage")])),
        series(Some(vec![("BucketName", "kept")])),
    ];

    let grouped = BucketMetrics::from_series(&metrics);
    assert_eq!(grouped.bucket_names(), vec!["kept"]);
    let types = grouped.storage_types_for(&"kept".to_string()).unwrap();
    assert!(types.is_empty());
    assert!(grouped.storage_types_for(&"missing".to_string()).is_none());
}

#[test]
fn test_grouping_preserves_duplicate_types() {
    let metrics = vec![
        series(Some(vec![
            ("BucketName", "b"),
            ("StorageType", "StandardStorage"),
        ])),
        series(Some(vec![
            ("BucketName", "b"),
            ("StorageType", "StandardStorage"),
        ])),
    ];

    let grouped = BucketMetrics::from_series(&metrics);
    let types = grouped.storage_types_for(&"b".to_string()).unwrap();
    assert_eq!(types, vec!["StandardStorage", "StandardStorage"]);
}
