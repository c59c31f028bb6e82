//! Tests of bucket-name extraction and region-aware filtering.

use s3du::common::{Bucket, Region};
use s3du::discovery::{
    collect_bucket_names, discover_metric_buckets, filter_bucket_names, region_from_location,
    select_in_region,
};
use s3du::metrics::{Dimension, MetricSeries};

fn bucket(name: &str, region: Option<&str>) -> Bucket {
    Bucket {
        name: name.into(),
        region: region.map(|r| Region { name: r.into() }),
        storage_types: None,
    }
}

#[test]
fn test_bucketlist_from() {
    let listed = vec![Some("a-bucket".to_string()), Some("another-bucket".to_string())];

    let mut bucket_names = collect_bucket_names(listed);
    bucket_names.sort();

    let expected = vec!["a-bucket", "another-bucket"];

    assert_eq!(bucket_names, expected);
}

#[test]
fn test_collect_skips_nameless_entries() {
    let listed = vec![None, Some("kept".to_string()), None];
    assert_eq!(collect_bucket_names(listed), vec!["kept"]);
}

#[test]
fn test_filter_bucket_names() {
    let names = vec!["alpha".to_string(), "beta".to_string(), "alpha".to_string()];

    // No filter configured: the listing passes through unchanged.
    let kept = filter_bucket_names(names.clone(), &None);
    assert_eq!(kept, names);

    // A configured name keeps exactly its case-sensitive matches.
    let kept = filter_bucket_names(names.clone(), &Some("alpha".to_string()));
    assert_eq!(kept, vec!["alpha", "alpha"]);

    let kept = filter_bucket_names(names, &Some("Alpha".to_string()));
    assert!(kept.is_empty());
}

#[test]
fn test_region_from_location() {
    assert_eq!(region_from_location(Some("eu-west-1".into())).name, "eu-west-1");
    // An empty or absent constraint means the provider's primary region.
    assert_eq!(region_from_location(Some("".into())).name, "us-east-1");
    assert_eq!(region_from_location(None).name, "us-east-1");
}

#[test]
fn test_select_in_region() {
    let buckets = vec![
        bucket("local-one", Some("us-east-1")),
        bucket("remote", Some("eu-west-1")),
        bucket("local-two", Some("us-east-1")),
        bucket("unresolved", None),
    ];

    let kept = select_in_region(buckets, &Region { name: "us-east-1".into() });

    let names: Vec<String> = kept.iter().map(|b| b.name.clone()).collect();
    assert_eq!(names, vec!["local-one", "local-two"]);
}

#[test]
fn test_discover_metric_buckets() {
    let series = |name: &str| MetricSeries {
        metric_name: Some("BucketSizeBytes".into()),
        namespace: Some("AWS/S3".into()),
        dimensions: Some(vec![Dimension { name: "BucketName".into(), value: name.into() }]),
    };
    let swept = vec![series("b1"), series("b2"), series("b1")];

    let mut names = discover_metric_buckets(&swept, &None);
    names.sort();
    assert_eq!(names, vec!["b1", "b2"]);

    let names = discover_metric_buckets(&swept, &Some("b2".to_string()));
    assert_eq!(names, vec!["b2"]);

    let names = discover_metric_buckets(&swept, &Some("absent".to_string()));
    assert!(names.is_empty());
}
