//! Tests of the storage-tier classifier.

use s3du::storage_class::StorageClass;

#[test]
fn test_from_str() {
    let tests = vec![
        // Labels used by the monitoring subsystem.
        ("DeepArchiveStorage", StorageClass::DeepArchive),
        ("DeepArchiveObjectOverhead", StorageClass::DeepArchive),
        ("DeepArchiveS3ObjectOverhead", StorageClass::DeepArchive),
        ("DeepArchiveStagingStorage", StorageClass::DeepArchive),
        ("GlacierObjectOverhead", StorageClass::Glacier),
        ("GlacierStorage", StorageClass::Glacier),
        ("GlacierStagingStorage", StorageClass::Glacier),
        ("GlacierS3ObjectOverhead", StorageClass::Glacier),
        ("IntelligentTieringStorage", StorageClass::IntelligentTiering),
        ("OneZoneIASizeOverhead", StorageClass::OneZoneIA),
        ("OneZoneIAStorage", StorageClass::OneZoneIA),
        ("ReducedRedundancyStorage", StorageClass::ReducedRedundancy),
        ("StandardIAObjectOverhead", StorageClass::StandardIA),
        ("StandardIASizeOverhead", StorageClass::StandardIA),
        ("StandardIAStorage", StorageClass::StandardIA),
        ("StandardStorage", StorageClass::Standard),
        // Labels used by the object store itself.
        ("DEEP_ARCHIVE", StorageClass::DeepArchive),
        ("GLACIER", StorageClass::Glacier),
        ("INTELLIGENT_TIERING", StorageClass::IntelligentTiering),
        ("ONEZONE_IA", StorageClass::OneZoneIA),
        ("REDUCED_REDUNDANCY", StorageClass::ReducedRedundancy),
        ("STANDARD", StorageClass::Standard),
        ("STANDARD_IA", StorageClass::StandardIA),
        // Unknown labels are preserved verbatim.
        ("Wat", StorageClass::Unknown("Wat".into())),
    ];

    for test in tests {
        let input = test.0;
        let expected = test.1;

        let ret = StorageClass::classify(input);

        assert_eq!(ret, expected);
    }
}

#[test]
fn test_into_string() {
    let tests = vec![
        (StorageClass::DeepArchive, "DeepArchive"),
        (StorageClass::Glacier, "Glacier"),
        (StorageClass::IntelligentTiering, "IntelligentTiering"),
        (StorageClass::OneZoneIA, "OneZoneIA"),
        (StorageClass::ReducedRedundancy, "ReducedRedundancy"),
        (StorageClass::Standard, "Standard"),
        (StorageClass::StandardIA, "StandardIA"),
        (StorageClass::Unknown("test".into()), "test"),
    ];

    for test in tests {
        let storage_class = test.0;
        let expected = test.1;

        let ret = storage_class.to_display_string();

        assert_eq!(ret, expected);
    }
}

#[test]
fn test_classify_round_trip_scenarios() {
    assert_eq!(StorageClass::classify("GLACIER"), StorageClass::Glacier);
    assert_eq!(
        StorageClass::classify("Wat"),
        StorageClass::Unknown("Wat".into()),
    );
    assert_eq!(
        StorageClass::Unknown("Wat".into()).to_display_string(),
        "Wat",
    );
    // Every label of the classification table round-trips to its tier's
    // canonical name.
    assert_eq!(
        StorageClass::classify("DeepArchiveStagingStorage").to_display_string(),
        "DeepArchive",
    );
    assert_eq!(
        StorageClass::classify("STANDARD_IA").to_display_string(),
        "StandardIA",
    );
}
