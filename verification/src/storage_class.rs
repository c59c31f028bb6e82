//! Normalization of raw storage-tier labels into a canonical tag set.
//!
//! Both the monitoring subsystem and the object store report the same
//! user-facing storage class under several provider-specific labels
//! (overhead-accounting variants, staging variants, upper-case wire names).
//! `classify` collapses them onto one canonical tier and keeps any
//! unrecognized label verbatim in `StorageClass::Unknown`, so new provider
//! tiers never cause a hard failure.

use vstd::prelude::*;

use crate::text::str_eq;

verus! {

/// A canonical storage tier, with a catch-all variant that preserves the
/// original label of any unrecognized tier.
#[derive(Debug, Clone, PartialEq, Eq)]
pub enum StorageClass {
    DeepArchive,
    Glacier,
    IntelligentTiering,
    OneZoneIA,
    ReducedRedundancy,
    Standard,
    StandardIA,
    Unknown(String),
}

/// The mathematical model of a `StorageClass`: the same tags, with the
/// preserved label as a sequence of characters.
pub enum StorageClassTag {
    DeepArchive,
    Glacier,
    IntelligentTiering,
    OneZoneIA,
    ReducedRedundancy,
    Standard,
    StandardIA,
    Unknown(Seq<char>),
}

impl DeepView for StorageClass {
    type V = StorageClassTag;

    open spec fn deep_view(&self) -> StorageClassTag {
        self.view()
    }
}

impl View for StorageClass {
    type V = StorageClassTag;

    open spec fn view(&self) -> StorageClassTag {
        match self {
            StorageClass::DeepArchive => StorageClassTag::DeepArchive,
            StorageClass::Glacier => StorageClassTag::Glacier,
            StorageClass::IntelligentTiering => StorageClassTag::IntelligentTiering,
            StorageClass::OneZoneIA => StorageClassTag::OneZoneIA,
            StorageClass::ReducedRedundancy => StorageClassTag::ReducedRedundancy,
            StorageClass::Standard => StorageClassTag::Standard,
            StorageClass::StandardIA => StorageClassTag::StandardIA,
            StorageClass::Unknown(s) => StorageClassTag::Unknown(s@),
        }
    }
}

/// The classification table: which tier a raw label denotes.
pub open spec fn spec_classify(s: Seq<char>) -> StorageClassTag {
    // Labels used by the monitoring subsystem.
    if s == "DeepArchiveStorage"@ { StorageClassTag::DeepArchive }
    else if s == "DeepArchiveObjectOverhead"@ { StorageClassTag::DeepArchive }
    else if s == "DeepArchiveS3ObjectOverhead"@ { StorageClassTag::DeepArchive }
    else if s == "DeepArchiveStagingStorage"@ { StorageClassTag::DeepArchive }
    else if s == "GlacierObjectOverhead"@ { StorageClassTag::Glacier }
    else if s == "GlacierStorage"@ { StorageClassTag::Glacier }
    else if s == "GlacierStagingStorage"@ { StorageClassTag::Glacier }
    else if s == "GlacierS3ObjectOverhead"@ { StorageClassTag::Glacier }
    else if s == "IntelligentTieringStorage"@ { StorageClassTag::IntelligentTiering }
    else if s == "OneZoneIASizeOverhead"@ { StorageClassTag::OneZoneIA }
    else if s == "OneZoneIAStorage"@ { StorageClassTag::OneZoneIA }
    else if s == "ReducedRedundancyStorage"@ { StorageClassTag::ReducedRedundancy }
    else if s == "StandardIAObjectOverhead"@ { StorageClassTag::StandardIA }
    else if s == "StandardIASizeOverhead"@ { StorageClassTag::StandardIA }
    else if s == "StandardIAStorage"@ { StorageClassTag::StandardIA }
    else if s == "StandardStorage"@ { StorageClassTag::Standard }
    // Labels used by the object store itself.
    else if s == "DEEP_ARCHIVE"@ { StorageClassTag::DeepArchive }
    else if s == "GLACIER"@ { StorageClassTag::Glacier }
    else if s == "INTELLIGENT_TIERING"@ { StorageClassTag::IntelligentTiering }
    else if s == "ONEZONE_IA"@ { StorageClassTag::OneZoneIA }
    else if s == "REDUCED_REDUNDANCY"@ { StorageClassTag::ReducedRedundancy }
    else if s == "STANDARD"@ { StorageClassTag::Standard }
    else if s == "STANDARD_IA"@ { StorageClassTag::StandardIA }
    else { StorageClassTag::Unknown(s) }
}

/// Whether a raw label is in the classification table.
pub open spec fn is_known_label(s: Seq<char>) -> bool {
    !(spec_classify(s) matches StorageClassTag::Unknown(_))
}

/// The canonical display name of a tier; an unknown tier displays as its
/// original label.
pub open spec fn spec_display(c: StorageClassTag) -> Seq<char> {
    match c {
        StorageClassTag::DeepArchive => "DeepArchive"@,
        StorageClassTag::Glacier => "Glacier"@,
        StorageClassTag::IntelligentTiering => "IntelligentTiering"@,
        StorageClassTag::OneZoneIA => "OneZoneIA"@,
        StorageClassTag::ReducedRedundancy => "ReducedRedundancy"@,
        StorageClassTag::Standard => "Standard"@,
        StorageClassTag::StandardIA => "StandardIA"@,
        StorageClassTag::Unknown(s) => s,
    }
}

impl StorageClass {
    /// Normalizes a raw storage-tier label. Pure and total: every label maps
    /// to exactly one tier, and an unrecognized label is preserved verbatim
    /// in `Unknown` rather than rejected.
    pub fn classify(s: &str) -> (r: StorageClass)
        ensures
            r@ == spec_classify(s@),
    {
        if str_eq(s, "DeepArchiveStorage") { StorageClass::DeepArchive }
        else if str_eq(s, "DeepArchiveObjectOverhead") { StorageClass::DeepArchive }
        else if str_eq(s, "DeepArchiveS3ObjectOverhead") { StorageClass::DeepArchive }
        else if str_eq(s, "DeepArchiveStagingStorage") { StorageClass::DeepArchive }
        else if str_eq(s, "GlacierObjectOverhead") { StorageClass::Glacier }
        else if str_eq(s, "GlacierStorage") { StorageClass::Glacier }
        else if str_eq(s, "GlacierStagingStorage") { StorageClass::Glacier }
        else if str_eq(s, "GlacierS3ObjectOverhead") { StorageClass::Glacier }
        else if str_eq(s, "IntelligentTieringStorage") { StorageClass::IntelligentTiering }
        else if str_eq(s, "OneZoneIASizeOverhead") { StorageClass::OneZoneIA }
        else if str_eq(s, "OneZoneIAStorage") { StorageClass::OneZoneIA }
        else if str_eq(s, "ReducedRedundancyStorage") { StorageClass::ReducedRedundancy }
        else if str_eq(s, "StandardIAObjectOverhead") { StorageClass::StandardIA }
        else if str_eq(s, "StandardIASizeOverhead") { StorageClass::StandardIA }
        else if str_eq(s, "StandardIAStorage") { StorageClass::StandardIA }
        else if str_eq(s, "StandardStorage") { StorageClass::Standard }
        else if str_eq(s, "DEEP_ARCHIVE") { StorageClass::DeepArchive }
        else if str_eq(s, "GLACIER") { StorageClass::Glacier }
        else if str_eq(s, "INTELLIGENT_TIERING") { StorageClass::IntelligentTiering }
        else if str_eq(s, "ONEZONE_IA") { StorageClass::OneZoneIA }
        else if str_eq(s, "REDUCED_REDUNDANCY") { StorageClass::ReducedRedundancy }
        else if str_eq(s, "STANDARD") { StorageClass::Standard }
        else if str_eq(s, "STANDARD_IA") { StorageClass::StandardIA }
        else { StorageClass::Unknown(s.to_owned()) }
    }

    /// Returns the canonical name of a known tier, and the original label
    /// verbatim for an unknown one.
    pub fn to_display_string(&self) -> (r: String)
        ensures
            r@ == spec_display(self@),
    {
        match self {
            StorageClass::DeepArchive => "DeepArchive".to_owned(),
            StorageClass::Glacier => "Glacier".to_owned(),
            StorageClass::IntelligentTiering => "IntelligentTiering".to_owned(),
            StorageClass::OneZoneIA => "OneZoneIA".to_owned(),
            StorageClass::ReducedRedundancy => "ReducedRedundancy".to_owned(),
            StorageClass::Standard => "Standard".to_owned(),
            StorageClass::StandardIA => "StandardIA".to_owned(),
            StorageClass::Unknown(s) => s.clone(),
        }
    }
}

/// Classification followed by display is the identity on any label outside
/// the classification table: the unrecognized input round-trips verbatim.
pub proof fn lemma_unknown_label_round_trips(s: Seq<char>)
    requires
        !is_known_label(s),
    ensures
        spec_display(spec_classify(s)) == s,
{
}

/// Classification followed by display takes every label of the
/// classification table to its tier's canonical name.
pub proof fn lemma_known_labels_display_canonically()
    ensures
        spec_display(spec_classify("DeepArchiveStorage"@)) == "DeepArchive"@,
        spec_display(spec_classify("DeepArchiveObjectOverhead"@)) == "DeepArchive"@,
        spec_display(spec_classify("DeepArchiveS3ObjectOverhead"@)) == "DeepArchive"@,
        spec_display(spec_classify("DeepArchiveStagingStorage"@)) == "DeepArchive"@,
        spec_display(spec_classify("GlacierObjectOverhead"@)) == "Glacier"@,
        spec_display(spec_classify("GlacierStorage"@)) == "Glacier"@,
        spec_display(spec_classify("GlacierStagingStorage"@)) == "Glacier"@,
        spec_display(spec_classify("GlacierS3ObjectOverhead"@)) == "Glacier"@,
        spec_display(spec_classify("IntelligentTieringStorage"@)) == "IntelligentTiering"@,
        spec_display(spec_classify("OneZoneIASizeOverhead"@)) == "OneZoneIA"@,
        spec_display(spec_classify("OneZoneIAStorage"@)) == "OneZoneIA"@,
        spec_display(spec_classify("ReducedRedundancyStorage"@)) == "ReducedRedundancy"@,
        spec_display(spec_classify("StandardIAObjectOverhead"@)) == "StandardIA"@,
        spec_display(spec_classify("StandardIASizeOverhead"@)) == "StandardIA"@,
        spec_display(spec_classify("StandardIAStorage"@)) == "StandardIA"@,
        spec_display(spec_classify("StandardStorage"@)) == "Standard"@,
        spec_display(spec_classify("DEEP_ARCHIVE"@)) == "DeepArchive"@,
        spec_display(spec_classify("GLACIER"@)) == "Glacier"@,
        spec_display(spec_classify("INTELLIGENT_TIERING"@)) == "IntelligentTiering"@,
        spec_display(spec_classify("ONEZONE_IA"@)) == "OneZoneIA"@,
        spec_display(spec_classify("REDUCED_REDUNDANCY"@)) == "ReducedRedundancy"@,
        spec_display(spec_classify("STANDARD"@)) == "Standard"@,
        spec_display(spec_classify("STANDARD_IA"@)) == "StandardIA"@,
{
    assert(spec_display(spec_classify("DeepArchiveStorage"@)) == "DeepArchive"@) by {
        broadcast use vstd::string::group_string_axioms;
        reveal_strlit("DeepArchiveStorage");
        assert("DeepArchiveStorage"@.len() == 18);
    }
    assert(spec_display(spec_classify("DeepArchiveObjectOverhead"@)) == "DeepArchive"@) by {
        broadcast use vstd::string::group_string_axioms;
        reveal_strlit("DeepArchiveStorage");
        reveal_strlit("DeepArchiveObjectOverhead");
        assert("DeepArchiveStorage"@.len() == 18);
        assert("DeepArchiveObjectOverhead"@.len() == 25);
    }
    assert(spec_display(spec_classify("DeepArchiveS3ObjectOverhead"@)) == "DeepArchive"@) by {
        broadcast use vstd::string::group_string_axioms;
        reveal_strlit("DeepArchiveStorage");
        reveal_strlit("DeepArchiveObjectOverhead");
        reveal_strlit("DeepArchiveS3ObjectOverhead");
        assert("DeepArchiveStorage"@.len() == 18);
        assert("DeepArchiveObjectOverhead"@.len() == 25);
        assert("DeepArchiveS3ObjectOverhead"@.len() == 27);
    }
    assert(spec_display(spec_classify("DeepArchiveStagingStorage"@)) == "DeepArchive"@) by {
        broadcast use vstd::string::group_string_axioms;
        reveal_strlit("DeepArchiveStorage");
        reveal_strlit("DeepArchiveObjectOverhead");
        reveal_strlit("DeepArchiveS3ObjectOverhead");
        reveal_strlit("DeepArchiveStagingStorage");
        assert("DeepArchiveStorage"@.len() == 18);
        assert("DeepArchiveObjectOverhead"@.len() == 25);
        assert("DeepArchiveS3ObjectOverhead"@.len() == 27);
        assert("DeepArchiveStagingStorage"@.len() == 25);
        assert("DeepArchiveStagingStorage"@[11] != "DeepArchiveObjectOverhead"@[11]);
        assert("DeepArchiveStagingStorage"@ != "DeepArchiveObjectOverhead"@);
    }
    assert(spec_display(spec_classify("GlacierObjectOverhead"@)) == "Glacier"@) by {
        broadcast use vstd::string::group_string_axioms;
        reveal_strlit("DeepArchiveStorage");
        reveal_strlit("DeepArchiveObjectOverhead");
        reveal_strlit("DeepArchiveS3ObjectOverhead");
        reveal_strlit("DeepArchiveStagingStorage");
        reveal_strlit("GlacierObjectOverhead");
        assert("DeepArchiveStorage"@.len() == 18);
        assert("DeepArchiveObjectOverhead"@.len() == 25);
        assert("DeepArchiveS3ObjectOverhead"@.len() == 27);
        assert("DeepArchiveStagingStorage"@.len() == 25);
        assert("GlacierObjectOverhead"@.len() == 21);
    }
    assert(spec_display(spec_classify("GlacierStorage"@)) == "Glacier"@) by {
        broadcast use vstd::string::group_string_axioms;
        reveal_strlit("DeepArchiveStorage");
        reveal_strlit("DeepArchiveObjectOverhead");
        reveal_strlit("DeepArchiveS3ObjectOverhead");
        reveal_strlit("DeepArchiveStagingStorage");
        reveal_strlit("GlacierObjectOverhead");
        reveal_strlit("GlacierStorage");
        assert("DeepArchiveStorage"@.len() == 18);
        assert("DeepArchiveObjectOverhead"@.len() == 25);
        assert("DeepArchiveS3ObjectOverhead"@.len() == 27);
        assert("DeepArchiveStagingStorage"@.len() == 25);
        assert("GlacierObjectOverhead"@.len() == 21);
        assert("GlacierStorage"@.len() == 14);
    }
    assert(spec_display(spec_classify("GlacierStagingStorage"@)) == "Glacier"@) by {
        broadcast use vstd::string::group_string_axioms;
        reveal_strlit("DeepArchiveStorage");
        reveal_strlit("DeepArchiveObjectOverhead");
        reveal_strlit("DeepArchiveS3ObjectOverhead");
        reveal_strlit("DeepArchiveStagingStorage");
        reveal_strlit("GlacierObjectOverhead");
        reveal_strlit("GlacierStorage");
        reveal_strlit("GlacierStagingStorage");
        assert("DeepArchiveStorage"@.len() == 18);
        assert("DeepArchiveObjectOverhead"@.len() == 25);
        assert("DeepArchiveS3ObjectOverhead"@.len() == 27);
        assert("DeepArchiveStagingStorage"@.len() == 25);
        assert("GlacierObjectOverhead"@.len() == 21);
        assert("GlacierStorage"@.len() == 14);
        assert("GlacierStagingStorage"@.len() == 21);
        assert("GlacierStagingStorage"@[7] != "GlacierObjectOverhead"@[7]);
        assert("GlacierStagingStorage"@ != "GlacierObjectOverhead"@);
    }
    assert(spec_display(spec_classify("GlacierS3ObjectOverhead"@)) == "Glacier"@) by {
        broadcast use vstd::string::group_string_axioms;
        reveal_strlit("DeepArchiveStorage");
        reveal_strlit("DeepArchiveObjectOverhead");
        reveal_strlit("DeepArchiveS3ObjectOverhead");
        reveal_strlit("DeepArchiveStagingStorage");
        reveal_strlit("GlacierObjectOverhead");
        reveal_strlit("GlacierStorage");
        reveal_strlit("GlacierStagingStorage");
        reveal_strlit("GlacierS3ObjectOverhead");
        assert("DeepArchiveStorage"@.len() == 18);
        assert("DeepArchiveObjectOverhead"@.len() == 25);
        assert("DeepArchiveS3ObjectOverhead"@.len() == 27);
        assert("DeepArchiveStagingStorage"@.len() == 25);
        assert("GlacierObjectOverhead"@.len() == 21);
        assert("GlacierStorage"@.len() == 14);
        assert("GlacierStagingStorage"@.len() == 21);
        assert("GlacierS3ObjectOverhead"@.len() == 23);
    }
    assert(spec_display(spec_classify("IntelligentTieringStorage"@)) == "IntelligentTiering"@) by {
        broadcast use vstd::string::group_string_axioms;
        reveal_strlit("DeepArchiveStorage");
        reveal_strlit("DeepArchiveObjectOverhead");
        reveal_strlit("DeepArchiveS3ObjectOverhead");
        reveal_strlit("DeepArchiveStagingStorage");
        reveal_strlit("GlacierObjectOverhead");
        reveal_strlit("GlacierStorage");
        reveal_strlit("GlacierStagingStorage");
        reveal_strlit("GlacierS3ObjectOverhead");
        reveal_strlit("IntelligentTieringStorage");
        assert("DeepArchiveStorage"@.len() == 18);
        assert("DeepArchiveObjectOverhead"@.len() == 25);
        assert("DeepArchiveS3ObjectOverhead"@.len() == 27);
        assert("DeepArchiveStagingStorage"@.len() == 25);
        assert("GlacierObjectOverhead"@.len() == 21);
        assert("GlacierStorage"@.len() == 14);
        assert("GlacierStagingStorage"@.len() == 21);
        assert("GlacierS3ObjectOverhead"@.len() == 23);
        assert("IntelligentTieringStorage"@.len() == 25);
        assert("IntelligentTieringStorage"@[0] != "DeepArchiveObjectOverhead"@[0]);
        assert("IntelligentTieringStorage"@ != "DeepArchiveObjectOverhead"@);
        assert("IntelligentTieringStorage"@[0] != "DeepArchiveStagingStorage"@[0]);
        assert("IntelligentTieringStorage"@ != "DeepArchiveStagingStorage"@);
    }
    assert(spec_display(spec_classify("OneZoneIASizeOverhead"@)) == "OneZoneIA"@) by {
        broadcast use vstd::string::group_string_axioms;
        reveal_strlit("DeepArchiveStorage");
        reveal_strlit("DeepArchiveObjectOverhead");
        reveal_strlit("DeepArchiveS3ObjectOverhead");
        reveal_strlit("DeepArchiveStagingStorage");
        reveal_strlit("GlacierObjectOverhead");
        reveal_strlit("GlacierStorage");
        reveal_strlit("GlacierStagingStorage");
        reveal_strlit("GlacierS3ObjectOverhead");
        reveal_strlit("IntelligentTieringStorage");
        reveal_strlit("OneZoneIASizeOverhead");
        assert("DeepArchiveStorage"@.len() == 18);
        assert("DeepArchiveObjectOverhead"@.len() == 25);
        assert("DeepArchiveS3ObjectOverhead"@.len() == 27);
        assert("DeepArchiveStagingStorage"@.len() == 25);
        assert("GlacierObjectOverhead"@.len() == 21);
        assert("GlacierStorage"@.len() == 14);
        assert("GlacierStagingStorage"@.len() == 21);
        assert("GlacierS3ObjectOverhead"@.len() == 23);
        assert("IntelligentTieringStorage"@.len() == 25);
        assert("OneZoneIASizeOverhead"@.len() == 21);
        assert("OneZoneIASizeOverhead"@[0] != "GlacierObjectOverhead"@[0]);
        assert("OneZoneIASizeOverhead"@ != "GlacierObjectOverhead"@);
        assert("OneZoneIASizeOverhead"@[0] != "GlacierStagingStorage"@[0]);
        assert("OneZoneIASizeOverhead"@ != "GlacierStagingStorage"@);
    }
    assert(spec_display(spec_classify("OneZoneIAStorage"@)) == "OneZoneIA"@) by {
        broadcast use vstd::string::group_string_axioms;
        reveal_strlit("DeepArchiveStorage");
        reveal_strlit("DeepArchiveObjectOverhead");
        reveal_strlit("DeepArchiveS3ObjectOverhead");
        reveal_strlit("DeepArchiveStagingStorage");
        reveal_strlit("GlacierObjectOverhead");
        reveal_strlit("GlacierStorage");
        reveal_strlit("GlacierStagingStorage");
        reveal_strlit("GlacierS3ObjectOverhead");
        reveal_strlit("IntelligentTieringStorage");
        reveal_strlit("OneZoneIASizeOverhead");
        reveal_strlit("OneZoneIAStorage");
        assert("DeepArchiveStorage"@.len() == 18);
        assert("DeepArchiveObjectOverhead"@.len() == 25);
        assert("DeepArchiveS3ObjectOverhead"@.len() == 27);
        assert("DeepArchiveStagingStorage"@.len() == 25);
        assert("GlacierObjectOverhead"@.len() == 21);
        assert("GlacierStorage"@.len() == 14);
        assert("GlacierStagingStorage"@.len() == 21);
        assert("GlacierS3ObjectOverhead"@.len() == 23);
        assert("IntelligentTieringStorage"@.len() == 25);
        assert("OneZoneIASizeOverhead"@.len() == 21);
        assert("OneZoneIAStorage"@.len() == 16);
    }
    assert(spec_display(spec_classify("ReducedRedundancyStorage"@)) == "ReducedRedundancy"@) by {
        broadcast use vstd::string::group_string_axioms;
        reveal_strlit("DeepArchiveStorage");
        reveal_strlit("DeepArchiveObjectOverhead");
        reveal_strlit("DeepArchiveS3ObjectOverhead");
        reveal_strlit("DeepArchiveStagingStorage");
        reveal_strlit("GlacierObjectOverhead");
        reveal_strlit("GlacierStorage");
        reveal_strlit("GlacierStagingStorage");
        reveal_strlit("GlacierS3ObjectOverhead");
        reveal_strlit("IntelligentTieringStorage");
        reveal_strlit("OneZoneIASizeOverhead");
        reveal_strlit("OneZoneIAStorage");
        reveal_strlit("ReducedRedundancyStorage");
        assert("DeepArchiveStorage"@.len() == 18);
        assert("DeepArchiveObjectOverhead"@.len() == 25);
        assert("DeepArchiveS3ObjectOverhead"@.len() == 27);
        assert("DeepArchiveStagingStorage"@.len() == 25);
        assert("GlacierObjectOverhead"@.len() == 21);
        assert("GlacierStorage"@.len() == 14);
        assert("GlacierStagingStorage"@.len() == 21);
        assert("GlacierS3ObjectOverhead"@.len() == 23);
        assert("IntelligentTieringStorage"@.len() == 25);
        assert("OneZoneIASizeOverhead"@.len() == 21);
        assert("OneZoneIAStorage"@.len() == 16);
        assert("ReducedRedundancyStorage"@.len() == 24);
    }
    assert(spec_display(spec_classify("StandardIAObjectOverhead"@)) == "StandardIA"@) by {
        broadcast use vstd::string::group_string_axioms;
        reveal_strlit("DeepArchiveStorage");
        reveal_strlit("DeepArchiveObjectOverhead");
        reveal_strlit("DeepArchiveS3ObjectOverhead");
        reveal_strlit("DeepArchiveStagingStorage");
        reveal_strlit("GlacierObjectOverhead");
        reveal_strlit("GlacierStorage");
        reveal_strlit("GlacierStagingStorage");
        reveal_strlit("GlacierS3ObjectOverhead");
        reveal_strlit("IntelligentTieringStorage");
        reveal_strlit("OneZoneIASizeOverhead");
        reveal_strlit("OneZoneIAStorage");
        reveal_strlit("ReducedRedundancyStorage");
        reveal_strlit("StandardIAObjectOverhead");
        assert("DeepArchiveStorage"@.len() == 18);
        assert("DeepArchiveObjectOverhead"@.len() == 25);
        assert("DeepArchiveS3ObjectOverhead"@.len() == 27);
        assert("DeepArchiveStagingStorage"@.len() == 25);
        assert("GlacierObjectOverhead"@.len() == 21);
        assert("GlacierStorage"@.len() == 14);
        assert("GlacierStagingStorage"@.len() == 21);
        assert("GlacierS3ObjectOverhead"@.len() == 23);
        assert("IntelligentTieringStorage"@.len() == 25);
        assert("OneZoneIASizeOverhead"@.len() == 21);
        assert("OneZoneIAStorage"@.len() == 16);
        assert("ReducedRedundancyStorage"@.len() == 24);
        assert("StandardIAObjectOverhead"@.len() == 24);
        assert("StandardIAObjectOverhead"@[0] != "ReducedRedundancyStorage"@[0]);
        assert("StandardIAObjectOverhead"@ != "ReducedRedundancyStorage"@);
    }
    assert(spec_display(spec_classify("StandardIASizeOverhead"@)) == "StandardIA"@) by {
        broadcast use vstd::string::group_string_axioms;
        reveal_strlit("DeepArchiveStorage");
        reveal_strlit("DeepArchiveObjectOverhead");
        reveal_strlit("DeepArchiveS3ObjectOverhead");
        reveal_strlit("DeepArchiveStagingStorage");
        reveal_strlit("GlacierObjectOverhead");
        reveal_strlit("GlacierStorage");
        reveal_strlit("GlacierStagingStorage");
        reveal_strlit("GlacierS3ObjectOverhead");
        reveal_strlit("IntelligentTieringStorage");
        reveal_strlit("OneZoneIASizeOverhead");
        reveal_strlit("OneZoneIAStorage");
        reveal_strlit("ReducedRedundancyStorage");
        reveal_strlit("StandardIAObjectOverhead");
        reveal_strlit("StandardIASizeOverhead");
        assert("DeepArchiveStorage"@.len() == 18);
        assert("DeepArchiveObjectOverhead"@.len() == 25);
        assert("DeepArchiveS3ObjectOverhead"@.len() == 27);
        assert("DeepArchiveStagingStorage"@.len() == 25);
        assert("GlacierObjectOverhead"@.len() == 21);
        assert("GlacierStorage"@.len() == 14);
        assert("GlacierStagingStorage"@.len() == 21);
        assert("GlacierS3ObjectOverhead"@.len() == 23);
        assert("IntelligentTieringStorage"@.len() == 25);
        assert("OneZoneIASizeOverhead"@.len() == 21);
        assert("OneZoneIAStorage"@.len() == 16);
        assert("ReducedRedundancyStorage"@.len() == 24);
        assert("StandardIAObjectOverhead"@.len() == 24);
        assert("StandardIASizeOverhead"@.len() == 22);
    }
    assert(spec_display(spec_classify("StandardIAStorage"@)) == "StandardIA"@) by {
        broadcast use vstd::string::group_string_axioms;
        reveal_strlit("DeepArchiveStorage");
        reveal_strlit("DeepArchiveObjectOverhead");
        reveal_strlit("DeepArchiveS3ObjectOverhead");
        reveal_strlit("DeepArchiveStagingStorage");
        reveal_strlit("GlacierObjectOverhead");
        reveal_strlit("GlacierStorage");
        reveal_strlit("GlacierStagingStorage");
        reveal_strlit("GlacierS3ObjectOverhead");
        reveal_strlit("IntelligentTieringStorage");
        reveal_strlit("OneZoneIASizeOverhead");
        reveal_strlit("OneZoneIAStorage");
        reveal_strlit("ReducedRedundancyStorage");
        reveal_strlit("StandardIAObjectOverhead");
        reveal_strlit("StandardIASizeOverhead");
        reveal_strlit("StandardIAStorage");
        assert("DeepArchiveStorage"@.len() == 18);
        assert("DeepArchiveObjectOverhead"@.len() == 25);
        assert("DeepArchiveS3ObjectOverhead"@.len() == 27);
        assert("DeepArchiveStagingStorage"@.len() == 25);
        assert("GlacierObjectOverhead"@.len() == 21);
        assert("GlacierStorage"@.len() == 14);
        assert("GlacierStagingStorage"@.len() == 21);
        assert("GlacierS3ObjectOverhead"@.len() == 23);
        assert("IntelligentTieringStorage"@.len() == 25);
        assert("OneZoneIASizeOverhead"@.len() == 21);
        assert("OneZoneIAStorage"@.len() == 16);
        assert("ReducedRedundancyStorage"@.len() == 24);
        assert("StandardIAObjectOverhead"@.len() == 24);
        assert("StandardIASizeOverhead"@.len() == 22);
        assert("StandardIAStorage"@.len() == 17);
    }
    assert(spec_display(spec_classify("StandardStorage"@)) == "Standard"@) by {
        broadcast use vstd::string::group_string_axioms;
        reveal_strlit("DeepArchiveStorage");
        reveal_strlit("DeepArchiveObjectOverhead");
        reveal_strlit("DeepArchiveS3ObjectOverhead");
        reveal_strlit("DeepArchiveStagingStorage");
        reveal_strlit("GlacierObjectOverhead");
        reveal_strlit("GlacierStorage");
        reveal_strlit("GlacierStagingStorage");
        reveal_strlit("GlacierS3ObjectOverhead");
        reveal_strlit("IntelligentTieringStorage");
        reveal_strlit("OneZoneIASizeOverhead");
        reveal_strlit("OneZoneIAStorage");
        reveal_strlit("ReducedRedundancyStorage");
        reveal_strlit("StandardIAObjectOverhead");
        reveal_strlit("StandardIASizeOverhead");
        reveal_strlit("StandardIAStorage");
        reveal_strlit("StandardStorage");
        assert("DeepArchiveStorage"@.len() == 18);
        assert("DeepArchiveObjectOverhead"@.len() == 25);
        assert("DeepArchiveS3ObjectOverhead"@.len() == 27);
        assert("DeepArchiveStagingStorage"@.len() == 25);
        assert("GlacierObjectOverhead"@.len() == 21);
        assert("GlacierStorage"@.len() == 14);
        assert("GlacierStagingStorage"@.len() == 21);
        assert("GlacierS3ObjectOverhead"@.len() == 23);
        assert("IntelligentTieringStorage"@.len() == 25);
        assert("OneZoneIASizeOverhead"@.len() == 21);
        assert("OneZoneIAStorage"@.len() == 16);
        assert("ReducedRedundancyStorage"@.len() == 24);
        assert("StandardIAObjectOverhead"@.len() == 24);
        assert("StandardIASizeOverhead"@.len() == 22);
        assert("StandardIAStorage"@.len() == 17);
        assert("StandardStorage"@.len() == 15);
    }
    assert(spec_display(spec_classify("DEEP_ARCHIVE"@)) == "DeepArchive"@) by {
        broadcast use vstd::string::group_string_axioms;
        reveal_strlit("DeepArchiveStorage");
        reveal_strlit("DeepArchiveObjectOverhead");
        reveal_strlit("DeepArchiveS3ObjectOverhead");
        reveal_strlit("DeepArchiveStagingStorage");
        reveal_strlit("GlacierObjectOverhead");
        reveal_strlit("GlacierStorage");
        reveal_strlit("GlacierStagingStorage");
        reveal_strlit("GlacierS3ObjectOverhead");
        reveal_strlit("IntelligentTieringStorage");
        reveal_strlit("OneZoneIASizeOverhead");
        reveal_strlit("OneZoneIAStorage");
        reveal_strlit("ReducedRedundancyStorage");
        reveal_strlit("StandardIAObjectOverhead");
        reveal_strlit("StandardIASizeOverhead");
        reveal_strlit("StandardIAStorage");
        reveal_strlit("StandardStorage");
        reveal_strlit("DEEP_ARCHIVE");
        assert("DeepArchiveStorage"@.len() == 18);
        assert("DeepArchiveObjectOverhead"@.len() == 25);
        assert("DeepArchiveS3ObjectOverhead"@.len() == 27);
        assert("DeepArchiveStagingStorage"@.len() == 25);
        assert("GlacierObjectOverhead"@.len() == 21);
        assert("GlacierStorage"@.len() == 14);
        assert("GlacierStagingStorage"@.len() == 21);
        assert("GlacierS3ObjectOverhead"@.len() == 23);
        assert("IntelligentTieringStorage"@.len() == 25);
        assert("OneZoneIASizeOverhead"@.len() == 21);
        assert("OneZoneIAStorage"@.len() == 16);
        assert("ReducedRedundancyStorage"@.len() == 24);
        assert("StandardIAObjectOverhead"@.len() == 24);
        assert("StandardIASizeOverhead"@.len() == 22);
        assert("StandardIAStorage"@.len() == 17);
        assert("StandardStorage"@.len() == 15);
        assert("DEEP_ARCHIVE"@.len() == 12);
    }
    assert(spec_display(spec_classify("GLACIER"@)) == "Glacier"@) by {
        broadcast use vstd::string::group_string_axioms;
        reveal_strlit("DeepArchiveStorage");
        reveal_strlit("DeepArchiveObjectOverhead");
        reveal_strlit("DeepArchiveS3ObjectOverhead");
        reveal_strlit("DeepArchiveStagingStorage");
        reveal_strlit("GlacierObjectOverhead");
        reveal_strlit("GlacierStorage");
        reveal_strlit("GlacierStagingStorage");
        reveal_strlit("GlacierS3ObjectOverhead");
        reveal_strlit("IntelligentTieringStorage");
        reveal_strlit("OneZoneIASizeOverhead");
        reveal_strlit("OneZoneIAStorage");
        reveal_strlit("ReducedRedundancyStorage");
        reveal_strlit("StandardIAObjectOverhead");
        reveal_strlit("StandardIASizeOverhead");
        reveal_strlit("StandardIAStorage");
        reveal_strlit("StandardStorage");
        reveal_strlit("DEEP_ARCHIVE");
        reveal_strlit("GLACIER");
        assert("DeepArchiveStorage"@.len() == 18);
        assert("DeepArchiveObjectOverhead"@.len() == 25);
        assert("DeepArchiveS3ObjectOverhead"@.len() == 27);
        assert("DeepArchiveStagingStorage"@.len() == 25);
        assert("GlacierObjectOverhead"@.len() == 21);
        assert("GlacierStorage"@.len() == 14);
        assert("GlacierStagingStorage"@.len() == 21);
        assert("GlacierS3ObjectOverhead"@.len() == 23);
        assert("IntelligentTieringStorage"@.len() == 25);
        assert("OneZoneIASizeOverhead"@.len() == 21);
        assert("OneZoneIAStorage"@.len() == 16);
        assert("ReducedRedundancyStorage"@.len() == 24);
        assert("StandardIAObjectOverhead"@.len() == 24);
        assert("StandardIASizeOverhead"@.len() == 22);
        assert("StandardIAStorage"@.len() == 17);
        assert("StandardStorage"@.len() == 15);
        assert("DEEP_ARCHIVE"@.len() == 12);
        assert("GLACIER"@.len() == 7);
    }
    assert(spec_display(spec_classify("INTELLIGENT_TIERING"@)) == "IntelligentTiering"@) by {
        broadcast use vstd::string::group_string_axioms;
        reveal_strlit("DeepArchiveStorage");
        reveal_strlit("DeepArchiveObjectOverhead");
        reveal_strlit("DeepArchiveS3ObjectOverhead");
        reveal_strlit("DeepArchiveStagingStorage");
        reveal_strlit("GlacierObjectOverhead");
        reveal_strlit("GlacierStorage");
        reveal_strlit("GlacierStagingStorage");
        reveal_strlit("GlacierS3ObjectOverhead");
        reveal_strlit("IntelligentTieringStorage");
        reveal_strlit("OneZoneIASizeOverhead");
        reveal_strlit("OneZoneIAStorage");
        reveal_strlit("ReducedRedundancyStorage");
        reveal_strlit("StandardIAObjectOverhead");
        reveal_strlit("StandardIASizeOverhead");
        reveal_strlit("StandardIAStorage");
        reveal_strlit("StandardStorage");
        reveal_strlit("DEEP_ARCHIVE");
        reveal_strlit("GLACIER");
        reveal_strlit("INTELLIGENT_TIERING");
        assert("DeepArchiveStorage"@.len() == 18);
        assert("DeepArchiveObjectOverhead"@.len() == 25);
        assert("DeepArchiveS3ObjectOverhead"@.len() == 27);
        assert("DeepArchiveStagingStorage"@.len() == 25);
        assert("GlacierObjectOverhead"@.len() == 21);
        assert("GlacierStorage"@.len() == 14);
        assert("GlacierStagingStorage"@.len() == 21);
        assert("GlacierS3ObjectOverhead"@.len() == 23);
        assert("IntelligentTieringStorage"@.len() == 25);
        assert("OneZoneIASizeOverhead"@.len() == 21);
        assert("OneZoneIAStorage"@.len() == 16);
        assert("ReducedRedundancyStorage"@.len() == 24);
        assert("StandardIAObjectOverhead"@.len() == 24);
        assert("StandardIASizeOverhead"@.len() == 22);
        assert("StandardIAStorage"@.len() == 17);
        assert("StandardStorage"@.len() == 15);
        assert("DEEP_ARCHIVE"@.len() == 12);
        assert("GLACIER"@.len() == 7);
        assert("INTELLIGENT_TIERING"@.len() == 19);
    }
    assert(spec_display(spec_classify("ONEZONE_IA"@)) == "OneZoneIA"@) by {
        broadcast use vstd::string::group_string_axioms;
        reveal_strlit("DeepArchiveStorage");
        reveal_strlit("DeepArchiveObjectOverhead");
        reveal_strlit("DeepArchiveS3ObjectOverhead");
        reveal_strlit("DeepArchiveStagingStorage");
        reveal_strlit("GlacierObjectOverhead");
        reveal_strlit("GlacierStorage");
        reveal_strlit("GlacierStagingStorage");
        reveal_strlit("GlacierS3ObjectOverhead");
        reveal_strlit("IntelligentTieringStorage");
        reveal_strlit("OneZoneIASizeOverhead");
        reveal_strlit("OneZoneIAStorage");
        reveal_strlit("ReducedRedundancyStorage");
        reveal_strlit("StandardIAObjectOverhead");
        reveal_strlit("StandardIASizeOverhead");
        reveal_strlit("StandardIAStorage");
        reveal_strlit("StandardStorage");
        reveal_strlit("DEEP_ARCHIVE");
        reveal_strlit("GLACIER");
        reveal_strlit("INTELLIGENT_TIERING");
        reveal_strlit("ONEZONE_IA");
        assert("DeepArchiveStorage"@.len() == 18);
        assert("DeepArchiveObjectOverhead"@.len() == 25);
        assert("DeepArchiveS3ObjectOverhead"@.len() == 27);
        assert("DeepArchiveStagingStorage"@.len() == 25);
        assert("GlacierObjectOverhead"@.len() == 21);
        assert("GlacierStorage"@.len() == 14);
        assert("GlacierStagingStorage"@.len() == 21);
        assert("GlacierS3ObjectOverhead"@.len() == 23);
        assert("IntelligentTieringStorage"@.len() == 25);
        assert("OneZoneIASizeOverhead"@.len() == 21);
        assert("OneZoneIAStorage"@.len() == 16);
        assert("ReducedRedundancyStorage"@.len() == 24);
        assert("StandardIAObjectOverhead"@.len() == 24);
        assert("StandardIASizeOverhead"@.len() == 22);
        assert("StandardIAStorage"@.len() == 17);
        assert("StandardStorage"@.len() == 15);
        assert("DEEP_ARCHIVE"@.len() == 12);
        assert("GLACIER"@.len() == 7);
        assert("INTELLIGENT_TIERING"@.len() == 19);
        assert("ONEZONE_IA"@.len() == 10);
    }
    assert(spec_display(spec_classify("REDUCED_REDUNDANCY"@)) == "ReducedRedundancy"@) by {
        broadcast use vstd::string::group_string_axioms;
        reveal_strlit("DeepArchiveStorage");
        reveal_strlit("DeepArchiveObjectOverhead");
        reveal_strlit("DeepArchiveS3ObjectOverhead");
        reveal_strlit("DeepArchiveStagingStorage");
        reveal_strlit("GlacierObjectOverhead");
        reveal_strlit("GlacierStorage");
        reveal_strlit("GlacierStagingStorage");
        reveal_strlit("GlacierS3ObjectOverhead");
        reveal_strlit("IntelligentTieringStorage");
        reveal_strlit("OneZoneIASizeOverhead");
        reveal_strlit("OneZoneIAStorage");
        reveal_strlit("ReducedRedundancyStorage");
        reveal_strlit("StandardIAObjectOverhead");
        reveal_strlit("StandardIASizeOverhead");
        reveal_strlit("StandardIAStorage");
        reveal_strlit("StandardStorage");
        reveal_strlit("DEEP_ARCHIVE");
        reveal_strlit("GLACIER");
        reveal_strlit("INTELLIGENT_TIERING");
        reveal_strlit("ONEZONE_IA");
        reveal_strlit("REDUCED_REDUNDANCY");
        assert("DeepArchiveStorage"@.len() == 18);
        assert("DeepArchiveObjectOverhead"@.len() == 25);
        assert("DeepArchiveS3ObjectOverhead"@.len() == 27);
        assert("DeepArchiveStagingStorage"@.len() == 25);
        assert("GlacierObjectOverhead"@.len() == 21);
        assert("GlacierStorage"@.len() == 14);
        assert("GlacierStagingStorage"@.len() == 21);
        assert("GlacierS3ObjectOverhead"@.len() == 23);
        assert("IntelligentTieringStorage"@.len() == 25);
        assert("OneZoneIASizeOverhead"@.len() == 21);
        assert("OneZoneIAStorage"@.len() == 16);
        assert("ReducedRedundancyStorage"@.len() == 24);
        assert("StandardIAObjectOverhead"@.len() == 24);
        assert("StandardIASizeOverhead"@.len() == 22);
        assert("StandardIAStorage"@.len() == 17);
        assert("StandardStorage"@.len() == 15);
        assert("DEEP_ARCHIVE"@.len() == 12);
        assert("GLACIER"@.len() == 7);
        assert("INTELLIGENT_TIERING"@.len() == 19);
        assert("ONEZONE_IA"@.len() == 10);
        assert("REDUCED_REDUNDANCY"@.len() == 18);
        assert("REDUCED_REDUNDANCY"@[0] != "DeepArchiveStorage"@[0]);
        assert("REDUCED_REDUNDANCY"@ != "DeepArchiveStorage"@);
    }
    assert(spec_display(spec_classify("STANDARD"@)) == "Standard"@) by {
        broadcast use vstd::string::group_string_axioms;
        reveal_strlit("DeepArchiveStorage");
        reveal_strlit("DeepArchiveObjectOverhead");
        reveal_strlit("DeepArchiveS3ObjectOverhead");
        reveal_strlit("DeepArchiveStagingStorage");
        reveal_strlit("GlacierObjectOverhead");
        reveal_strlit("GlacierStorage");
        reveal_strlit("GlacierStagingStorage");
        reveal_strlit("GlacierS3ObjectOverhead");
        reveal_strlit("IntelligentTieringStorage");
        reveal_strlit("OneZoneIASizeOverhead");
        reveal_strlit("OneZoneIAStorage");
        reveal_strlit("ReducedRedundancyStorage");
        reveal_strlit("StandardIAObjectOverhead");
        reveal_strlit("StandardIASizeOverhead");
        reveal_strlit("StandardIAStorage");
        reveal_strlit("StandardStorage");
        reveal_strlit("DEEP_ARCHIVE");
        reveal_strlit("GLACIER");
        reveal_strlit("INTELLIGENT_TIERING");
        reveal_strlit("ONEZONE_IA");
        reveal_strlit("REDUCED_REDUNDANCY");
        reveal_strlit("STANDARD");
        assert("DeepArchiveStorage"@.len() == 18);
        assert("DeepArchiveObjectOverhead"@.len() == 25);
        assert("DeepArchiveS3ObjectOverhead"@.len() == 27);
        assert("DeepArchiveStagingStorage"@.len() == 25);
        assert("GlacierObjectOverhead"@.len() == 21);
        assert("GlacierStorage"@.len() == 14);
        assert("GlacierStagingStorage"@.len() == 21);
        assert("GlacierS3ObjectOverhead"@.len() == 23);
        assert("IntelligentTieringStorage"@.len() == 25);
        assert("OneZoneIASizeOverhead"@.len() == 21);
        assert("OneZoneIAStorage"@.len() == 16);
        assert("ReducedRedundancyStorage"@.len() == 24);
        assert("StandardIAObjectOverhead"@.len() == 24);
        assert("StandardIASizeOverhead"@.len() == 22);
        assert("StandardIAStorage"@.len() == 17);
        assert("StandardStorage"@.len() == 15);
        assert("DEEP_ARCHIVE"@.len() == 12);
        assert("GLACIER"@.len() == 7);
        assert("INTELLIGENT_TIERING"@.len() == 19);
        assert("ONEZONE_IA"@.len() == 10);
        assert("REDUCED_REDUNDANCY"@.len() == 18);
        assert("STANDARD"@.len() == 8);
    }
    assert(spec_display(spec_classify("STANDARD_IA"@)) == "StandardIA"@) by {
        broadcast use vstd::string::group_string_axioms;
        reveal_strlit("DeepArchiveStorage");
        reveal_strlit("DeepArchiveObjectOverhead");
        reveal_strlit("DeepArchiveS3ObjectOverhead");
        reveal_strlit("DeepArchiveStagingStorage");
        reveal_strlit("GlacierObjectOverhead");
        reveal_strlit("GlacierStorage");
        reveal_strlit("GlacierStagingStorage");
        reveal_strlit("GlacierS3ObjectOverhead");
        reveal_strlit("IntelligentTieringStorage");
        reveal_strlit("OneZoneIASizeOverhead");
        reveal_strlit("OneZoneIAStorage");
        reveal_strlit("ReducedRedundancyStorage");
        reveal_strlit("StandardIAObjectOverhead");
        reveal_strlit("StandardIASizeOverhead");
        reveal_strlit("StandardIAStorage");
        reveal_strlit("StandardStorage");
        reveal_strlit("DEEP_ARCHIVE");
        reveal_strlit("GLACIER");
        reveal_strlit("INTELLIGENT_TIERING");
        reveal_strlit("ONEZONE_IA");
        reveal_strlit("REDUCED_REDUNDANCY");
        reveal_strlit("STANDARD");
        reveal_strlit("STANDARD_IA");
        assert("DeepArchiveStorage"@.len() == 18);
        assert("DeepArchiveObjectOverhead"@.len() == 25);
        assert("DeepArchiveS3ObjectOverhead"@.len() == 27);
        assert("DeepArchiveStagingStorage"@.len() == 25);
        assert("GlacierObjectOverhead"@.len() == 21);
        assert("GlacierStorage"@.len() == 14);
        assert("GlacierStagingStorage"@.len() == 21);
        assert("GlacierS3ObjectOverhead"@.len() == 23);
        assert("IntelligentTieringStorage"@.len() == 25);
        assert("OneZoneIASizeOverhead"@.len() == 21);
        assert("OneZoneIAStorage"@.len() == 16);
        assert("ReducedRedundancyStorage"@.len() == 24);
        assert("StandardIAObjectOverhead"@.len() == 24);
        assert("StandardIASizeOverhead"@.len() == 22);
        assert("StandardIAStorage"@.len() == 17);
        assert("StandardStorage"@.len() == 15);
        assert("DEEP_ARCHIVE"@.len() == 12);
        assert("GLACIER"@.len() == 7);
        assert("INTELLIGENT_TIERING"@.len() == 19);
        assert("ONEZONE_IA"@.len() == 10);
        assert("REDUCED_REDUNDANCY"@.len() == 18);
        assert("STANDARD"@.len() == 8);
        assert("STANDARD_IA"@.len() == 11);
    }
}

} // verus!
