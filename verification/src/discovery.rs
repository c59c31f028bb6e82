//! Region-aware bucket discovery.
//!
//! Discovery lists every bucket, keeps only the one named on the command
//! line if a name filter is configured, resolves each remaining bucket's
//! home region, and drops the buckets whose region is not the client's:
//! objects can only be listed against the endpoint owning a bucket's
//! region, so a filtered, partial result is normal operation, not a
//! failure.

use vstd::prelude::*;

use crate::common::{Bucket, BucketModel, Region};
use crate::metrics::{
    contributes, lemma_entries_map_domain, lemma_group_series_characterized, BucketMetrics,
    MetricSeries,
};

verus! {

/// The names present in a listing response, in order; entries the
/// provider returned without a name are skipped.
pub open spec fn present_names(s: Seq<Option<Seq<char>>>) -> Seq<Seq<char>>
    decreases s.len(),
{
    if s.len() == 0 {
        Seq::empty()
    } else {
        match s.last() {
            Some(n) => present_names(s.drop_last()).push(n),
            None => present_names(s.drop_last()),
        }
    }
}

/// Extracts the bucket names from a listing response, keeping their
/// order and skipping entries without a name.
pub fn collect_bucket_names(names: Vec<Option<String>>) -> (r: Vec<String>)
    ensures
        r.deep_view() == present_names(names.deep_view()),
{
    let ghost nv = names.deep_view();
    let mut input = names;
    let n: usize = input.len();
    let mut out: Vec<String> = Vec::new();
    let mut i: usize = 0;
    while input.len() > 0
        invariant
            nv.len() == n as int,
            nv.len() == i + input.len(),
            input.deep_view() == nv.skip(i as int),
            out.deep_view() == present_names(nv.take(i as int)),
        decreases input.len(),
    {
        proof {
            assert(nv.take(i as int + 1).drop_last() =~= nv.take(i as int));
            assert(nv.take(i as int + 1).last() == nv[i as int]);
            assert(input.deep_view()[0] == nv[i as int]);
        }
        let ghost pre = input.deep_view();
        let ghost prev = input@;
        let entry = input.remove(0);
        match entry {
            Some(name) => {
                out.push(name);
                proof {
                    assert(out.deep_view() =~~= present_names(nv.take(i as int + 1)));
                }
            },
            None => {
                proof {
                    assert(out.deep_view() =~~= present_names(nv.take(i as int + 1)));
                }
            },
        }
        proof {
            assert(input@ =~= prev.remove(0));
            assert forall|t: int| 0 <= t < input@.len() implies #[trigger] input.deep_view()[t]
                == nv.skip(i as int + 1)[t] by {
                assert(input@[t] == prev[t + 1]);
                assert(pre[t + 1] == prev[t + 1].deep_view());
                assert(nv.skip(i as int)[t + 1] == nv[i as int + 1 + t]);
                assert(nv.skip(i as int + 1)[t] == nv[i as int + 1 + t]);
            }
            assert(input.deep_view() =~= nv.skip(i as int + 1));
        }
        i += 1;
    }
    proof {
        assert(nv.take(i as int) =~= nv);
    }
    out
}

/// What the configured name filter keeps of a name list: everything when
/// no filter is set, and exactly the case-sensitive matches otherwise.
pub open spec fn retained_names(s: Seq<Seq<char>>, filter: Option<Seq<char>>) -> Seq<Seq<char>>
    decreases s.len(),
{
    match filter {
        None => s,
        Some(f) => {
            if s.len() == 0 {
                Seq::empty()
            } else if s.last() == f {
                retained_names(s.drop_last(), filter).push(s.last())
            } else {
                retained_names(s.drop_last(), filter)
            }
        },
    }
}

/// Applies the configured single-bucket name filter: with no filter the
/// list is returned unchanged, otherwise only the exact, case-sensitive
/// matches remain, in order.
pub fn filter_bucket_names(names: Vec<String>, filter: &Option<String>) -> (r: Vec<String>)
    ensures
        r.deep_view() == retained_names(names.deep_view(), filter.deep_view()),
{
    match filter {
        None => names,
        Some(f) => {
            let ghost nv = names.deep_view();
            let mut input = names;
            let n: usize = input.len();
            let mut out: Vec<String> = Vec::new();
            let mut i: usize = 0;
            while input.len() > 0
                invariant
                    nv.len() == n as int,
                    nv.len() == i + input.len(),
                    input.deep_view() == nv.skip(i as int),
                    out.deep_view() == retained_names(nv.take(i as int), Some(f@)),
                decreases input.len(),
            {
                proof {
                    assert(nv.take(i as int + 1).drop_last() =~= nv.take(i as int));
                    assert(nv.take(i as int + 1).last() == nv[i as int]);
                    assert(input.deep_view()[0] == nv[i as int]);
                }
                let ghost pre = input.deep_view();
                let ghost prev = input@;
                let name = input.remove(0);
                if name == *f {
                    out.push(name);
                    proof {
                        assert(out.deep_view() =~~= retained_names(nv.take(i as int + 1), Some(f@)));
                    }
                } else {
                    proof {
                        assert(out.deep_view() =~~= retained_names(nv.take(i as int + 1), Some(f@)));
                    }
                }
                proof {
                    assert(input@ =~= prev.remove(0));
                    assert forall|t: int| 0 <= t < input@.len() implies #[trigger] input.deep_view()[t]
                        == nv.skip(i as int + 1)[t] by {
                        assert(input@[t] == prev[t + 1]);
                        assert(pre[t + 1] == prev[t + 1].deep_view());
                        assert(nv.skip(i as int)[t + 1] == nv[i as int + 1 + t]);
                        assert(nv.skip(i as int + 1)[t] == nv[i as int + 1 + t]);
                    }
                    assert(input.deep_view() =~= nv.skip(i as int + 1));
                }
                i += 1;
            }
            proof {
                assert(nv.take(i as int) =~= nv);
            }
            out
        },
    }
}

/// Whether a name passes the configured single-bucket filter.
pub open spec fn name_passes(filter: Option<Seq<char>>, n: Seq<char>) -> bool {
    match filter {
        None => true,
        Some(f) => n == f,
    }
}

/// Law: the name filter keeps exactly the names that pass it — a name is
/// in the filtered list just when it is in the input and matches the
/// configured name, if one is configured.
pub proof fn lemma_retained_names_exact(s: Seq<Seq<char>>, filter: Option<Seq<char>>)
    ensures
        forall|n: Seq<char>| #[trigger] retained_names(s, filter).contains(n)
            <==> s.contains(n) && name_passes(filter, n),
    decreases s.len(),
{
    match filter {
        None => {},
        Some(f) => {
            if s.len() > 0 {
                lemma_retained_names_exact(s.drop_last(), filter);
                assert forall|n: Seq<char>| #[trigger] retained_names(s, filter).contains(n)
                    implies s.contains(n) && name_passes(filter, n) by {
                    let kept = retained_names(s.drop_last(), filter);
                    if s.last() == f {
                        let j = choose|j: int| 0 <= j < kept.push(s.last()).len()
                            && kept.push(s.last())[j] == n;
                        if j < kept.len() {
                            assert(kept.contains(n));
                            let t = choose|t: int| 0 <= t < s.drop_last().len()
                                && s.drop_last()[t] == n;
                            assert(s[t] == n);
                        } else {
                            assert(s[s.len() - 1] == n);
                        }
                    } else {
                        assert(kept.contains(n));
                        let t = choose|t: int| 0 <= t < s.drop_last().len()
                            && s.drop_last()[t] == n;
                        assert(s[t] == n);
                    }
                }
                assert forall|n: Seq<char>| s.contains(n) && name_passes(filter, n)
                    implies #[trigger] retained_names(s, filter).contains(n) by {
                    let kept = retained_names(s.drop_last(), filter);
                    let t = choose|t: int| 0 <= t < s.len() && s[t] == n;
                    if t < s.len() - 1 {
                        assert(s.drop_last()[t] == n);
                        assert(s.drop_last().contains(n));
                        assert(kept.contains(n));
                        let j = choose|j: int| 0 <= j < kept.len() && kept[j] == n;
                        if s.last() == f {
                            assert(kept.push(s.last())[j] == n);
                        }
                    } else {
                        assert(n == s.last());
                        let kept_all = retained_names(s, filter);
                        assert(kept_all == kept.push(s.last()));
                        assert(kept_all[kept_all.len() - 1] == n);
                    }
                }
            }
        },
    }
}

/// The name filter never introduces a duplicate: filtering a list of
/// pairwise distinct names leaves pairwise distinct names.
proof fn lemma_retained_names_distinct(s: Seq<Seq<char>>, filter: Option<Seq<char>>)
    requires
        forall|i: int, j: int| 0 <= i < j < s.len() ==> s[i] != s[j],
    ensures
        forall|i: int, j: int| 0 <= i < j < retained_names(s, filter).len()
            ==> retained_names(s, filter)[i] != retained_names(s, filter)[j],
    decreases s.len(),
{
    match filter {
        None => {},
        Some(f) => {
            if s.len() > 0 {
                assert(forall|i: int, j: int|
                    0 <= i < j < s.drop_last().len() ==> s.drop_last()[i] != s.drop_last()[j]);
                lemma_retained_names_distinct(s.drop_last(), filter);
                lemma_retained_names_exact(s.drop_last(), filter);
                let kept = retained_names(s.drop_last(), filter);
                if s.last() == f {
                    assert forall|i: int, j: int|
                        0 <= i < j < kept.push(s.last()).len()
                        implies kept.push(s.last())[i] != kept.push(s.last())[j] by {
                        if j == kept.len() {
                            if kept[i] == s.last() {
                                assert(kept.contains(kept[i]));
                                let t = choose|t: int| 0 <= t < s.drop_last().len()
                                    && s.drop_last()[t] == kept[i];
                                assert(s[t] == s[s.len() - 1]);
                            }
                        }
                    }
                }
            }
        },
    }
}

/// Whether some entry of the list carries the name.
pub open spec fn entries_holds_name(
    entries: Seq<crate::metrics::BucketTiersModel>,
    n: Seq<char>,
) -> bool {
    exists|t: int| 0 <= t < entries.len() && (#[trigger] entries[t]).name == n
}

/// The metrics-path discovery, after the catalog sweep: groups the swept
/// series by bucket and applies the configured name filter. The result
/// holds, without duplicates, exactly the names of buckets some series is
/// attributed to that pass the filter; their order follows the sweep and
/// is not otherwise specified, so callers needing determinism sort.
pub fn discover_metric_buckets(
    series: &Vec<MetricSeries>,
    filter: &Option<String>,
) -> (r: Vec<String>)
    ensures
        forall|n: Seq<char>| #[trigger] r.deep_view().contains(n)
            <==> contributes(series.deep_view(), n) && name_passes(filter.deep_view(), n),
        forall|i: int, j: int| 0 <= i < j < r.deep_view().len()
            ==> r.deep_view()[i] != r.deep_view()[j],
{
    let ghost sv = series.deep_view();
    let metrics = BucketMetrics::from_series(series);
    let ghost entries = metrics.entries.deep_view();
    let names = metrics.bucket_names();
    let ghost names_model = names.deep_view();
    let kept = filter_bucket_names(names, filter);
    proof {
        let fd = filter.deep_view();
        assert forall|i: int, j: int|
            0 <= i < j < names_model.len() implies names_model[i] != names_model[j] by {
            assert(names_model[i] == entries[i].name);
            assert(names_model[j] == entries[j].name);
        }
        assert forall|n: Seq<char>| #[trigger] names_model.contains(n)
            <==> entries_holds_name(entries, n) by {
            lemma_entries_map_domain(entries, n);
            lemma_group_series_characterized(sv, n);
            if names_model.contains(n) {
                let t = choose|t: int| 0 <= t < names_model.len() && names_model[t] == n;
                assert(entries[t].name == n);
            }
            if exists|t: int| 0 <= t < entries.len() && (#[trigger] entries[t]).name == n {
                let t = choose|t: int| 0 <= t < entries.len() && (#[trigger] entries[t]).name == n;
                assert(names_model[t] == n);
            }
        }
        assert forall|n: Seq<char>| #[trigger] names_model.contains(n)
            <==> contributes(sv, n) by {
            lemma_entries_map_domain(entries, n);
            lemma_group_series_characterized(sv, n);
        }
        lemma_retained_names_exact(names_model, fd);
        lemma_retained_names_distinct(names_model, fd);
    }
    kept
}

/// The region a location response denotes: the returned constraint, or
/// the provider's primary region when the response is empty or absent,
/// which is the provider's convention, not an error.
pub open spec fn spec_region_from_location(location: Option<Seq<char>>) -> Seq<char> {
    match location {
        Some(l) => if l.len() > 0 {
            l
        } else {
            "us-east-1"@
        },
        None => "us-east-1"@,
    }
}

/// Interprets a bucket-location response: an absent or empty constraint
/// conventionally means the provider's primary region.
pub fn region_from_location(location: Option<String>) -> (r: Region)
    ensures
        r.deep_view() == spec_region_from_location(location.deep_view()),
{
    match location {
        Some(l) => {
            if l.as_str().is_empty() {
                Region { name: "us-east-1".to_owned() }
            } else {
                Region { name: l }
            }
        },
        None => Region { name: "us-east-1".to_owned() },
    }
}

/// Whether a bucket's resolved home region is `r`.
pub open spec fn bucket_in_region(b: BucketModel, r: Seq<char>) -> bool {
    match b.region {
        Some(br) => br == r,
        None => false,
    }
}

/// The buckets of a list whose resolved region is `r`, in order.
pub open spec fn in_region_buckets(s: Seq<BucketModel>, r: Seq<char>) -> Seq<BucketModel>
    decreases s.len(),
{
    if s.len() == 0 {
        Seq::empty()
    } else if bucket_in_region(s.last(), r) {
        in_region_buckets(s.drop_last(), r).push(s.last())
    } else {
        in_region_buckets(s.drop_last(), r)
    }
}

/// Drops every bucket whose resolved home region is not the client's:
/// the kept buckets, in their discovery order, are exactly those whose
/// region equals `region`.
pub fn select_in_region(buckets: Vec<Bucket>, region: &Region) -> (r: Vec<Bucket>)
    ensures
        r.deep_view() == in_region_buckets(buckets.deep_view(), region.deep_view()),
{
    let ghost bv = buckets.deep_view();
    let mut input = buckets;
    let n: usize = input.len();
    let mut out: Vec<Bucket> = Vec::new();
    let mut i: usize = 0;
    while input.len() > 0
        invariant
            bv.len() == n as int,
            bv.len() == i + input.len(),
            input.deep_view() == bv.skip(i as int),
            out.deep_view() == in_region_buckets(bv.take(i as int), region.deep_view()),
        decreases input.len(),
    {
        proof {
            assert(bv.take(i as int + 1).drop_last() =~= bv.take(i as int));
            assert(bv.take(i as int + 1).last() == bv[i as int]);
            assert(input.deep_view()[0] == bv[i as int]);
        }
        let ghost pre = input.deep_view();
        let ghost prev = input@;
        let bucket = input.remove(0);
        let matches_region = match &bucket.region {
            Some(br) => br.name == region.name,
            None => false,
        };
        if matches_region {
            out.push(bucket);
            proof {
                assert(out.deep_view() =~~= in_region_buckets(
                    bv.take(i as int + 1),
                    region.deep_view(),
                ));
            }
        } else {
            proof {
                assert(out.deep_view() =~~= in_region_buckets(
                    bv.take(i as int + 1),
                    region.deep_view(),
                ));
            }
        }
        proof {
            assert(input@ =~= prev.remove(0));
            assert forall|t: int| 0 <= t < input@.len() implies #[trigger] input.deep_view()[t]
                == bv.skip(i as int + 1)[t] by {
                assert(input@[t] == prev[t + 1]);
                assert(pre[t + 1] == prev[t + 1].deep_view());
                assert(bv.skip(i as int)[t + 1] == bv[i as int + 1 + t]);
                assert(bv.skip(i as int + 1)[t] == bv[i as int + 1 + t]);
            }
            assert(input.deep_view() =~= bv.skip(i as int + 1));
        }
        i += 1;
    }
    proof {
        assert(bv.take(i as int) =~= bv);
    }
    out
}

/// Law: region filtering returns exactly the subset of buckets whose
/// resolved region equals the client's — a bucket is in the result just
/// when it is in the input and its region matches.
pub proof fn lemma_region_filter_exact(s: Seq<BucketModel>, r: Seq<char>)
    ensures
        forall|b: BucketModel| #[trigger] in_region_buckets(s, r).contains(b)
            <==> s.contains(b) && bucket_in_region(b, r),
    decreases s.len(),
{
    if s.len() > 0 {
        lemma_region_filter_exact(s.drop_last(), r);
        assert forall|b: BucketModel| #[trigger] in_region_buckets(s, r).contains(b)
            implies s.contains(b) && bucket_in_region(b, r) by {
            let kept = in_region_buckets(s.drop_last(), r);
            if bucket_in_region(s.last(), r) {
                let j = choose|j: int| 0 <= j < kept.push(s.last()).len()
                    && kept.push(s.last())[j] == b;
                if j < kept.len() {
                    assert(kept.contains(b));
                    let t = choose|t: int| 0 <= t < s.drop_last().len() && s.drop_last()[t] == b;
                    assert(s[t] == b);
                } else {
                    assert(b == s.last());
                    assert(s[s.len() - 1] == b);
                }
            } else {
                assert(kept.contains(b));
                let t = choose|t: int| 0 <= t < s.drop_last().len() && s.drop_last()[t] == b;
                assert(s[t] == b);
            }
        }
        assert forall|b: BucketModel| s.contains(b) && bucket_in_region(b, r)
            implies #[trigger] in_region_buckets(s, r).contains(b) by {
            let kept = in_region_buckets(s.drop_last(), r);
            let t = choose|t: int| 0 <= t < s.len() && s[t] == b;
            if t < s.len() - 1 {
                assert(s.drop_last()[t] == b);
                assert(s.drop_last().contains(b));
                assert(kept.contains(b));
                let j = choose|j: int| 0 <= j < kept.len() && kept[j] == b;
                if bucket_in_region(s.last(), r) {
                    assert(kept.push(s.last())[j] == b);
                }
            } else {
                assert(b == s.last());
                let kept_all = in_region_buckets(s, r);
                assert(kept_all == kept.push(s.last()));
                assert(kept_all[kept_all.len() - 1] == b);
            }
        }
    }
}

} // verus!
