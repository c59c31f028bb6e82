//! Grouping of the monitoring catalog's metric series by bucket.
//!
//! The metrics-driven backend discovers buckets by sweeping the metric
//! catalog: every series carries dimension pairs, of which `BucketName`
//! names the bucket the series belongs to and `StorageType` names one
//! storage tier observed for it. `BucketMetrics` is the resulting mapping
//! from bucket name to the tier labels seen for that bucket, in order,
//! duplicates preserved. A series that carries no attributable bucket
//! name is skipped.

use vstd::prelude::*;

use crate::text::str_eq;

verus! {

/// One name/value pair attached to a metric series.
#[derive(Debug, Clone, PartialEq, Eq)]
pub struct Dimension {
    pub name: String,
    pub value: String,
}

/// The model of a `Dimension`: both strings as character sequences.
pub struct DimensionModel {
    pub name: Seq<char>,
    pub value: Seq<char>,
}

impl DeepView for Dimension {
    type V = DimensionModel;

    open spec fn deep_view(&self) -> DimensionModel {
        DimensionModel { name: self.name@, value: self.value@ }
    }
}

/// One metric series as the monitoring catalog reports it.
#[derive(Debug, Clone, PartialEq, Eq)]
pub struct MetricSeries {
    pub metric_name: Option<String>,
    pub namespace: Option<String>,
    pub dimensions: Option<Vec<Dimension>>,
}

/// The model of a `MetricSeries`.
pub struct MetricSeriesModel {
    pub metric_name: Option<Seq<char>>,
    pub namespace: Option<Seq<char>>,
    pub dimensions: Option<Seq<DimensionModel>>,
}

impl DeepView for MetricSeries {
    type V = MetricSeriesModel;

    open spec fn deep_view(&self) -> MetricSeriesModel {
        MetricSeriesModel {
            metric_name: self.metric_name.deep_view(),
            namespace: self.namespace.deep_view(),
            dimensions: self.dimensions.deep_view(),
        }
    }
}

/// The storage-tier labels observed for one bucket.
#[derive(Debug, Clone, PartialEq, Eq)]
pub struct BucketTiers {
    pub name: String,
    pub storage_types: Vec<String>,
}

/// The model of a `BucketTiers` entry.
pub struct BucketTiersModel {
    pub name: Seq<char>,
    pub storage_types: Seq<Seq<char>>,
}

impl DeepView for BucketTiers {
    type V = BucketTiersModel;

    open spec fn deep_view(&self) -> BucketTiersModel {
        BucketTiersModel { name: self.name@, storage_types: self.storage_types.deep_view() }
    }
}

/// A mapping from bucket name to the storage-tier labels observed for that
/// bucket, built from one sweep of the metric catalog. Entry names are
/// unique; the mapping's mathematical model is a `Map`.
#[derive(Debug, Clone, PartialEq, Eq)]
pub struct BucketMetrics {
    pub entries: Vec<BucketTiers>,
}

/// The bucket name a dimension list attributes a series to: the value of
/// its last `BucketName` dimension, if any.
pub open spec fn bucket_name_of(dims: Seq<DimensionModel>) -> Option<Seq<char>>
    decreases dims.len(),
{
    if dims.len() == 0 {
        None
    } else if dims.last().name == "BucketName"@ {
        Some(dims.last().value)
    } else {
        bucket_name_of(dims.drop_last())
    }
}

/// The storage-tier labels a dimension list carries: the values of its
/// `StorageType` dimensions, in order, duplicates preserved.
pub open spec fn storage_types_of(dims: Seq<DimensionModel>) -> Seq<Seq<char>>
    decreases dims.len(),
{
    if dims.len() == 0 {
        Seq::empty()
    } else if dims.last().name == "StorageType"@ {
        storage_types_of(dims.drop_last()).push(dims.last().value)
    } else {
        storage_types_of(dims.drop_last())
    }
}

/// The bucket a series is attributed to; `None` when the series carries no
/// dimensions or no `BucketName` dimension.
pub open spec fn series_bucket(m: MetricSeriesModel) -> Option<Seq<char>> {
    match m.dimensions {
        Some(d) => bucket_name_of(d),
        None => None,
    }
}

/// The storage-tier labels a series carries.
pub open spec fn series_types(m: MetricSeriesModel) -> Seq<Seq<char>> {
    match m.dimensions {
        Some(d) => storage_types_of(d),
        None => Seq::empty(),
    }
}

/// The grouping of a series list by attributed bucket: each attributable
/// series appends its storage-tier labels to its bucket's entry.
pub open spec fn group_series(series: Seq<MetricSeriesModel>) -> Map<Seq<char>, Seq<Seq<char>>>
    decreases series.len(),
{
    if series.len() == 0 {
        Map::empty()
    } else {
        let m = group_series(series.drop_last());
        match series_bucket(series.last()) {
            None => m,
            Some(n) => {
                let prev = if m.dom().contains(n) { m[n] } else { Seq::empty() };
                m.insert(n, prev + series_types(series.last()))
            },
        }
    }
}

/// Whether a series list attributes at least one series to bucket `n`.
pub open spec fn contributes(series: Seq<MetricSeriesModel>, n: Seq<char>) -> bool
    decreases series.len(),
{
    if series.len() == 0 {
        false
    } else {
        contributes(series.drop_last(), n) || series_bucket(series.last()) == Some(n)
    }
}

/// The storage-tier labels of all series attributed to bucket `n`,
/// concatenated in series order.
pub open spec fn types_for(series: Seq<MetricSeriesModel>, n: Seq<char>) -> Seq<Seq<char>>
    decreases series.len(),
{
    if series.len() == 0 {
        Seq::empty()
    } else {
        let rest = types_for(series.drop_last(), n);
        if series_bucket(series.last()) == Some(n) {
            rest + series_types(series.last())
        } else {
            rest
        }
    }
}

/// The map an entry list denotes.
pub open spec fn entries_map(s: Seq<BucketTiersModel>) -> Map<Seq<char>, Seq<Seq<char>>>
    decreases s.len(),
{
    if s.len() == 0 {
        Map::empty()
    } else {
        entries_map(s.drop_last()).insert(s.last().name, s.last().storage_types)
    }
}

/// Whether the entries of a list carry pairwise distinct names.
pub open spec fn unique_names(s: Seq<BucketTiersModel>) -> bool {
    forall|i: int, j: int| 0 <= i < j < s.len() ==> s[i].name != s[j].name
}

impl DeepView for BucketMetrics {
    type V = Map<Seq<char>, Seq<Seq<char>>>;

    open spec fn deep_view(&self) -> Map<Seq<char>, Seq<Seq<char>>> {
        entries_map(self.entries.deep_view())
    }
}

/// An entry list's map has a key exactly for each entry name, so the
/// names `bucket_names` returns are exactly the mapping's keys.
pub proof fn lemma_entries_map_domain(s: Seq<BucketTiersModel>, n: Seq<char>)
    ensures
        entries_map(s).dom().contains(n) <==> exists|t: int|
            0 <= t < s.len() && (#[trigger] s[t]).name == n,
    decreases s.len(),
{
    if s.len() > 0 {
        lemma_entries_map_domain(s.drop_last(), n);
        if entries_map(s).dom().contains(n) {
            if s.last().name != n {
                let t = choose|t: int| 0 <= t < s.drop_last().len() && (#[trigger] s.drop_last()[t]).name == n;
                assert(s[t].name == n);
            } else {
                assert(s[s.len() - 1].name == n);
            }
        }
        if exists|t: int| 0 <= t < s.len() && (#[trigger] s[t]).name == n {
            let t = choose|t: int| 0 <= t < s.len() && (#[trigger] s[t]).name == n;
            if t < s.len() - 1 {
                assert(s.drop_last()[t].name == n);
            }
        }
    }
}

proof fn lemma_entries_map_index(s: Seq<BucketTiersModel>, k: int)
    requires
        unique_names(s),
        0 <= k < s.len(),
    ensures
        entries_map(s).dom().contains(s[k].name),
        entries_map(s)[s[k].name] == s[k].storage_types,
    decreases s.len(),
{
    if k < s.len() - 1 {
        assert(unique_names(s.drop_last()));
        lemma_entries_map_index(s.drop_last(), k);
        assert(s.drop_last()[k] == s[k]);
        assert(s[k].name != s.last().name);
    }
}

proof fn lemma_entries_map_update(s: Seq<BucketTiersModel>, k: int, e: BucketTiersModel)
    requires
        unique_names(s),
        0 <= k < s.len(),
        e.name == s[k].name,
    ensures
        entries_map(s.update(k, e)) == entries_map(s).insert(e.name, e.storage_types),
    decreases s.len(),
{
    if k == s.len() - 1 {
        assert(s.update(k, e).drop_last() =~= s.drop_last());
        assert(entries_map(s.update(k, e)) =~= entries_map(s).insert(e.name, e.storage_types));
    } else {
        assert(unique_names(s.drop_last()));
        assert(s.drop_last()[k] == s[k]);
        lemma_entries_map_update(s.drop_last(), k, e);
        assert(s.update(k, e).drop_last() =~= s.drop_last().update(k, e));
        assert(s.update(k, e).last() == s.last());
        assert(e.name != s.last().name);
        assert(entries_map(s.update(k, e)) =~= entries_map(s).insert(e.name, e.storage_types));
    }
}

impl BucketMetrics {
    /// Entry names are pairwise distinct: each bucket has one entry.
    pub open spec fn wf(&self) -> bool {
        unique_names(self.entries.deep_view())
    }

    /// An empty mapping.
    pub fn new() -> (r: BucketMetrics)
        ensures
            r.wf(),
            r.deep_view() == Map::<Seq<char>, Seq<Seq<char>>>::empty(),
    {
        BucketMetrics { entries: Vec::new() }
    }

    /// The index of the entry named `name`, if one exists.
    fn find_entry(&self, name: &String) -> (r: Option<usize>)
        ensures
            match r {
                Some(k) => 0 <= k < self.entries.deep_view().len()
                    && self.entries.deep_view()[k as int].name == name@,
                None => forall|t: int|
                    0 <= t < self.entries.deep_view().len()
                        ==> (#[trigger] self.entries.deep_view()[t]).name != name@,
            },
    {
        let mut k: usize = 0;
        while k < self.entries.len()
            invariant
                k <= self.entries.len(),
                forall|t: int|
                    0 <= t < k ==> (#[trigger] self.entries.deep_view()[t]).name != name@,
            decreases self.entries.len() - k,
        {
            if self.entries[k].name == *name {
                return Some(k);
            }
            k += 1;
        }
        None
    }

    /// Appends `types` to the entry for `name`, creating the entry if the
    /// bucket has none yet.
    fn upsert(&mut self, name: String, types: Vec<String>)
        requires
            old(self).wf(),
        ensures
            final(self).wf(),
            final(self).deep_view() == old(self).deep_view().insert(
                name@,
                (if old(self).deep_view().dom().contains(name@) {
                    old(self).deep_view()[name@]
                } else {
                    Seq::empty()
                }) + types.deep_view(),
            ),
    {
        let ghost old_entries = self.entries.deep_view();
        match self.find_entry(&name) {
            Some(k) => {
                let mut entry = self.entries.remove(k);
                let ghost removed = self.entries.deep_view();
                let mut types_in = types;
                entry.storage_types.append(&mut types_in);
                let ghost e = entry.deep_view();
                self.entries.insert(k, entry);
                proof {
                    assert(removed =~~= old_entries.remove(k as int));
                    assert(e.name == old_entries[k as int].name);
                    assert(e.storage_types =~~= old_entries[k as int].storage_types
                        + types.deep_view());
                    assert(self.entries.deep_view() =~~= removed.insert(k as int, e));
                    assert(self.entries.deep_view() =~~= old_entries.update(k as int, e));
                    lemma_entries_map_index(old_entries, k as int);
                    lemma_entries_map_update(old_entries, k as int, e);
                    assert(forall|t: int|
                        0 <= t < old_entries.len()
                            ==> (#[trigger] old_entries.update(k as int, e)[t]).name
                            == old_entries[t].name);
                    assert(final(self).wf());
                }
            },
            None => {
                proof {
                    lemma_entries_map_domain(old_entries, name@);
                }
                let ghost e = BucketTiersModel { name: name@, storage_types: types.deep_view() };
                self.entries.push(BucketTiers { name, storage_types: types });
                proof {
                    assert(self.entries.deep_view() =~~= old_entries.push(e));
                    assert(self.entries.deep_view().drop_last() =~= old_entries);
                    assert(e.storage_types =~= Seq::empty() + types.deep_view());
                    assert(forall|t: int|
                        0 <= t < old_entries.len()
                            ==> (#[trigger] old_entries.push(e)[t]).name == old_entries[t].name);
                    assert(final(self).wf());
                    assert(final(self).deep_view() =~= old(self).deep_view().insert(
                        name@,
                        Seq::empty() + types.deep_view(),
                    ));
                }
            },
        }
    }

    /// Groups a catalog sweep by bucket: the result maps each attributed
    /// bucket name to the storage-tier labels of its series, in order.
    pub fn from_series(series: &Vec<MetricSeries>) -> (r: BucketMetrics)
        ensures
            r.wf(),
            r.deep_view() == group_series(series.deep_view()),
    {
        let ghost sv = series.deep_view();
        let mut result = BucketMetrics::new();
        let mut i: usize = 0;
        while i < series.len()
            invariant
                i <= series.len(),
                sv == series.deep_view(),
                sv.len() == series.len(),
                result.wf(),
                result.deep_view() == group_series(sv.take(i as int)),
            decreases series.len() - i,
        {
            let ghost prefix = sv.take(i as int);
            let ghost next_prefix = sv.take(i as int + 1);
            proof {
                assert(next_prefix.drop_last() =~= prefix);
                assert(next_prefix.last() == sv[i as int]);
            }
            match &series[i].dimensions {
                None => {
                    proof {
                        assert(series_bucket(sv[i as int]) is None);
                    }
                },
                Some(dims) => {
                    let ghost dv = dims.deep_view();
                    let mut name_opt: Option<String> = None;
                    let mut types: Vec<String> = Vec::new();
                    let mut j: usize = 0;
                    while j < dims.len()
                        invariant
                            j <= dims.len(),
                            dv == dims.deep_view(),
                            dv.len() == dims.len(),
                            name_opt.deep_view() == bucket_name_of(dv.take(j as int)),
                            types.deep_view() == storage_types_of(dv.take(j as int)),
                        decreases dims.len() - j,
                    {
                        proof {
                            reveal_strlit("BucketName");
                            reveal_strlit("StorageType");
                            assert(dv.take(j as int + 1).drop_last() =~= dv.take(j as int));
                            assert(dv.take(j as int + 1).last() == dv[j as int]);
                            assert(dv[j as int].name == dims@[j as int].name@);
                        }
                        if str_eq(dims[j].name.as_str(), "BucketName") {
                            name_opt = Some(dims[j].value.clone());
                            proof {
                                assert(dv.take(j as int + 1).last().name == "BucketName"@);
                                assert(dv.take(j as int + 1).last().name != "StorageType"@);
                                assert(types.deep_view() =~~= storage_types_of(
                                    dv.take(j as int + 1),
                                ));
                            }
                        } else if str_eq(dims[j].name.as_str(), "StorageType") {
                            types.push(dims[j].value.clone());
                            proof {
                                assert(dv.take(j as int + 1).last().name == "StorageType"@);
                                assert(types.deep_view() =~~= storage_types_of(
                                    dv.take(j as int + 1),
                                ));
                            }
                        } else {
                            proof {
                                assert(types.deep_view() =~~= storage_types_of(
                                    dv.take(j as int + 1),
                                ));
                            }
                        }
                        j += 1;
                    }
                    proof {
                        assert(dv.take(dims.len() as int) =~= dv);
                        assert(sv[i as int].dimensions == Some(dv));
                    }
                    match name_opt {
                        None => {
                            proof {
                                assert(series_bucket(sv[i as int]) is None);
                            }
                        },
                        Some(bucket_name) => {
                            proof {
                                assert(series_bucket(sv[i as int]) == Some(bucket_name@));
                                assert(series_types(sv[i as int]) == types.deep_view());
                            }
                            result.upsert(bucket_name, types);
                        },
                    }
                },
            }
            i += 1;
        }
        proof {
            assert(sv.take(series.len() as int) =~= sv);
        }
        result
    }

    /// The names of the buckets in the mapping, in entry order.
    pub fn bucket_names(&self) -> (r: Vec<String>)
        ensures
            r.deep_view().len() == self.entries.deep_view().len(),
            forall|t: int|
                0 <= t < r.deep_view().len()
                    ==> r.deep_view()[t] == (#[trigger] self.entries.deep_view()[t]).name,
    {
        let mut names: Vec<String> = Vec::new();
        let mut k: usize = 0;
        while k < self.entries.len()
            invariant
                k <= self.entries.len(),
                names.deep_view().len() == k,
                forall|t: int|
                    0 <= t < k ==> names.deep_view()[t] == (#[trigger] self.entries.deep_view()[t]).name,
            decreases self.entries.len() - k,
        {
            names.push(self.entries[k].name.clone());
            k += 1;
        }
        names
    }

    /// The storage-tier labels recorded for `name`, or `None` when the
    /// mapping has no entry for it.
    pub fn storage_types_for(&self, name: &String) -> (r: Option<Vec<String>>)
        requires
            self.wf(),
        ensures
            match r {
                Some(v) => self.deep_view().dom().contains(name@)
                    && v.deep_view() == self.deep_view()[name@],
                None => !self.deep_view().dom().contains(name@),
            },
    {
        match self.find_entry(name) {
            Some(k) => {
                proof {
                    lemma_entries_map_index(self.entries.deep_view(), k as int);
                }
                Some(self.entries[k].storage_types.clone())
            },
            None => {
                proof {
                    lemma_entries_map_domain(self.entries.deep_view(), name@);
                }
                None
            },
        }
    }
}

/// Law: grouping a catalog sweep produces a map whose key set is exactly
/// the set of bucket names attributed by at least one series, and whose
/// value for each such bucket is the concatenation, in series order, of the
/// storage-tier labels of the series attributed to it.
pub proof fn lemma_group_series_characterized(series: Seq<MetricSeriesModel>, n: Seq<char>)
    ensures
        group_series(series).dom().contains(n) <==> contributes(series, n),
        contributes(series, n) ==> group_series(series)[n] == types_for(series, n),
    decreases series.len(),
{
    if series.len() > 0 {
        lemma_group_series_characterized(series.drop_last(), n);
        lemma_group_series_empty_types(series.drop_last(), n);
    }
}

/// A bucket no series is attributed to has no labels to collect.
proof fn lemma_group_series_empty_types(series: Seq<MetricSeriesModel>, n: Seq<char>)
    ensures
        !contributes(series, n) ==> types_for(series, n) == Seq::<Seq<char>>::empty(),
    decreases series.len(),
{
    if series.len() > 0 {
        lemma_group_series_empty_types(series.drop_last(), n);
    }
}

/// Law: a bucket name is in the grouping exactly when some series is
/// attributed to it.
pub proof fn lemma_contributes_iff_some_series(series: Seq<MetricSeriesModel>, n: Seq<char>)
    ensures
        contributes(series, n) <==> exists|t: int|
            0 <= t < series.len() && series_bucket(#[trigger] series[t]) == Some(n),
    decreases series.len(),
{
    if series.len() > 0 {
        lemma_contributes_iff_some_series(series.drop_last(), n);
        if contributes(series, n) {
            if series_bucket(series.last()) == Some(n) {
                assert(series_bucket(series[series.len() - 1]) == Some(n));
            } else {
                let t = choose|t: int|
                    0 <= t < series.drop_last().len()
                        && series_bucket(#[trigger] series.drop_last()[t]) == Some(n);
                assert(series_bucket(series[t]) == Some(n));
            }
        }
        if exists|t: int| 0 <= t < series.len() && series_bucket(#[trigger] series[t]) == Some(n) {
            let t = choose|t: int|
                0 <= t < series.len() && series_bucket(#[trigger] series[t]) == Some(n);
            if t < series.len() - 1 {
                assert(series_bucket(series.drop_last()[t]) == Some(n));
            }
        }
    }
}

} // verus!
