//! The enumeration-driven sizing computation.
//!
//! This backend sizes a bucket by listing every object (or every object
//! version) and summing the size fields. Listing pages arrive through the
//! pagination protocol; the sums here are computed incrementally per page,
//! so no full object listing is ever buffered. An entry without a size
//! field (such as a delete marker) counts as zero, not as an error.

use vstd::prelude::*;

use crate::pagination::Page;

verus! {

/// One listed object or object version: its key and its size in bytes,
/// either of which the provider may omit.
#[derive(Debug, Clone, PartialEq, Eq)]
pub struct ObjectEntry {
    pub key: Option<String>,
    pub size: Option<u64>,
}

/// The model of an `ObjectEntry`.
pub struct ObjectEntryModel {
    pub key: Option<Seq<char>>,
    pub size: Option<u64>,
}

impl DeepView for ObjectEntry {
    type V = ObjectEntryModel;

    open spec fn deep_view(&self) -> ObjectEntryModel {
        ObjectEntryModel { key: self.key.deep_view(), size: self.size }
    }
}

/// The size an entry contributes: its size field, or zero when the entry
/// carries none.
pub open spec fn size_of(o: ObjectEntryModel) -> int {
    match o.size {
        Some(s) => s as int,
        None => 0,
    }
}

/// The total size of a listing: the sum of each entry's contribution.
pub open spec fn sum_sizes(s: Seq<ObjectEntryModel>) -> int
    decreases s.len(),
{
    if s.len() == 0 {
        0
    } else {
        sum_sizes(s.drop_last()) + size_of(s.last())
    }
}

/// Summing distributes over concatenation of listings.
pub proof fn lemma_sum_sizes_concat(a: Seq<ObjectEntryModel>, b: Seq<ObjectEntryModel>)
    ensures
        sum_sizes(a + b) == sum_sizes(a) + sum_sizes(b),
    decreases b.len(),
{
    if b.len() == 0 {
        assert(a + b =~= a);
    } else {
        lemma_sum_sizes_concat(a, b.drop_last());
        assert((a + b).drop_last() =~= a + b.drop_last());
        assert((a + b).last() == b.last());
    }
}

/// Sums one page of entries exactly; the result cannot overflow, since a
/// page holds fewer entries than the 128-bit accumulator can absorb at the
/// largest 64-bit size each.
pub fn sum_object_sizes(objects: &Vec<ObjectEntry>) -> (r: u128)
    ensures
        r == sum_sizes(objects.deep_view()),
{
    let ghost ov = objects.deep_view();
    let mut total: u128 = 0;
    let mut i: usize = 0;
    while i < objects.len()
        invariant
            i <= objects.len(),
            ov == objects.deep_view(),
            ov.len() == objects.len(),
            total == sum_sizes(ov.take(i as int)),
            total <= i * 0xffff_ffff_ffff_ffff,
        decreases objects.len() - i,
    {
        proof {
            assert(ov.take(i as int + 1).drop_last() =~= ov.take(i as int));
            assert(ov.take(i as int + 1).last() == ov[i as int]);
            assert((i as int + 1) * 0xffff_ffff_ffff_ffff
                == i as int * 0xffff_ffff_ffff_ffff + 0xffff_ffff_ffff_ffff) by (nonlinear_arith);
            assert(i as int + 1 <= 0x1_0000_0000_0000_0000);
            assert((i as int + 1) * 0xffff_ffff_ffff_ffff
                <= 0x1_0000_0000_0000_0000 * 0xffff_ffff_ffff_ffff) by (nonlinear_arith)
                requires i as int + 1 <= 0x1_0000_0000_0000_0000;
        }
        let size: u64 = match objects[i].size {
            Some(s) => s,
            None => 0,
        };
        total = total + (size as u128);
        i += 1;
    }
    proof {
        assert(ov.take(objects.len() as int) =~= ov);
    }
    total
}

/// The running total of an enumeration-driven sizing, fed one page at a
/// time as the pagination protocol yields them.
pub struct SizingState {
    pub total: u128,
}

impl SizingState {
    /// A fresh sizing: nothing counted yet.
    pub fn new() -> (r: SizingState)
        ensures
            r.total == 0,
    {
        SizingState { total: 0 }
    }

    /// Adds one page's sizes to the running total. The accumulator
    /// saturates rather than wraps at its upper bound, which no real
    /// bucket can reach.
    pub fn add_page(&mut self, objects: &Vec<ObjectEntry>)
        ensures
            old(self).total + sum_sizes(objects.deep_view()) <= u128::MAX ==> final(self).total
                == old(self).total + sum_sizes(objects.deep_view()),
            old(self).total + sum_sizes(objects.deep_view()) > u128::MAX ==> final(self).total
                == u128::MAX,
    {
        let page_sum = sum_object_sizes(objects);
        if page_sum <= u128::MAX - self.total {
            self.total = self.total + page_sum;
        } else {
            self.total = u128::MAX;
        }
    }
}

/// The exact total of an enumeration run: the pages' sums, accumulated in
/// order.
pub open spec fn run_sizing(pages: Seq<Seq<ObjectEntryModel>>) -> int
    decreases pages.len(),
{
    if pages.len() == 0 {
        0
    } else {
        run_sizing(pages.drop_last()) + sum_sizes(pages.last())
    }
}

/// What the accumulator holds after the same run: the pages' sums,
/// saturating at the accumulator's upper bound, exactly as `add_page`
/// steps.
pub open spec fn run_sizing_saturating(pages: Seq<Seq<ObjectEntryModel>>) -> int
    decreases pages.len(),
{
    if pages.len() == 0 {
        0
    } else {
        let prev = run_sizing_saturating(pages.drop_last());
        if prev + sum_sizes(pages.last()) <= u128::MAX {
            prev + sum_sizes(pages.last())
        } else {
            u128::MAX as int
        }
    }
}

/// No entry shrinks a listing: totals are never negative.
pub proof fn lemma_sum_sizes_nonneg(s: Seq<ObjectEntryModel>)
    ensures
        0 <= sum_sizes(s),
    decreases s.len(),
{
    if s.len() > 0 {
        lemma_sum_sizes_nonneg(s.drop_last());
    }
}

/// Law: as long as the true total fits the accumulator — and no real
/// bucket approaches its bound — saturation never engages and the
/// accumulated total is the exact one.
pub proof fn lemma_sizing_saturation_exact(pages: Seq<Seq<ObjectEntryModel>>)
    ensures
        run_sizing(pages) <= u128::MAX ==> run_sizing_saturating(pages) == run_sizing(pages),
    decreases pages.len(),
{
    if pages.len() > 0 {
        lemma_sizing_saturation_exact(pages.drop_last());
        lemma_sum_sizes_nonneg(pages.last());
        lemma_run_sizing_nonneg(pages.drop_last());
    }
}

/// An enumeration run's exact total is never negative.
pub proof fn lemma_run_sizing_nonneg(pages: Seq<Seq<ObjectEntryModel>>)
    ensures
        0 <= run_sizing(pages),
    decreases pages.len(),
{
    if pages.len() > 0 {
        lemma_run_sizing_nonneg(pages.drop_last());
        lemma_sum_sizes_nonneg(pages.last());
    }
}

/// Law: summing page by page equals summing the equivalent single
/// unpaginated listing — the bucket size is the sum of every listed
/// entry's size field, with missing sizes counted as zero, however the
/// listing was paginated.
pub proof fn lemma_page_sums_equal_total(pages: Seq<Seq<ObjectEntryModel>>)
    ensures
        run_sizing(pages) == sum_sizes(pages.flatten()),
    decreases pages.len(),
{
    pages.lemma_flatten_and_flatten_alt_are_equivalent();
    if pages.len() == 0 {
    } else {
        lemma_page_sums_equal_total(pages.drop_last());
        pages.drop_last().lemma_flatten_and_flatten_alt_are_equivalent();
        lemma_sum_sizes_concat(pages.drop_last().flatten_alt(), pages.last());
    }
}

/// Shapes an object-listing response into a page for the pager. This
/// provider convention signals truncation with an explicit flag: only a
/// response marked truncated carries a usable continuation token, and any
/// other response ends the listing.
pub fn objects_page(
    contents: Option<Vec<ObjectEntry>>,
    is_truncated: Option<bool>,
    next_continuation_token: Option<String>,
) -> (r: Page<ObjectEntry, String>)
    ensures
        r.items.deep_view() == (match contents {
            Some(c) => c.deep_view(),
            None => Seq::<ObjectEntryModel>::empty(),
        }),
        r.next == (match is_truncated {
            Some(true) => next_continuation_token,
            _ => None::<String>,
        }),
{
    let items = match contents {
        Some(c) => c,
        None => Vec::new(),
    };
    let next = match is_truncated {
        Some(true) => next_continuation_token,
        _ => None,
    };
    Page { items, next }
}

/// The resume position of a version listing: both markers of the next
/// request.
#[derive(Debug, Clone, PartialEq, Eq)]
pub struct VersionMarker {
    pub key_marker: Option<String>,
    pub version_id_marker: Option<String>,
}

/// Shapes a version-listing response into a page for the pager. As with
/// `objects_page`, only a response marked truncated continues the listing;
/// the resume position is the returned marker pair.
pub fn versions_page(
    versions: Option<Vec<ObjectEntry>>,
    is_truncated: Option<bool>,
    next_key_marker: Option<String>,
    next_version_id_marker: Option<String>,
) -> (r: Page<ObjectEntry, VersionMarker>)
    ensures
        r.items.deep_view() == (match versions {
            Some(v) => v.deep_view(),
            None => Seq::<ObjectEntryModel>::empty(),
        }),
        r.next == (match is_truncated {
            Some(true) => Some(
                (VersionMarker {
                    key_marker: next_key_marker,
                    version_id_marker: next_version_id_marker,
                }),
            ),
            _ => None::<VersionMarker>,
        }),
{
    let items = match versions {
        Some(v) => v,
        None => Vec::new(),
    };
    let next = match is_truncated {
        Some(true) => Some(
            VersionMarker { key_marker: next_key_marker, version_id_marker: next_version_id_marker },
        ),
        _ => None,
    };
    Page { items, next }
}

} // verus!
