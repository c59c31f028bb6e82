//! The shared pagination protocol.
//!
//! Every listing call of the provider returns one page of items together
//! with an optional continuation cursor. The `Pager` accumulates pages:
//! the caller issues the request indicated by `cursor`, converts the
//! response into a `Page`, and feeds it to `step`, until `done`. Distinct
//! provider conventions (token presence versus an explicit truncation
//! flag) are bridged by small adapters in the backend modules that decide
//! what the next cursor is; the driver itself is one implementation.

use vstd::prelude::*;

verus! {

/// One page of a listing: the items returned and the cursor with which the
/// next page must be requested, or `None` when the listing is exhausted.
pub struct Page<T, C> {
    pub items: Vec<T>,
    pub next: Option<C>,
}

/// The accumulated state of a paginated listing: every item seen so far,
/// the cursor to send with the next request (`None` also on the very first
/// request), and whether the listing is exhausted.
pub struct Pager<T, C> {
    pub items: Vec<T>,
    pub cursor: Option<C>,
    pub done: bool,
}

/// The items accumulated after driving a pager, starting from `init`,
/// across `pages` in order: each page appends its items.
pub open spec fn run_items<A>(init: Seq<A>, pages: Seq<Seq<A>>) -> Seq<A>
    decreases pages.len(),
{
    if pages.len() == 0 {
        init
    } else {
        run_items(init, pages.drop_last()) + pages.last()
    }
}

impl<T, C> Pager<T, C> {
    /// A fresh pager: nothing accumulated, no cursor yet, not done.
    pub fn new() -> (r: Pager<T, C>)
        ensures
            r.items@ == Seq::<T>::empty(),
            r.cursor is None,
            !r.done,
    {
        Pager { items: Vec::new(), cursor: None, done: false }
    }

    /// Absorbs one page: its items are appended to the accumulator in
    /// order, and the listing is exhausted exactly when the page carries
    /// no continuation cursor. The page's cursor becomes the cursor of the
    /// next request.
    pub fn step(&mut self, page: Page<T, C>)
        requires
            !old(self).done,
        ensures
            final(self).items@ == old(self).items@ + page.items@,
            final(self).done == (page.next is None),
            final(self).cursor == page.next,
    {
        let Page { items: mut page_items, next } = page;
        self.items.append(&mut page_items);
        self.done = next.is_none();
        self.cursor = next;
    }
}

/// Law: however a listing is split into pages, driving a pager across all
/// of them in order accumulates exactly the items of the equivalent single
/// unpaginated listing — no item dropped, none duplicated.
pub proof fn lemma_pagination_accumulates<A>(init: Seq<A>, pages: Seq<Seq<A>>)
    ensures
        run_items(init, pages) == init + pages.flatten(),
    decreases pages.len(),
{
    pages.lemma_flatten_and_flatten_alt_are_equivalent();
    if pages.len() == 0 {
        assert(run_items(init, pages) =~= init + pages.flatten());
    } else {
        lemma_pagination_accumulates(init, pages.drop_last());
        pages.drop_last().lemma_flatten_and_flatten_alt_are_equivalent();
        assert(run_items(init, pages) =~= init + pages.flatten_alt());
    }
}

} // verus!
