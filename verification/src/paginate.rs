use crate::page::Page;
use vstd::prelude::*;

verus! {

/// Drives repeated fetches across a cursor-linked result set: a lazy,
/// forward-only, non-restartable walk. Each returned page's cursor (or its
/// absence) decides the next step; restarting means issuing the first fetch
/// again from scratch. Concurrent offset-based queries without a cursor can
/// skip or duplicate items if the underlying set mutates between calls; that
/// is a documented limitation of the provider's query model.
#[derive(Clone, Debug)]
pub struct Paginator {
    /// The continuation link of the most recent page, to be used verbatim
    /// (superseding all other query parameters) on the next fetch.
    pub cursor: Option<String>,
    /// Whether a page without a cursor has been consumed: the walk is over.
    pub finished: bool,
}

impl Paginator {
    pub fn new() -> (p: Paginator)
        ensures
            p.cursor is None,
            !p.finished,
    {
        Paginator { cursor: None, finished: false }
    }

    /// Consume one fetched page: its items are handed back in provider
    /// order, its cursor becomes the continuation state, and the walk is
    /// finished exactly when the page carried no cursor.
    pub fn feed<T>(&mut self, page: Page<T>) -> (items: Vec<T>)
        requires
            !old(self).finished,
        ensures
            items == page.value,
            final(self).cursor == page.next_link,
            final(self).finished == (page.next_link is None),
    {
        let finished = page.next_link.is_none();
        self.cursor = page.next_link;
        self.finished = finished;
        page.value
    }
}

/// The items of `pages` concatenated in page order.
pub open spec fn pages_items<T>(pages: Seq<Page<T>>) -> Seq<T>
    decreases pages.len(),
{
    if pages.len() == 0 {
        Seq::<T>::empty()
    } else {
        pages[0].value@ + pages_items(pages.skip(1))
    }
}

/// Whether `pages` is one complete forward walk: every page before the last
/// carries a cursor and the last carries none.
pub open spec fn complete_walk<T>(pages: Seq<Page<T>>) -> bool {
    &&& pages.len() > 0
    &&& forall|i: int| 0 <= i < pages.len() - 1 ==> pages[i].next_link is Some
    &&& pages[pages.len() - 1].next_link is None
}

/// Law (pagination): feeding a paginator a complete walk of N pages — with
/// cursors present on all but the last and absent on the last — yields
/// exactly the concatenation of the pages' items, in page order, and the
/// walk then terminates: the paginator is finished after the last page and
/// not before.
pub fn collect_all<T>(pages: Vec<Page<T>>) -> (items: Vec<T>)
    requires
        complete_walk(pages@),
    ensures
        items@ == pages_items(pages@),
{
    let ghost all = pages@;
    let mut paginator = Paginator::new();
    let mut rest = pages;
    let mut items: Vec<T> = Vec::new();
    while rest.len() > 0
        invariant
            items@ + pages_items(rest@) == pages_items(all),
            rest@.len() > 0 ==> {
                &&& !paginator.finished
                &&& forall|i: int| 0 <= i < rest@.len() - 1 ==> rest@[i].next_link is Some
                &&& rest@[rest@.len() - 1].next_link is None
            },
            rest@.len() == 0 ==> paginator.finished,
        decreases rest@.len(),
    {
        let ghost before = rest@;
        let page = rest.remove(0);
        proof {
            assert(rest@ =~= before.skip(1));
        }
        let mut batch = paginator.feed(page);
        items.append(&mut batch);
    }
    items
}

} // verus!
