//! The reverse-dependency pager: either one page of reverse dependencies
//! with the authoritative total, or a full accumulation of every page.
//!
//! The endpoint is paged with a fixed page size of 100. Full accumulation
//! starts at page 1 and keeps requesting the next page, appending each
//! page's items and taking over its reported total, until a page comes
//! back with zero items; nothing but an empty page stops it. The driver
//! performs the fetches; the page arithmetic and the accumulation are
//! here.

use vstd::prelude::*;

verus! {

/// The fixed page size of the reverse-dependency endpoint.
pub const REVERSE_DEPS_PAGE_SIZE: u64 = 100;

/// One reverse dependency: a crate that depends on the one asked about.
#[derive(Debug, Clone)]
pub struct ReverseDependency {
    /// Name of the depending crate.
    pub crate_name: String,
    /// The depending crate's download count.
    pub downloads: u64,
}

/// Pagination metadata: the authoritative total the server reports.
#[derive(Debug, Clone, Copy, PartialEq, Eq, Structural)]
pub struct Meta {
    pub total: u64,
}

/// A page of reverse dependencies, or a full accumulation of them.
#[derive(Debug, Clone)]
pub struct ReverseDependencies {
    /// The items, in server order.
    pub dependencies: Vec<ReverseDependency>,
    pub meta: Meta,
}

/// The query parameters of one reverse-dependency page request.
#[derive(Debug, Clone, Copy, PartialEq, Eq, Structural)]
pub struct PageRequest {
    /// 1-based page number.
    pub page: u64,
    /// Requested page size.
    pub per_page: u64,
}

/// A page-number argument below 1 is silently clamped to 1, never
/// rejected.
pub open spec fn clamped_page(page: u64) -> u64 {
    if page == 0 {
        1
    } else {
        page
    }
}

/// The request for one page of reverse dependencies: the clamped page
/// number at the fixed page size.
pub fn page_request(page: u64) -> (r: PageRequest)
    ensures
        r.page == clamped_page(page),
        r.page >= 1,
        r.per_page == REVERSE_DEPS_PAGE_SIZE,
{
    let p = if page == 0 {
        1
    } else {
        page
    };
    PageRequest { page: p, per_page: REVERSE_DEPS_PAGE_SIZE }
}

/// The authoritative reverse-dependency count: the total reported by the
/// first page, however many items it holds.
pub fn count_from_page(page: &ReverseDependencies) -> (n: u64)
    ensures
        n == page.meta.total,
{
    page.meta.total
}

/// The full-accumulation state. The ghost `page_items` records the item
/// sequence of every non-empty page absorbed so far, in page order, and
/// `page_totals` their reported totals; the invariant ties both to the
/// flat result.
pub struct RdepsAccum {
    /// The flat accumulation: every absorbed page's items, in page order,
    /// and the most recently reported total.
    pub deps: ReverseDependencies,
    /// The page number the next request asks for.
    pub next_page: u64,
    /// Item sequences of the absorbed non-empty pages, in page order.
    pub page_items: Ghost<Seq<Seq<ReverseDependency>>>,
    /// Reported totals of the absorbed non-empty pages, in page order.
    pub page_totals: Ghost<Seq<u64>>,
}

impl RdepsAccum {
    /// Well-formedness: the accumulation holds exactly the union of the
    /// absorbed pages in page order, and the total is the last absorbed
    /// page's reported total (0 before any page was absorbed).
    pub open spec fn inv(self) -> bool {
        &&& self.deps.dependencies@ == self.page_items@.flatten()
        &&& self.page_items@.len() == self.page_totals@.len()
        &&& self.page_totals@.len() == 0 ==> self.deps.meta.total == 0
        &&& self.page_totals@.len() > 0 ==> self.deps.meta.total == self.page_totals@.last()
        &&& self.next_page >= 1
    }

    /// A fresh accumulation: nothing absorbed, the first request will ask
    /// for page 1.
    pub fn new() -> (a: RdepsAccum)
        ensures
            a.inv(),
            a.deps.dependencies@.len() == 0,
            a.deps.meta.total == 0,
            a.next_page == 1,
            a.page_items@ =~= Seq::<Seq<ReverseDependency>>::empty(),
            a.page_totals@ =~= Seq::<u64>::empty(),
    {
        let a = RdepsAccum {
            deps: ReverseDependencies { dependencies: Vec::new(), meta: Meta { total: 0 } },
            next_page: 1,
            page_items: Ghost(Seq::empty()),
            page_totals: Ghost(Seq::empty()),
        };
        proof {
            assert(a.deps.dependencies@ =~= a.page_items@.flatten());
        }
        a
    }

    /// The request for the next page: the pages are walked 1, 2, 3, …,
    /// each at the fixed page size.
    pub fn next_request(&mut self) -> (r: PageRequest)
        requires
            old(self).inv(),
            old(self).next_page < u64::MAX,
        ensures
            final(self).inv(),
            r.page == old(self).next_page,
            r.per_page == REVERSE_DEPS_PAGE_SIZE,
            final(self).next_page == old(self).next_page + 1,
            final(self).deps == old(self).deps,
            final(self).page_items@ == old(self).page_items@,
            final(self).page_totals@ == old(self).page_totals@,
    {
        let page = self.next_page;
        self.next_page = self.next_page + 1;
        PageRequest { page, per_page: REVERSE_DEPS_PAGE_SIZE }
    }

    /// Absorb one fetched page. An empty page changes nothing and stops
    /// the accumulation; a non-empty page — a partial one included —
    /// appends its items, takes over its reported total, and asks for
    /// more.
    pub fn absorb(&mut self, page: ReverseDependencies) -> (more: bool)
        requires
            old(self).inv(),
        ensures
            final(self).inv(),
            final(self).next_page == old(self).next_page,
            page.dependencies@.len() == 0 ==> {
                &&& !more
                &&& final(self).deps == old(self).deps
                &&& final(self).page_items@ == old(self).page_items@
                &&& final(self).page_totals@ == old(self).page_totals@
            },
            page.dependencies@.len() > 0 ==> {
                &&& more
                &&& final(self).deps.dependencies@ == old(self).deps.dependencies@
                    + page.dependencies@
                &&& final(self).deps.meta.total == page.meta.total
                &&& final(self).page_items@ == old(self).page_items@.push(page.dependencies@)
                &&& final(self).page_totals@ == old(self).page_totals@.push(page.meta.total)
            },
    {
        let ReverseDependencies { dependencies, meta } = page;
        if dependencies.len() == 0 {
            return false;
        }
        let mut dependencies = dependencies;
        proof {
            self.page_items@ = self.page_items@.push(dependencies@);
            self.page_totals@ = self.page_totals@.push(meta.total);
            old(self).page_items@.lemma_flatten_push(dependencies@);
        }
        self.deps.dependencies.append(&mut dependencies);
        self.deps.meta.total = meta.total;
        true
    }

    /// The accumulation law: at every point, the flat result is the union
    /// of the absorbed pages in page order, and the reported total is the
    /// last absorbed page's total field.
    pub proof fn lemma_accumulation(self)
        requires
            self.inv(),
        ensures
            self.deps.dependencies@ == self.page_items@.flatten(),
            self.page_totals@.len() > 0 ==> self.deps.meta.total == self.page_totals@.last(),
            self.page_totals@.len() == 0 ==> self.deps.meta.total == 0,
    {
    }
}

} // verus!
