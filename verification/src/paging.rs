//! The paginated sequence: a lazy, pull-driven, forward-only iteration
//! over a multi-page collection endpoint.
//!
//! The sequence is an explicit state machine over {closed, fetch pending,
//! buffered, idle}. The driver owns the actual page fetch; each pull
//! either hands out an item, reports the terminal error, signals the end,
//! asks the driver to come back once the pending fetch has progressed, or
//! tells it which page to start fetching. At most one fetch is ever in
//! flight: a fetch is only started when none is pending, and a pending one
//! must be resolved before another can begin.

use std::collections::VecDeque;
use vstd::prelude::*;

use crate::error::Error;

verus! {

/// What the driver observed of the in-flight page fetch when it probed it.
pub enum FetchProbe<T> {
    /// The fetch has not completed yet.
    NotReady,
    /// The fetch completed with the page's items, in server order.
    Page { items: Vec<T> },
    /// The fetch completed with an error.
    Failed { error: Error },
}

/// What one pull produced.
pub enum Pull<T> {
    /// The next item, in server order.
    Item { item: T },
    /// The terminal error item; the sequence is closed from now on.
    Failed { error: Error },
    /// End of the sequence.
    Finished,
    /// The pending fetch has not completed; pull again once it has moved.
    NotYet,
    /// No fetch was in flight: start fetching this page, then pull again.
    StartFetch { page: u64 },
}

/// The sequence state. The ghost `pages` records the item sequence of
/// every completed page in arrival order, and `delivered` the items
/// already handed out; the invariant ties them to the buffer, so that
/// what is delivered is always a prefix of the pages' concatenation.
pub struct PageStream<T> {
    /// Once closed, every pull signals the end; never re-opened.
    pub closed: bool,
    /// Whether a page fetch is in flight.
    pub fetch_pending: bool,
    /// Items of the most recent page not yet handed out, front first.
    pub buffer: VecDeque<T>,
    /// The page number the next fetch will request.
    pub next_page: u64,
    /// Item sequences of the completed pages, in arrival order.
    pub pages: Ghost<Seq<Seq<T>>>,
    /// Items already handed out, in order.
    pub delivered: Ghost<Seq<T>>,
}

impl<T> PageStream<T> {
    /// Well-formedness: delivered items followed by the buffered ones are
    /// exactly the concatenation of the completed pages, a pending fetch
    /// or a closed sequence has nothing buffered, and page numbers start
    /// at 1.
    pub open spec fn inv(self) -> bool {
        &&& self.delivered@ + self.buffer@ == self.pages@.flatten()
        &&& self.fetch_pending ==> self.buffer@.len() == 0
        &&& self.closed ==> !self.fetch_pending && self.buffer@.len() == 0
        &&& self.next_page >= 1
    }

    /// Both states show the same observable and model values.
    pub open spec fn same_state(a: PageStream<T>, b: PageStream<T>) -> bool {
        &&& a.closed == b.closed
        &&& a.fetch_pending == b.fetch_pending
        &&& a.buffer@ == b.buffer@
        &&& a.next_page == b.next_page
        &&& a.pages@ == b.pages@
        &&& a.delivered@ == b.delivered@
    }

    /// A fresh sequence that will fetch `first_page` first.
    pub fn new(first_page: u64) -> (s: PageStream<T>)
        requires
            first_page >= 1,
        ensures
            s.inv(),
            !s.closed,
            !s.fetch_pending,
            s.buffer@.len() == 0,
            s.next_page == first_page,
            s.pages@ =~= Seq::<Seq<T>>::empty(),
            s.delivered@ =~= Seq::<T>::empty(),
    {
        let s = PageStream {
            closed: false,
            fetch_pending: false,
            buffer: VecDeque::new(),
            next_page: first_page,
            pages: Ghost(Seq::empty()),
            delivered: Ghost(Seq::empty()),
        };
        proof {
            assert(s.delivered@ + s.buffer@ =~= s.pages@.flatten());
        }
        s
    }

    /// One pull. `probe` is the driver's observation of the in-flight
    /// fetch, present exactly when one is pending.
    ///
    /// A page with fewer items than were requested, but more than zero,
    /// does not close the sequence; only an explicitly empty page does,
    /// and a fetch failure. Each new fetch asks for the next page number,
    /// one past the previous, whatever the previous page held.
    pub fn poll(&mut self, probe: Option<FetchProbe<T>>) -> (p: Pull<T>)
        requires
            old(self).inv(),
            old(self).fetch_pending <==> probe is Some,
            // only the pull that starts a fetch counts the page number off
            !old(self).closed && old(self).buffer@.len() == 0 && !old(self).fetch_pending ==> old(
                self,
            ).next_page < u64::MAX,
        ensures
            final(self).inv(),
            old(self).closed ==> final(self).closed,
            // Closed: signal the end, change nothing.
            old(self).closed ==> p is Finished && Self::same_state(*old(self), *final(self)),
            // Buffered: hand out the front item.
            !old(self).closed && old(self).buffer@.len() > 0 ==> {
                &&& p matches Pull::Item { item } && item == old(self).buffer@[0]
                &&& final(self).buffer@ == old(self).buffer@.subrange(
                    1,
                    old(self).buffer@.len() as int,
                )
                &&& final(self).delivered@ == old(self).delivered@.push(old(self).buffer@[0])
                &&& final(self).pages@ == old(self).pages@
                &&& !final(self).closed
                &&& !final(self).fetch_pending
                &&& final(self).next_page == old(self).next_page
            },
            // Pending, not ready: remain as is. (A probe present implies the
            // sequence was neither closed nor buffered, by the invariant.)
            probe matches Some(FetchProbe::NotReady) ==> p is NotYet && Self::same_state(
                *old(self),
                *final(self),
            ),
            // Pending, page completed: an empty page closes the sequence —
            // a non-empty one, however short, hands out its first item and
            // buffers the rest.
            probe matches Some(FetchProbe::Page { items }) ==> {
                &&& items@.len() == 0 ==> {
                    &&& p is Finished
                    &&& final(self).closed
                    &&& final(self).buffer@.len() == 0
                    &&& final(self).delivered@ == old(self).delivered@
                    &&& final(self).pages@ == old(self).pages@.push(items@)
                    &&& final(self).next_page == old(self).next_page
                }
                &&& items@.len() > 0 ==> {
                    &&& p matches Pull::Item { item } && item == items@[0]
                    &&& final(self).buffer@ == items@.subrange(1, items@.len() as int)
                    &&& final(self).delivered@ == old(self).delivered@.push(items@[0])
                    &&& final(self).pages@ == old(self).pages@.push(items@)
                    &&& !final(self).closed
                    &&& !final(self).fetch_pending
                    &&& final(self).next_page == old(self).next_page
                }
            },
            // Pending, failed: close, hand the error out as the last item.
            probe matches Some(FetchProbe::Failed { error }) ==> {
                &&& p matches Pull::Failed { error: e } && e == error
                &&& final(self).closed
                &&& final(self).buffer@.len() == 0
                &&& final(self).delivered@ == old(self).delivered@
                &&& final(self).pages@ == old(self).pages@
                &&& final(self).next_page == old(self).next_page
            },
            // Idle: ask for the next page, and count it off.
            !old(self).closed && old(self).buffer@.len() == 0 && !old(self).fetch_pending ==> {
                &&& p matches Pull::StartFetch { page } && page == old(self).next_page
                &&& final(self).fetch_pending
                &&& final(self).next_page == old(self).next_page + 1
                &&& final(self).buffer@.len() == 0
                &&& final(self).delivered@ == old(self).delivered@
                &&& final(self).pages@ == old(self).pages@
                &&& !final(self).closed
            },
    {
        if self.closed {
            return Pull::Finished;
        }
        if self.fetch_pending {
            match probe {
                None => {
                    // a pending fetch always comes with a probe
                    proof {
                        assert(false);
                    }
                    Pull::NotYet
                },
                Some(FetchProbe::NotReady) => Pull::NotYet,
                Some(FetchProbe::Failed { error }) => {
                    self.fetch_pending = false;
                    self.closed = true;
                    Pull::Failed { error }
                },
                Some(FetchProbe::Page { items }) => {
                    self.fetch_pending = false;
                    let ghost page_items = items@;
                    proof {
                        self.pages@ = self.pages@.push(page_items);
                        old(self).pages@.lemma_flatten_push(page_items);
                    }
                    if items.len() == 0 {
                        self.closed = true;
                        proof {
                            assert(self.delivered@ + self.buffer@ =~= self.pages@.flatten());
                        }
                        Pull::Finished
                    } else {
                        let mut items = items;
                        let item = items.remove(0);
                        while items.len() > 0
                            invariant
                                self.buffer@ + items@ =~= page_items.subrange(
                                    1,
                                    page_items.len() as int,
                                ),
                                self.closed == false,
                                self.fetch_pending == false,
                                self.next_page == old(self).next_page,
                                self.pages@ == old(self).pages@.push(page_items),
                                self.delivered@ == old(self).delivered@,
                            decreases items@.len(),
                        {
                            let ghost buffer_before = self.buffer@;
                            let ghost items_before = items@;
                            let x = items.remove(0);
                            self.buffer.push_back(x);
                            proof {
                                assert(self.buffer@ + items@ =~= buffer_before + items_before);
                            }
                        }
                        proof {
                            self.delivered@ = self.delivered@.push(item);
                            assert(page_items == seq![page_items[0]] + page_items.subrange(
                                1,
                                page_items.len() as int,
                            )) by {
                                assert(page_items =~= seq![page_items[0]] + page_items.subrange(
                                    1,
                                    page_items.len() as int,
                                ));
                            }
                            assert(self.delivered@ + self.buffer@ =~= self.pages@.flatten());
                        }
                        Pull::Item { item }
                    }
                },
            }
        } else {
            let front = self.buffer.pop_front();
            match front {
                Some(item) => {
                    proof {
                        self.delivered@ = self.delivered@.push(item);
                        assert(self.delivered@ + self.buffer@ =~= self.pages@.flatten());
                    }
                    Pull::Item { item }
                },
                None => {
                    let page = self.next_page;
                    self.next_page = self.next_page + 1;
                    self.fetch_pending = true;
                    Pull::StartFetch { page }
                },
            }
        }
    }

    /// The order law: what has been handed out is exactly the leading
    /// part of the fetched pages' concatenation — all items, in server
    /// order, never reordered within or across pages.
    pub proof fn lemma_delivered_is_prefix(self)
        requires
            self.inv(),
        ensures
            self.delivered@.len() <= self.pages@.flatten().len(),
            self.delivered@ == self.pages@.flatten().take(self.delivered@.len() as int),
    {
        assert(self.delivered@ =~= (self.delivered@ + self.buffer@).take(
            self.delivered@.len() as int,
        ));
    }
}

} // verus!
