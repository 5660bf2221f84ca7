//! The cursor of a pagination engine: its states, its one transition, and
//! what holds of every sequence of answered fetches.

use vstd::prelude::*;
use crate::facet::PageView;

verus! {

/// Where an engine stands in its sequence.
#[derive(Clone, Copy, Debug, PartialEq, Eq, Structural)]
pub struct Cursor {
    /// The offset of the next page: the number of items handed out so far.
    /// A cursor that goes on is below a 32-bit total, and the page that ends
    /// the sequence may be of any length the machine can hold; the sum of the
    /// two always fits.
    pub start: u128,
    /// How many items one request asks for.
    pub page_size: u32,
    /// The total the source reported last; `None` before the first answer.
    pub total: Option<u32>,
    /// Nothing more will be fetched.
    pub exhausted: bool,
}

/// A cursor over unbounded integers.
pub struct CursorView {
    pub start: nat,
    pub page_size: nat,
    pub total: Option<nat>,
    pub exhausted: bool,
}

impl View for Cursor {
    type V = CursorView;

    open spec fn view(&self) -> CursorView {
        CursorView {
            start: self.start as nat,
            page_size: self.page_size as nat,
            total: match self.total {
                Some(total) => Some(total as nat),
                None => None,
            },
            exhausted: self.exhausted,
        }
    }
}

/// The three states of an engine.
#[derive(Clone, Copy, Debug, PartialEq, Eq, Structural)]
pub enum Phase {
    /// Nothing was fetched yet.
    Fresh,
    /// At least one page came back and more may follow.
    InProgress,
    /// The sequence has ended.
    Exhausted,
}

/// What the engine reads of a page: how many items it holds and the total
/// reported with it.
pub struct PageShape {
    pub count: nat,
    pub total: nat,
}

impl<T> PageView<T> {
    pub open spec fn shape(self) -> PageShape {
        PageShape { count: self.items.len(), total: self.total }
    }
}

impl CursorView {
    /// The cursor of a new engine.
    pub open spec fn fresh(page_size: nat) -> CursorView {
        CursorView { start: 0, page_size, total: None, exhausted: false }
    }

    /// What holds of every cursor an engine can be in: the page size is
    /// positive, before the first answer the cursor is at 0, and a cursor
    /// that goes on is below the total it saw last.
    pub open spec fn wf(self) -> bool {
        &&& self.page_size >= 1
        &&& self.total is None ==> self.start == 0 && !self.exhausted
        &&& !self.exhausted && self.total is Some ==> self.start < self.total->0
    }

    pub open spec fn phase(self) -> Phase {
        if self.exhausted {
            Phase::Exhausted
        } else if self.total is None {
            Phase::Fresh
        } else {
            Phase::InProgress
        }
    }

    /// The cursor after one answered fetch. An exhausted cursor stays as it
    /// is. Otherwise the cursor moves on by the number of items, remembers
    /// the total, and is exhausted if the page was empty or the total is
    /// reached.
    pub open spec fn advance(self, page: PageShape) -> CursorView {
        if self.exhausted {
            self
        } else {
            CursorView {
                start: self.start + page.count,
                page_size: self.page_size,
                total: Some(page.total),
                exhausted: page.count == 0 || self.start + page.count >= page.total,
            }
        }
    }

    /// How many items of a page reach the consumer.
    pub open spec fn handed_out(self, page: PageShape) -> nat {
        if self.exhausted {
            0
        } else {
            page.count
        }
    }

    /// The cursor after a sequence of answered fetches.
    pub open spec fn after(self, pages: Seq<PageShape>) -> CursorView
        decreases pages.len(),
    {
        if pages.len() == 0 {
            self
        } else {
            self.after(pages.drop_last()).advance(pages.last())
        }
    }

    /// How many items a sequence of answered fetches hands to the consumer.
    pub open spec fn handed_out_by(self, pages: Seq<PageShape>) -> nat
        decreases pages.len(),
    {
        if pages.len() == 0 {
            0
        } else {
            self.handed_out_by(pages.drop_last()) + self.after(pages.drop_last()).handed_out(
                pages.last(),
            )
        }
    }
}

/// The number of items in a sequence of pages.
pub open spec fn total_count(pages: Seq<PageShape>) -> nat
    decreases pages.len(),
{
    if pages.len() == 0 {
        0
    } else {
        total_count(pages.drop_last()) + pages.last().count
    }
}

/// A source that holds `available` items, answers every request with the
/// items from the offset on, as many as the page size allows, and reports
/// `total` each time.
pub struct Source {
    pub available: nat,
    pub total: nat,
}

impl Source {
    /// The page this source gives at `start`.
    pub open spec fn page_at(self, start: nat, page_size: nat) -> PageShape {
        PageShape {
            count: if start >= self.available {
                0
            } else if self.available - start < page_size {
                (self.available - start) as nat
            } else {
                page_size
            },
            total: self.total,
        }
    }

    /// The smaller of what the source reports and what it holds.
    pub open spec fn deliverable(self) -> nat {
        if self.total <= self.available {
            self.total
        } else {
            self.available
        }
    }
}

impl CursorView {
    /// Every page of the sequence was fetched at a cursor that was not
    /// exhausted: the sequence is one of successful fetches.
    pub open spec fn live(self, pages: Seq<PageShape>) -> bool {
        forall|i: int| 0 <= i < pages.len() ==> !(#[trigger] self.after(pages.take(i))).exhausted
    }

    /// Every page of the sequence is what `source` gives at the offset the
    /// cursor had reached.
    pub open spec fn served_by(self, source: Source, pages: Seq<PageShape>) -> bool {
        forall|i: int|
            0 <= i < pages.len() ==> pages[i] == source.page_at(
                (#[trigger] self.after(pages.take(i))).start,
                self.page_size,
            )
    }

    /// The offset counts the items handed out: after any sequence of answered
    /// fetches the cursor has moved on by exactly the number of items that
    /// reached the consumer. So the offset never goes back, and the page size
    /// is never touched.
    pub proof fn lemma_offset_counts_items(self, pages: Seq<PageShape>)
        ensures
            self.after(pages).start == self.start + self.handed_out_by(pages),
            self.after(pages).start >= self.start,
            self.after(pages).page_size == self.page_size,
        decreases pages.len(),
    {
        if pages.len() > 0 {
            self.lemma_offset_counts_items(pages.drop_last());
        }
    }

    /// An engine's cursor stays well-formed.
    pub proof fn lemma_wf_is_kept(self, pages: Seq<PageShape>)
        requires
            self.wf(),
        ensures
            self.after(pages).wf(),
        decreases pages.len(),
    {
        if pages.len() > 0 {
            self.lemma_wf_is_kept(pages.drop_last());
        }
    }

    /// Exhausted is final: whatever is offered to an exhausted cursor, it
    /// stays where it is and nothing is handed out.
    pub proof fn lemma_exhausted_is_final(self, pages: Seq<PageShape>)
        requires
            self.exhausted,
        ensures
            self.after(pages) == self,
            self.handed_out_by(pages) == 0,
        decreases pages.len(),
    {
        if pages.len() > 0 {
            self.lemma_exhausted_is_final(pages.drop_last());
        }
    }

    /// A sequence of successful fetches without its last page is one too.
    pub proof fn lemma_live_prefix(self, pages: Seq<PageShape>, n: int)
        requires
            self.live(pages),
            0 <= n <= pages.len(),
        ensures
            self.live(pages.take(n)),
            n < pages.len() ==> !self.after(pages.take(n)).exhausted,
    {
        assert forall|i: int| 0 <= i < n implies !(#[trigger] self.after(
            pages.take(n).take(i),
        )).exhausted by {
            assert(pages.take(n).take(i) =~= pages.take(i));
        }
    }

    /// After any sequence of successful fetches, every item of every page
    /// was handed out and the offset has moved on by their number; the total
    /// is the one reported last; and the cursor is exhausted exactly when the
    /// last page was empty or the offset has reached that total.
    pub proof fn lemma_successful_fetches(self, pages: Seq<PageShape>)
        requires
            self.live(pages),
        ensures
            self.handed_out_by(pages) == total_count(pages),
            self.after(pages).start == self.start + total_count(pages),
            pages.len() > 0 ==> self.after(pages).total == Some(pages.last().total),
            pages.len() > 0 ==> (self.after(pages).exhausted <==> pages.last().count == 0
                || self.after(pages).start >= pages.last().total),
        decreases pages.len(),
    {
        if pages.len() > 0 {
            let shorter = pages.drop_last();
            assert(shorter =~= pages.take(pages.len() - 1));
            self.lemma_live_prefix(pages, pages.len() - 1);
            self.lemma_successful_fetches(shorter);
        }
    }

    /// A cursor that goes on after fetches from a source is below the total
    /// of the source, if that total is positive.
    proof fn lemma_below_total_at_source(self, source: Source, pages: Seq<PageShape>)
        requires
            self == CursorView::fresh(self.page_size),
            self.live(pages),
            self.served_by(source, pages),
            !self.after(pages).exhausted,
        ensures
            source.total > 0 ==> self.after(pages).start < source.total,
    {
        self.lemma_successful_fetches(pages);
        if pages.len() > 0 {
            let last = pages.len() - 1;
            assert(pages.drop_last() =~= pages.take(last));
            assert(pages[last] == source.page_at(self.after(pages.take(last)).start, self.page_size));
        }
    }

    /// What the offsets of a sequence of fetches from a source look like
    /// while the sequence goes on: never beyond what the source holds, and,
    /// where the source holds more than it reports, a multiple of the page
    /// size that is not beyond the total.
    proof fn lemma_offsets_at_source(page_size: nat, source: Source, pages: Seq<PageShape>)
        requires
            page_size >= 1,
            source.available <= source.total || (source.total > 0 && source.total % page_size
                == 0),
            CursorView::fresh(page_size).live(pages),
            CursorView::fresh(page_size).served_by(source, pages),
        ensures
            CursorView::fresh(page_size).after(pages).start <= source.available,
            source.available > source.total ==> CursorView::fresh(page_size).after(pages).start
                % page_size == 0 && CursorView::fresh(page_size).after(pages).start
                <= source.total,
        decreases pages.len(),
    {
        let fresh = CursorView::fresh(page_size);
        if pages.len() > 0 {
            let shorter = pages.drop_last();
            let last = pages.len() - 1;
            assert(shorter =~= pages.take(last));
            fresh.lemma_live_prefix(pages, last);
            assert forall|i: int| 0 <= i < shorter.len() implies shorter[i] == source.page_at(
                (#[trigger] fresh.after(shorter.take(i))).start,
                page_size,
            ) by {
                assert(shorter.take(i) =~= pages.take(i));
            }
            CursorView::lemma_offsets_at_source(page_size, source, shorter);
            fresh.lemma_below_total_at_source(source, shorter);
            let here = fresh.after(shorter);
            assert(pages.last() == source.page_at(here.start, page_size));
            if source.available > source.total {
                lemma_next_multiple(here.start, source.total, page_size);
            }
        } else {
            assert(0nat % page_size == 0) by (nonlinear_arith)
                requires
                    page_size >= 1,
            ;
        }
    }

    /// Fetching from a source until the cursor is exhausted hands out the
    /// smaller of what the source reports and what it holds. This is stated
    /// for a source that holds no more than it reports, or that reports a
    /// positive multiple of the page size: another source hands out its
    /// last page whole, beyond the total.
    pub proof fn lemma_fetches_until_exhausted(page_size: nat, source: Source, pages: Seq<PageShape>)
        requires
            page_size >= 1,
            source.available <= source.total || (source.total > 0 && source.total % page_size
                == 0),
            CursorView::fresh(page_size).live(pages),
            CursorView::fresh(page_size).served_by(source, pages),
            CursorView::fresh(page_size).after(pages).exhausted,
        ensures
            CursorView::fresh(page_size).handed_out_by(pages) == source.deliverable(),
            CursorView::fresh(page_size).after(pages).start == source.deliverable(),
    {
        let fresh = CursorView::fresh(page_size);
        fresh.lemma_successful_fetches(pages);
        CursorView::lemma_offsets_at_source(page_size, source, pages);
        let last = pages.len() - 1;
        let shorter = pages.take(last);
        assert(shorter =~= pages.drop_last());
        fresh.lemma_live_prefix(pages, last);
        assert forall|i: int| 0 <= i < shorter.len() implies shorter[i] == source.page_at(
            (#[trigger] fresh.after(shorter.take(i))).start,
            page_size,
        ) by {
            assert(shorter.take(i) =~= pages.take(i));
        }
        CursorView::lemma_offsets_at_source(page_size, source, shorter);
        fresh.lemma_below_total_at_source(source, shorter);
        let here = fresh.after(shorter);
        assert(pages.last() == source.page_at(here.start, page_size));
        if source.available > source.total {
            lemma_next_multiple(here.start, source.total, page_size);
        }
    }
}

/// Between a multiple of `step` and a larger one lies a whole step.
proof fn lemma_next_multiple(low: nat, high: nat, step: nat)
    requires
        step >= 1,
        low % step == 0,
        high % step == 0,
        low < high,
    ensures
        low + step <= high,
        (low + step) % step == 0,
{
    assert(low + step <= high && (low + step) % step == 0) by (nonlinear_arith)
        requires
            step >= 1,
            low % step == 0,
            high % step == 0,
            low < high,
    ;
}

} // verus!
