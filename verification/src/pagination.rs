//! The lazy, forward-only pagination engine.
//!
//! An engine never talks to the network itself. It says which request comes
//! next, and it is told what came back; between the two, whoever owns the
//! engine performs the exchange.

use core::marker::PhantomData;
use vstd::prelude::*;
use crate::error::Error;
use crate::facet::{Envelope, PageResult, PageView};
use crate::locale::Locale;
use crate::options::FilterView;
use crate::cursor::{total_count, Cursor, CursorView, PageShape, Phase, Source};
use crate::request::{wrong_shape, FetchStrategy, Request, RequestView};

verus! {

/// The page size of an engine that was never given another.
pub const DEFAULT_PAGE_SIZE: u32 = 20;

/// An engine as plain values.
pub struct PaginationView {
    pub strategy: FetchStrategy,
    pub filters: Seq<FilterView>,
    pub locale: Option<Locale>,
    pub cursor: CursorView,
}

impl PaginationView {
    /// The request for the page the cursor stands at.
    pub open spec fn request(self) -> RequestView {
        self.strategy.request(self.filters, self.locale, self.cursor.page_size, self.cursor.start)
    }

    /// The engine after one answered fetch: only the cursor moves.
    pub open spec fn advance(self, page: PageShape) -> PaginationView {
        PaginationView {
            strategy: self.strategy,
            filters: self.filters,
            locale: self.locale,
            cursor: self.cursor.advance(page),
        }
    }

    /// The engine after a sequence of answered fetches.
    pub open spec fn after(self, pages: Seq<PageShape>) -> PaginationView {
        PaginationView {
            strategy: self.strategy,
            filters: self.filters,
            locale: self.locale,
            cursor: self.cursor.after(pages),
        }
    }

    /// `request` is what this engine asks at some offset.
    pub open spec fn may_issue(self, request: RequestView) -> bool {
        exists|start: nat| #[trigger]
            self.strategy.request(self.filters, self.locale, self.cursor.page_size, start)
                == request
    }

    /// The engine with another page size.
    pub open spec fn with_page_size(self, size: nat) -> PaginationView {
        PaginationView {
            strategy: self.strategy,
            filters: self.filters,
            locale: self.locale,
            cursor: CursorView {
                start: self.cursor.start,
                page_size: size,
                total: self.cursor.total,
                exhausted: self.cursor.exhausted,
            },
        }
    }
}

/// The shapes of a sequence of pages.
pub open spec fn shapes<T>(pages: Seq<PageView<T>>) -> Seq<PageShape> {
    pages.map_values(|page: PageView<T>| page.shape())
}

/// The items of a sequence of pages, one page after the other.
pub open spec fn concat_items<T>(pages: Seq<PageView<T>>) -> Seq<T>
    decreases pages.len(),
{
    if pages.len() == 0 {
        Seq::empty()
    } else {
        concat_items(pages.drop_last()) + pages.last().items
    }
}

/// `fetch` may answer the request of `engine` with `outcome`.
pub open spec fn answers<T, F: Fn(&Request) -> Result<Envelope<T>, Error>>(
    fetch: F,
    engine: PaginationView,
    outcome: Result<Envelope<T>, Error>,
) -> bool {
    exists|request: Request|
        request@ == engine.request() && #[trigger] call_ensures(fetch, (&request,), outcome)
}

/// `fetch` may be called with the request that `engine` asks next.
pub open spec fn takes_request<T, F: Fn(&Request) -> Result<Envelope<T>, Error>>(
    fetch: F,
    engine: PaginationView,
) -> bool {
    forall|request: Request|
        request@ == engine.request() ==> #[trigger] call_requires(fetch, (&request,))
}

/// What one fetch with `outcome` makes of an engine that is not exhausted:
/// a page in the right shape is accepted and its items are handed out; an
/// answer in the other shape, and a failure of the fetch, leave the engine
/// as it was and come back as the error.
pub open spec fn settles<T>(
    before: PaginationView,
    outcome: Result<Envelope<T>, Error>,
    after: PaginationView,
    r: Result<Vec<T>, Error>,
) -> bool {
    match outcome {
        Ok(envelope) => match before.strategy.page(envelope) {
            Some(page) => after == before.advance(page.shape()) && r is Ok && r->Ok_0@
                == page.items,
            None => after == before && r is Err && r->Err_0.is_decode_of(wrong_shape()),
        },
        Err(error) => after == before && r == Err::<Vec<T>, Error>(error),
    }
}

/// `fetch` may be called with every request that `engine` can come to ask,
/// whatever offset it reaches.
pub open spec fn takes_every_request<T, F: Fn(&Request) -> Result<Envelope<T>, Error>>(
    fetch: F,
    engine: PaginationView,
) -> bool {
    forall|request: Request|
        engine.may_issue(request@) ==> #[trigger] call_requires(fetch, (&request,))
}

/// Page `i` of `pages` is what `fetch` answered when the engine had taken the
/// pages before it and was not exhausted.
pub open spec fn fetched_at<T, F: Fn(&Request) -> Result<Envelope<T>, Error>>(
    fetch: F,
    engine: PaginationView,
    pages: Seq<PageView<T>>,
    i: int,
) -> bool {
    let state = engine.after(shapes(pages.take(i)));
    !state.cursor.exhausted && exists|envelope: Envelope<T>|
        answers(fetch, state, Ok::<Envelope<T>, Error>(envelope)) && #[trigger] state.strategy.page(
            envelope,
        ) == Some(pages[i])
}

/// `pages` were fetched one after the other, starting at `engine`.
pub open spec fn fetched_in_turn<T, F: Fn(&Request) -> Result<Envelope<T>, Error>>(
    fetch: F,
    engine: PaginationView,
    pages: Seq<PageView<T>>,
) -> bool {
    forall|i: int| 0 <= i < pages.len() ==> #[trigger] fetched_at(fetch, engine, pages, i)
}

/// What collecting makes of an engine: `pages` were fetched in turn and
/// accepted. Then either the engine is exhausted and `r` holds the items of
/// all of them in order, or the fetch that followed failed, the engine stands
/// at that page, and `r` is the error.
pub open spec fn collected<T, F: Fn(&Request) -> Result<Envelope<T>, Error>>(
    fetch: F,
    before: PaginationView,
    pages: Seq<PageView<T>>,
    after: PaginationView,
    r: Result<Vec<T>, Error>,
) -> bool {
    &&& fetched_in_turn(fetch, before, pages)
    &&& after == before.after(shapes(pages))
    &&& match r {
        Ok(items) => after.cursor.exhausted && items@ == concat_items(pages),
        Err(error) => !after.cursor.exhausted && exists|outcome: Result<Envelope<T>, Error>|
            answers(fetch, after, outcome) && #[trigger] settles(
                after,
                outcome,
                after,
                Err::<Vec<T>, Error>(error),
            ),
    }
}

/// The items of a sequence of pages are as many as the pages count.
pub proof fn lemma_concat_len<T>(pages: Seq<PageView<T>>)
    ensures
        concat_items(pages).len() == total_count(shapes(pages)),
    decreases pages.len(),
{
    if pages.len() > 0 {
        assert(shapes(pages).drop_last() =~= shapes(pages.drop_last()));
        lemma_concat_len(pages.drop_last());
    }
}

/// Pages that were fetched in turn are a sequence of successful fetches, and
/// the offset has moved on by the number of their items.
pub proof fn lemma_fetched_in_turn_counts<T, F: Fn(&Request) -> Result<Envelope<T>, Error>>(
    fetch: F,
    engine: PaginationView,
    pages: Seq<PageView<T>>,
)
    requires
        fetched_in_turn(fetch, engine, pages),
    ensures
        engine.cursor.live(shapes(pages)),
        engine.after(shapes(pages)).cursor.start == engine.cursor.start + concat_items(
            pages,
        ).len(),
{
    assert forall|i: int| 0 <= i < shapes(pages).len() implies !(#[trigger] engine.cursor.after(
        shapes(pages).take(i),
    )).exhausted by {
        assert(shapes(pages).take(i) =~= shapes(pages.take(i)));
        assert(fetched_at(fetch, engine, pages, i));
    }
    engine.cursor.lemma_successful_fetches(shapes(pages));
    lemma_concat_len(pages);
}

/// Collecting from a source hands out the smaller of what the source reports
/// and what it holds, where the engine was new, every page came from the
/// source, and the source holds no more than it reports or reports a positive
/// multiple of the page size.
pub proof fn lemma_collected_from_source<T, F: Fn(&Request) -> Result<Envelope<T>, Error>>(
    fetch: F,
    before: PaginationView,
    pages: Seq<PageView<T>>,
    after: PaginationView,
    items: Vec<T>,
    source: Source,
)
    requires
        before.cursor == CursorView::fresh(before.cursor.page_size),
        before.cursor.page_size >= 1,
        collected(fetch, before, pages, after, Ok::<Vec<T>, Error>(items)),
        before.cursor.served_by(source, shapes(pages)),
        source.available <= source.total || (source.total > 0 && source.total
            % before.cursor.page_size == 0),
    ensures
        items@.len() == source.deliverable(),
        after.cursor.start == source.deliverable(),
{
    lemma_fetched_in_turn_counts(fetch, before, pages);
    CursorView::lemma_fetches_until_exhausted(before.cursor.page_size, source, shapes(pages));
}

/// A trace grows by the page that was fetched at its end.
proof fn lemma_trace_extends<T, F: Fn(&Request) -> Result<Envelope<T>, Error>>(
    fetch: F,
    engine: PaginationView,
    pages: Seq<PageView<T>>,
    envelope: Envelope<T>,
    page: PageView<T>,
)
    requires
        fetched_in_turn(fetch, engine, pages),
        !engine.after(shapes(pages)).cursor.exhausted,
        answers(fetch, engine.after(shapes(pages)), Ok::<Envelope<T>, Error>(envelope)),
        engine.strategy.page(envelope) == Some(page),
    ensures
        fetched_in_turn(fetch, engine, pages.push(page)),
        engine.after(shapes(pages.push(page))) == engine.after(shapes(pages)).advance(
            page.shape(),
        ),
        concat_items(pages.push(page)) == concat_items(pages) + page.items,
{
    let longer = pages.push(page);
    assert(longer.drop_last() =~= pages);
    assert(shapes(longer) =~= shapes(pages).push(page.shape()));
    assert(shapes(longer).drop_last() =~= shapes(pages));
    assert forall|i: int| 0 <= i < longer.len() implies #[trigger] fetched_at(
        fetch,
        engine,
        longer,
        i,
    ) by {
        if i < pages.len() {
            assert(longer.take(i) =~= pages.take(i));
            assert(fetched_at(fetch, engine, pages, i));
        } else {
            assert(longer.take(i) =~= pages);
            let state = engine.after(shapes(pages));
            assert(state.strategy.page(envelope) == Some(longer[i]));
        }
    }
}

/// A forward-only cursor over the records of type `T` that one query yields.
pub struct Pagination<T> {
    strategy: FetchStrategy,
    filters: Vec<(String, String)>,
    locale: Option<Locale>,
    cursor: Cursor,
    records: PhantomData<T>,
}

impl<T> View for Pagination<T> {
    type V = PaginationView;

    closed spec fn view(&self) -> PaginationView {
        PaginationView {
            strategy: self.strategy,
            filters: self.filters.deep_view(),
            locale: self.locale,
            cursor: self.cursor@,
        }
    }
}

impl<T> Pagination<T> {
    #[verifier::type_invariant]
    spec fn well_formed(self) -> bool {
        self.cursor@.wf()
    }

    /// A new engine: at offset 0, total unknown, not exhausted, with the
    /// default page size.
    pub fn new(strategy: FetchStrategy, filters: Vec<(String, String)>, locale: Option<Locale>) -> (engine:
        Pagination<T>)
        ensures
            engine@ == (PaginationView {
                strategy,
                filters: filters.deep_view(),
                locale,
                cursor: CursorView::fresh(DEFAULT_PAGE_SIZE as nat),
            }),
    {
        Pagination {
            strategy,
            filters,
            locale,
            cursor: Cursor { start: 0, page_size: DEFAULT_PAGE_SIZE, total: None, exhausted: false },
            records: PhantomData,
        }
    }

    /// Sets how many items one request asks for. A size of 0 is refused and
    /// changes nothing.
    pub fn page_size(&mut self, size: u32) -> (accepted: bool)
        ensures
            accepted == (size >= 1),
            final(self)@ == if accepted {
                old(self)@.with_page_size(size as nat)
            } else {
                old(self)@
            },
    {
        proof {
            use_type_invariant(&*self);
        }
        if size == 0 {
            false
        } else {
            self.cursor = Cursor {
                start: self.cursor.start,
                page_size: size,
                total: self.cursor.total,
                exhausted: self.cursor.exhausted,
            };
            true
        }
    }

    pub fn cursor(&self) -> (cursor: Cursor)
        ensures
            cursor@ == self@.cursor,
            cursor@.wf(),
    {
        proof {
            use_type_invariant(self);
        }
        self.cursor
    }

    pub fn strategy(&self) -> (strategy: FetchStrategy)
        ensures
            strategy == self@.strategy,
    {
        self.strategy
    }

    /// The total the source reported last, `None` before the first answer.
    pub fn current_total(&self) -> (total: Option<u32>)
        ensures
            match total {
                Some(total) => self@.cursor.total == Some(total as nat),
                None => self@.cursor.total is None,
            },
    {
        self.cursor.total
    }

    pub fn is_exhausted(&self) -> (exhausted: bool)
        ensures
            exhausted == self@.cursor.exhausted,
    {
        self.cursor.exhausted
    }

    pub fn phase(&self) -> (phase: Phase)
        ensures
            phase == self@.cursor.phase(),
    {
        if self.cursor.exhausted {
            Phase::Exhausted
        } else if self.cursor.total.is_none() {
            Phase::Fresh
        } else {
            Phase::InProgress
        }
    }

    /// The request to send next. An exhausted engine has none: nothing is
    /// sent for it again.
    pub fn next_request(&self) -> (request: Option<Request>)
        ensures
            match request {
                Some(request) => !self@.cursor.exhausted && request@ == self@.request(),
                None => self@.cursor.exhausted,
            },
    {
        if self.cursor.exhausted {
            None
        } else {
            Some(
                self.strategy.build_request(
                    &self.filters,
                    self.locale,
                    self.cursor.page_size,
                    self.cursor.start,
                ),
            )
        }
    }

    /// Takes the page a fetch brought and moves the cursor on. The items are
    /// handed through in their order. An exhausted engine takes nothing and
    /// hands out nothing.
    pub fn accept_page(&mut self, page: PageResult<T>) -> (items: Vec<T>)
        ensures
            final(self)@ == old(self)@.advance(page@.shape()),
            items@ == if old(self)@.cursor.exhausted {
                Seq::<T>::empty()
            } else {
                page@.items
            },
            final(self)@.cursor.start == old(self)@.cursor.start + items@.len(),
    {
        proof {
            use_type_invariant(&*self);
        }
        if self.cursor.exhausted {
            return Vec::new();
        }
        let count: usize = page.items.len();
        let start: u128 = self.cursor.start + count as u128;
        self.cursor = Cursor {
            start,
            page_size: self.cursor.page_size,
            total: Some(page.total),
            exhausted: count == 0 || start >= page.total as u128,
        };
        page.items
    }

    /// Takes the answer to the request that was sent last. An answer in the
    /// shape the strategy asks for is read as a page and accepted. An answer
    /// in the other shape is a decode failure and leaves the engine as it
    /// was. An exhausted engine takes nothing and hands out nothing.
    pub fn accept(&mut self, envelope: Envelope<T>) -> (r: Result<Vec<T>, Error>)
        ensures
            old(self)@.cursor.exhausted ==> final(self)@ == old(self)@ && r is Ok && r->Ok_0@.len()
                == 0,
            !old(self)@.cursor.exhausted ==> match old(self)@.strategy.page(envelope) {
                Some(page) => final(self)@ == old(self)@.advance(page.shape()) && r is Ok
                    && r->Ok_0@ == page.items,
                None => final(self)@ == old(self)@ && r is Err && r->Err_0.is_decode_of(
                    wrong_shape(),
                ),
            },
    {
        if self.cursor.exhausted {
            return Ok(Vec::new());
        }
        match self.strategy.decode(envelope) {
            Ok(page) => Ok(self.accept_page(page)),
            Err(error) => Err(error),
        }
    }

    /// Fetches the next page through `fetch` and hands out its items. An
    /// exhausted engine calls nothing and hands out nothing. A failure of
    /// the fetch, and an answer in the wrong shape, leave the cursor where it
    /// was, so that the same page is asked for again.
    pub fn next_page<F: Fn(&Request) -> Result<Envelope<T>, Error>>(&mut self, fetch: &F) -> (r:
        Result<Vec<T>, Error>)
        requires
            !old(self)@.cursor.exhausted ==> takes_request(*fetch, old(self)@),
        ensures
            old(self)@.cursor.exhausted ==> final(self)@ == old(self)@ && r is Ok && r->Ok_0@.len()
                == 0,
            !old(self)@.cursor.exhausted ==> exists|outcome: Result<Envelope<T>, Error>|
                answers(*fetch, old(self)@, outcome) && #[trigger] settles(
                    old(self)@,
                    outcome,
                    final(self)@,
                    r,
                ),
            r is Ok ==> final(self)@.cursor.start == old(self)@.cursor.start + r->Ok_0@.len(),
            r is Err ==> final(self)@ == old(self)@,
    {
        match self.next_request() {
            None => Ok(Vec::new()),
            Some(request) => {
                let outcome = fetch(&request);
                let ghost seen = outcome;
                assert(answers(*fetch, old(self)@, seen));
                let r = match outcome {
                    Ok(envelope) => self.accept(envelope),
                    Err(error) => Err(error),
                };
                assert(settles(old(self)@, seen, self@, r));
                r
            },
        }
    }

    /// Fetches page after page through `fetch` until the engine is
    /// exhausted, and returns the items of all pages in order. The first
    /// failure ends the collection and is returned; the cursor then stands
    /// at the page that failed. The loop ends: every page that does not
    /// exhaust the engine moves the cursor on, and the cursor stays below the
    /// total that was reported last.
    pub fn collect_all<F: Fn(&Request) -> Result<Envelope<T>, Error>>(&mut self, fetch: &F) -> (r:
        Result<Vec<T>, Error>)
        requires
            takes_every_request(*fetch, old(self)@),
        ensures
            exists|pages: Seq<PageView<T>>| #[trigger]
                collected(*fetch, old(self)@, pages, final(self)@, r),
            r is Ok ==> final(self)@.cursor.exhausted && final(self)@.cursor.start == old(
                self,
            )@.cursor.start + r->Ok_0@.len(),
    {
        let mut all: Vec<T> = Vec::new();
        let ghost before = self@;
        let ghost mut pages: Seq<PageView<T>> = Seq::empty();
        assert(shapes(pages) =~= Seq::<PageShape>::empty());
        loop
            invariant
                before == old(self)@,
                takes_every_request(*fetch, before),
                fetched_in_turn(*fetch, before, pages),
                self@ == before.after(shapes(pages)),
                self@.cursor.page_size == before.cursor.page_size,
                all@ == concat_items(pages),
            decreases
                if self@.cursor.exhausted {
                    0
                } else {
                    0x1_0000_0000 - self@.cursor.start
                },
        {
            proof {
                use_type_invariant(&*self);
            }
            if self.cursor.exhausted {
                proof {
                    lemma_fetched_in_turn_counts(*fetch, before, pages);
                }
                assert(collected(*fetch, before, pages, self@, Ok::<Vec<T>, Error>(all)));
                return Ok(all);
            }
            let ghost state = self@;
            assert(takes_request(*fetch, state)) by {
                assert forall|request: Request| request@ == state.request() implies call_requires(
                    *fetch,
                    (&request,),
                ) by {
                    assert(before.strategy.request(
                        before.filters,
                        before.locale,
                        before.cursor.page_size,
                        state.cursor.start,
                    ) == request@);
                    assert(before.may_issue(request@));
                }
            }
            match self.next_page(fetch) {
                Ok(mut items) => {
                    proof {
                        use_type_invariant(&*self);
                        let outcome = choose|outcome: Result<Envelope<T>, Error>|
                            answers(*fetch, state, outcome) && #[trigger] settles(
                                state,
                                outcome,
                                self@,
                                Ok::<Vec<T>, Error>(items),
                            );
                        let envelope = outcome->Ok_0;
                        let page = state.strategy.page(envelope)->0;
                        lemma_trace_extends(*fetch, before, pages, envelope, page);
                        pages = pages.push(page);
                    }
                    all.append(&mut items);
                },
                Err(error) => {
                    assert(collected(*fetch, before, pages, self@, Err::<Vec<T>, Error>(error)));
                    return Err(error);
                },
            }
        }
    }
}

} // verus!
