//! Collecting the pages of a listing, up to a limit.

use vstd::prelude::*;
use crate::text::opt_text;
use crate::json::{values_of, Json, JsonValue};

verus! {

/// The most items that the service hands out in one page.
pub const MAX_PAGE_SIZE: usize = 100;

/// One page of a listing.
#[derive(Debug, PartialEq, Eq)]
pub struct Page {
    pub results: Vec<Json>,
    pub has_more: bool,
    pub next_cursor: Option<String>,
}

/// The mathematical value of a [`Page`].
pub struct PageView {
    pub results: Seq<JsonValue>,
    pub has_more: bool,
    pub next_cursor: Option<Seq<char>>,
}

impl View for Page {
    type V = PageView;

    open spec fn view(&self) -> PageView {
        PageView {
            results: values_of(self.results@),
            has_more: self.has_more,
            next_cursor: opt_text(self.next_cursor),
        }
    }
}

/// What to ask the service for next.
#[derive(Debug, PartialEq, Eq)]
pub struct Fetch {
    /// Where the page begins; nothing for the first page.
    pub cursor: Option<String>,
    /// The most items to ask for.
    pub page_size: usize,
}

/// How far a listing has been collected.
pub struct PagingState {
    pub collected: Seq<JsonValue>,
    pub cursor: Option<Seq<char>>,
    pub done: bool,
}

/// The page that an answer of the service holds: its array `results`, or no
/// items; its flag `has_more`, or false; its string `next_cursor`, if any.
pub open spec fn page_of(response: JsonValue) -> PageView {
    PageView {
        results: match response.array_at("results"@) {
            Some(items) => items,
            None => Seq::empty(),
        },
        has_more: match response.bool_at("has_more"@) {
            Some(b) => b,
            None => false,
        },
        next_cursor: response.text_at("next_cursor"@),
    }
}

/// The state before the first page. With a limit of zero there is nothing
/// to fetch.
pub open spec fn start(limit: nat) -> PagingState {
    PagingState { collected: Seq::empty(), cursor: None, done: limit == 0 }
}

/// The most items to ask for in the next page.
pub open spec fn page_size_of(limit: nat, state: PagingState) -> nat {
    let room = (limit - state.collected.len()) as nat;
    if room < MAX_PAGE_SIZE {
        room
    } else {
        MAX_PAGE_SIZE as nat
    }
}

/// The state after a page has come in.
///
/// Its items are added in their order, as far as the limit leaves room. The
/// listing is done when the service reports no further page, when the limit
/// is reached, or when the service names no cursor to go on from.
pub open spec fn absorbed(limit: nat, state: PagingState, page: PageView) -> PagingState {
    if state.done {
        state
    } else {
        let room = limit - state.collected.len();
        let taken = if page.results.len() <= room {
            page.results
        } else {
            page.results.take(room)
        };
        let collected = state.collected + taken;
        PagingState {
            collected,
            cursor: page.next_cursor,
            done: !page.has_more || collected.len() >= limit || page.next_cursor.is_none(),
        }
    }
}

/// The state after the pages that the service hands out, one for each
/// request, as long as the listing is not done.
pub open spec fn paginate(limit: nat, state: PagingState, pages: Seq<PageView>) -> PagingState
    decreases pages.len(),
{
    if state.done || pages.len() == 0 {
        state
    } else {
        paginate(limit, absorbed(limit, state, pages[0]), pages.drop_first())
    }
}

/// The number of requests made on the way to `paginate`.
pub open spec fn fetches(limit: nat, state: PagingState, pages: Seq<PageView>) -> nat
    decreases pages.len(),
{
    if state.done || pages.len() == 0 {
        0
    } else {
        1 + fetches(limit, absorbed(limit, state, pages[0]), pages.drop_first())
    }
}

/// The items of all the pages, in the order in which they came.
pub open spec fn delivered(pages: Seq<PageView>) -> Seq<JsonValue>
    decreases pages.len(),
{
    if pages.len() == 0 {
        Seq::empty()
    } else {
        pages[0].results + delivered(pages.drop_first())
    }
}

/// With a limit of zero nothing is requested and nothing is returned,
/// whatever the service would have answered.
pub proof fn lemma_zero_limit_fetches_nothing(pages: Seq<PageView>)
    ensures
        fetches(0, start(0), pages) == 0,
        paginate(0, start(0), pages).collected == Seq::<JsonValue>::empty(),
{
}

/// A listing never grows beyond its limit, however many pages the service
/// offers.
pub proof fn lemma_within_limit(limit: nat, state: PagingState, pages: Seq<PageView>)
    requires
        state.collected.len() <= limit,
    ensures
        paginate(limit, state, pages).collected.len() <= limit,
    decreases pages.len(),
{
    if !(state.done || pages.len() == 0) {
        lemma_within_limit(limit, absorbed(limit, state, pages[0]), pages.drop_first());
    }
}

/// A listing from the start never holds more items than its limit.
pub proof fn lemma_never_more_than_limit(limit: nat, pages: Seq<PageView>)
    ensures
        paginate(limit, start(limit), pages).collected.len() <= limit,
{
    lemma_within_limit(limit, start(limit), pages);
}

/// What is collected is what was there, followed by a beginning of what the
/// pages delivered: nothing is reordered and nothing left out in between.
pub proof fn lemma_keeps_order(limit: nat, state: PagingState, pages: Seq<PageView>)
    requires
        state.collected.len() <= limit,
    ensures
        state.collected.is_prefix_of(paginate(limit, state, pages).collected),
        paginate(limit, state, pages).collected.skip(state.collected.len() as int).is_prefix_of(
            delivered(pages),
        ),
    decreases pages.len(),
{
    let end = paginate(limit, state, pages).collected;
    if state.done || pages.len() == 0 {
        assert(end.skip(state.collected.len() as int) =~= Seq::empty());
    } else {
        let next = absorbed(limit, state, pages[0]);
        let rest = pages.drop_first();
        lemma_keeps_order(limit, next, rest);
        let n = state.collected.len() as int;
        let m = next.collected.len() as int;
        assert(next.collected.skip(n).is_prefix_of(pages[0].results));
        assert(end.skip(n) =~= next.collected.skip(n) + end.skip(m));
        assert(end.skip(m).is_prefix_of(delivered(rest)));
        if end.len() > m {
            assert(next.collected.len() < limit);
            assert(next.collected.skip(n) =~= pages[0].results);
        } else {
            assert(end.skip(m) =~= Seq::empty());
            assert(end.skip(n) =~= next.collected.skip(n));
        }
    }
}

/// The values of a run of items that is cut short are the values cut short.
proof fn lemma_values_take(items: Seq<Json>, n: int)
    requires
        0 <= n <= items.len(),
    ensures
        values_of(items.take(n)) == values_of(items).take(n),
{
    assert(values_of(items.take(n)) =~= values_of(items).take(n));
}

/// The values of two runs of items, one after the other.
proof fn lemma_values_add(a: Seq<Json>, b: Seq<Json>)
    ensures
        values_of(a + b) == values_of(a) + values_of(b),
{
    assert(values_of(a + b) =~= values_of(a) + values_of(b));
}

/// Copies of the given documents.
pub fn duplicate_all(items: &Vec<Json>) -> (r: Vec<Json>)
    ensures
        values_of(r@) == values_of(items@),
{
    let mut out: Vec<Json> = Vec::new();
    let mut i: usize = 0;
    while i < items.len()
        invariant
            i <= items@.len(),
            out@.len() == i,
            forall|k: int| 0 <= k < i ==> (#[trigger] out@[k])@ == items@[k]@,
        decreases items@.len() - i,
    {
        out.push(items[i].duplicate());
        i = i + 1;
    }
    assert(values_of(out@) =~= values_of(items@));
    out
}

impl Page {
    /// Reads a page out of an answer of the service.
    pub fn from_response(response: &Json) -> (r: Page)
        ensures
            r@ == page_of(response@),
    {
        let results = match response.array_at("results") {
            Some(items) => duplicate_all(items),
            None => {
                let empty: Vec<Json> = Vec::new();
                assert(values_of(empty@) =~= Seq::empty());
                empty
            },
        };
        let has_more = match response.bool_at("has_more") {
            Some(b) => b,
            None => false,
        };
        let next_cursor = match response.text_at("next_cursor") {
            Some(c) => Some(c.to_owned()),
            None => None,
        };
        Page { results, has_more, next_cursor }
    }
}

/// Collects a listing page by page.
///
/// The caller asks [`Paginator::next_fetch`] what to request, sends the
/// request, and hands the page that came back to [`Paginator::absorb`],
/// until there is nothing left to fetch. A listing never holds more items
/// than its limit.
#[derive(Debug, PartialEq, Eq)]
pub struct Paginator {
    limit: usize,
    collected: Vec<Json>,
    cursor: Option<String>,
    done: bool,
}

impl View for Paginator {
    type V = PagingState;

    closed spec fn view(&self) -> PagingState {
        PagingState {
            collected: values_of(self.collected@),
            cursor: opt_text(self.cursor),
            done: self.done,
        }
    }
}

impl Paginator {
    /// The most items that the listing may hold.
    pub closed spec fn limit(&self) -> nat {
        self.limit as nat
    }

    /// The listing holds no more than its limit, and is done once it holds
    /// that many.
    #[verifier::type_invariant]
    spec fn wf(&self) -> bool {
        &&& self.collected@.len() <= self.limit
        &&& !self.done ==> self.collected@.len() < self.limit
    }

    /// A listing of at most `limit` items, before anything was fetched.
    pub fn new(limit: usize) -> (r: Paginator)
        ensures
            r.limit() == limit,
            r@ == start(limit as nat),
    {
        let collected: Vec<Json> = Vec::new();
        assert(values_of(collected@) =~= Seq::empty());
        Paginator { limit, collected, cursor: None, done: limit == 0 }
    }

    /// A listing that ends only where the service ends it.
    pub fn unbounded() -> (r: Paginator)
        ensures
            r.limit() == usize::MAX,
            r@ == start(usize::MAX as nat),
    {
        Paginator::new(usize::MAX)
    }

    /// Whether the listing is complete.
    pub fn is_done(&self) -> (r: bool)
        ensures
            r == self@.done,
    {
        self.done
    }

    /// The number of items collected so far.
    pub fn len(&self) -> (r: usize)
        ensures
            r == self@.collected.len(),
            r <= self.limit(),
    {
        proof {
            use_type_invariant(self);
        }
        self.collected.len()
    }

    /// What to request next; nothing when the listing is complete.
    pub fn next_fetch(&self) -> (r: Option<Fetch>)
        ensures
            match r {
                Some(f) => {
                    &&& !self@.done
                    &&& opt_text(f.cursor) == self@.cursor
                    &&& f.page_size == page_size_of(self.limit(), self@)
                    &&& 1 <= f.page_size <= MAX_PAGE_SIZE
                },
                None => self@.done,
            },
    {
        proof {
            use_type_invariant(self);
        }
        if self.done {
            return None;
        }
        let room = self.limit - self.collected.len();
        let page_size = if room < MAX_PAGE_SIZE {
            room
        } else {
            MAX_PAGE_SIZE
        };
        Some(Fetch { cursor: self.cursor.clone(), page_size })
    }

    /// The listing after the page that the service returned for the last
    /// request has been taken in.
    pub fn absorb(self, page: Page) -> (r: Paginator)
        ensures
            r.limit() == self.limit(),
            r@ == absorbed(self.limit(), self@, page@),
    {
        proof {
            use_type_invariant(&self);
        }
        if self.done {
            return self;
        }
        let Paginator { limit, collected, cursor: _, done: _ } = self;
        let Page { results, has_more, next_cursor } = page;
        let mut collected = collected;
        let mut results = results;
        let room = limit - collected.len();
        let ghost before = collected@;
        let ghost incoming = results@;
        if results.len() > room {
            results.truncate(room);
            proof {
                lemma_values_take(incoming, room as int);
            }
        }
        proof {
            lemma_values_add(before, results@);
        }
        collected.append(&mut results);
        let done = !has_more || collected.len() >= limit || next_cursor.is_none();
        Paginator { limit, collected, cursor: next_cursor, done }
    }

    /// The listing after a fetch that may have failed. A page that came in is
    /// taken in; a failure is handed on, and what was collected so far is
    /// given up with it.
    pub fn absorb_fetched<E>(self, fetched: Result<Page, E>) -> (r: Result<Paginator, E>)
        ensures
            match fetched {
                Ok(page) => {
                    &&& r matches Ok(next)
                    &&& next.limit() == self.limit()
                    &&& next@ == absorbed(self.limit(), self@, page@)
                },
                Err(e) => r matches Err(handed) && handed == e,
            },
    {
        match fetched {
            Ok(page) => Ok(self.absorb(page)),
            Err(e) => Err(e),
        }
    }

    /// The items of the listing, in the order in which the service gave them.
    pub fn into_results(self) -> (r: Vec<Json>)
        ensures
            values_of(r@) == self@.collected,
            r@.len() <= self.limit(),
    {
        proof {
            use_type_invariant(&self);
        }
        self.collected
    }
}

/// The pages that a run of answers holds.
pub open spec fn pages_of(responses: Seq<Json>) -> Seq<PageView> {
    responses.map_values(|r: Json| page_of(r@))
}

/// Collects a listing of at most `limit` items from the answers that a
/// service gave, one for each request, and reports how many requests it took.
pub fn collect_pages(limit: usize, responses: &Vec<Json>) -> (r: (Vec<Json>, usize))
    ensures
        values_of(r.0@) == paginate(limit as nat, start(limit as nat), pages_of(responses@)).collected,
        r.1 == fetches(limit as nat, start(limit as nat), pages_of(responses@)),
        r.0@.len() <= limit,
{
    let mut pager = Paginator::new(limit);
    let mut used: usize = 0;
    let ghost all = pages_of(responses@);
    proof {
        assert(all.skip(0) =~= all);
    }
    while used < responses.len() && !pager.is_done()
        invariant
            used <= responses@.len(),
            all == pages_of(responses@),
            pager.limit() == limit,
            paginate(limit as nat, start(limit as nat), all) == paginate(
                limit as nat,
                pager@,
                all.skip(used as int),
            ),
            fetches(limit as nat, start(limit as nat), all) == used + fetches(
                limit as nat,
                pager@,
                all.skip(used as int),
            ),
        decreases responses@.len() - used,
    {
        proof {
            assert(all.skip(used as int)[0] == page_of(responses@[used as int]@));
            assert(all.skip(used as int).drop_first() =~= all.skip(used + 1));
        }
        pager = pager.absorb(Page::from_response(&responses[used]));
        used = used + 1;
    }
    proof {
        if used == responses@.len() {
            assert(all.skip(used as int) =~= Seq::empty());
        }
        lemma_never_more_than_limit(limit as nat, all);
    }
    (pager.into_results(), used)
}

} // verus!
