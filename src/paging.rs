//! Requests to the paginated bars endpoint, and the pagination itself: the
//! cursor carried from page to page and the per-symbol merge of the pages.

use vstd::prelude::*;
use crate::calendar::FormatError;
use crate::params::{pair_view, pairs_view, QueryParams};

verus! {

/// Page size asked for where the query gives none.
pub const DEFAULT_PAGE_LIMIT: u16 = 10000;

/// The texts joined with commas between them.
pub open spec fn comma_joined(s: Seq<Seq<char>>) -> Seq<char>
    decreases s.len(),
{
    if s.len() == 0 {
        seq![]
    } else if s.len() == 1 {
        s[0]
    } else {
        comma_joined(s.drop_last()) + seq![','] + s.last()
    }
}

pub open spec fn texts(v: Seq<String>) -> Seq<Seq<char>> {
    v.map_values(|s: String| s@)
}

/// Joins the symbols with commas, as the endpoint takes them.
pub fn join_symbols(symbols: &Vec<String>) -> (r: String)
    ensures
        r@ == comma_joined(texts(symbols@)),
{
    let mut s = String::new();
    let mut i: usize = 0;
    while i < symbols.len()
        invariant
            i <= symbols@.len(),
            s@ == comma_joined(texts(symbols@.take(i as int))),
        decreases symbols@.len() - i,
    {
        if i > 0 {
            proof { reveal_strlit(","); }
            s.append(",");
        }
        s.append(symbols[i].as_str());
        proof {
            let next = texts(symbols@.take(i + 1));
            assert(next.drop_last() =~= texts(symbols@.take(i as int)));
        }
        i = i + 1;
    }
    assert(symbols@.take(i as int) =~= symbols@);
    s
}

/// The query pairs of a request: the given options, then the symbols.
pub open spec fn request_pairs_spec(symbols: Seq<String>, query: QueryParams) -> Seq<(Seq<char>, Seq<char>)> {
    query.pairs().push(("symbols"@, comma_joined(texts(symbols))))
}

/// One request for bars: the symbols and the query options.
pub struct AlpacaRequest {
    pub symbols: Vec<String>,
    pub query: QueryParams,
}

impl AlpacaRequest {
    pub fn new(symbols: Vec<String>, query: QueryParams) -> (r: AlpacaRequest)
        ensures
            r.symbols == symbols,
            r.query == query,
    {
        AlpacaRequest { symbols, query }
    }

    /// The query pairs sent for this request; fails where a bound cannot be rendered.
    pub fn to_params_list(&self) -> (r: Result<Vec<(String, String)>, FormatError>)
        requires
            self.query.wf(),
        ensures
            r is Ok <==> self.query.renderable(),
            r matches Ok(list) ==> pairs_view(list@) == request_pairs_spec(self.symbols@, self.query),
    {
        request_pairs(&self.symbols, &self.query)
    }
}

/// The query pairs for `symbols` under `query`.
pub fn request_pairs(symbols: &Vec<String>, query: &QueryParams) -> (r: Result<Vec<(String, String)>, FormatError>)
    requires
        query.wf(),
    ensures
        r is Ok <==> query.renderable(),
        r matches Ok(list) ==> pairs_view(list@) == request_pairs_spec(symbols@, *query),
{
    let mut list = query.to_params_list()?;
    let joined = join_symbols(symbols);
    let ghost before = list@;
    list.push((String::from_str("symbols"), joined));
    assert(pairs_view(list@) =~= pairs_view(before).push(("symbols"@, joined@)));
    Ok(list)
}

/// One page of bars: each symbol with its bars in time order, and the cursor
/// of the next page, absent on the last.
pub struct BarsResponse<B> {
    pub bars: Vec<(String, Vec<B>)>,
    pub next_page_token: Option<String>,
}

/// All bars of `k` in `v`, entry after entry.
pub open spec fn bars_for<B>(v: Seq<(String, Vec<B>)>, k: Seq<char>) -> Seq<B>
    decreases v.len(),
{
    if v.len() == 0 {
        seq![]
    } else {
        bars_for(v.drop_last(), k) + (if v.last().0@ == k { v.last().1@ } else { seq![] })
    }
}

/// No symbol stands in two entries.
pub open spec fn symbols_unique<B>(v: Seq<(String, Vec<B>)>) -> bool {
    forall|i: int, j: int| 0 <= i < j < v.len() ==> v[i].0@ != v[j].0@
}

proof fn lemma_bars_for_absent<B>(v: Seq<(String, Vec<B>)>, k: Seq<char>)
    requires
        forall|j: int| 0 <= j < v.len() ==> v[j].0@ != k,
    ensures
        bars_for(v, k) == Seq::<B>::empty(),
    decreases v.len(),
{
    if v.len() > 0 {
        lemma_bars_for_absent(v.drop_last(), k);
        assert(bars_for(v, k) =~= Seq::<B>::empty());
    }
}

proof fn lemma_bars_for_update<B>(v: Seq<(String, Vec<B>)>, i: int, e: (String, Vec<B>), extra: Seq<B>, k: Seq<char>)
    requires
        0 <= i < v.len(),
        e.0@ == v[i].0@,
        e.1@ == v[i].1@ + extra,
        forall|j: int| i < j < v.len() ==> v[j].0@ != v[i].0@,
    ensures
        bars_for(v.update(i, e), k) == bars_for(v, k) + (if k == e.0@ { extra } else { seq![] }),
    decreases v.len(),
{
    let w = v.update(i, e);
    if i == v.len() - 1 {
        assert(w.drop_last() =~= v.drop_last());
        assert(bars_for(w, k) =~= bars_for(v, k) + (if k == e.0@ { extra } else { seq![] }));
    } else {
        assert(w.drop_last() =~= v.drop_last().update(i, e));
        lemma_bars_for_update(v.drop_last(), i, e, extra, k);
        assert(bars_for(w, k) =~= bars_for(v, k) + (if k == e.0@ { extra } else { seq![] }));
    }
}

/// Adds `bars` to the entry of `symbol`, or a new entry at the end.
fn merge_entry<B>(all: &mut Vec<(String, Vec<B>)>, symbol: String, bars: Vec<B>)
    requires
        symbols_unique(old(all)@),
    ensures
        symbols_unique(final(all)@),
        forall|k: Seq<char>| #[trigger] bars_for(final(all)@, k)
            == bars_for(old(all)@, k) + (if k == symbol@ { bars@ } else { seq![] }),
{
    let mut i: usize = 0;
    while i < all.len()
        invariant
            i <= all@.len(),
            all@ == old(all)@,
            symbols_unique(all@),
            forall|j: int| 0 <= j < i ==> all@[j].0@ != symbol@,
        decreases all@.len() - i,
    {
        if all[i].0 == symbol {
            let ghost v = all@;
            let mut entry = all.remove(i);
            let mut more = bars;
            let ghost old_bars = entry.1@;
            entry.1.append(&mut more);
            all.insert(i, entry);
            assert(all@ =~= v.update(i as int, entry));
            assert forall|j: int| i < j < v.len() implies v[j].0@ != v[i as int].0@ by {}
            assert forall|a: int, b: int| 0 <= a < b < all@.len() implies all@[a].0@ != all@[b].0@ by {
                assert(v[a].0@ != v[b].0@);
            }
            assert forall|k: Seq<char>| #[trigger] bars_for(all@, k)
                == bars_for(v, k) + (if k == symbol@ { bars@ } else { seq![] }) by {
                lemma_bars_for_update(v, i as int, entry, bars@, k);
            }
            return;
        }
        i = i + 1;
    }
    let ghost v = all@;
    all.push((symbol, bars));
    assert(all@.drop_last() =~= v);
    assert forall|k: Seq<char>| #[trigger] bars_for(all@, k)
        == bars_for(v, k) + (if k == symbol@ { bars@ } else { seq![] }) by {
        assert(all@.drop_last() =~= v);
    }
}

/// Adds a page's bars to the bars gathered so far, symbol by symbol, each
/// symbol's bars after those it already had.
pub fn merge_page<B>(all: &mut Vec<(String, Vec<B>)>, page: Vec<(String, Vec<B>)>)
    requires
        symbols_unique(old(all)@),
    ensures
        symbols_unique(final(all)@),
        forall|k: Seq<char>| #[trigger] bars_for(final(all)@, k)
            == bars_for(old(all)@, k) + bars_for(page@, k),
{
    let ghost orig = page@;
    let mut rest = page;
    let ghost mut done: int = 0;
    while rest.len() > 0
        invariant
            0 <= done <= orig.len(),
            rest@ == orig.skip(done),
            symbols_unique(all@),
            forall|k: Seq<char>| #[trigger] bars_for(all@, k)
                == bars_for(old(all)@, k) + bars_for(orig.take(done), k),
        decreases rest@.len(),
    {
        let (symbol, bars) = rest.remove(0);
        let ghost before = all@;
        proof {
            assert(orig.take(done + 1).drop_last() =~= orig.take(done));
            assert(orig[done] == (symbol, bars));
        }
        merge_entry(all, symbol, bars);
        proof {
            done = done + 1;
        }
        assert(rest@ =~= orig.skip(done));
    }
    assert(orig.take(done) =~= orig);
}


impl QueryParams {
    /// The same options, asking for the default page size where none is given.
    pub open spec fn with_default_limit(self) -> QueryParams {
        QueryParams { limit: Some(self.limit.unwrap_or(DEFAULT_PAGE_LIMIT)), ..self }
    }

    /// The same options, asking for the page at `token`.
    pub open spec fn at_page(self, token: String) -> QueryParams {
        QueryParams { page_token: Some(token), ..self }
    }
}

/// One step of the lazy page sequence: `before` fetched `fetched`, the
/// sequence yielded `item`, and the pagination moved to `after`.
pub open spec fn stepped<B, E>(
    before: Pager,
    fetched: Result<BarsResponse<B>, E>,
    after: Pager,
    item: Result<Vec<(String, Vec<B>)>, E>,
) -> bool {
    &&& after.symbols == before.symbols
    &&& match fetched {
        Ok(page) => item == Ok::<Vec<(String, Vec<B>)>, E>(page.bars) && match page.next_page_token {
            Some(t) => !after.done && after.query == before.query.at_page(t),
            None => after.done && after.query == before.query,
        },
        Err(e) => item == Err::<Vec<(String, Vec<B>)>, E>(e) && after.done && after.query == before.query,
    }
}

/// The page sequence yields each fetched page's bars, or the error, as its
/// element; it ends right after an error or a page without a cursor
/// (no further request is made), and otherwise asks next for the page the
/// cursor names, with the same symbols and options.
pub proof fn lemma_stream_yields_then_stops<B, E>(
    before: Pager,
    fetched: Result<BarsResponse<B>, E>,
    after: Pager,
    item: Result<Vec<(String, Vec<B>)>, E>,
)
    requires
        stepped(before, fetched, after, item),
    ensures
        fetched is Ok ==> item is Ok && item->Ok_0 == fetched->Ok_0.bars,
        fetched is Err ==> item is Err && item->Err_0 == fetched->Err_0,
        after.done <==> (fetched is Err || fetched->Ok_0.next_page_token is None),
        !after.done ==> after.symbols == before.symbols
            && after.query == before.query.at_page(fetched->Ok_0.next_page_token->Some_0),
{
}

/// The pagination over one request: the options of the next page to ask for,
/// until a page comes without a cursor or a fetch fails.
pub struct Pager {
    pub symbols: Vec<String>,
    pub query: QueryParams,
    pub done: bool,
}

impl Pager {
    /// Starts at the page the query names (the first, where it names none).
    pub fn new(symbols: Vec<String>, query: QueryParams) -> (r: Pager)
        ensures
            r.symbols == symbols,
            r.query == query.with_default_limit(),
            !r.done,
    {
        let mut query = query;
        if query.limit.is_none() {
            query.limit = Some(DEFAULT_PAGE_LIMIT);
        }
        Pager { symbols, query, done: false }
    }

    /// The query pairs of the next page to fetch; `None` once pagination is over.
    pub fn next_request(&self) -> (r: Option<Result<Vec<(String, String)>, FormatError>>)
        requires
            self.query.wf(),
        ensures
            r is None <==> self.done,
            r matches Some(q) ==> (q is Ok <==> self.query.renderable()),
            r matches Some(Ok(list)) ==> pairs_view(list@) == request_pairs_spec(self.symbols@, self.query),
    {
        if self.done {
            None
        } else {
            Some(request_pairs(&self.symbols, &self.query))
        }
    }

    /// Moves to the page at `next_page_token`, or ends where there is none.
    pub fn advance(&mut self, next_page_token: Option<String>)
        requires
            !old(self).done,
        ensures
            final(self).symbols == old(self).symbols,
            match next_page_token {
                Some(t) => !final(self).done && final(self).query == old(self).query.at_page(t),
                None => final(self).done && final(self).query == old(self).query,
            },
    {
        match next_page_token {
            Some(t) => self.query.page_token = Some(t),
            None => self.done = true,
        }
    }

    /// Ends the pagination after a failed page.
    pub fn fail(&mut self)
        ensures
            final(self).symbols == old(self).symbols,
            final(self).query == old(self).query,
            final(self).done,
    {
        self.done = true;
    }

    /// Takes the outcome of fetching the current page and gives what a lazy
    /// page sequence yields for it: the page's bars, or the error. The
    /// sequence ends after an error or after a page without a cursor.
    pub fn step<B, E>(&mut self, fetched: Result<BarsResponse<B>, E>) -> (r: Result<Vec<(String, Vec<B>)>, E>)
        requires
            !old(self).done,
        ensures
            stepped(*old(self), fetched, *final(self), r),
    {
        match fetched {
            Ok(page) => {
                self.advance(page.next_page_token);
                Ok(page.bars)
            },
            Err(e) => {
                self.fail();
                Err(e)
            },
        }
    }

    /// Takes a fetched page when gathering all pages: merges its bars into
    /// `all` and moves to the next page.
    pub fn absorb<B>(&mut self, all: &mut Vec<(String, Vec<B>)>, page: BarsResponse<B>)
        requires
            !old(self).done,
            symbols_unique(old(all)@),
        ensures
            symbols_unique(final(all)@),
            forall|k: Seq<char>| #[trigger] bars_for(final(all)@, k)
                == bars_for(old(all)@, k) + bars_for(page.bars@, k),
            final(self).symbols == old(self).symbols,
            match page.next_page_token {
                Some(t) => !final(self).done && final(self).query == old(self).query.at_page(t),
                None => final(self).done && final(self).query == old(self).query,
            },
    {
        merge_page(all, page.bars);
        self.advance(page.next_page_token);
    }
}

} // verus!
