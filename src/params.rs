//! Query options of the bars endpoint and their wire form.

use vstd::prelude::*;
use crate::calendar::{Date, FormatError, Timestamp};
use crate::decimal::{decimal, decimal_string};

verus! {

/// Which market-data feed to read.
#[derive(Clone, Copy, Debug, PartialEq, Eq, Structural)]
pub enum Feed {
    Sip,
    Iex,
    Boats,
}

impl Feed {
    pub open spec fn token(self) -> Seq<char> {
        match self {
            Feed::Sip => seq!['s', 'i', 'p'],
            Feed::Iex => seq!['i', 'e', 'x'],
            Feed::Boats => seq!['b', 'o', 'a', 't', 's'],
        }
    }

    /// The lowercase wire token.
    pub fn to_string(&self) -> (r: String)
        ensures
            r@ == self.token(),
    {
        match self {
            Feed::Sip => {
                proof { reveal_strlit("sip"); }
                String::from_str("sip")
            },
            Feed::Iex => {
                proof { reveal_strlit("iex"); }
                String::from_str("iex")
            },
            Feed::Boats => {
                proof { reveal_strlit("boats"); }
                String::from_str("boats")
            },
        }
    }
}

/// The currency prices are quoted in: two well-known codes, or any other code.
#[derive(Clone, Debug)]
pub enum Currency {
    EUR,
    USD,
    Other(String),
}

impl Currency {
    pub open spec fn token(self) -> Seq<char> {
        match self {
            Currency::EUR => seq!['E', 'U', 'R'],
            Currency::USD => seq!['U', 'S', 'D'],
            Currency::Other(code) => code@,
        }
    }

    /// The currency code, as given for `Other`.
    pub fn to_string(&self) -> (r: String)
        ensures
            r@ == self.token(),
    {
        match self {
            Currency::EUR => {
                proof { reveal_strlit("EUR"); }
                String::from_str("EUR")
            },
            Currency::USD => {
                proof { reveal_strlit("USD"); }
                String::from_str("USD")
            },
            Currency::Other(code) => code.clone(),
        }
    }
}

/// Corporate-action adjustment of the prices.
#[derive(Clone, Copy, Debug, PartialEq, Eq, Structural)]
pub enum Adjustment {
    Raw,
    Split,
    Dividend,
    SpinOff,
    All,
}

impl Adjustment {
    pub open spec fn token(self) -> Seq<char> {
        match self {
            Adjustment::Raw => seq!['r', 'a', 'w'],
            Adjustment::Split => seq!['s', 'p', 'l', 'i', 't'],
            Adjustment::Dividend => seq!['d', 'i', 'v', 'i', 'd', 'e', 'n', 'd'],
            Adjustment::SpinOff => seq!['s', 'p', 'i', 'n', '-', 'o', 'f', 'f'],
            Adjustment::All => seq!['a', 'l', 'l'],
        }
    }

    /// The kebab-case wire token.
    pub fn to_string(&self) -> (r: String)
        ensures
            r@ == self.token(),
    {
        match self {
            Adjustment::Raw => {
                proof { reveal_strlit("raw"); }
                String::from_str("raw")
            },
            Adjustment::Split => {
                proof { reveal_strlit("split"); }
                String::from_str("split")
            },
            Adjustment::Dividend => {
                proof { reveal_strlit("dividend"); }
                String::from_str("dividend")
            },
            Adjustment::SpinOff => {
                proof { reveal_strlit("spin-off"); }
                String::from_str("spin-off")
            },
            Adjustment::All => {
                proof { reveal_strlit("all"); }
                String::from_str("all")
            },
        }
    }
}

/// Order of the bars in time.
#[derive(Clone, Copy, Debug, PartialEq, Eq, Structural)]
pub enum Sort {
    Asc,
    Desc,
}

impl Sort {
    pub open spec fn token(self) -> Seq<char> {
        match self {
            Sort::Asc => seq!['a', 's', 'c'],
            Sort::Desc => seq!['d', 'e', 's', 'c'],
        }
    }

    /// The lowercase wire token.
    pub fn to_string(&self) -> (r: String)
        ensures
            r@ == self.token(),
    {
        match self {
            Sort::Asc => {
                proof { reveal_strlit("asc"); }
                String::from_str("asc")
            },
            Sort::Desc => {
                proof { reveal_strlit("desc"); }
                String::from_str("desc")
            },
        }
    }
}

/// The span of time one bar covers.
#[derive(Clone, Copy, Debug, PartialEq, Eq, Structural)]
pub enum Timeframe {
    Minutes(u8),
    Hours(u8),
    Day,
    Week,
    Months(u8),
}

impl Timeframe {
    pub open spec fn token(self) -> Seq<char> {
        match self {
            Timeframe::Minutes(n) => decimal(n as nat) + seq!['M', 'i', 'n'],
            Timeframe::Hours(n) => decimal(n as nat) + seq!['H', 'o', 'u', 'r'],
            Timeframe::Day => seq!['1', 'D', 'a', 'y'],
            Timeframe::Week => seq!['1', 'W', 'e', 'e', 'k'],
            Timeframe::Months(n) => decimal(n as nat) + seq!['M', 'o', 'n', 't', 'h'],
        }
    }

    /// The wire form: `{n}Min`, `{n}Hour`, `1Day`, `1Week` or `{n}Month`.
    pub fn to_string(&self) -> (r: String)
        ensures
            r@ == self.token(),
    {
        match self {
            Timeframe::Minutes(n) => {
                proof { reveal_strlit("Min"); }
                let mut s = decimal_string(*n as u64);
                s.append("Min");
                s
            },
            Timeframe::Hours(n) => {
                proof { reveal_strlit("Hour"); }
                let mut s = decimal_string(*n as u64);
                s.append("Hour");
                s
            },
            Timeframe::Day => {
                proof { reveal_strlit("1Day"); }
                String::from_str("1Day")
            },
            Timeframe::Week => {
                proof { reveal_strlit("1Week"); }
                String::from_str("1Week")
            },
            Timeframe::Months(n) => {
                proof { reveal_strlit("Month"); }
                let mut s = decimal_string(*n as u64);
                s.append("Month");
                s
            },
        }
    }
}

/// A bound of the requested period: a whole day or a moment.
#[derive(Clone, Copy, Debug, PartialEq, Eq, Structural)]
pub enum DateTime {
    Date(Date),
    DateTime(Timestamp),
}

impl DateTime {
    pub open spec fn wf(self) -> bool {
        match self {
            DateTime::Date(d) => d.wf(),
            DateTime::DateTime(t) => t.wf(),
        }
    }

    /// The wire text, or `None` where the value cannot be rendered.
    pub open spec fn text(self) -> Option<Seq<char>> {
        match self {
            DateTime::Date(d) => Some(d.text()),
            DateTime::DateTime(t) => if t.renderable() {
                Some(t.text())
            } else {
                None
            },
        }
    }

    /// A date as `YYYY-MM-DD`, a moment in RFC 3339 form.
    pub fn to_string(&self) -> (r: Result<String, FormatError>)
        requires
            self.wf(),
        ensures
            r is Ok <==> self.text() is Some,
            r matches Ok(s) ==> self.text() == Some(s@),
    {
        match self {
            DateTime::DateTime(t) => t.to_rfc3339(),
            DateTime::Date(d) => Ok(d.to_text()),
        }
    }
}

/// One key and value of the query string.
pub open spec fn pair_view(p: (String, String)) -> (Seq<char>, Seq<char>) {
    (p.0@, p.1@)
}

pub open spec fn pairs_view(v: Seq<(String, String)>) -> Seq<(Seq<char>, Seq<char>)> {
    v.map_values(|p: (String, String)| pair_view(p))
}

/// The pair `(key, value)` where a value is given, nothing where not.
pub open spec fn entry(key: Seq<char>, v: Option<Seq<char>>) -> Seq<(Seq<char>, Seq<char>)> {
    match v {
        Some(t) => seq![(key, t)],
        None => seq![],
    }
}

pub open spec fn opt_map<T>(o: Option<T>, f: spec_fn(T) -> Seq<char>) -> Option<Seq<char>> {
    match o {
        Some(x) => Some(f(x)),
        None => None,
    }
}

/// The text of an optional bound; `None` also where it cannot be rendered.
pub open spec fn bound_text(o: Option<DateTime>) -> Option<Seq<char>> {
    match o {
        Some(b) => b.text(),
        None => None,
    }
}

fn push_pair(list: &mut Vec<(String, String)>, key: &str, val: String)
    ensures
        pairs_view(final(list)@) == pairs_view(old(list)@).push((key@, val@)),
{
    list.push((String::from_str(key), val));
    assert(pairs_view(final(list)@) =~= pairs_view(old(list)@).push((key@, val@)));
}

pub open spec fn opt_view(v: Option<String>) -> Option<Seq<char>> {
    match v {
        Some(s) => Some(s@),
        None => None,
    }
}

fn push_entry(list: &mut Vec<(String, String)>, key: &str, val: Option<String>)
    ensures
        pairs_view(final(list)@) == pairs_view(old(list)@) + entry(key@, opt_view(val)),
{
    match val {
        Some(v) => {
            push_pair(list, key, v);
            assert(pairs_view(old(list)@).push((key@, v@)) =~= pairs_view(old(list)@) + entry(key@, opt_view(Some(v))));
        },
        None => {
            assert(pairs_view(old(list)@) =~= pairs_view(old(list)@) + entry(key@, opt_view(val)));
        },
    }
}

/// Optional options of a bars request; only those given reach the wire.
#[derive(Clone, Debug)]
pub struct QueryParams {
    pub timeframe: Option<Timeframe>,
    pub start: Option<DateTime>,
    pub end: Option<DateTime>,
    pub asof: Option<Date>,
    pub feed: Option<Feed>,
    pub currency: Option<Currency>,
    pub adjustment: Option<Adjustment>,
    pub limit: Option<u16>,
    pub page_token: Option<String>,
    pub sort: Option<Sort>,
}

impl QueryParams {
    /// No option given.
    pub fn empty() -> (r: QueryParams)
        ensures
            r.count_given() == 0,
    {
        QueryParams {
            timeframe: None,
            start: None,
            end: None,
            asof: None,
            feed: None,
            currency: None,
            adjustment: None,
            limit: None,
            page_token: None,
            sort: None,
        }
    }

    pub open spec fn wf(self) -> bool {
        &&& self.start matches Some(b) ==> b.wf()
        &&& self.end matches Some(b) ==> b.wf()
        &&& self.asof matches Some(d) ==> d.wf()
    }

    /// Every given bound can be rendered.
    pub open spec fn renderable(self) -> bool {
        &&& self.start matches Some(b) ==> b.text() is Some
        &&& self.end matches Some(b) ==> b.text() is Some
    }

    /// How many options are given.
    pub open spec fn count_given(self) -> nat {
        (if self.timeframe is Some { 1nat } else { 0nat }) + (if self.start is Some { 1nat } else { 0nat })
            + (if self.end is Some { 1nat } else { 0nat }) + (if self.asof is Some { 1nat } else { 0nat })
            + (if self.feed is Some { 1nat } else { 0nat }) + (if self.currency is Some { 1nat } else { 0nat })
            + (if self.adjustment is Some { 1nat } else { 0nat }) + (if self.limit is Some { 1nat } else { 0nat })
            + (if self.page_token is Some { 1nat } else { 0nat }) + (if self.sort is Some { 1nat } else { 0nat })
    }

    /// The query pairs, in the fixed order of the options, one for each given option.
    pub open spec fn pairs(self) -> Seq<(Seq<char>, Seq<char>)> {
        entry("timeframe"@, opt_map(self.timeframe, |t: Timeframe| t.token()))
            + entry("start"@, bound_text(self.start))
            + entry("end"@, bound_text(self.end))
            + entry("asof"@, opt_map(self.asof, |d: Date| d.text()))
            + entry("feed"@, opt_map(self.feed, |f: Feed| f.token()))
            + entry("currency"@, opt_map(self.currency, |c: Currency| c.token()))
            + entry("adjustment"@, opt_map(self.adjustment, |a: Adjustment| a.token()))
            + entry("limit"@, opt_map(self.limit, |n: u16| decimal(n as nat)))
            + entry("page_token"@, opt_map(self.page_token, |t: String| t@))
            + entry("sort"@, opt_map(self.sort, |o: Sort| o.token()))
    }

    /// The given options as query pairs; fails where a bound cannot be rendered.
    pub fn to_params_list(&self) -> (r: Result<Vec<(String, String)>, FormatError>)
        requires
            self.wf(),
        ensures
            r is Ok <==> self.renderable(),
            r matches Ok(list) ==> pairs_view(list@) == self.pairs(),
    {
        let mut list: Vec<(String, String)> = Vec::new();
        assert(pairs_view(list@) =~= seq![]);
        let timeframe = match &self.timeframe {
            Some(tf) => Some(tf.to_string()),
            None => None,
        };
        push_entry(&mut list, "timeframe", timeframe);
        let start = match &self.start {
            Some(b) => Some(b.to_string()?),
            None => None,
        };
        push_entry(&mut list, "start", start);
        let end = match &self.end {
            Some(b) => Some(b.to_string()?),
            None => None,
        };
        push_entry(&mut list, "end", end);
        let asof = match &self.asof {
            Some(d) => Some(d.to_text()),
            None => None,
        };
        push_entry(&mut list, "asof", asof);
        let feed = match &self.feed {
            Some(f) => Some(f.to_string()),
            None => None,
        };
        push_entry(&mut list, "feed", feed);
        let currency = match &self.currency {
            Some(c) => Some(c.to_string()),
            None => None,
        };
        push_entry(&mut list, "currency", currency);
        let adjustment = match &self.adjustment {
            Some(a) => Some(a.to_string()),
            None => None,
        };
        push_entry(&mut list, "adjustment", adjustment);
        let limit = match &self.limit {
            Some(n) => Some(decimal_string(*n as u64)),
            None => None,
        };
        push_entry(&mut list, "limit", limit);
        let page_token = match &self.page_token {
            Some(t) => Some(t.clone()),
            None => None,
        };
        push_entry(&mut list, "page_token", page_token);
        let sort = match &self.sort {
            Some(o) => Some(o.to_string()),
            None => None,
        };
        push_entry(&mut list, "sort", sort);
        Ok(list)
    }
}

pub open spec fn given<T>(o: Option<T>) -> nat {
    if o is Some { 1 } else { 0 }
}

proof fn lemma_entry_len(key: Seq<char>, v: Option<Seq<char>>)
    ensures
        entry(key, v).len() == given(v),
{
}

/// A query with exactly one option given serializes to exactly one pair,
/// keyed by that option.
pub proof fn lemma_single_option_single_pair(q: QueryParams)
    requires
        q.count_given() == 1,
        q.renderable(),
    ensures
        q.pairs().len() == 1,
        q.timeframe matches Some(t) ==> q.pairs() == seq![("timeframe"@, t.token())],
        q.start matches Some(b) ==> q.pairs() == seq![("start"@, b.text()->Some_0)],
        q.end matches Some(b) ==> q.pairs() == seq![("end"@, b.text()->Some_0)],
        q.asof matches Some(d) ==> q.pairs() == seq![("asof"@, d.text())],
        q.feed matches Some(f) ==> q.pairs() == seq![("feed"@, f.token())],
        q.currency matches Some(c) ==> q.pairs() == seq![("currency"@, c.token())],
        q.adjustment matches Some(a) ==> q.pairs() == seq![("adjustment"@, a.token())],
        q.limit matches Some(n) ==> q.pairs() == seq![("limit"@, decimal(n as nat))],
        q.page_token matches Some(t) ==> q.pairs() == seq![("page_token"@, t@)],
        q.sort matches Some(o) ==> q.pairs() == seq![("sort"@, o.token())],
{
    lemma_entry_len("timeframe"@, opt_map(q.timeframe, |t: Timeframe| t.token()));
    lemma_entry_len("start"@, bound_text(q.start));
    lemma_entry_len("end"@, bound_text(q.end));
    lemma_entry_len("asof"@, opt_map(q.asof, |d: Date| d.text()));
    lemma_entry_len("feed"@, opt_map(q.feed, |f: Feed| f.token()));
    lemma_entry_len("currency"@, opt_map(q.currency, |c: Currency| c.token()));
    lemma_entry_len("adjustment"@, opt_map(q.adjustment, |a: Adjustment| a.token()));
    lemma_entry_len("limit"@, opt_map(q.limit, |n: u16| decimal(n as nat)));
    lemma_entry_len("page_token"@, opt_map(q.page_token, |t: String| t@));
    lemma_entry_len("sort"@, opt_map(q.sort, |o: Sort| o.token()));
}

} // verus!
