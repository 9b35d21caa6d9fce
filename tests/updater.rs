use updater::calendar::{Date, FormatError, Timestamp};
use updater::decimal::{decimal_string, zero_padded_string};
use updater::frame::{PriceFrame, PRICE_MAX};
use updater::paging::{join_symbols, merge_page, AlpacaRequest, BarsResponse, Pager};
use updater::params::{Adjustment, Currency, DateTime, Feed, QueryParams, Sort, Timeframe};
use updater::planner::plan_range;
use updater::retry::{backoff_secs, pacing_ms, random_pacing_ms, FetchOutcome, Retry, RetryAction, MAX_RETRIES};
use updater::run::{Asset, Phase, Updater};

fn date(y: i32, m: u8, d: u8) -> Date {
    Date::new(y, m, d).unwrap()
}

fn noon(d: Date) -> Timestamp {
    Timestamp { date: d, hour: 12, minute: 30, second: 0, nanosecond: 0, offset_minutes: 0 }
}

fn one(key: &str, value: &str) -> Vec<(String, String)> {
    vec![(key.to_string(), value.to_string())]
}

#[test]
fn decimal_rendering() {
    assert_eq!(decimal_string(0), "0");
    assert_eq!(decimal_string(7), "7");
    assert_eq!(decimal_string(10000), "10000");
    assert_eq!(zero_padded_string(5, 2), "05");
    assert_eq!(zero_padded_string(2024, 4), "2024");
    assert_eq!(zero_padded_string(123, 2), "123");
}

#[test]
fn timeframe_tokens() {
    assert_eq!(Timeframe::Minutes(5).to_string(), "5Min");
    assert_eq!(Timeframe::Hours(1).to_string(), "1Hour");
    assert_eq!(Timeframe::Day.to_string(), "1Day");
    assert_eq!(Timeframe::Week.to_string(), "1Week");
    assert_eq!(Timeframe::Months(3).to_string(), "3Month");
    assert_eq!(Timeframe::Minutes(255).to_string(), "255Min");
}

#[test]
fn enumerated_tokens() {
    assert_eq!(Feed::Sip.to_string(), "sip");
    assert_eq!(Feed::Iex.to_string(), "iex");
    assert_eq!(Feed::Boats.to_string(), "boats");
    assert_eq!(Adjustment::Raw.to_string(), "raw");
    assert_eq!(Adjustment::Split.to_string(), "split");
    assert_eq!(Adjustment::Dividend.to_string(), "dividend");
    assert_eq!(Adjustment::SpinOff.to_string(), "spin-off");
    assert_eq!(Adjustment::All.to_string(), "all");
    assert_eq!(Sort::Asc.to_string(), "asc");
    assert_eq!(Sort::Desc.to_string(), "desc");
    assert_eq!(Currency::EUR.to_string(), "EUR");
    assert_eq!(Currency::USD.to_string(), "USD");
    assert_eq!(Currency::Other("JPY".to_string()).to_string(), "JPY");
}

#[test]
fn date_text_and_validity() {
    assert_eq!(date(2024, 6, 5).to_text(), "2024-06-05");
    assert_eq!(date(987, 12, 31).to_text(), "0987-12-31");
    assert_eq!(date(-44, 3, 15).to_text(), "-0044-03-15");
    assert!(Date::new(2024, 2, 29).is_some());
    assert!(Date::new(2023, 2, 29).is_none());
    assert!(Date::new(1900, 2, 29).is_none());
    assert!(Date::new(2000, 2, 29).is_some());
    assert!(Date::new(2024, 4, 31).is_none());
    assert!(Date::new(2024, 13, 1).is_none());
    assert!(Date::new(10000, 1, 1).is_none());
}

#[test]
fn timestamp_rfc3339() {
    let ts = noon(date(2024, 6, 15));
    assert_eq!(ts.to_rfc3339().unwrap(), "2024-06-15T12:30:00Z");
    let ts = Timestamp { date: date(2024, 1, 2), hour: 3, minute: 4, second: 5, nanosecond: 500_000_000, offset_minutes: -90 };
    assert_eq!(ts.to_rfc3339().unwrap(), "2024-01-02T03:04:05.5-01:30");
    let early = noon(date(-1, 1, 1));
    assert_eq!(early.to_rfc3339(), Err(FormatError::YearOutOfRange));
}

#[test]
fn date_or_timestamp_dispatch() {
    assert_eq!(DateTime::Date(date(2024, 6, 15)).to_string().unwrap(), "2024-06-15");
    assert_eq!(DateTime::DateTime(noon(date(2024, 6, 15))).to_string().unwrap(), "2024-06-15T12:30:00Z");
}

#[test]
fn empty_query_has_no_pairs() {
    assert!(QueryParams::empty().to_params_list().unwrap().is_empty());
}

#[test]
fn single_option_gives_single_pair() {
    let mut q = QueryParams::empty();
    q.timeframe = Some(Timeframe::Minutes(5));
    assert_eq!(q.to_params_list().unwrap(), one("timeframe", "5Min"));

    let mut q = QueryParams::empty();
    q.start = Some(DateTime::Date(date(2024, 4, 1)));
    assert_eq!(q.to_params_list().unwrap(), one("start", "2024-04-01"));

    let mut q = QueryParams::empty();
    q.end = Some(DateTime::DateTime(noon(date(2024, 6, 15))));
    assert_eq!(q.to_params_list().unwrap(), one("end", "2024-06-15T12:30:00Z"));

    let mut q = QueryParams::empty();
    q.asof = Some(date(2024, 6, 15));
    assert_eq!(q.to_params_list().unwrap(), one("asof", "2024-06-15"));

    let mut q = QueryParams::empty();
    q.feed = Some(Feed::Iex);
    assert_eq!(q.to_params_list().unwrap(), one("feed", "iex"));

    let mut q = QueryParams::empty();
    q.currency = Some(Currency::Other("CHF".to_string()));
    assert_eq!(q.to_params_list().unwrap(), one("currency", "CHF"));

    let mut q = QueryParams::empty();
    q.adjustment = Some(Adjustment::SpinOff);
    assert_eq!(q.to_params_list().unwrap(), one("adjustment", "spin-off"));

    let mut q = QueryParams::empty();
    q.limit = Some(500);
    assert_eq!(q.to_params_list().unwrap(), one("limit", "500"));

    let mut q = QueryParams::empty();
    q.page_token = Some("abc".to_string());
    assert_eq!(q.to_params_list().unwrap(), one("page_token", "abc"));

    let mut q = QueryParams::empty();
    q.sort = Some(Sort::Desc);
    assert_eq!(q.to_params_list().unwrap(), one("sort", "desc"));
}

#[test]
fn pairs_follow_field_order() {
    let mut q = QueryParams::empty();
    q.sort = Some(Sort::Asc);
    q.timeframe = Some(Timeframe::Day);
    q.limit = Some(10);
    q.feed = Some(Feed::Sip);
    let keys: Vec<String> = q.to_params_list().unwrap().into_iter().map(|p| p.0).collect();
    assert_eq!(keys, vec!["timeframe", "feed", "limit", "sort"]);
}

#[test]
fn unrenderable_bound_fails() {
    let mut q = QueryParams::empty();
    q.start = Some(DateTime::DateTime(noon(date(-5, 1, 1))));
    q.feed = Some(Feed::Sip);
    assert_eq!(q.to_params_list(), Err(FormatError::YearOutOfRange));
}

#[test]
fn request_joins_symbols() {
    let mut q = QueryParams::empty();
    q.feed = Some(Feed::Iex);
    let req = AlpacaRequest::new(vec!["AAPL".to_string(), "MSFT".to_string()], q);
    assert_eq!(
        req.to_params_list().unwrap(),
        vec![("feed".to_string(), "iex".to_string()), ("symbols".to_string(), "AAPL,MSFT".to_string())]
    );
    assert_eq!(join_symbols(&vec![]), "");
    assert_eq!(join_symbols(&vec!["X".to_string()]), "X");
}

#[test]
fn plan_without_watermark() {
    let now = noon(date(2024, 6, 15));
    assert_eq!(plan_range(now, None), None);
}

#[test]
fn plan_when_current() {
    let now = noon(date(2024, 6, 15));
    assert_eq!(plan_range(now, Some(date(2024, 6, 15))), None);
}

#[test]
fn plan_with_lookback() {
    let now = noon(date(2024, 6, 15));
    let (from, to) = plan_range(now, Some(date(2024, 5, 1))).unwrap();
    assert_eq!(from, Timestamp { date: date(2024, 4, 1), hour: 0, minute: 0, second: 0, nanosecond: 0, offset_minutes: 0 });
    assert_eq!(to, now);
    let (from, _) = plan_range(now, Some(date(2024, 3, 10))).unwrap();
    assert_eq!(from.date, date(2024, 2, 9));
}

#[test]
fn fetch_all_merges_pages() {
    let mut q = QueryParams::empty();
    q.timeframe = Some(Timeframe::Day);
    let mut pager = Pager::new(vec!["AAPL".to_string()], q);
    assert_eq!(pager.query.limit, Some(10000));
    let first = pager.next_request().unwrap().unwrap();
    assert!(first.contains(&("limit".to_string(), "10000".to_string())));
    assert!(!first.iter().any(|p| p.0 == "page_token"));

    let mut all: Vec<(String, Vec<u32>)> = Vec::new();
    pager.absorb(&mut all, BarsResponse { bars: vec![("AAPL".to_string(), vec![1])], next_page_token: Some("X".to_string()) });
    let second = pager.next_request().unwrap().unwrap();
    assert!(second.contains(&("page_token".to_string(), "X".to_string())));
    pager.absorb(&mut all, BarsResponse { bars: vec![("AAPL".to_string(), vec![2])], next_page_token: None });
    assert!(pager.next_request().is_none());
    assert_eq!(all, vec![("AAPL".to_string(), vec![1, 2])]);
}

#[test]
fn merge_keeps_symbols_apart() {
    let mut all: Vec<(String, Vec<u32>)> = vec![("A".to_string(), vec![1])];
    merge_page(&mut all, vec![("B".to_string(), vec![7]), ("A".to_string(), vec![2, 3])]);
    assert_eq!(all, vec![("A".to_string(), vec![1, 2, 3]), ("B".to_string(), vec![7])]);
}

#[test]
fn stream_stops_after_error() {
    let mut pager = Pager::new(vec!["AAPL".to_string()], QueryParams::empty());
    let page: Result<BarsResponse<u32>, String> =
        Ok(BarsResponse { bars: vec![("AAPL".to_string(), vec![1])], next_page_token: Some("n".to_string()) });
    assert_eq!(pager.step(page), Ok(vec![("AAPL".to_string(), vec![1])]));
    assert!(pager.next_request().is_some());
    assert_eq!(pager.step::<u32, String>(Err("boom".to_string())), Err("boom".to_string()));
    assert!(pager.next_request().is_none());
}

#[test]
fn stream_stops_after_last_page() {
    let mut pager = Pager::new(vec!["AAPL".to_string()], QueryParams::empty());
    let page: Result<BarsResponse<u32>, String> = Ok(BarsResponse { bars: vec![], next_page_token: None });
    assert_eq!(pager.step(page), Ok(vec![]));
    assert!(pager.next_request().is_none());
}

fn rows(id: i64, n: usize) -> PriceFrame<f32> {
    let mut f = PriceFrame::empty();
    for i in 0..n {
        f.push(id, date(2024, 1, 1 + (i % 28) as u8), Some(1.0), Some(2.0), None, Some(1.5), Some(i as i64));
    }
    f
}

fn columns_equal(f: &PriceFrame<f32>) -> bool {
    let n = f.length;
    f.asset_id.len() == n && f.tstamp.len() == n && f.open.len() == n && f.high.len() == n
        && f.low.len() == n && f.close.len() == n && f.volume.len() == n
}

#[test]
fn accumulator_columns_stay_equal() {
    let mut frame = PriceFrame::empty();
    assert!(columns_equal(&frame));
    let mut more = rows(1, 3);
    frame.extend(&mut more);
    assert!(columns_equal(&frame) && columns_equal(&more));
    assert_eq!(frame.len(), 3);
    assert_eq!(more.len(), 0);
    let mut more = rows(2, 2);
    frame.extend(&mut more);
    assert_eq!(frame.len(), 5);
    assert_eq!(frame.asset_id, vec![1, 1, 1, 2, 2]);
    frame.clear();
    assert!(columns_equal(&frame));
    assert_eq!(frame.len(), 0);
}

#[test]
fn backoff_and_pacing() {
    assert_eq!(backoff_secs(MAX_RETRIES), 16);
    assert_eq!(backoff_secs(0), 1);
    assert_eq!(pacing_ms(2000, 12345), 2345);
    for _ in 0..20 {
        let p = random_pacing_ms(2000);
        assert!(p >= 2000 && p < 3000);
    }
}

// The backoff is 2^MAX_RETRIES seconds after every failed attempt, not
// 2^attempt: kept on purpose, and pinned here.
#[test]
fn retry_gives_up_after_max_attempts() {
    let mut r = Retry::new(MAX_RETRIES);
    let mut attempts = 0;
    while r.can_attempt() {
        attempts += 1;
        let action = r.failed();
        if attempts < 4 {
            assert_eq!(action, RetryAction::Retry { backoff_secs: 16 });
        } else {
            assert_eq!(action, RetryAction::GiveUp { backoff_secs: 16 });
        }
    }
    assert_eq!(attempts, 4);
}

fn asset(id: i64) -> Asset {
    Asset { id, symbol: format!("S{id}"), last_updated: None }
}

#[test]
fn exhausted_asset_is_never_pending() {
    let mut run: Updater<f32> = Updater::new(noon(date(2024, 6, 15)), vec![asset(1), asset(2)]);
    let (a, _) = run.next_asset().unwrap();
    assert_eq!(a.id, 2);
    assert!(!run.record(2, FetchOutcome::Exhausted));
    let (a, _) = run.next_asset().unwrap();
    assert!(!run.record(a.id, FetchOutcome::Failed));
    assert!(run.next_asset().is_none());
    assert_eq!(run.phase, Phase::Upserting);
    assert!(run.updated_ids.is_empty());
}

#[test]
fn fetched_asset_marked_in_one_flush() {
    let mut run: Updater<f32> = Updater::new(noon(date(2024, 6, 15)), vec![asset(7)]);
    let (a, range) = run.next_asset().unwrap();
    assert!(range.is_none());
    assert!(!run.record(a.id, FetchOutcome::Fetched(rows(7, 3))));
    assert_eq!(run.updated_ids, vec![7]);
    assert!(run.next_asset().is_none());
    assert!(run.upserted(true));
    assert_eq!(run.updated_ids, vec![7]);
    run.marked(true);
    assert_eq!(run.phase, Phase::Done);
    assert!(run.updated_ids.is_empty());
    assert_eq!(run.prices.len(), 0);
}

#[test]
fn full_batch_flushes_at_once() {
    let mut run: Updater<f32> = Updater::new(noon(date(2024, 6, 15)), vec![asset(2), asset(1)]);
    let (a, _) = run.next_asset().unwrap();
    assert!(!run.record(a.id, FetchOutcome::Fetched(rows(1, PRICE_MAX - 1))));
    let (b, _) = run.next_asset().unwrap();
    assert!(run.record(b.id, FetchOutcome::Fetched(rows(2, 1))));
    assert_eq!(run.phase, Phase::Upserting);
    assert_eq!(run.prices.len(), PRICE_MAX);
    assert!(run.upserted(true));
    assert_eq!(run.prices.len(), 0);
    assert_eq!(run.updated_ids, vec![1]);
    run.marked(true);
    assert_eq!(run.phase, Phase::Assets);
    assert_eq!(run.updated_ids, vec![2]);
    assert!(run.next_asset().is_none());
    assert!(run.upserted(true));
    run.marked(true);
    assert_eq!(run.phase, Phase::Done);
}

#[test]
fn failed_upsert_keeps_batch() {
    let mut run: Updater<f32> = Updater::new(noon(date(2024, 6, 15)), vec![asset(2), asset(1)]);
    let (a, _) = run.next_asset().unwrap();
    assert!(run.record(a.id, FetchOutcome::Fetched(rows(1, PRICE_MAX))));
    assert!(!run.upserted(false));
    assert_eq!(run.phase, Phase::Assets);
    assert_eq!(run.prices.len(), PRICE_MAX);
    assert_eq!(run.updated_ids, vec![1]);
    let (b, _) = run.next_asset().unwrap();
    assert!(run.record(b.id, FetchOutcome::Fetched(rows(2, 1))));
    assert!(run.upserted(true));
    run.marked(false);
    assert_eq!(run.updated_ids, vec![1, 2]);
}

#[test]
fn small_remainder_flushed_at_end() {
    let mut run: Updater<f32> = Updater::new(noon(date(2024, 6, 15)), vec![asset(3)]);
    let (a, _) = run.next_asset().unwrap();
    assert!(!run.record(a.id, FetchOutcome::Fetched(rows(3, 1))));
    assert!(run.next_asset().is_none());
    assert_eq!(run.phase, Phase::Upserting);
    assert_eq!(run.prices.len(), 1);
    assert!(!run.upserted(false));
    assert_eq!(run.phase, Phase::Done);
}

#[test]
fn watermark_range_from_asset() {
    let mut run: Updater<f32> = Updater::new(
        noon(date(2024, 6, 15)),
        vec![Asset { id: 1, symbol: "AAPL".to_string(), last_updated: Some(date(2024, 5, 1)) }],
    );
    assert_eq!(run.watermark_date(), date(2024, 6, 15));
    let (_, range) = run.next_asset().unwrap();
    assert_eq!(range.unwrap().0.date, date(2024, 4, 1));
}
