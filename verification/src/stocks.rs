//! Market data: the queries to issue and the price figures derived from a chart payload.

use crate::models::{Percent, StockPrice};
use crate::text::{record_instant, recorded_instant};
use vstd::prelude::*;
use vstd::string::*;

verus! {

/// A series of optional readings, one per session; the whole series may be missing.
pub type Series<T> = Option<Vec<Option<T>>>;

/// Metadata of a chart result; prices in hundredths.
#[derive(Debug, Clone)]
pub struct ChartMeta {
    pub regular_market_price: Option<i64>,
    pub previous_close: Option<i64>,
}

/// Parallel per-session series of a chart result; prices in hundredths.
#[derive(Debug, Clone)]
pub struct QuoteSeries {
    pub open: Series<i64>,
    pub high: Series<i64>,
    pub low: Series<i64>,
    pub close: Series<i64>,
    pub volume: Series<u64>,
}

/// One entry of a chart payload's result list.
#[derive(Debug, Clone)]
pub struct ChartResult {
    pub meta: Option<ChartMeta>,
    pub timestamps: Option<Vec<Option<i64>>>,
    pub quote: Option<QuoteSeries>,
}

/// A chart payload together with how its transfer went.
#[derive(Debug, Clone)]
pub struct ChartResponse {
    /// The transfer ended with a success status.
    pub http_success: bool,
    /// The payload's error field is present and not null.
    pub has_error: bool,
    /// The payload's result list, if it is there and is a list.
    pub results: Option<Vec<ChartResult>>,
}

/// Why no price figures could be derived.
#[derive(Debug, Clone, Copy, PartialEq, Eq)]
pub enum StockError {
    /// The transfer did not end with a success status.
    HttpFailure,
    /// The payload reports an error.
    ApiError,
    /// The payload has no result.
    NoData,
    /// The result has no metadata.
    MissingMetadata,
    /// The metadata has no market price.
    MissingCurrentPrice,
    /// The result has no list of timestamps.
    MissingTimestamps,
    /// The result has no quote series.
    MissingQuoteData,
}

/// Reading `i` of a series; absent where the series, the index or the reading is missing.
pub open spec fn reading<T>(series: Series<T>, i: int) -> Option<T> {
    match series {
        Some(v) => if 0 <= i < v@.len() {
            v@[i]
        } else {
            None
        },
        None => None,
    }
}

/// The most recent reading of a series.
pub open spec fn last_reading<T>(series: Series<T>) -> Option<T> {
    match series {
        Some(v) => reading(series, v@.len() - 1),
        None => None,
    }
}

/// `m` is the greatest reading of `s`: absent when no reading is present, else a
/// reading of `s` that no other exceeds.
pub open spec fn is_highest(s: Seq<Option<i64>>, m: Option<i64>) -> bool {
    match m {
        None => forall|i: int| 0 <= i < s.len() ==> (#[trigger] s[i]) is None,
        Some(v) => (exists|i: int| 0 <= i < s.len() && #[trigger] s[i] == Some(v)) && forall|
            i: int,
        |
            0 <= i < s.len() && (#[trigger] s[i]) is Some ==> s[i].unwrap() <= v,
    }
}

/// `m` is the least reading of `s`: absent when no reading is present, else a reading
/// of `s` that no other undercuts.
pub open spec fn is_lowest(s: Seq<Option<i64>>, m: Option<i64>) -> bool {
    match m {
        None => forall|i: int| 0 <= i < s.len() ==> (#[trigger] s[i]) is None,
        Some(v) => (exists|i: int| 0 <= i < s.len() && #[trigger] s[i] == Some(v)) && forall|
            i: int,
        |
            0 <= i < s.len() && (#[trigger] s[i]) is Some ==> s[i].unwrap() >= v,
    }
}

/// The readings of a series, none where the series is missing.
pub open spec fn readings(series: Series<i64>) -> Seq<Option<i64>> {
    match series {
        Some(v) => v@,
        None => Seq::empty(),
    }
}

/// Whether session `i` yields a record: it has a timestamp and a closing price.
pub open spec fn has_close(timestamps: Seq<Option<i64>>, close: Series<i64>, i: int) -> bool {
    0 <= i < timestamps.len() && timestamps[i] is Some && reading(close, i) is Some
}

/// The sessions below `n` that yield a record, in ascending order.
pub open spec fn sessions_with_close(
    timestamps: Seq<Option<i64>>,
    close: Series<i64>,
    n: nat,
) -> Seq<int>
    decreases n,
{
    if n == 0 {
        Seq::empty()
    } else {
        let before = sessions_with_close(timestamps, close, (n - 1) as nat);
        if has_close(timestamps, close, n - 1) {
            before.push(n - 1)
        } else {
            before
        }
    }
}

/// The figures of `record` other than the chained ones are those of session `i`, read
/// at instant `now`.
pub open spec fn record_of_session(
    record: StockPrice,
    symbol: Seq<char>,
    now: i64,
    timestamps: Seq<Option<i64>>,
    quote: QuoteSeries,
    i: int,
) -> bool {
    &&& record.symbol@ == symbol
    &&& timestamps[i] is Some
    &&& record.timestamp == recorded_instant(timestamps[i].unwrap(), now)
    &&& Some(record.price) == reading(quote.close, i)
    &&& record.open_price == reading(quote.open, i)
    &&& record.high_price == reading(quote.high, i)
    &&& record.low_price == reading(quote.low, i)
    &&& record.volume == reading(quote.volume, i)
}

/// `records` is the history derived from the sessions: one record per session with a
/// close, in order, each chained to the record emitted before it.
pub open spec fn is_history(
    records: Seq<StockPrice>,
    symbol: Seq<char>,
    now: i64,
    timestamps: Seq<Option<i64>>,
    quote: QuoteSeries,
) -> bool {
    let sessions = sessions_with_close(timestamps, quote.close, timestamps.len());
    &&& records.len() == sessions.len()
    &&& forall|k: int|
        0 <= k < records.len() ==> #[trigger] record_in_history(
            records,
            symbol,
            now,
            timestamps,
            quote,
            sessions,
            k,
        )
}

/// Record `k` holds the figures of the `k`-th session with a close, satisfies the
/// change formulas, and has the price of the record before it as its previous close
/// (none for the first).
pub open spec fn record_in_history(
    records: Seq<StockPrice>,
    symbol: Seq<char>,
    now: i64,
    timestamps: Seq<Option<i64>>,
    quote: QuoteSeries,
    sessions: Seq<int>,
    k: int,
) -> bool {
    &&& record_of_session(records[k], symbol, now, timestamps, quote, sessions[k])
    &&& records[k].wf()
    &&& records[k].previous_close == if k == 0 {
        None
    } else {
        Some(records[k - 1].price)
    }
}

/// What a history query yields for a payload.
pub open spec fn history_source(response: ChartResponse) -> Result<
    (Seq<Option<i64>>, QuoteSeries),
    StockError,
> {
    if !response.http_success {
        Err(StockError::HttpFailure)
    } else if response.results is None || response.results.unwrap()@.len() == 0 {
        Err(StockError::NoData)
    } else {
        let first = response.results.unwrap()@[0];
        if first.timestamps is None {
            Err(StockError::MissingTimestamps)
        } else if first.quote is None {
            Err(StockError::MissingQuoteData)
        } else {
            Ok((first.timestamps.unwrap()@, first.quote.unwrap()))
        }
    }
}

/// Which error, if any, a current-price query yields for a payload.
pub open spec fn current_price_error(response: ChartResponse) -> Option<StockError> {
    if !response.http_success {
        Some(StockError::HttpFailure)
    } else if response.has_error {
        Some(StockError::ApiError)
    } else if response.results is None || response.results.unwrap()@.len() == 0 {
        Some(StockError::NoData)
    } else {
        let first = response.results.unwrap()@[0];
        if first.meta is None {
            Some(StockError::MissingMetadata)
        } else if first.meta.unwrap().regular_market_price is None {
            Some(StockError::MissingCurrentPrice)
        } else {
            None
        }
    }
}

/// `record` is the current-price record derived from `result` at instant `now`.
pub open spec fn is_current_record(
    record: StockPrice,
    symbol: Seq<char>,
    now: i64,
    result: ChartResult,
) -> bool {
    &&& record.symbol@ == symbol
    &&& record.timestamp == now
    &&& Some(record.price) == result.meta.unwrap().regular_market_price
    &&& record.previous_close == result.meta.unwrap().previous_close
    &&& record.wf()
    &&& match result.quote {
        Some(q) => {
            &&& record.open_price == last_reading(q.open)
            &&& is_highest(readings(q.high), record.high_price)
            &&& is_lowest(readings(q.low), record.low_price)
            &&& record.volume == last_reading(q.volume)
        },
        None => {
            &&& record.open_price is None
            &&& record.high_price is None
            &&& record.low_price is None
            &&& record.volume is None
        },
    }
}

/// The chart endpoint for a symbol.
pub open spec fn chart_url(symbol: Seq<char>) -> Seq<char> {
    "https://query1.finance.yahoo.com/v8/finance/chart/"@ + symbol
}

/// The daily-interval chart query for a symbol over a range.
pub open spec fn range_url(symbol: Seq<char>, range: Seq<char>) -> Seq<char> {
    chart_url(symbol) + "?interval=1d&range="@ + range
}

/// Reading `i` of a series.
pub fn reading_at<T: Copy>(series: &Series<T>, i: usize) -> (res: Option<T>)
    ensures
        res == reading(*series, i as int),
{
    match series {
        Some(v) => if i < v.len() {
            v[i]
        } else {
            None
        },
        None => None,
    }
}

/// The most recent reading of a series.
pub fn last_reading_of<T: Copy>(series: &Series<T>) -> (res: Option<T>)
    ensures
        res == last_reading(*series),
{
    match series {
        Some(v) => if v.len() > 0 {
            v[v.len() - 1]
        } else {
            None
        },
        None => None,
    }
}

/// The greatest reading of a series.
pub fn highest(series: &Series<i64>) -> (res: Option<i64>)
    ensures
        is_highest(readings(*series), res),
{
    let v = match series {
        Some(v) => v,
        None => {
            return None;
        },
    };
    let mut best: Option<i64> = None;
    let mut i: usize = 0;
    while i < v.len()
        invariant
            i <= v.len(),
            is_highest(v@.subrange(0, i as int), best),
        decreases v.len() - i,
    {
        let ghost before = v@.subrange(0, i as int);
        let ghost after = v@.subrange(0, i + 1);
        let previous = best;
        if let Some(x) = v[i] {
            best = match best {
                None => Some(x),
                Some(a) => Some(if a >= x { a } else { x }),
            };
        }
        proof {
            assert(forall|j: int| 0 <= j < i ==> after[j] == before[j]);
            assert(after[i as int] == v@[i as int]);
            if let Some(m) = best {
                if previous == best {
                    let w = choose|j: int| 0 <= j < before.len() && before[j] == Some(m);
                    assert(after[w] == Some(m));
                } else {
                    assert(after[i as int] == Some(m));
                }
            }
        }
        i += 1;
    }
    assert(v@.subrange(0, i as int) =~= v@);
    best
}

/// The least reading of a series.
pub fn lowest(series: &Series<i64>) -> (res: Option<i64>)
    ensures
        is_lowest(readings(*series), res),
{
    let v = match series {
        Some(v) => v,
        None => {
            return None;
        },
    };
    let mut best: Option<i64> = None;
    let mut i: usize = 0;
    while i < v.len()
        invariant
            i <= v.len(),
            is_lowest(v@.subrange(0, i as int), best),
        decreases v.len() - i,
    {
        let ghost before = v@.subrange(0, i as int);
        let ghost after = v@.subrange(0, i + 1);
        let previous = best;
        if let Some(x) = v[i] {
            best = match best {
                None => Some(x),
                Some(a) => Some(if a <= x { a } else { x }),
            };
        }
        proof {
            assert(forall|j: int| 0 <= j < i ==> after[j] == before[j]);
            assert(after[i as int] == v@[i as int]);
            if let Some(m) = best {
                if previous == best {
                    let w = choose|j: int| 0 <= j < before.len() && before[j] == Some(m);
                    assert(after[w] == Some(m));
                } else {
                    assert(after[i as int] == Some(m));
                }
            }
        }
        i += 1;
    }
    assert(v@.subrange(0, i as int) =~= v@);
    best
}

/// Change and change-percent against a previous close, both absent without one.
pub fn change_figures(price: i64, previous_close: Option<i64>) -> (res: (
    Option<i128>,
    Option<Percent>,
))
    ensures
        match previous_close {
            None => res.0 is None && res.1 is None,
            Some(p) => res.0 == Some((price - p) as i128) && res.1 == Some(
                (Percent { numerator: (100 * (price - p)) as i128, denominator: p }),
            ),
        },
{
    match previous_close {
        None => (None, None),
        Some(p) => {
            let change: i128 = price as i128 - p as i128;
            (Some(change), Some(Percent { numerator: 100 * change, denominator: p }))
        },
    }
}

/// The record of session `i`, chained to `previous_close`.
fn session_record(
    symbol: &str,
    timestamp: i64,
    price: i64,
    quote: &QuoteSeries,
    i: usize,
    previous_close: Option<i64>,
) -> (res: StockPrice)
    ensures
        res.symbol@ == symbol@,
        res.timestamp == timestamp,
        res.price == price,
        res.open_price == reading(quote.open, i as int),
        res.high_price == reading(quote.high, i as int),
        res.low_price == reading(quote.low, i as int),
        res.volume == reading(quote.volume, i as int),
        res.previous_close == previous_close,
        res.wf(),
{
    let (change, change_percent) = change_figures(price, previous_close);
    StockPrice {
        symbol: String::from_str(symbol),
        timestamp,
        price,
        open_price: reading_at(&quote.open, i),
        high_price: reading_at(&quote.high, i),
        low_price: reading_at(&quote.low, i),
        volume: reading_at(&quote.volume, i),
        previous_close,
        change,
        change_percent,
    }
}

/// Derives the history from the timestamps and series of one chart result.
pub fn derive_history(
    symbol: &str,
    now: i64,
    timestamps: &Vec<Option<i64>>,
    quote: &QuoteSeries,
) -> (res: Vec<StockPrice>)
    ensures
        is_history(res@, symbol@, now, timestamps@, *quote),
{
    let mut prices: Vec<StockPrice> = Vec::new();
    let mut previous_close: Option<i64> = None;
    let ghost mut sessions: Seq<int> = Seq::empty();
    let mut i: usize = 0;
    while i < timestamps.len()
        invariant
            i <= timestamps.len(),
            sessions == sessions_with_close(timestamps@, quote.close, i as nat),
            prices@.len() == sessions.len(),
            previous_close == if prices@.len() == 0 {
                None
            } else {
                Some(prices@[prices@.len() - 1].price)
            },
            forall|k: int|
                0 <= k < prices@.len() ==> #[trigger] record_in_history(
                    prices@,
                    symbol@,
                    now,
                    timestamps@,
                    *quote,
                    sessions,
                    k,
                ),
        decreases timestamps.len() - i,
    {
        let close = reading_at(&quote.close, i);
        let ghost old_prices = prices@;
        let ghost old_sessions = sessions;
        if let (Some(ts), Some(price)) = (timestamps[i], close) {
            let record = session_record(
                symbol,
                record_instant(ts, now),
                price,
                quote,
                i,
                previous_close,
            );
            prices.push(record);
            previous_close = Some(price);
            proof {
                sessions = sessions.push(i as int);
                assert forall|k: int| 0 <= k < prices@.len() implies #[trigger] record_in_history(
                    prices@,
                    symbol@,
                    now,
                    timestamps@,
                    *quote,
                    sessions,
                    k,
                ) by {
                    if k < old_prices.len() {
                        assert(record_in_history(
                            old_prices,
                            symbol@,
                            now,
                            timestamps@,
                            *quote,
                            old_sessions,
                            k,
                        ));
                    }
                }
            }
        }
        i += 1;
    }
    prices
}

/// Settings of the market-data source.
#[derive(Debug, Clone)]
pub struct StockClient {
    pub user_agent: String,
}

impl StockClient {
    /// The settings used against the public chart endpoint.
    pub fn new() -> (res: Self)
        ensures
            res.user_agent@ == "Mozilla/5.0 (compatible; StockBot/1.0)"@,
    {
        StockClient { user_agent: String::from_str("Mozilla/5.0 (compatible; StockBot/1.0)") }
    }

    /// The query that tells whether a symbol exists.
    pub fn validation_url(&self, symbol: &str) -> (res: String)
        ensures
            res@ == chart_url(symbol@),
    {
        String::from_str("https://query1.finance.yahoo.com/v8/finance/chart/").concat(symbol)
    }

    /// The two-day daily-interval query behind the current price.
    pub fn current_price_url(&self, symbol: &str) -> (res: String)
        ensures
            res@ == range_url(symbol@, "2d"@),
    {
        self.history_url(symbol, "2d")
    }

    /// The daily-interval query over `period`, which is forwarded verbatim.
    pub fn history_url(&self, symbol: &str, period: &str) -> (res: String)
        ensures
            res@ == range_url(symbol@, period@),
    {
        self.validation_url(symbol).concat("?interval=1d&range=").concat(period)
    }

    /// Whether the payload shows that the symbol exists: the transfer succeeded, no
    /// error is reported and the result list is there and not empty.
    pub fn validate_symbol(&self, response: &ChartResponse) -> (res: bool)
        ensures
            res == (response.http_success && !response.has_error && response.results is Some
                && response.results.unwrap()@.len() > 0),
    {
        if !response.http_success || response.has_error {
            return false;
        }
        match &response.results {
            Some(list) => list.len() > 0,
            None => false,
        }
    }

    /// Derives the current price record from a two-day chart payload.
    ///
    /// Open and volume are those of the most recent session; high and low run over
    /// every session of the payload.
    pub fn get_current_price(&self, symbol: &str, now: i64, response: &ChartResponse) -> (res:
        Result<StockPrice, StockError>)
        ensures
            match current_price_error(*response) {
                Some(e) => res == Err::<StockPrice, StockError>(e),
                None => res is Ok && is_current_record(
                    res.unwrap(),
                    symbol@,
                    now,
                    response.results.unwrap()@[0],
                ),
            },
    {
        if !response.http_success {
            return Err(StockError::HttpFailure);
        }
        if response.has_error {
            return Err(StockError::ApiError);
        }
        let result = match &response.results {
            Some(list) => if list.len() > 0 {
                &list[0]
            } else {
                return Err(StockError::NoData);
            },
            None => {
                return Err(StockError::NoData);
            },
        };
        let meta = match &result.meta {
            Some(m) => m,
            None => {
                return Err(StockError::MissingMetadata);
            },
        };
        let price = match meta.regular_market_price {
            Some(p) => p,
            None => {
                return Err(StockError::MissingCurrentPrice);
            },
        };
        let previous_close = meta.previous_close;
        let (open_price, high_price, low_price, volume) = match &result.quote {
            Some(q) => (
                last_reading_of(&q.open),
                highest(&q.high),
                lowest(&q.low),
                last_reading_of(&q.volume),
            ),
            None => (None, None, None, None),
        };
        let (change, change_percent) = change_figures(price, previous_close);
        Ok(
            StockPrice {
                symbol: String::from_str(symbol),
                timestamp: now,
                price,
                open_price,
                high_price,
                low_price,
                volume,
                previous_close,
                change,
                change_percent,
            },
        )
    }

    /// Derives one record per session that has a timestamp and a close. A session
    /// stamped beyond the calendar's range is dated `now`.
    ///
    /// Sessions without a close are skipped and do not move the rolling previous
    /// close; the first record has no previous close.
    pub fn get_historical_prices(&self, symbol: &str, now: i64, response: &ChartResponse) -> (res: Result<
        Vec<StockPrice>,
        StockError,
    >)
        ensures
            match history_source(*response) {
                Err(e) => res == Err::<Vec<StockPrice>, StockError>(e),
                Ok(source) => res is Ok && is_history(
                    res.unwrap()@,
                    symbol@,
                    now,
                    source.0,
                    source.1,
                ),
            },
    {
        if !response.http_success {
            return Err(StockError::HttpFailure);
        }
        let result = match &response.results {
            Some(list) => if list.len() > 0 {
                &list[0]
            } else {
                return Err(StockError::NoData);
            },
            None => {
                return Err(StockError::NoData);
            },
        };
        let timestamps = match &result.timestamps {
            Some(t) => t,
            None => {
                return Err(StockError::MissingTimestamps);
            },
        };
        let quote = match &result.quote {
            Some(q) => q,
            None => {
                return Err(StockError::MissingQuoteData);
            },
        };
        Ok(derive_history(symbol, now, timestamps, quote))
    }
}

/// In a well-formed record with previous close `p` and price `c`, the change is
/// `c - p` and the change-percent is the quotient `100 * (c - p) / p`; without a
/// previous close both are absent.
pub proof fn lemma_change_formulas(record: StockPrice)
    requires
        record.wf(),
    ensures
        record.previous_close is None ==> record.change is None && record.change_percent is None,
        record.previous_close matches Some(p) ==> {
            &&& record.change matches Some(c) && c == record.price - p
            &&& record.change_percent matches Some(q) && q.numerator == 100 * (record.price - p)
                && q.denominator == p
        },
{
}

} // verus!
