use stock_monitoring_bot::models::Percent;
use stock_monitoring_bot::stocks::{
    change_figures, derive_history, highest, last_reading_of, lowest, reading_at, ChartMeta,
    ChartResponse, ChartResult, QuoteSeries, StockClient, StockError,
};

fn empty_quote() -> QuoteSeries {
    QuoteSeries { open: None, high: None, low: None, close: None, volume: None }
}

fn response_with(result: ChartResult) -> ChartResponse {
    ChartResponse { http_success: true, has_error: false, results: Some(vec![result]) }
}

fn two_day_result(previous_close: Option<i64>) -> ChartResult {
    ChartResult {
        meta: Some(ChartMeta { regular_market_price: Some(11_000), previous_close }),
        timestamps: Some(vec![Some(100), Some(200)]),
        quote: Some(QuoteSeries {
            open: Some(vec![Some(10_100), Some(10_500)]),
            high: Some(vec![Some(11_500), None, Some(11_200)]),
            low: Some(vec![Some(9_900), Some(9_700), None]),
            close: Some(vec![Some(10_000), Some(11_000)]),
            volume: Some(vec![Some(5_000), Some(7_000)]),
        }),
    }
}

#[test]
fn history_skips_sessions_without_close() {
    let client = StockClient::new();
    let result = ChartResult {
        meta: None,
        timestamps: Some(vec![Some(1_000), Some(2_000), Some(3_000)]),
        quote: Some(QuoteSeries {
            open: None,
            high: None,
            low: None,
            close: Some(vec![Some(1_000), None, Some(1_200)]),
            volume: None,
        }),
    };
    let prices = client.get_historical_prices("AAPL", 77, &response_with(result)).unwrap();
    assert_eq!(prices.len(), 2);
    assert_eq!(prices[0].timestamp, 1_000);
    assert_eq!(prices[0].price, 1_000);
    assert_eq!(prices[0].previous_close, None);
    assert_eq!(prices[0].change, None);
    assert!(prices[0].change_percent.is_none());
    assert_eq!(prices[1].timestamp, 3_000);
    assert_eq!(prices[1].price, 1_200);
    assert_eq!(prices[1].previous_close, Some(1_000));
    assert_eq!(prices[1].change, Some(200));
    let percent: &Percent = prices[1].change_percent.as_ref().unwrap();
    assert_eq!(percent.numerator, 20_000);
    assert_eq!(percent.denominator, 1_000);
    assert_eq!(prices[1].symbol, "AAPL");
}

#[test]
fn history_reads_each_series_at_its_session() {
    let timestamps = vec![Some(10), None, Some(30), Some(40)];
    let quote = QuoteSeries {
        open: Some(vec![Some(1), Some(2), Some(3)]),
        high: Some(vec![Some(11), Some(12), None, Some(14)]),
        low: None,
        close: Some(vec![Some(100), Some(200), Some(300), Some(250)]),
        volume: Some(vec![Some(7), Some(8), Some(9), Some(10)]),
    };
    let prices = derive_history("X", 5, &timestamps, &quote);
    assert_eq!(prices.len(), 3);
    assert_eq!(prices[0].price, 100);
    assert_eq!(prices[1].price, 300);
    assert_eq!(prices[1].timestamp, 30);
    assert_eq!(prices[1].previous_close, Some(100));
    assert_eq!(prices[1].open_price, Some(3));
    assert_eq!(prices[1].high_price, None);
    assert_eq!(prices[1].low_price, None);
    assert_eq!(prices[1].volume, Some(9));
    assert_eq!(prices[2].price, 250);
    assert_eq!(prices[2].open_price, None);
    assert_eq!(prices[2].high_price, Some(14));
    assert_eq!(prices[2].previous_close, Some(300));
    assert_eq!(prices[2].change, Some(-50));
    assert_eq!(prices[2].change_percent.as_ref().unwrap().numerator, -5_000);
    assert_eq!(prices[2].change_percent.as_ref().unwrap().denominator, 300);
}

#[test]
fn session_beyond_the_calendar_is_dated_now() {
    let timestamps = vec![Some(i64::MAX), Some(86_400), Some(i64::MIN)];
    let quote = QuoteSeries {
        open: None,
        high: None,
        low: None,
        close: Some(vec![Some(1), Some(2), Some(3)]),
        volume: None,
    };
    let prices = derive_history("X", 1_700_000_000, &timestamps, &quote);
    assert_eq!(prices.len(), 3);
    assert_eq!(prices[0].timestamp, 1_700_000_000);
    assert_eq!(prices[1].timestamp, 86_400);
    assert_eq!(prices[2].timestamp, 1_700_000_000);
}

#[test]
fn history_without_close_series_is_empty() {
    let timestamps = vec![Some(10), Some(20)];
    let prices = derive_history("X", 5, &timestamps, &empty_quote());
    assert!(prices.is_empty());
}

#[test]
fn history_errors() {
    let client = StockClient::new();
    let failed = ChartResponse { http_success: false, has_error: false, results: None };
    assert_eq!(client.get_historical_prices("X", 0, &failed).unwrap_err(), StockError::HttpFailure);
    let none = ChartResponse { http_success: true, has_error: false, results: None };
    assert_eq!(client.get_historical_prices("X", 0, &none).unwrap_err(), StockError::NoData);
    let empty = ChartResponse { http_success: true, has_error: false, results: Some(vec![]) };
    assert_eq!(client.get_historical_prices("X", 0, &empty).unwrap_err(), StockError::NoData);
    let no_timestamps =
        response_with(ChartResult { meta: None, timestamps: None, quote: Some(empty_quote()) });
    assert_eq!(
        client.get_historical_prices("X", 0, &no_timestamps).unwrap_err(),
        StockError::MissingTimestamps
    );
    let no_quote =
        response_with(ChartResult { meta: None, timestamps: Some(vec![]), quote: None });
    assert_eq!(
        client.get_historical_prices("X", 0, &no_quote).unwrap_err(),
        StockError::MissingQuoteData
    );
}

#[test]
fn current_price_with_previous_close() {
    let client = StockClient::new();
    let record =
        client.get_current_price("AAPL", 1_700_000_000, &response_with(two_day_result(Some(10_000))))
            .unwrap();
    assert_eq!(record.symbol, "AAPL");
    assert_eq!(record.timestamp, 1_700_000_000);
    assert_eq!(record.price, 11_000);
    assert_eq!(record.previous_close, Some(10_000));
    assert_eq!(record.change, Some(1_000));
    assert_eq!(record.change_percent.as_ref().unwrap().numerator, 100_000);
    assert_eq!(record.change_percent.as_ref().unwrap().denominator, 10_000);
    assert_eq!(record.open_price, Some(10_500));
    assert_eq!(record.high_price, Some(11_500));
    assert_eq!(record.low_price, Some(9_700));
    assert_eq!(record.volume, Some(7_000));
}

#[test]
fn current_price_without_previous_close() {
    let client = StockClient::new();
    let record = client.get_current_price("AAPL", 5, &response_with(two_day_result(None))).unwrap();
    assert_eq!(record.previous_close, None);
    assert_eq!(record.change, None);
    assert!(record.change_percent.is_none());
}

#[test]
fn current_price_without_quote() {
    let client = StockClient::new();
    let result = ChartResult {
        meta: Some(ChartMeta { regular_market_price: Some(1), previous_close: None }),
        timestamps: None,
        quote: None,
    };
    let record = client.get_current_price("AAPL", 5, &response_with(result)).unwrap();
    assert_eq!(record.open_price, None);
    assert_eq!(record.high_price, None);
    assert_eq!(record.low_price, None);
    assert_eq!(record.volume, None);
}

#[test]
fn current_price_errors() {
    let client = StockClient::new();
    let failed = ChartResponse { http_success: false, has_error: true, results: None };
    assert_eq!(client.get_current_price("X", 0, &failed).unwrap_err(), StockError::HttpFailure);
    let reported = ChartResponse {
        http_success: true,
        has_error: true,
        results: Some(vec![two_day_result(None)]),
    };
    assert_eq!(client.get_current_price("X", 0, &reported).unwrap_err(), StockError::ApiError);
    let none = ChartResponse { http_success: true, has_error: false, results: None };
    assert_eq!(client.get_current_price("X", 0, &none).unwrap_err(), StockError::NoData);
    let empty = ChartResponse { http_success: true, has_error: false, results: Some(vec![]) };
    assert_eq!(client.get_current_price("X", 0, &empty).unwrap_err(), StockError::NoData);
    let no_meta = response_with(ChartResult { meta: None, timestamps: None, quote: None });
    assert_eq!(client.get_current_price("X", 0, &no_meta).unwrap_err(), StockError::MissingMetadata);
    let no_price = response_with(ChartResult {
        meta: Some(ChartMeta { regular_market_price: None, previous_close: Some(1) }),
        timestamps: None,
        quote: None,
    });
    assert_eq!(
        client.get_current_price("X", 0, &no_price).unwrap_err(),
        StockError::MissingCurrentPrice
    );
}

#[test]
fn symbol_validity() {
    let client = StockClient::new();
    let good = response_with(two_day_result(None));
    assert!(client.validate_symbol(&good));
    let failed = ChartResponse { http_success: false, has_error: false, results: good.results.clone() };
    assert!(!client.validate_symbol(&failed));
    let reported = ChartResponse { http_success: true, has_error: true, results: good.results.clone() };
    assert!(!client.validate_symbol(&reported));
    let empty = ChartResponse { http_success: true, has_error: false, results: Some(vec![]) };
    assert!(!client.validate_symbol(&empty));
    let absent = ChartResponse { http_success: true, has_error: false, results: None };
    assert!(!client.validate_symbol(&absent));
}

#[test]
fn extrema_and_readings() {
    let series = Some(vec![None, Some(5), Some(-2), None, Some(9), Some(3)]);
    assert_eq!(highest(&series), Some(9));
    assert_eq!(lowest(&series), Some(-2));
    assert_eq!(highest(&Some(vec![None, None])), None);
    assert_eq!(lowest(&Some(vec![])), None);
    assert_eq!(highest(&None), None);
    assert_eq!(last_reading_of(&series), Some(3));
    assert_eq!(last_reading_of(&Some(vec![Some(1), None])), None);
    assert_eq!(last_reading_of::<i64>(&Some(vec![])), None);
    assert_eq!(last_reading_of::<i64>(&None), None);
    assert_eq!(reading_at(&series, 1), Some(5));
    assert_eq!(reading_at(&series, 0), None);
    assert_eq!(reading_at(&series, 6), None);
}

#[test]
fn change_uses_wide_arithmetic() {
    let (change, percent) = change_figures(i64::MAX, Some(i64::MIN));
    assert_eq!(change, Some(i64::MAX as i128 - i64::MIN as i128));
    let percent = percent.unwrap();
    assert_eq!(percent.numerator, 100 * (i64::MAX as i128 - i64::MIN as i128));
    assert_eq!(percent.denominator, i64::MIN);
    let (change, percent) = change_figures(5, None);
    assert_eq!(change, None);
    assert!(percent.is_none());
}

#[test]
fn query_addresses() {
    let client = StockClient::new();
    assert_eq!(client.user_agent, "Mozilla/5.0 (compatible; StockBot/1.0)");
    assert_eq!(
        client.validation_url("AAPL"),
        "https://query1.finance.yahoo.com/v8/finance/chart/AAPL"
    );
    assert_eq!(
        client.current_price_url("AAPL"),
        "https://query1.finance.yahoo.com/v8/finance/chart/AAPL?interval=1d&range=2d"
    );
    assert_eq!(
        client.history_url("AAPL", "1mo"),
        "https://query1.finance.yahoo.com/v8/finance/chart/AAPL?interval=1d&range=1mo"
    );
}
