use rust_grpc_finance_server::random::{generate_random_ticker_and_price, random_price};
use rust_grpc_finance_server::text::{format_batch, format_price};
use rust_grpc_finance_server::ticker::ticker_list;
use rust_grpc_finance_server::tracker::{summarize, PriceSummary, PriceTracker, Ratio};

fn dollars_std_deviation(s: &PriceSummary) -> f64 {
    let n = s.count as f64;
    let variance = (n * s.sum_of_squares as f64 - (s.sum as f64) * (s.sum as f64)) / (n * n);
    variance.sqrt() / 100.0
}

#[test]
fn test_price_tracker() {
    let mut tracker = PriceTracker::new();
    let ticker = "AAPL";

    tracker.add_price(ticker, 15000);
    tracker.add_price(ticker, 16000);
    tracker.add_price(ticker, 17000);

    assert_eq!(tracker.get_prices(ticker), Some(&vec![15000, 16000, 17000]));

    let avg = tracker.average(ticker).unwrap();
    assert_eq!(avg.numer as f64 / avg.denom as f64 / 100.0, 160.0);

    let std_dev = dollars_std_deviation(&tracker.summary(ticker).unwrap());
    assert!((std_dev - 8.16496580927726).abs() < 0.000001);
}

#[test]
fn test_format_price() {
    assert_eq!(format_price("AAPL", 15050), "Current price for AAPL: $150.50\n");
}

#[test]
fn test_random_ticker_and_price() {
    let (ticker, price) = generate_random_ticker_and_price();
    assert!(ticker_list().contains(&ticker));
    assert!(price >= 1000 && price < 100000);
}

#[test]
fn tracker_unknown_ticker_has_no_history() {
    let mut tracker = PriceTracker::new();
    assert_eq!(tracker.get_prices("AAPL"), None);
    assert_eq!(tracker.average("AAPL"), None);
    assert_eq!(tracker.summary("AAPL"), None);
    tracker.add_price("MSFT", 1234);
    assert_eq!(tracker.get_prices("AAPL"), None);
    assert_eq!(tracker.get_prices("MSFT"), Some(&vec![1234]));
}

#[test]
fn tracker_keeps_tickers_apart_and_in_order() {
    let mut tracker = PriceTracker::new();
    tracker.add_price("AAPL", 3);
    tracker.add_price("MSFT", 7);
    tracker.add_price("AAPL", 1);
    tracker.add_price("AAPL", 2);
    assert_eq!(tracker.get_prices("AAPL"), Some(&vec![3, 1, 2]));
    assert_eq!(tracker.get_prices("MSFT"), Some(&vec![7]));
}

#[test]
fn summary_exact_moments() {
    let s = summarize(&vec![15000, 16000, 17000]);
    assert_eq!(s, PriceSummary { count: 3, sum: 48000, sum_of_squares: 770_000_000 });
    assert_eq!(summarize(&vec![]), PriceSummary { count: 0, sum: 0, sum_of_squares: 0 });
}

#[test]
fn summary_largest_prices_do_not_overflow() {
    let s = summarize(&vec![u32::MAX, u32::MAX]);
    assert_eq!(s.sum, 2 * u32::MAX as u128);
    assert_eq!(s.sum_of_squares, 2 * (u32::MAX as u128) * (u32::MAX as u128));
}

#[test]
fn average_is_exact_fraction() {
    let mut tracker = PriceTracker::new();
    tracker.add_price("NVDA", 1);
    tracker.add_price("NVDA", 2);
    assert_eq!(tracker.average("NVDA"), Some(Ratio { numer: 3, denom: 2 }));
}

#[test]
fn single_price_has_zero_deviation() {
    let mut tracker = PriceTracker::new();
    tracker.add_price("AMD", 4242);
    assert_eq!(dollars_std_deviation(&tracker.summary("AMD").unwrap()), 0.0);
}

#[test]
fn format_price_edge_amounts() {
    assert_eq!(format_price("AMD", 0), "Current price for AMD: $0.00\n");
    assert_eq!(format_price("AMD", 1005), "Current price for AMD: $10.05\n");
    assert_eq!(format_price("INTC", 99999), "Current price for INTC: $999.99\n");
    assert_eq!(
        format_price("X", u32::MAX),
        "Current price for X: $42949672.95\n"
    );
}

#[test]
fn format_batch_message() {
    assert_eq!(format_batch("AAPL", 3), "Generated 3 prices for AAPL");
    assert_eq!(format_batch("MSFT", 120), "Generated 120 prices for MSFT");
}

#[test]
fn random_price_in_range() {
    for _ in 0..200 {
        let p = random_price();
        assert!((1000..100000).contains(&p));
    }
}
