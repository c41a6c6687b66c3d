use rust_grpc_finance_server::client::{interpret, parse_command, should_retry, Command};

fn ticker_of(c: &Command) -> Option<&str> {
    match c {
        Command::Stats { ticker } | Command::Price { ticker } | Command::Prices { ticker, .. } => {
            Some(ticker.as_str())
        }
        _ => None,
    }
}

#[test]
fn parse_simple_commands() {
    assert!(matches!(parse_command("list\n"), Command::List));
    assert!(matches!(parse_command("  quit "), Command::Quit));
    assert!(matches!(parse_command("exit"), Command::Quit));
    assert!(matches!(parse_command("   \n"), Command::Empty));
    assert!(matches!(parse_command(""), Command::Empty));
}

#[test]
fn parse_stats_keeps_rest_of_line() {
    let c = parse_command("stats AAPL\n");
    assert!(matches!(c, Command::Stats { .. }));
    assert_eq!(ticker_of(&c), Some("AAPL"));
    let c = parse_command("stats  msft");
    assert_eq!(ticker_of(&c), Some(" msft"));
}

#[test]
fn parse_price_requests() {
    let c = parse_command("AAPL");
    assert!(matches!(c, Command::Price { .. }));
    assert_eq!(ticker_of(&c), Some("AAPL"));
    let c = parse_command("tsla   12 ");
    assert!(matches!(c, Command::Prices { count: 12, .. }));
    assert_eq!(ticker_of(&c), Some("tsla"));
    assert!(matches!(parse_command("AAPL -3"), Command::Prices { count: -3, .. }));
    assert!(matches!(parse_command("AAPL +7"), Command::Prices { count: 7, .. }));
    assert!(matches!(parse_command("AAPL many"), Command::BadCount));
    assert!(matches!(parse_command("AAPL 99999999999"), Command::BadCount));
    assert!(matches!(parse_command("AAPL 1 2"), Command::Unrecognized));
}

#[test]
fn interpret_uses_given_words() {
    assert!(matches!(interpret("list", &vec!["list"]), Command::List));
    assert!(matches!(interpret("x 5", &vec!["x", "5"]), Command::Prices { count: 5, .. }));
}

#[test]
fn retry_limit() {
    assert!(should_retry(0));
    assert!(should_retry(4));
    assert!(!should_retry(5));
}
