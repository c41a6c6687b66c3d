use rust_grpc_finance_server::error::{ErrorKind, ServiceError};
use rust_grpc_finance_server::registry::{ClientId, ConnectionRegistry, STALE_AFTER_MS};
use rust_grpc_finance_server::service::{ShutdownMode, StockServiceImpl};
use rust_grpc_finance_server::session::SessionStep;
use rust_grpc_finance_server::shutdown::{IdleMonitor, ShutdownPolicy, ShutdownSignal};
use rust_grpc_finance_server::ticker::{is_known_ticker, ticker_list, validate_ticker};

fn client(n: u16) -> ClientId {
    ClientId { ip: 0x7f00_0001, port: n }
}

#[test]
fn test_get_ticker_list() {
    let service = StockServiceImpl::new();
    let tickers = service.get_ticker_list();
    assert!(!tickers.is_empty());
    assert_eq!(
        tickers,
        vec!["AAPL", "MSFT", "GOOG", "AMZN", "META", "NFLX", "TSLA", "NVDA", "AMD", "INTC"]
    );
}

#[test]
fn test_get_price() {
    let mut service = StockServiceImpl::new();
    let reply = service.get_price("AAPL").unwrap();
    assert_eq!(reply.ticker, "AAPL");
    assert!(reply.price > 0);
}

#[test]
fn test_get_price_invalid_ticker() {
    let mut service = StockServiceImpl::new();
    let result = service.get_price("INVALID");
    assert!(result.is_err());
}

#[test]
fn ticker_validation_folds_case() {
    assert_eq!(validate_ticker("aapl").unwrap(), "AAPL");
    assert_eq!(validate_ticker("MsFt").unwrap(), "MSFT");
    assert!(is_known_ticker(&"AMD".to_string()));
    assert!(!is_known_ticker(&"amd".to_string()));
    assert!(!is_known_ticker(&"".to_string()));
    match validate_ticker("ibm") {
        Err(ServiceError::InvalidTicker { ticker }) => assert_eq!(ticker, "IBM"),
        other => panic!("unexpected {:?}", other),
    }
}

#[test]
fn every_handler_rejects_unknown_ticker() {
    let mut service = StockServiceImpl::new();
    for bad in ["", "INVALID", "AAPL ", "goog1"] {
        assert_eq!(service.get_price(bad).unwrap_err().kind(), ErrorKind::InvalidArgument);
        assert_eq!(
            service.get_multiple_prices(bad, 3).unwrap_err().kind(),
            ErrorKind::InvalidArgument
        );
        assert_eq!(service.get_stats(bad).unwrap_err().kind(), ErrorKind::InvalidArgument);
        assert!(matches!(
            service.stream_prices(bad, client(1)),
            Err(ServiceError::InvalidTicker { .. })
        ));
    }
    for good in ticker_list() {
        assert!(service.get_price(&good.to_lowercase()).is_ok());
        assert!(service.get_multiple_prices(&good, 1).is_ok());
        assert!(service.get_stats(&good).is_ok());
        assert!(service.stream_prices(&good, client(1)).is_ok());
    }
}

#[test]
fn multiple_prices_rejects_non_positive_count() {
    let mut service = StockServiceImpl::new();
    for count in [0, -1, i32::MIN] {
        match service.get_multiple_prices("AAPL", count) {
            Err(e) => {
                assert_eq!(e.kind(), ErrorKind::InvalidArgument);
                assert!(matches!(e, ServiceError::NonPositiveCount { count: c } if c == count));
            }
            Ok(_) => panic!("count {} accepted", count),
        }
    }
    assert!(matches!(service.get_stats("AAPL"), Err(ServiceError::NoHistory { .. })));
}

#[test]
fn multiple_prices_returns_count_prices_in_range() {
    let mut service = StockServiceImpl::new();
    let reply = service.get_multiple_prices("tsla", 5).unwrap();
    assert_eq!(reply.ticker, "TSLA");
    assert_eq!(reply.prices.len(), 5);
    assert!(reply.prices.iter().all(|p| (1000..100000).contains(p)));
    assert_eq!(reply.formatted_message, "Generated 5 prices for TSLA");
}

#[test]
fn history_grows_by_one_and_by_count() {
    let mut service = StockServiceImpl::new();
    let first = service.get_price("META").unwrap();
    assert_eq!(service.get_stats("META").unwrap().prices, vec![first.price]);
    let batch = service.get_multiple_prices("meta", 3).unwrap();
    let stats = service.get_stats("META").unwrap();
    let mut expected = vec![first.price];
    expected.extend(batch.prices.iter().copied());
    assert_eq!(stats.prices, expected);
    assert_eq!(stats.summary.count, 4);
    assert_eq!(stats.summary.sum, expected.iter().map(|p| *p as u128).sum::<u128>());
}

#[test]
fn get_price_message_matches_price() {
    let mut service = StockServiceImpl::new();
    let reply = service.get_price("nflx").unwrap();
    let expected = format!(
        "Current price for NFLX: ${}.{:02}\n",
        reply.price / 100,
        reply.price % 100
    );
    assert_eq!(reply.formatted_message, expected);
}

#[test]
fn stats_without_history_is_not_found() {
    let service = StockServiceImpl::new();
    let err = service.get_stats("goog").unwrap_err();
    assert_eq!(err.kind(), ErrorKind::NotFound);
    assert!(matches!(err, ServiceError::NoHistory { ticker } if ticker == "GOOG"));
}

#[test]
fn registering_twice_counts_once() {
    let mut registry = ConnectionRegistry::new(STALE_AFTER_MS);
    assert!(registry.register(client(1), 0));
    assert_eq!(registry.total_connections(), 1);
    assert_eq!(registry.active_count(0), 1);
    assert!(!registry.register(client(1), 0));
    assert_eq!(registry.total_connections(), 1);
    assert_eq!(registry.active_count(0), 1);
}

#[test]
fn unregister_keeps_total() {
    let mut registry = ConnectionRegistry::new(STALE_AFTER_MS);
    registry.register(client(1), 0);
    registry.register(client(2), 0);
    assert!(registry.unregister(client(1)));
    assert!(!registry.unregister(client(1)));
    assert!(!registry.is_registered(client(1)));
    assert!(registry.is_registered(client(2)));
    assert_eq!(registry.active_count(0), 1);
    assert_eq!(registry.total_connections(), 2);
}

#[test]
fn last_departure_after_two_connections_shuts_down_once() {
    let mut service = StockServiceImpl::new();
    service.register_client(client(1), 0);
    service.register_client(client(2), 0);
    assert!(!service.unregister_client(client(1)));
    assert!(!service.shutdown_requested());
    assert!(service.unregister_client(client(2)));
    assert!(service.shutdown_requested());
    service.register_client(client(3), 0);
    assert!(!service.unregister_client(client(3)));
    assert!(service.shutdown_requested());
}

#[test]
fn single_connection_never_shuts_down() {
    let mut service = StockServiceImpl::new();
    service.register_client(client(1), 0);
    assert!(!service.unregister_client(client(1)));
    assert!(!service.shutdown_requested());
    assert!(!service.unregister_client(client(9)));
}

#[test]
fn shutdown_signal_raises_once() {
    let mut signal = ShutdownSignal::new();
    assert!(!signal.raised());
    assert!(signal.raise());
    assert!(!signal.raise());
    assert!(signal.raised());
}

#[test]
fn idle_monitor_fires_after_two_idle_samples() {
    let mut monitor = IdleMonitor::new(ShutdownPolicy::standard());
    assert!(!monitor.sample(0, 2));
    assert!(monitor.sample(0, 2));
    assert!(monitor.has_fired());
    assert!(!monitor.sample(0, 2));
}

#[test]
fn idle_monitor_busy_sample_resets() {
    let mut monitor = IdleMonitor::new(ShutdownPolicy::standard());
    assert!(!monitor.sample(0, 3));
    assert!(!monitor.sample(1, 3));
    assert!(!monitor.sample(0, 3));
    assert!(!monitor.has_fired());
    assert!(monitor.sample(0, 3));
}

#[test]
fn idle_monitor_needs_enough_connections() {
    let mut monitor = IdleMonitor::new(ShutdownPolicy::standard());
    for _ in 0..5 {
        assert!(!monitor.sample(0, 1));
    }
    assert!(!monitor.has_fired());
}

#[test]
fn polling_mode_shuts_down_after_idle_samples() {
    let mut service =
        StockServiceImpl::with_policy(
            ShutdownPolicy::standard(),
            ShutdownMode::AfterIdleSamples,
            STALE_AFTER_MS,
        );
    service.register_client(client(1), 0);
    service.register_client(client(2), 0);
    assert!(!service.unregister_client(client(1)));
    assert!(!service.unregister_client(client(2)));
    assert!(!service.poll_idle(0));
    assert!(service.poll_idle(0));
    assert!(service.shutdown_requested());
    assert!(!service.poll_idle(0));
}

#[test]
fn event_mode_ignores_polling() {
    let mut service = StockServiceImpl::new();
    assert!(!service.poll_idle(0));
    assert!(!service.poll_idle(0));
    assert!(!service.shutdown_requested());
}

#[test]
fn stream_session_records_in_order_and_unregisters_on_close() {
    let mut service = StockServiceImpl::new();
    service.register_client(client(7), 0);
    let mut session = service.stream_prices("amzn", client(7)).unwrap();
    assert_eq!(session.ticker(), "AMZN");
    assert_eq!(session.client(), client(7));
    let mut sent = Vec::new();
    for _ in 0..3 {
        let update = session.next_update(&mut service);
        assert_eq!(update.ticker, "AMZN");
        assert!((1000..100000).contains(&update.price));
        sent.push(update.price);
        assert_eq!(session.after_send(true, 0, &mut service), SessionStep::Continue);
        assert!(session.open());
    }
    assert_eq!(service.get_stats("AMZN").unwrap().prices, sent);
    let _ = session.next_update(&mut service);
    assert_eq!(
        session.after_send(false, 0, &mut service),
        SessionStep::Stop { shutdown: false }
    );
    assert!(!session.open());
    assert!(!service.is_client_registered(client(7)));
}

#[test]
fn closing_last_stream_can_shut_down() {
    let mut service = StockServiceImpl::new();
    service.register_client(client(1), 0);
    service.register_client(client(2), 0);
    service.unregister_client(client(1));
    let mut session = service.stream_prices("INTC", client(2)).unwrap();
    let _ = session.next_update(&mut service);
    assert_eq!(session.after_send(false, 0, &mut service), SessionStep::Stop { shutdown: true });
    assert!(service.shutdown_requested());
    assert_eq!(service.active_clients(), 0);
    assert_eq!(service.total_connections(), 2);
}

#[test]
fn touch_refreshes_and_never_inserts() {
    let mut registry = ConnectionRegistry::new(1000);
    registry.touch(client(1), 50);
    assert!(!registry.is_registered(client(1)));
    assert_eq!(registry.total_connections(), 0);
    registry.register(client(1), 0);
    registry.touch(client(1), 900);
    assert_eq!(registry.active_count(1900), 1);
    assert_eq!(registry.active_count(1901), 0);
    assert_eq!(registry.total_connections(), 1);
}

#[test]
fn sweep_drops_only_stale_clients() {
    let mut registry = ConnectionRegistry::new(STALE_AFTER_MS);
    registry.register(client(1), 0);
    registry.register(client(2), 10_000);
    registry.register(client(3), 20_000);
    assert_eq!(registry.active_count(30_000), 3);
    assert_eq!(registry.active_count(30_001), 2);
    assert!(!registry.is_registered(client(1)));
    assert!(registry.is_registered(client(2)));
    assert!(registry.is_registered(client(3)));
    assert_eq!(registry.active_count(50_000), 1);
    assert_eq!(registry.live_count(), 1);
    assert_eq!(registry.total_connections(), 3);
}

#[test]
fn sweep_ignores_clock_going_back() {
    let mut registry = ConnectionRegistry::new(10);
    registry.register(client(1), 500);
    assert_eq!(registry.active_count(0), 1);
    assert_eq!(registry.active_count(u64::MAX), 0);
}

#[test]
fn observe_call_registers_then_refreshes() {
    let mut service = StockServiceImpl::new();
    assert!(service.observe_call(client(4), 0));
    assert!(!service.observe_call(client(4), 5));
    assert_eq!(service.total_connections(), 1);
    assert_eq!(service.active_clients(), 1);
}

#[test]
fn polling_mode_treats_stale_clients_as_gone() {
    let mut service = StockServiceImpl::with_policy(
        ShutdownPolicy::standard(),
        ShutdownMode::AfterIdleSamples,
        STALE_AFTER_MS,
    );
    service.observe_call(client(1), 0);
    service.observe_call(client(2), 0);
    assert!(!service.poll_idle(5_000));
    service.observe_call(client(2), 20_000);
    assert!(!service.poll_idle(40_000));
    assert_eq!(service.active_clients(), 1);
    assert!(!service.poll_idle(55_000));
    assert!(service.poll_idle(60_000));
    assert!(service.shutdown_requested());
}

#[test]
fn delivered_updates_keep_stream_client_alive() {
    let mut service = StockServiceImpl::with_policy(
        ShutdownPolicy::standard(),
        ShutdownMode::AfterIdleSamples,
        STALE_AFTER_MS,
    );
    service.observe_call(client(1), 0);
    service.observe_call(client(2), 0);
    let mut session = service.stream_prices("AAPL", client(2)).unwrap();
    let _ = session.next_update(&mut service);
    assert_eq!(session.after_send(true, 25_000, &mut service), SessionStep::Continue);
    assert!(!service.poll_idle(40_000));
    assert!(service.is_client_registered(client(2)));
    assert!(!service.is_client_registered(client(1)));
}
