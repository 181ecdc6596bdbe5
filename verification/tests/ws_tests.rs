use lightweight_charts_backend::ws::binance_listener::{
    backoff_secs, backoff_with_jitter, cache_action, calculate_backoff, kline_time_secs,
    should_process_kline, stream_url, tracked_symbols, CacheAction, ReconnectPolicy,
    SequenceTracker,
};
use lightweight_charts_backend::ws::{BreakerState, CircuitBreaker};
use lightweight_charts_backend::ws::handler::{continues_after_send, is_for_client, next_action, SocketAction, SocketEvent};

#[test]
fn test_circuit_breaker_state_transitions() {
    let mut breaker = CircuitBreaker::new(3, 30);
    assert_eq!(breaker.state(), "closed");
    for _ in 0..3 {
        breaker.record_failure();
    }
    assert_eq!(breaker.state(), "open");
    // the timeout has passed: the breaker lets a trial through
    assert!(breaker.can_execute_after(31_000_000_000));
    assert_eq!(breaker.state(), "half_open");
    breaker.record_success();
    assert_eq!(breaker.state(), "closed");
    assert_eq!(breaker.failures(), 0);
}

#[test]
fn open_breaker_refuses_until_timeout() {
    let mut breaker = CircuitBreaker::new(2, 30);
    breaker.record_failure();
    assert_eq!(breaker.current_state(), BreakerState::Closed);
    assert!(breaker.can_execute());
    breaker.record_failure();
    assert_eq!(breaker.current_state(), BreakerState::Open);
    assert!(!breaker.can_execute_after(30_000_000_000));
    assert_eq!(breaker.current_state(), BreakerState::Open);
    // read from the clock: the failure was just now
    assert!(!breaker.can_execute());
    let copy = breaker.clone();
    assert_eq!(copy.state(), "open");
    assert_eq!(copy.failures(), 2);
}

#[test]
fn zero_timeout_breaker_reopens_quickly() {
    let mut breaker = CircuitBreaker::new(1, 0);
    breaker.record_failure();
    assert_eq!(breaker.state(), "open");
    let start = std::time::Instant::now();
    while start.elapsed() < std::time::Duration::from_millis(2) {}
    assert!(breaker.can_execute());
    assert_eq!(breaker.state(), "half_open");
    breaker.record_failure();
    assert_eq!(breaker.state(), "open");
}

#[test]
fn test_exponential_backoff_calculation() {
    let expected_durations = vec![1, 2, 4, 8, 16, 32, 60, 60];
    for (attempt, &expected) in expected_durations.iter().enumerate() {
        let duration = backoff_secs(attempt as u32);
        assert_eq!(duration, expected, "Attempt {} should have duration {}s", attempt, expected);
    }
    assert_eq!(backoff_secs(u32::MAX), 60);
}

#[test]
fn backoff_adds_jitter_below_a_second() {
    assert_eq!(backoff_with_jitter(3, 250), 8_250);
    for attempt in 0..10u32 {
        let ms = calculate_backoff(attempt);
        let base = backoff_secs(attempt) * 1000;
        assert!(ms >= base && ms < base + 1000);
    }
}

#[test]
fn reconnect_policy_counts_and_resets() {
    let mut p = ReconnectPolicy::new();
    assert_eq!(p.current_attempt(), 0);
    let d0 = p.on_connection_lost();
    assert!(d0 < 2_000);
    let d1 = p.on_connection_lost();
    assert!((2_000..3_000).contains(&d1));
    assert_eq!(p.current_attempt(), 2);
    p.on_connected();
    assert_eq!(p.current_attempt(), 0);
}

#[test]
fn test_multiple_symbols_independent() {
    let mut t = SequenceTracker::new();
    assert_eq!(t.next("BTCUSDT"), 1);
    assert_eq!(t.next("BTCUSDT"), 2);
    assert_eq!(t.next("ETHUSDT"), 1);
    assert_eq!(t.next("SOLUSDT"), 1);
    assert_eq!(t.next("BTCUSDT"), 3);
    assert_eq!(t.current("ETHUSDT"), 1);
    assert_eq!(t.current("XRPUSDT"), 0);
}

#[test]
fn stream_url_joins_kline_streams() {
    assert_eq!(
        stream_url(&tracked_symbols()),
        "wss://stream.binance.com:9443/stream?streams=btcusdt@kline_1m/ethusdt@kline_1m/solusdt@kline_1m"
    );
    assert_eq!(stream_url(&vec![]), "wss://stream.binance.com:9443/stream?streams=");
}

#[test]
fn kline_handling_decisions() {
    assert!(should_process_kline(true));
    assert!(!should_process_kline(false));
    assert_eq!(kline_time_secs(1_234_567_890_999), 1_234_567_890);
    assert_eq!(cache_action(Some(60), 60), CacheAction::ReplaceLast);
    assert_eq!(cache_action(Some(60), 120), CacheAction::Append);
    assert_eq!(cache_action(None, 60), CacheAction::Append);
}

#[test]
fn socket_forwards_only_its_symbol() {
    assert!(is_for_client("BTCUSDT", "btcusdt"));
    assert!(!is_for_client("ETHUSDT", "btcusdt"));
    let a = next_action(SocketEvent::Market { symbol: "BtcUsdt".to_string() }, "btcusdt");
    assert!(matches!(a, SocketAction::SendUpdate));
    let a = next_action(SocketEvent::Market { symbol: "ETHUSDT".to_string() }, "btcusdt");
    assert!(matches!(a, SocketAction::Wait));
}

#[test]
fn socket_answers_pings_and_ends_on_close() {
    match next_action(SocketEvent::ClientPing(vec![9, 8]), "btcusdt") {
        SocketAction::SendPong(p) => assert_eq!(p, vec![9, 8]),
        _ => panic!("a ping is answered"),
    }
    match next_action(SocketEvent::KeepAliveTick, "btcusdt") {
        SocketAction::SendPing(p) => assert_eq!(p, vec![1, 2, 3]),
        _ => panic!("the keep-alive sends a ping"),
    }
    assert!(matches!(next_action(SocketEvent::ClientPong, "x"), SocketAction::Wait));
    assert!(matches!(next_action(SocketEvent::ClientOther, "x"), SocketAction::Wait));
    assert!(matches!(next_action(SocketEvent::ClientClose, "x"), SocketAction::Disconnect));
    assert!(matches!(next_action(SocketEvent::ClientError, "x"), SocketAction::Disconnect));
    assert!(matches!(next_action(SocketEvent::ClientGone, "x"), SocketAction::Disconnect));
    assert!(matches!(next_action(SocketEvent::FeedClosed, "x"), SocketAction::Disconnect));
    assert!(!continues_after_send(&SocketAction::SendUpdate, false));
    assert!(continues_after_send(&SocketAction::SendUpdate, true));
    assert!(continues_after_send(&SocketAction::SendPong(vec![]), false));
    assert!(!continues_after_send(&SocketAction::SendPing(vec![1]), false));
    assert!(!continues_after_send(&SocketAction::Disconnect, true));
}
