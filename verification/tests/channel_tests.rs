use lightweight_charts_backend::channels::LockFreeChannel;
use std::sync::Arc;

struct MarketData {
    symbol: String,
    time: u64,
    open: f64,
    high: f64,
    low: f64,
    close: f64,
}

#[test]
fn test_lock_free_channel() {
    let mut channel = LockFreeChannel::new(100);
    let data = Arc::new(MarketData {
        symbol: "BTCUSDT".to_string(),
        time: 1234567890,
        open: 50000.0,
        high: 51000.0,
        low: 49000.0,
        close: 50500.0,
    });

    assert!(channel.send(data.clone()).is_ok());
    assert_eq!(channel.depth(), 1);

    let received = channel.try_recv().unwrap();
    assert_eq!(received.symbol, "BTCUSDT");
    assert_eq!(received.time, 1234567890);
    assert_eq!(received.open, 50000.0);
    assert_eq!(received.high, 51000.0);
    assert_eq!(received.low, 49000.0);
    assert_eq!(received.close, 50500.0);
    assert_eq!(channel.depth(), 0);
}

#[test]
fn channel_is_first_in_first_out() {
    let mut channel = LockFreeChannel::new(3);
    assert!(!channel.has_pending());
    assert!(channel.try_recv().is_none());
    channel.send(1u32).unwrap();
    channel.send(2u32).unwrap();
    assert!(channel.has_pending());
    assert_eq!(channel.try_recv(), Some(1));
    channel.send(3u32).unwrap();
    channel.send(4u32).unwrap();
    assert_eq!(channel.try_recv(), Some(2));
    assert_eq!(channel.try_recv(), Some(3));
    assert_eq!(channel.try_recv(), Some(4));
    assert_eq!(channel.try_recv(), None);
    assert!(!channel.has_pending());
    assert_eq!(channel.capacity(), 3);
}

#[test]
fn channel_batch_stops_at_empty_slot_or_limit() {
    let mut channel = LockFreeChannel::new(8);
    for i in 0..5u32 {
        channel.send(i).unwrap();
    }
    assert_eq!(channel.recv_batch(3), vec![0, 1, 2]);
    assert_eq!(channel.recv_batch(10), vec![3, 4]);
    assert_eq!(channel.recv_batch(10), Vec::<u32>::new());
}

#[test]
fn channel_depth_after_wraparound() {
    let mut channel = LockFreeChannel::new(2);
    // positions run over 0..4; after three sends and reads both sit at 3
    for i in 0..3u32 {
        channel.send(i).unwrap();
        assert_eq!(channel.try_recv(), Some(i));
    }
    channel.send(7).unwrap();
    // the write position wrapped to 0 while the read position is at 3
    assert!(channel.has_pending());
    assert_eq!(channel.depth(), 1);
    assert_eq!(channel.try_recv(), Some(7));
}

#[test]
fn depth_counts_the_waiting_item_on_one_slot() {
    let mut channel = LockFreeChannel::new(1);
    channel.send(10u32).unwrap();
    assert_eq!(channel.try_recv(), Some(10));
    channel.send(11).unwrap();
    assert_eq!(channel.depth(), 1);
    assert!(channel.has_pending());
}
