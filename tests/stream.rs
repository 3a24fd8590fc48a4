use instant_dmv::engine::STREAM_CAPACITY;
use instant_dmv::models::OfficeAvailability;
use tokio::sync::mpsc::error::TrySendError;

#[test]
fn full_stream_holds_the_producer_until_a_drain() {
    assert_eq!(STREAM_CAPACITY, 117);
    let (tx, mut rx) = tokio::sync::mpsc::channel::<Vec<OfficeAvailability>>(STREAM_CAPACITY);
    for _ in 0..STREAM_CAPACITY {
        assert!(tx.try_send(Vec::new()).is_ok());
    }
    assert!(matches!(tx.try_send(Vec::new()), Err(TrySendError::Full(_))));
    assert!(rx.blocking_recv().is_some());
    assert!(tx.try_send(Vec::new()).is_ok());
}
