use std::sync::atomic::{AtomicUsize, Ordering};
use std::sync::Arc;
use std::task::{Wake, Waker};
use wifi_bridge::device::{recv_cb, send_data_if_needed, WifiDevice};
use wifi_bridge::wake::WakeCell;

struct CountingWaker {
    count: AtomicUsize,
}

impl CountingWaker {
    fn new() -> Arc<CountingWaker> {
        Arc::new(CountingWaker { count: AtomicUsize::new(0) })
    }

    fn wakes(&self) -> usize {
        self.count.load(Ordering::SeqCst)
    }
}

impl Wake for CountingWaker {
    fn wake(self: Arc<Self>) {
        self.count.fetch_add(1, Ordering::SeqCst);
    }

    fn wake_by_ref(self: &Arc<Self>) {
        self.count.fetch_add(1, Ordering::SeqCst);
    }
}

#[test]
fn notify_on_empty_cell_wakes_nobody() {
    let cell = WakeCell::new();
    assert!(!cell.notify());
}

#[test]
fn notify_wakes_registered_waker_once() {
    let counter = CountingWaker::new();
    let mut cell = WakeCell::new();
    cell.register(Waker::from(counter.clone()));
    assert!(cell.notify());
    assert_eq!(counter.wakes(), 1);
}

#[test]
fn second_registration_cancels_first_claim() {
    let first = CountingWaker::new();
    let second = CountingWaker::new();
    let mut cell = WakeCell::new();
    cell.register(Waker::from(first.clone()));
    cell.register(Waker::from(second.clone()));
    assert!(cell.notify());
    // The replaced waker receives no notification for this event.
    assert_eq!(first.wakes(), 0);
    assert_eq!(second.wakes(), 1);
}

#[test]
fn rx_enqueue_triggers_exactly_one_wake() {
    let counter = CountingWaker::new();
    let mut dev = WifiDevice::new();
    critical_section::with(|cs| {
        assert!(dev.poll_receive(cs, Waker::from(counter.clone())).is_none());
        assert_eq!(recv_cb(&mut dev, cs, &[1, 2, 3]), 0);
    });
    assert_eq!(counter.wakes(), 1);
}

#[test]
fn rejected_rx_frame_wakes_nobody() {
    let counter = CountingWaker::new();
    let mut dev = WifiDevice::new();
    critical_section::with(|cs| {
        assert_eq!(recv_cb(&mut dev, cs, &[1]), 0);
        assert_eq!(recv_cb(&mut dev, cs, &[2]), 0);
        assert_eq!(recv_cb(&mut dev, cs, &[3]), 0);
        dev.poll_transmit(cs, Waker::from(counter.clone()));
        assert_eq!(recv_cb(&mut dev, cs, &[4]), 1);
    });
    assert_eq!(counter.wakes(), 0);
}

#[test]
fn tx_drain_wakes_registered_waker() {
    let counter = CountingWaker::new();
    let mut dev = WifiDevice::new();
    critical_section::with(|cs| {
        assert!(dev.transmit().unwrap().consume(&mut dev, cs, &[9]));
        let tok = dev.poll_transmit(cs, Waker::from(counter.clone()));
        assert!(tok.is_some());
    });
    let frames = critical_section::with(|cs| send_data_if_needed(&mut dev, cs));
    assert_eq!(frames.len(), 1);
    // Freed transmit capacity is signalled exactly once.
    assert_eq!(counter.wakes(), 1);
}

#[test]
fn poll_receive_needs_frame_and_tx_room() {
    let counter = CountingWaker::new();
    let mut dev = WifiDevice::new();
    critical_section::with(|cs| {
        assert!(dev.poll_receive(cs, Waker::from(counter.clone())).is_none());
        assert_eq!(recv_cb(&mut dev, cs, &[1]), 0);
        assert!(dev.poll_receive(cs, Waker::from(counter.clone())).is_some());
        // Fill the transmit queue: the pair is then refused.
        assert!(dev.transmit().unwrap().consume(&mut dev, cs, &[1]));
        assert!(dev.transmit().unwrap().consume(&mut dev, cs, &[2]));
        assert!(dev.transmit().unwrap().consume(&mut dev, cs, &[3]));
        assert!(dev.poll_receive(cs, Waker::from(counter.clone())).is_none());
        assert!(dev.poll_transmit(cs, Waker::from(counter.clone())).is_none());
    });
}
