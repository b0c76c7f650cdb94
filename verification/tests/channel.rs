use cxx_async::channel::resolution;
use cxx_async::outcome::{
    RECV_RESULT_CANCELLED, RECV_RESULT_ERROR, RECV_RESULT_PENDING, RECV_RESULT_READY,
};
use cxx_async::{
    channel, CoroutineCall, CxxCoroutineAddress, Received, RustOneshotChannelF64,
};
use std::sync::atomic::{AtomicUsize, Ordering};
use std::sync::{Arc, Mutex};
use std::task::{Wake, Waker};

/// Counts what the bridge asks of one coroutine frame.
struct Frame {
    resumed: AtomicUsize,
    destroyed: AtomicUsize,
}

impl Frame {
    fn counts(&self) -> (usize, usize) {
        (self.resumed.load(Ordering::SeqCst), self.destroyed.load(Ordering::SeqCst))
    }
}

/// A wake object over the library's handle, as an embedding builds it.
struct CoroutineWaker {
    handle: Mutex<CxxCoroutineAddress>,
    frame: Arc<Frame>,
}

impl CoroutineWaker {
    fn perform(&self, call: Option<CoroutineCall>) {
        match call {
            Some(CoroutineCall::Resume(_)) => self.frame.resumed.fetch_add(1, Ordering::SeqCst),
            Some(CoroutineCall::Destroy(_)) => self.frame.destroyed.fetch_add(1, Ordering::SeqCst),
            None => 0,
        };
    }
}

impl Wake for CoroutineWaker {
    fn wake(self: Arc<Self>) {
        self.wake_by_ref();
    }

    fn wake_by_ref(self: &Arc<Self>) {
        let call = self.handle.lock().unwrap().wake();
        self.perform(call);
    }
}

impl Drop for CoroutineWaker {
    fn drop(&mut self) {
        let call = self.handle.lock().unwrap().release();
        self.perform(call);
    }
}

fn suspended_at(address: usize) -> (Waker, Arc<Frame>) {
    let frame = Arc::new(Frame { resumed: AtomicUsize::new(0), destroyed: AtomicUsize::new(0) });
    let waker = CoroutineWaker {
        handle: Mutex::new(CxxCoroutineAddress::new(address)),
        frame: frame.clone(),
    };
    (Waker::from(Arc::new(waker)), frame)
}

#[test]
fn fresh_channel_is_armed_and_unspent() {
    let halves = channel::<u32>();
    assert!(halves.sender.is_armed());
    assert!(!halves.receiver.is_spent());
}

#[test]
fn float_round_trip_is_bit_identical() {
    for bits in [0x3ff8_0000_0000_0000u64, 0x8000_0000_0000_0000, 0x7ff8_0000_dead_beef, 1] {
        let value = f64::from_bits(bits);
        let mut halves = channel::<f64>();
        assert!(halves.sender.send(Some(value), "").is_ok());
        match halves.receiver.try_receive() {
            Received::Ready(seen) => assert_eq!(seen.to_bits(), bits),
            other => panic!("expected a value, got {:?}", other),
        }
    }
}

#[test]
fn float_channel_carries_bit_patterns() {
    let mut halves = RustOneshotChannelF64::new();
    assert!(halves.sender.is_armed());
    assert!(!halves.receiver.is_spent());
    assert!(halves.sender.send(Some(32768.0f64.to_bits()), "").is_ok());
    match halves.receiver.try_receive() {
        Received::Ready(bits) => assert_eq!(f64::from_bits(bits), 32768.0),
        other => panic!("expected a value, got {:?}", other),
    }
}

#[test]
fn text_round_trip_is_byte_identical() {
    let text = String::from("ping \u{0}\u{fffd} grüße, 世界\n");
    let mut halves = channel::<String>();
    assert!(halves.sender.send(Some(text.clone()), "unused").is_ok());
    match halves.receiver.try_receive() {
        Received::Ready(seen) => assert_eq!(seen.as_bytes(), text.as_bytes()),
        other => panic!("expected a value, got {:?}", other),
    }
}

#[test]
fn unresolved_channel_stays_pending_then_yields_the_value_once() {
    let mut halves = channel::<u32>();
    for _ in 0..10 {
        assert!(matches!(halves.receiver.try_receive(), Received::Pending));
        assert!(!halves.receiver.is_spent());
    }
    assert!(halves.sender.send(Some(7), "").is_ok());
    assert!(!halves.sender.is_armed());
    assert!(matches!(halves.receiver.try_receive(), Received::Ready(7)));
    assert!(halves.receiver.is_spent());
}

#[test]
fn send_without_a_value_yields_the_failure() {
    let mut halves = channel::<u32>();
    assert!(halves.sender.send(None, "kapow").is_ok());
    match halves.receiver.try_receive() {
        Received::Errored(exception) => assert_eq!(exception.what(), "kapow"),
        other => panic!("expected a failure, got {:?}", other),
    }
    assert!(halves.receiver.is_spent());
}

#[test]
fn dropped_sender_yields_cancelled() {
    let halves = channel::<u32>();
    let mut receiver = halves.receiver;
    assert!(matches!(receiver.try_receive(), Received::Pending));
    drop(halves.sender);
    assert!(matches!(receiver.try_receive(), Received::Cancelled));
    assert!(receiver.is_spent());
}

#[test]
fn send_to_a_dropped_receiver_hands_the_outcome_back() {
    let halves = channel::<u32>();
    let mut sender = halves.sender;
    drop(halves.receiver);
    match sender.send(Some(7), "unused") {
        Err(Ok(value)) => assert_eq!(value, 7),
        other => panic!("expected the value back, got {:?}", other),
    }
    assert!(!sender.is_armed());

    let halves = channel::<u32>();
    let mut sender = halves.sender;
    drop(halves.receiver);
    match sender.send(None, "kapow") {
        Err(Err(exception)) => assert_eq!(exception.what(), "kapow"),
        other => panic!("expected the failure back, got {:?}", other),
    }
}

#[test]
fn resolve_sends_a_finished_outcome() {
    let mut halves = channel::<String>();
    assert!(halves.sender.resolve(Ok(String::from("done"))).is_ok());
    assert!(!halves.sender.is_armed());
    match halves.receiver.try_receive() {
        Received::Ready(seen) => assert_eq!(seen, "done"),
        other => panic!("expected a value, got {:?}", other),
    }
}

#[test]
fn resolution_prefers_the_value() {
    assert!(matches!(resolution(Some(3u8), "ignored"), Ok(3)));
    match resolution::<u8>(None, "kapow") {
        Err(exception) => assert_eq!(exception.what(), "kapow"),
        Ok(value) => panic!("expected a failure, got {}", value),
    }
}

#[test]
fn receive_without_a_waker_is_try_receive() {
    let mut halves = channel::<u32>();
    assert!(matches!(halves.receiver.receive_or_suspend(None), Received::Pending));
    assert!(halves.sender.send(Some(1), "").is_ok());
    assert!(matches!(halves.receiver.receive_or_suspend(None), Received::Ready(1)));
}

#[test]
fn recv_reports_in_the_boundary_convention() {
    let mut halves = channel::<u32>();
    let mut slot = 0u32;
    let mut error = String::new();
    assert_eq!(halves.receiver.recv(&mut slot, &mut error, None), RECV_RESULT_PENDING);
    assert_eq!((slot, error.as_str()), (0, ""));
    assert!(halves.sender.send(Some(41), "").is_ok());
    assert_eq!(halves.receiver.recv(&mut slot, &mut error, None), RECV_RESULT_READY);
    assert_eq!((slot, error.as_str()), (41, ""));
    assert!(halves.receiver.is_spent());

    let mut halves = channel::<u32>();
    assert!(halves.sender.send(None, "kapow").is_ok());
    assert_eq!(halves.receiver.recv(&mut slot, &mut error, None), RECV_RESULT_ERROR);
    assert_eq!((slot, error.as_str()), (41, "kapow"));

    let halves = channel::<u32>();
    let mut receiver = halves.receiver;
    drop(halves.sender);
    let mut error = String::new();
    assert_eq!(receiver.recv(&mut slot, &mut error, None), RECV_RESULT_CANCELLED);
    assert_eq!((slot, error.as_str()), (41, "Cancelled (sender dropped)"));
}

#[test]
fn registered_handle_is_resumed_once_by_send() {
    let mut halves = channel::<u32>();
    let (waker, frame) = suspended_at(0x5000);
    assert!(matches!(halves.receiver.receive_or_suspend(Some(&waker)), Received::Pending));
    drop(waker);
    assert_eq!(frame.counts(), (0, 0));
    assert!(halves.sender.send(Some(5), "").is_ok());
    assert_eq!(frame.counts(), (1, 0));
    assert!(matches!(halves.receiver.try_receive(), Received::Ready(5)));
    drop(halves);
    assert_eq!(frame.counts(), (1, 0));
}

#[test]
fn registered_handle_is_resumed_once_by_a_failure() {
    let mut halves = channel::<u32>();
    let (waker, frame) = suspended_at(0x5000);
    let mut slot = 0u32;
    let mut error = String::new();
    assert_eq!(halves.receiver.recv(&mut slot, &mut error, Some(&waker)), RECV_RESULT_PENDING);
    drop(waker);
    assert!(halves.sender.send(None, "kapow").is_ok());
    assert_eq!(frame.counts(), (1, 0));
    assert_eq!(halves.receiver.recv(&mut slot, &mut error, None), RECV_RESULT_ERROR);
    assert_eq!(error, "kapow");
    drop(halves);
    assert_eq!(frame.counts(), (1, 0));
}

#[test]
fn registered_handle_is_resumed_when_the_sender_goes_away() {
    let halves = channel::<u32>();
    let mut receiver = halves.receiver;
    let (waker, frame) = suspended_at(0x5000);
    assert!(matches!(receiver.receive_or_suspend(Some(&waker)), Received::Pending));
    drop(waker);
    drop(halves.sender);
    assert_eq!(frame.counts(), (1, 0));
    assert!(matches!(receiver.try_receive(), Received::Cancelled));
    drop(receiver);
    assert_eq!(frame.counts(), (1, 0));
}

#[test]
fn abandoned_suspension_is_destroyed_once_and_never_resumed() {
    let halves = channel::<u32>();
    let mut receiver = halves.receiver;
    let mut sender = halves.sender;
    let (waker, frame) = suspended_at(0x6000);
    assert!(matches!(receiver.receive_or_suspend(Some(&waker)), Received::Pending));
    drop(waker);
    assert_eq!(frame.counts(), (0, 0));
    drop(receiver);
    assert_eq!(frame.counts(), (0, 1));
    assert!(sender.send(Some(5), "").is_err());
    drop(sender);
    assert_eq!(frame.counts(), (0, 1));
}

#[test]
fn handle_for_a_resolved_channel_is_destroyed_unused() {
    let mut halves = channel::<u32>();
    assert!(halves.sender.send(Some(5), "").is_ok());
    let (waker, frame) = suspended_at(0x7000);
    assert!(matches!(halves.receiver.receive_or_suspend(Some(&waker)), Received::Ready(5)));
    drop(waker);
    assert_eq!(frame.counts(), (0, 1));
}

#[test]
fn recv_tells_a_dropped_sender_from_a_reported_failure() {
    let mut slot = 7u32;

    let mut failing = channel::<u32>();
    assert!(failing.sender.send(None, "Cancelled (sender dropped)").is_ok());
    let mut failure_text = String::new();
    let failure_code = failing.receiver.recv(&mut slot, &mut failure_text, None);

    let dropped = channel::<u32>();
    let mut receiver = dropped.receiver;
    drop(dropped.sender);
    let mut cancel_text = String::new();
    let cancel_code = receiver.recv(&mut slot, &mut cancel_text, None);

    assert_eq!(failure_code, RECV_RESULT_ERROR);
    assert_eq!(cancel_code, RECV_RESULT_CANCELLED);
    assert_eq!(failure_text, cancel_text);
    assert_eq!(slot, 7);
    assert!(failing.receiver.is_spent() && receiver.is_spent());
}
