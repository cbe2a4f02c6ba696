use err_sinks::close_error_sink::Error as CloseError;
use err_sinks::poll_complete_error_sink::Error as PollCompleteError;
use err_sinks::protocol::{AcceptOutcome, PollOutcome};
use err_sinks::start_send_error_sink::Error as StartSendError;
use err_sinks::{CloseErrSink, PollCompleteErrSink, StartSendErrSink};

#[test]
fn start_send_err_sink_rejects_item_and_hands_it_back() {
    let mut sink: StartSendErrSink<i32> = StartSendErrSink::default();
    let r = sink.start_send(42);
    assert_eq!(r, Err(StartSendError(42)));
    let StartSendError(item) = r.unwrap_err();
    assert_eq!(item, 42);
    assert_eq!(sink.close(), Ok(PollOutcome::Ready));
}

#[test]
fn start_send_err_sink_returns_ownership_of_the_item() {
    let mut sink: StartSendErrSink<String> = StartSendErrSink::default();
    let r = sink.start_send(String::from("payload"));
    let StartSendError(item) = r.unwrap_err();
    assert_eq!(item, "payload");
}

#[test]
fn start_send_err_sink_close_always_succeeds() {
    let mut sink: StartSendErrSink<i32> = StartSendErrSink::default();
    assert_eq!(sink.close(), Ok(PollOutcome::Ready));
    let _ = sink.start_send(7);
    assert_eq!(sink.close(), Ok(PollOutcome::Ready));
    assert_eq!(sink.close(), Ok(PollOutcome::Ready));
}

#[test]
fn start_send_err_sink_poll_complete_before_any_send() {
    let mut sink: StartSendErrSink<i32> = StartSendErrSink::default();
    assert_eq!(sink.poll_complete(), Ok(PollOutcome::Ready));
}

#[test]
fn poll_complete_err_sink_scenario() {
    let mut sink: PollCompleteErrSink<&str> = PollCompleteErrSink::default();
    assert_eq!(sink.start_send("x"), Ok(AcceptOutcome::Accepted));
    assert_eq!(sink.poll_complete(), Err(PollCompleteError()));
    assert_eq!(sink.close(), Ok(PollOutcome::Ready));
}

#[test]
fn poll_complete_err_sink_flush_always_fails() {
    let mut sink: PollCompleteErrSink<u8> = PollCompleteErrSink::default();
    let r1 = sink.poll_complete();
    let r2 = sink.poll_complete();
    assert_eq!(r1, Err(PollCompleteError()));
    assert_eq!(r1, r2);
}

#[test]
fn poll_complete_err_sink_close_is_idempotent() {
    let mut sink: PollCompleteErrSink<u8> = PollCompleteErrSink::default();
    let r1 = sink.close();
    let r2 = sink.close();
    let r3 = sink.close();
    assert_eq!(r1, Ok(PollOutcome::Ready));
    assert_eq!(r1, r2);
    assert_eq!(r2, r3);
}

#[test]
fn close_err_sink_scenario() {
    let mut sink: CloseErrSink<i32> = CloseErrSink::default();
    assert_eq!(sink.start_send(1), Ok(AcceptOutcome::Accepted));
    assert_eq!(sink.poll_complete(), Ok(PollOutcome::Ready));
    assert_eq!(sink.close(), Err(CloseError()));
}

#[test]
fn close_err_sink_close_is_idempotent_after_flush() {
    let mut sink: CloseErrSink<i32> = CloseErrSink::default();
    assert_eq!(sink.poll_complete(), Ok(PollOutcome::Ready));
    let r1 = sink.close();
    let r2 = sink.close();
    assert_eq!(r1, Err(CloseError()));
    assert_eq!(r1, r2);
}

#[test]
fn accept_errors_from_equal_items_compare_equal() {
    assert_eq!(StartSendError(42), StartSendError(42));
    assert_ne!(StartSendError(1), StartSendError(2));
    assert_eq!(StartSendError("a"), StartSendError("a"));
}

#[test]
fn payload_free_errors_always_compare_equal() {
    assert_eq!(PollCompleteError(), PollCompleteError());
    assert_eq!(CloseError(), CloseError());
}
