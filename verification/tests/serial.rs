use escpos_decoder::engine::serial::{
    next_step, ListenerStep, ReadOutcome, READ_BUFFER_SIZE, RETRY_DELAY_SECS,
};

#[test]
fn received_bytes_are_reported() {
    assert_eq!(next_step(ReadOutcome::Received(0)), ListenerStep::Report { bytes: 0 });
    assert_eq!(next_step(ReadOutcome::Received(17)), ListenerStep::Report { bytes: 17 });
    assert_eq!(next_step(ReadOutcome::Received(256)), ListenerStep::Report { bytes: 256 });
}

#[test]
fn report_never_exceeds_the_read_buffer() {
    assert_eq!(READ_BUFFER_SIZE, 256);
    assert_eq!(next_step(ReadOutcome::Received(257)), ListenerStep::Report { bytes: 256 });
    assert_eq!(
        next_step(ReadOutcome::Received(usize::MAX)),
        ListenerStep::Report { bytes: 256 }
    );
}

#[test]
fn idle_link_is_asked_again_later() {
    assert_eq!(RETRY_DELAY_SECS, 2);
    assert_eq!(next_step(ReadOutcome::WouldBlock), ListenerStep::Wait { seconds: 2 });
}

#[test]
fn failure_stops_the_listener() {
    assert_eq!(next_step(ReadOutcome::Failed), ListenerStep::Stop);
}
