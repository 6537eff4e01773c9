use local_provider::emitter::{Emitter, Event, Step};

#[test]
fn empty_stream_closes_with_nothing_sent() {
    let mut emitter = Emitter::new(0);
    assert_eq!(emitter.step(Event::Begin), Step::Close);
    assert_eq!(emitter.sent, 0);
    assert!(emitter.closed);
}

#[test]
fn messages_go_out_in_order_then_the_channel_closes() {
    let mut emitter = Emitter::new(3);
    assert_eq!(emitter.step(Event::Begin), Step::Send(0));
    assert_eq!(emitter.step(Event::Accepted), Step::Send(1));
    assert_eq!(emitter.step(Event::Accepted), Step::Send(2));
    assert_eq!(emitter.step(Event::Accepted), Step::Close);
    assert_eq!(emitter.sent, 3);
    assert!(emitter.closed);
}

#[test]
fn a_refusal_ends_the_stream_without_retry() {
    let mut emitter = Emitter::new(3);
    assert_eq!(emitter.step(Event::Begin), Step::Send(0));
    assert_eq!(emitter.step(Event::Accepted), Step::Send(1));
    assert_eq!(emitter.step(Event::Refused), Step::Close);
    assert_eq!(emitter.sent, 1);
    assert!(emitter.closed);
    assert_eq!(emitter.step(Event::Accepted), Step::Close);
    assert_eq!(emitter.sent, 1);
}

#[test]
fn a_closed_stream_stays_closed() {
    let mut emitter = Emitter::new(1);
    assert_eq!(emitter.step(Event::Begin), Step::Send(0));
    assert_eq!(emitter.step(Event::Accepted), Step::Close);
    assert_eq!(emitter.step(Event::Begin), Step::Close);
    assert_eq!(emitter.step(Event::Accepted), Step::Close);
    assert_eq!(emitter.sent, 1);
    assert_eq!(emitter.total, 1);
}

#[test]
fn begin_again_repeats_the_pending_send() {
    let mut emitter = Emitter::new(2);
    assert_eq!(emitter.step(Event::Begin), Step::Send(0));
    assert_eq!(emitter.step(Event::Begin), Step::Send(0));
    assert_eq!(emitter.sent, 0);
}

#[test]
fn a_cancellation_ends_the_stream() {
    let mut emitter = Emitter::new(3);
    assert_eq!(emitter.step(Event::Begin), Step::Send(0));
    assert_eq!(emitter.step(Event::Cancelled), Step::Close);
    assert_eq!(emitter.sent, 0);
    assert!(emitter.closed);
    assert_eq!(emitter.step(Event::Begin), Step::Close);
}
