use mazure::consumer::{
    disposition, process_message, run_consumer, ConsumerAction, ConsumerEvent, Disposition, Pacing,
    PACING_SECONDS, PROCESSING_SECONDS,
};
use mazure::sbclient::{AzureServiceBusError, BrokerProperties, Message, UtcInstant};

/// A queue and a handler that only take note of what is asked of them.
struct Double {
    peeked: Option<Result<Option<Message>, AzureServiceBusError>>,
    decodes: bool,
    settles: bool,
    asked: Vec<&'static str>,
}

impl Double {
    fn holding(message: Option<Message>) -> Double {
        Double { peeked: Some(Ok(message)), decodes: true, settles: true, asked: Vec::new() }
    }

    fn settled(&mut self, what: &'static str) -> ConsumerEvent {
        self.asked.push(what);
        if self.settles {
            ConsumerEvent::Settled(Ok(()))
        } else {
            ConsumerEvent::Settled(Err(AzureServiceBusError::ServiceError("503".into())))
        }
    }

    fn iterate(&mut self) -> Result<(), AzureServiceBusError> {
        let mut event = ConsumerEvent::Started;
        loop {
            event = match run_consumer(event) {
                ConsumerAction::PeekLock => {
                    self.asked.push("peek_lock");
                    ConsumerEvent::Peeked(self.peeked.take().unwrap())
                }
                ConsumerAction::Decode(message) => {
                    self.asked.push("decode");
                    let outcome =
                        if self.decodes { Ok(()) } else { Err("expected value".to_string()) };
                    ConsumerEvent::Decoded { properties: message.properties, outcome }
                }
                ConsumerAction::Process(properties) => {
                    self.asked.push("process");
                    ConsumerEvent::Processed { properties }
                }
                ConsumerAction::Delete(_) => self.settled("delete"),
                ConsumerAction::Unlock(_) => self.settled("unlock"),
                ConsumerAction::RenewLock(_) => self.settled("renew_lock"),
                ConsumerAction::Finish(result) => return result,
            }
        }
    }
}

fn delivered(count: Option<i32>) -> Message {
    let mut properties = BrokerProperties::new_empty();
    properties.delivery_count = count;
    properties.message_id = Some("m".into());
    properties.lock_token = Some("lt".into());
    Message { properties, content: b"{}".to_vec(), content_type: "text/json".into() }
}

#[test]
fn the_delivery_count_decides() {
    assert_eq!(disposition(None), Disposition::Delete);
    assert_eq!(disposition(Some(1)), Disposition::Unlock);
    assert_eq!(disposition(Some(2)), Disposition::RenewLock);
    assert_eq!(disposition(Some(3)), Disposition::ProcessThenDelete);
    assert_eq!(disposition(Some(4)), Disposition::ProcessThenDelete);
    assert_eq!(disposition(Some(i32::MAX)), Disposition::ProcessThenDelete);
}

#[test]
fn a_count_below_one_is_handled_like_a_late_delivery() {
    assert_eq!(disposition(Some(0)), Disposition::ProcessThenDelete);
    assert_eq!(disposition(Some(-1)), Disposition::ProcessThenDelete);
    assert_eq!(disposition(Some(i32::MIN)), Disposition::ProcessThenDelete);
}

#[test]
fn an_iteration_begins_with_peek_lock() {
    assert!(matches!(run_consumer(ConsumerEvent::Started), ConsumerAction::PeekLock));
}

#[test]
fn an_empty_queue_ends_the_iteration() {
    let mut double = Double::holding(None);
    assert!(double.iterate().is_ok());
    assert_eq!(double.asked, vec!["peek_lock"]);
}

#[test]
fn a_failed_peek_lock_ends_the_iteration_with_its_failure() {
    let mut double = Double::holding(None);
    double.peeked = Some(Err(AzureServiceBusError::RequestError("404".into())));
    match double.iterate() {
        Err(AzureServiceBusError::RequestError(detail)) => assert_eq!(detail, "404"),
        other => panic!("unexpected {:?}", other),
    }
    assert_eq!(double.asked, vec!["peek_lock"]);
}

#[test]
fn a_message_without_count_is_deleted() {
    let mut double = Double::holding(Some(delivered(None)));
    assert!(double.iterate().is_ok());
    assert_eq!(double.asked, vec!["peek_lock", "decode", "delete"]);
}

#[test]
fn a_first_delivery_is_unlocked() {
    let mut double = Double::holding(Some(delivered(Some(1))));
    assert!(double.iterate().is_ok());
    assert_eq!(double.asked, vec!["peek_lock", "decode", "unlock"]);
}

#[test]
fn a_second_delivery_has_its_lock_renewed() {
    let mut double = Double::holding(Some(delivered(Some(2))));
    assert!(double.iterate().is_ok());
    assert_eq!(double.asked, vec!["peek_lock", "decode", "renew_lock"]);
}

#[test]
fn a_later_delivery_is_processed_and_then_deleted() {
    for count in [3, 4, 10, i32::MAX] {
        let mut double = Double::holding(Some(delivered(Some(count))));
        assert!(double.iterate().is_ok());
        assert_eq!(double.asked, vec!["peek_lock", "decode", "process", "delete"]);
    }
}

#[test]
fn a_message_that_does_not_decode_stays_locked() {
    for count in [None, Some(1), Some(2), Some(3)] {
        let mut double = Double::holding(Some(delivered(count)));
        double.decodes = false;
        match double.iterate() {
            Err(AzureServiceBusError::ConversionError(detail)) => {
                assert_eq!(detail, "expected value")
            }
            other => panic!("unexpected {:?}", other),
        }
        assert_eq!(double.asked, vec!["peek_lock", "decode"]);
    }
}

#[test]
fn a_failed_settlement_is_the_failure_of_the_iteration() {
    for (count, asked) in [
        (None, vec!["peek_lock", "decode", "delete"]),
        (Some(1), vec!["peek_lock", "decode", "unlock"]),
        (Some(2), vec!["peek_lock", "decode", "renew_lock"]),
        (Some(3), vec!["peek_lock", "decode", "process", "delete"]),
    ] {
        let mut double = Double::holding(Some(delivered(count)));
        double.settles = false;
        match double.iterate() {
            Err(AzureServiceBusError::ServiceError(detail)) => assert_eq!(detail, "503"),
            other => panic!("unexpected {:?}", other),
        }
        assert_eq!(double.asked, asked);
    }
}

#[test]
fn the_envelope_travels_with_each_action() {
    let message = delivered(Some(3));
    let envelope = message.properties.clone();
    let decode = run_consumer(ConsumerEvent::Peeked(Ok(Some(message.clone()))));
    match decode {
        ConsumerAction::Decode(m) => assert_eq!(m, message),
        other => panic!("unexpected {:?}", other),
    }
    let process =
        run_consumer(ConsumerEvent::Decoded { properties: envelope.clone(), outcome: Ok(()) });
    match process {
        ConsumerAction::Process(p) => assert_eq!(p, envelope),
        other => panic!("unexpected {:?}", other),
    }
    let delete = run_consumer(ConsumerEvent::Processed { properties: envelope.clone() });
    match delete {
        ConsumerAction::Delete(p) => assert_eq!(p, envelope),
        other => panic!("unexpected {:?}", other),
    }
    assert!(matches!(
        run_consumer(ConsumerEvent::Settled(Ok(()))),
        ConsumerAction::Finish(Ok(()))
    ));
}

#[test]
fn the_handler_rests_until_thirty_seconds_have_passed() {
    assert_eq!(PROCESSING_SECONDS, 30);
    assert_eq!(PACING_SECONDS, 5);
    let started = UtcInstant { secs: 1000, nanos: 500 };
    let at = |secs: i64, nanos: u32| process_message(started, UtcInstant { secs, nanos });
    assert_eq!(at(1000, 500), Pacing::Rest(5));
    assert_eq!(at(1005, 0), Pacing::Rest(5));
    assert_eq!(at(1029, 999_999_999), Pacing::Rest(5));
    assert_eq!(at(1030, 0), Pacing::Rest(5));
    assert_eq!(at(1030, 499), Pacing::Rest(5));
    assert_eq!(at(1030, 500), Pacing::Done);
    assert_eq!(at(1030, 501), Pacing::Done);
    assert_eq!(at(1031, 0), Pacing::Done);
    assert_eq!(at(999, 0), Pacing::Rest(5));
    assert_eq!(at(i64::MAX, 0), Pacing::Done);
}
