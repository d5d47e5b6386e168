use mazure::consumer::{run_consumer, ConsumerAction, ConsumerEvent};
use mazure::http::{HeaderValue, HttpMethod, HttpStatus};
use mazure::producer::run_producer;
use mazure::sbclient::{
    AzureServiceBusClient, AzureServiceBusError, BrokerProperties, Message, PeekLockReply,
    PropertiesHeader, SendRequest, UtcInstant,
};

/// A queue in memory that holds one message back until it is due.
struct Queue {
    held: Option<SendRequest>,
    deleted: Vec<String>,
}

impl Queue {
    fn accept(&mut self, request: SendRequest) -> HttpStatus {
        self.held = Some(request);
        HttpStatus::new(201).unwrap()
    }

    fn head(&mut self, now: UtcInstant) -> (PeekLockReply, Vec<u8>) {
        let due = match &self.held {
            Some(request) => match request.properties.scheduled_enqueue_time_utc {
                Some(at) => (at.secs, at.nanos) <= (now.secs, now.nanos),
                None => true,
            },
            None => false,
        };
        if !due {
            let reply = PeekLockReply {
                status: HttpStatus::new(204).unwrap(),
                content_type: HeaderValue::Missing,
                properties: PropertiesHeader::Missing,
            };
            return (reply, Vec::new());
        }
        let request = self.held.as_ref().unwrap();
        let mut properties = request.properties.clone();
        properties.message_id = Some("message-1".into());
        properties.lock_token = Some("lock-1".into());
        let reply = PeekLockReply {
            status: HttpStatus::new(201).unwrap(),
            content_type: HeaderValue::Text(request.content_type.clone()),
            properties: PropertiesHeader::Decoded(properties),
        };
        (reply, request.body.clone())
    }
}

/// One iteration of a consumer against the queue in memory.
fn iterate(
    client: &AzureServiceBusClient,
    queue: &mut Queue,
    now: UtcInstant,
) -> Result<Vec<&'static str>, AzureServiceBusError> {
    let mut asked = Vec::new();
    let mut event = ConsumerEvent::Started;
    loop {
        event = match run_consumer(event) {
            ConsumerAction::PeekLock => {
                let request = client.peek_lock();
                assert_eq!(request.method, HttpMethod::Post);
                asked.push("peek_lock");
                let (head, body) = queue.head(now);
                let peeked = match AzureServiceBusClient::peek_lock_response(Ok(head)) {
                    Ok(Some(pending)) => pending.with_content(Ok(body)).map(Some),
                    Ok(None) => Ok(None),
                    Err(e) => Err(e),
                };
                ConsumerEvent::Peeked(peeked)
            }
            ConsumerAction::Decode(message) => {
                let decoded = serde_json::from_slice::<serde_json::Value>(&message.content)
                    .map(|_| ())
                    .map_err(|e| e.to_string());
                ConsumerEvent::Decoded { properties: message.properties, outcome: decoded }
            }
            ConsumerAction::Process(properties) => {
                asked.push("process");
                ConsumerEvent::Processed { properties }
            }
            ConsumerAction::Delete(properties) => {
                asked.push("delete");
                let settled = match client.delete_message(&properties) {
                    Ok(request) => {
                        assert_eq!(request.method, HttpMethod::Delete);
                        queue.deleted.push(request.url);
                        queue.held = None;
                        AzureServiceBusClient::settle_response(Ok(HttpStatus::new(200).unwrap()))
                    }
                    Err(e) => Err(e),
                };
                ConsumerEvent::Settled(settled)
            }
            ConsumerAction::Unlock(_) => {
                asked.push("unlock");
                ConsumerEvent::Settled(Ok(()))
            }
            ConsumerAction::RenewLock(_) => {
                asked.push("renew_lock");
                ConsumerEvent::Settled(Ok(()))
            }
            ConsumerAction::Finish(result) => return result.map(|_| asked),
        }
    }
}

#[test]
fn a_scheduled_message_is_seen_only_when_due_and_then_deleted() {
    let client = AzureServiceBusClient::new("contoso", "orders");
    let mut queue = Queue { held: None, deleted: Vec::new() };
    let sent_at = UtcInstant { secs: 1_700_000_000, nanos: 0 };

    let request =
        run_producer(&client, Ok(b"{\"message\":\"m\",\"extra\":\"e\"}".to_vec()), sent_at)
            .unwrap();
    let id = request.correlation_id.clone();
    let status = queue.accept(request);
    assert_eq!(AzureServiceBusClient::send_response(id.clone(), Ok(status)).unwrap(), id);

    let early = UtcInstant { secs: 1_700_000_014, nanos: 999_999_999 };
    assert_eq!(iterate(&client, &mut queue, early).unwrap(), vec!["peek_lock"]);
    assert!(queue.held.is_some());

    let due = UtcInstant { secs: 1_700_000_015, nanos: 0 };
    assert_eq!(iterate(&client, &mut queue, due).unwrap(), vec!["peek_lock", "delete"]);
    assert_eq!(
        queue.deleted,
        vec!["https://contoso.servicebus.windows.net/orders/messages/message-1/lock-1"]
    );

    assert_eq!(iterate(&client, &mut queue, due).unwrap(), vec!["peek_lock"]);
}

#[test]
fn a_payload_comes_out_as_it_went_in() {
    let mut fields = serde_json::Map::new();
    fields.insert("message".to_string(), serde_json::Value::from("New message to process."));
    fields.insert("extra".to_string(), serde_json::Value::from("The unique id is: 7"));
    let payload = serde_json::Value::Object(fields);

    let client = AzureServiceBusClient::new("contoso", "orders");
    let encoded = serde_json::to_vec(&payload).map_err(|e| e.to_string());
    let request = client.send_json(encoded).unwrap();

    let head = PeekLockReply {
        status: HttpStatus::new(201).unwrap(),
        content_type: HeaderValue::Text(request.content_type.clone()),
        properties: PropertiesHeader::Decoded(request.properties.clone()),
    };
    let pending = AzureServiceBusClient::peek_lock_response(Ok(head)).unwrap().unwrap();
    let received = pending.with_content(Ok(request.body.clone())).unwrap();

    let decoded = serde_json::from_slice::<serde_json::Value>(&received.content)
        .map_err(|e| e.to_string());
    assert_eq!(Message::json_into(decoded).unwrap(), payload);
    assert_eq!(received.content_type, "text/json");
}

#[test]
fn a_content_that_is_not_json_is_reported_and_nothing_is_settled() {
    let mut properties = BrokerProperties::new_empty();
    properties.delivery_count = Some(3);
    let message = Message { properties, content: b"not json".to_vec(), content_type: "".into() };
    let action = run_consumer(ConsumerEvent::Peeked(Ok(Some(message))));
    let content = match action {
        ConsumerAction::Decode(m) => m,
        other => panic!("unexpected {:?}", other),
    };
    let decoded = serde_json::from_slice::<serde_json::Value>(&content.content)
        .map(|_| ())
        .map_err(|e| e.to_string());
    assert!(decoded.is_err());
    let end = run_consumer(ConsumerEvent::Decoded {
        properties: content.properties,
        outcome: decoded,
    });
    assert!(matches!(end, ConsumerAction::Finish(Err(AzureServiceBusError::ConversionError(_)))));
}
