//! The producer's side: a payload becomes a message that the queue holds
//! back for a while before it hands it to a consumer.

use crate::sbclient::{
    send_request,
    AzureServiceBusClient,
    AzureServiceBusError,
    AzureServiceBusErrorView,
    BrokerPropertiesView,
    Message,
    MessageView,
    SendRequest,
    UtcInstant,
};
use crate::identifiers::is_uuid_text;
use vstd::prelude::*;

verus! {

/// For how many seconds the queue holds a produced message back.
pub const ENQUEUE_DELAY_SECONDS: i64 = 15;

/// The instant at which a message produced at `now` becomes available.
pub open spec fn enqueue_time(now: UtcInstant) -> UtcInstant {
    UtcInstant { secs: (now.secs + ENQUEUE_DELAY_SECONDS) as i64, nanos: now.nanos }
}

/// The message that carries `content` as JSON and is produced at `now`: its
/// envelope holds the instant at which it becomes available and nothing
/// else.
pub open spec fn produced(content: Seq<u8>, now: UtcInstant) -> MessageView {
    MessageView {
        properties: BrokerPropertiesView {
            scheduled_enqueue_time_utc: Some(enqueue_time(now)),
            ..BrokerPropertiesView::empty()
        },
        content,
        content_type: "text/json"@,
    }
}

/// One round of the producer: the request that sends a payload to the queue
/// of `sb_client`, to become available a while after `now`. `encoded` is what
/// encoding the payload as JSON gave: the bytes, or why there are none. The
/// message travels under a freshly drawn correlation id.
pub fn run_producer(
    sb_client: &AzureServiceBusClient,
    encoded: Result<Vec<u8>, String>,
    now: UtcInstant,
) -> (r: Result<SendRequest, AzureServiceBusError>)
    requires
        now.secs + ENQUEUE_DELAY_SECONDS <= i64::MAX,
    ensures
        match encoded {
            Ok(bytes) => r matches Ok(request) && is_uuid_text(request@.correlation_id)
                && request@ == send_request(
                sb_client@,
                produced(bytes@, now),
                request@.correlation_id,
            ),
            Err(reason) => r matches Err(e) && e@ == AzureServiceBusErrorView::ConversionError(
                reason@,
            ),
        },
{
    match Message::new_json(encoded) {
        Ok(mut msg) => {
            let eq_time = UtcInstant { secs: now.secs + ENQUEUE_DELAY_SECONDS, nanos: now.nanos };
            msg.properties.scheduled_enqueue_time_utc = Some(eq_time);
            Ok(sb_client.send(&msg))
        },
        Err(e) => Err(e),
    }
}

} // verus!
