//! The queue transport: the envelope of a message, the requests that send,
//! receive and settle messages, and the reading of the replies to them.

use crate::client_authentication::AuthenticationError;
use crate::http::{HeaderValue, HttpMethod, HttpStatus};
use crate::identifiers::{is_uuid_text, new_uuid_text};
use crate::percent::{encode, percent_encoded};
use vstd::prelude::*;

verus! {

/// The resource that a token for the queue service is asked for.
pub const SERVICE_BUS_RESOURCE: &'static str = "https://servicebus.azure.net";

/// A failure of a queue operation. Each variant carries the detail of the
/// failure.
#[derive(Debug)]
pub enum AzureServiceBusError {
    /// No credential could be had for the request.
    AuthenticationError(String),
    /// The service could not be spoken to, or answered with a status that the
    /// operation has no reading for.
    CommunicationError(String),
    /// A value could not be turned into, or read from, its wire form.
    ConversionError(String),
    /// The request is at fault: the service said so with a status from 400
    /// to 499, or the request could not even be formed.
    RequestError(String),
    /// The service is at fault: it answered with a status of 500 or above.
    ServiceError(String),
}

/// A queue failure as a value of the model.
pub enum AzureServiceBusErrorView {
    AuthenticationError(Seq<char>),
    CommunicationError(Seq<char>),
    ConversionError(Seq<char>),
    RequestError(Seq<char>),
    ServiceError(Seq<char>),
}

impl AzureServiceBusErrorView {
    /// The sentence that presents the failure to a reader.
    pub open spec fn message(self) -> Seq<char> {
        match self {
            AzureServiceBusErrorView::AuthenticationError(detail) => "Unable to authenticate: "@
                + detail,
            AzureServiceBusErrorView::CommunicationError(detail) => "Communication error: "@
                + detail,
            AzureServiceBusErrorView::ConversionError(detail) => "Conversion error: "@ + detail,
            AzureServiceBusErrorView::RequestError(detail) => "Request error: "@ + detail,
            AzureServiceBusErrorView::ServiceError(detail) => "Service error: "@ + detail,
        }
    }

    /// The failure that a reply's status alone amounts to: the service's
    /// fault from 500 on, the request's from 400 to 499, and otherwise a
    /// status that was not expected.
    pub open spec fn from_status(code: u16) -> AzureServiceBusErrorView {
        if code >= 500 {
            AzureServiceBusErrorView::ServiceError(HttpStatus::digits(code))
        } else if code >= 400 {
            AzureServiceBusErrorView::RequestError(HttpStatus::digits(code))
        } else {
            AzureServiceBusErrorView::CommunicationError(
                "Unexpected HTTP response: "@ + HttpStatus::digits(code),
            )
        }
    }
}

impl View for AzureServiceBusError {
    type V = AzureServiceBusErrorView;

    open spec fn view(&self) -> AzureServiceBusErrorView {
        match self {
            AzureServiceBusError::AuthenticationError(detail) =>
                AzureServiceBusErrorView::AuthenticationError(detail@),
            AzureServiceBusError::CommunicationError(detail) =>
                AzureServiceBusErrorView::CommunicationError(detail@),
            AzureServiceBusError::ConversionError(detail) =>
                AzureServiceBusErrorView::ConversionError(detail@),
            AzureServiceBusError::RequestError(detail) => AzureServiceBusErrorView::RequestError(
                detail@,
            ),
            AzureServiceBusError::ServiceError(detail) => AzureServiceBusErrorView::ServiceError(
                detail@,
            ),
        }
    }
}

impl AzureServiceBusError {
    /// Classifies a reply by its status alone.
    pub fn from(status: HttpStatus) -> (err: AzureServiceBusError)
        ensures
            err@ == AzureServiceBusErrorView::from_status(status.value()),
    {
        let code = status.as_u16();
        if code >= 500 {
            AzureServiceBusError::ServiceError(status.code_text())
        } else if code >= 400 {
            AzureServiceBusError::RequestError(status.code_text())
        } else {
            AzureServiceBusError::CommunicationError(
                String::from_str("Unexpected HTTP response: ").concat(status.code_text().as_str()),
            )
        }
    }

    /// The queue failure that a failure to authenticate amounts to.
    pub fn from_authentication_error(e: &AuthenticationError) -> (err: AzureServiceBusError)
        ensures
            err@ == AzureServiceBusErrorView::AuthenticationError(e@.message()),
    {
        AzureServiceBusError::AuthenticationError(e.to_string())
    }

    /// The queue failure that a transport fault amounts to; `reason`
    /// describes the fault.
    pub fn from_transport_failure(reason: String) -> (err: AzureServiceBusError)
        ensures
            err@ == AzureServiceBusErrorView::CommunicationError(reason@),
    {
        AzureServiceBusError::CommunicationError(reason)
    }

    /// The queue failure that a value which could not be encoded or decoded
    /// amounts to; `reason` says what was wrong with it.
    pub fn from_conversion_failure(reason: String) -> (err: AzureServiceBusError)
        ensures
            err@ == AzureServiceBusErrorView::ConversionError(reason@),
    {
        AzureServiceBusError::ConversionError(reason)
    }

    /// Renders the failure as the sentence shown to a reader.
    pub fn to_string(&self) -> (text: String)
        ensures
            text@ == self@.message(),
    {
        match self {
            AzureServiceBusError::AuthenticationError(detail) => {
                String::from_str("Unable to authenticate: ").concat(detail.as_str())
            },
            AzureServiceBusError::CommunicationError(detail) => {
                String::from_str("Communication error: ").concat(detail.as_str())
            },
            AzureServiceBusError::ConversionError(detail) => {
                String::from_str("Conversion error: ").concat(detail.as_str())
            },
            AzureServiceBusError::RequestError(detail) => {
                String::from_str("Request error: ").concat(detail.as_str())
            },
            AzureServiceBusError::ServiceError(detail) => {
                String::from_str("Service error: ").concat(detail.as_str())
            },
        }
    }
}

/// A point in time on the UTC scale: whole seconds since the start of 1970,
/// and the nanoseconds past that second.
#[derive(Clone, Copy, Debug, PartialEq, Eq, Structural)]
pub struct UtcInstant {
    pub secs: i64,
    pub nanos: u32,
}

/// The envelope of a message. The first group of fields is set by whoever
/// sends the message; the second is filled in by the queue when the message
/// is received.
#[derive(Debug, PartialEq, Eq)]
pub struct BrokerProperties {
    pub correlation_id: Option<String>,
    pub session_id: Option<String>,
    pub label: Option<String>,
    pub reply_to: Option<String>,
    pub time_to_live: Option<i64>,
    pub to: Option<String>,
    pub scheduled_enqueue_time_utc: Option<UtcInstant>,
    pub reply_to_session_id: Option<String>,
    pub partition_key: Option<String>,
    pub delivery_count: Option<i32>,
    pub locked_until_utc: Option<UtcInstant>,
    pub lock_token: Option<String>,
    pub message_id: Option<String>,
    pub enqueued_time_utc: Option<UtcInstant>,
    pub sequence_number: Option<i32>,
    pub state: Option<String>,
}

/// An envelope as a value of the model.
pub struct BrokerPropertiesView {
    pub correlation_id: Option<Seq<char>>,
    pub session_id: Option<Seq<char>>,
    pub label: Option<Seq<char>>,
    pub reply_to: Option<Seq<char>>,
    pub time_to_live: Option<i64>,
    pub to: Option<Seq<char>>,
    pub scheduled_enqueue_time_utc: Option<UtcInstant>,
    pub reply_to_session_id: Option<Seq<char>>,
    pub partition_key: Option<Seq<char>>,
    pub delivery_count: Option<i32>,
    pub locked_until_utc: Option<UtcInstant>,
    pub lock_token: Option<Seq<char>>,
    pub message_id: Option<Seq<char>>,
    pub enqueued_time_utc: Option<UtcInstant>,
    pub sequence_number: Option<i32>,
    pub state: Option<Seq<char>>,
}

impl BrokerPropertiesView {
    /// The envelope in which nothing is set.
    pub open spec fn empty() -> BrokerPropertiesView {
        BrokerPropertiesView {
            correlation_id: None,
            session_id: None,
            label: None,
            reply_to: None,
            time_to_live: None,
            to: None,
            scheduled_enqueue_time_utc: None,
            reply_to_session_id: None,
            partition_key: None,
            delivery_count: None,
            locked_until_utc: None,
            lock_token: None,
            message_id: None,
            enqueued_time_utc: None,
            sequence_number: None,
            state: None,
        }
    }

    /// Whether the envelope names a locked message: settling a message takes
    /// both its id and the token of the lock held on it.
    pub open spec fn names_locked_message(self) -> bool {
        self.message_id is Some && self.lock_token is Some
    }
}

impl View for BrokerProperties {
    type V = BrokerPropertiesView;

    open spec fn view(&self) -> BrokerPropertiesView {
        BrokerPropertiesView {
            correlation_id: self.correlation_id.deep_view(),
            session_id: self.session_id.deep_view(),
            label: self.label.deep_view(),
            reply_to: self.reply_to.deep_view(),
            time_to_live: self.time_to_live,
            to: self.to.deep_view(),
            scheduled_enqueue_time_utc: self.scheduled_enqueue_time_utc,
            reply_to_session_id: self.reply_to_session_id.deep_view(),
            partition_key: self.partition_key.deep_view(),
            delivery_count: self.delivery_count,
            locked_until_utc: self.locked_until_utc,
            lock_token: self.lock_token.deep_view(),
            message_id: self.message_id.deep_view(),
            enqueued_time_utc: self.enqueued_time_utc,
            sequence_number: self.sequence_number,
            state: self.state.deep_view(),
        }
    }
}

/// A copy of a text that may be absent.
fn clone_text(text: &Option<String>) -> (copy: Option<String>)
    ensures
        copy == *text,
{
    match text {
        Some(t) => Some(t.clone()),
        None => None,
    }
}

impl Clone for BrokerProperties {
    fn clone(&self) -> (copy: BrokerProperties)
        ensures
            copy == *self,
    {
        BrokerProperties {
            correlation_id: clone_text(&self.correlation_id),
            session_id: clone_text(&self.session_id),
            label: clone_text(&self.label),
            reply_to: clone_text(&self.reply_to),
            time_to_live: self.time_to_live,
            to: clone_text(&self.to),
            scheduled_enqueue_time_utc: self.scheduled_enqueue_time_utc,
            reply_to_session_id: clone_text(&self.reply_to_session_id),
            partition_key: clone_text(&self.partition_key),
            delivery_count: self.delivery_count,
            locked_until_utc: self.locked_until_utc,
            lock_token: clone_text(&self.lock_token),
            message_id: clone_text(&self.message_id),
            enqueued_time_utc: self.enqueued_time_utc,
            sequence_number: self.sequence_number,
            state: clone_text(&self.state),
        }
    }
}

impl BrokerProperties {
    /// The envelope in which nothing is set.
    pub fn new_empty() -> (properties: BrokerProperties)
        ensures
            properties@ == BrokerPropertiesView::empty(),
    {
        BrokerProperties {
            correlation_id: None,
            delivery_count: None,
            enqueued_time_utc: None,
            label: None,
            lock_token: None,
            locked_until_utc: None,
            message_id: None,
            sequence_number: None,
            time_to_live: None,
            scheduled_enqueue_time_utc: None,
            partition_key: None,
            reply_to: None,
            reply_to_session_id: None,
            session_id: None,
            to: None,
            state: None,
        }
    }
}

/// A message: its envelope, its content, and the media type of the content.
#[derive(Debug, PartialEq, Eq)]
pub struct Message {
    pub properties: BrokerProperties,
    pub content: Vec<u8>,
    pub content_type: String,
}

/// A message as a value of the model.
pub struct MessageView {
    pub properties: BrokerPropertiesView,
    pub content: Seq<u8>,
    pub content_type: Seq<char>,
}

impl View for Message {
    type V = MessageView;

    open spec fn view(&self) -> MessageView {
        MessageView {
            properties: self.properties@,
            content: self.content@,
            content_type: self.content_type@,
        }
    }
}

impl Clone for Message {
    fn clone(&self) -> (copy: Message)
        ensures
            copy@ == self@,
    {
        let content = self.content.clone();
        assert(content@ =~= self.content@);
        Message {
            properties: self.properties.clone(),
            content,
            content_type: self.content_type.clone(),
        }
    }
}

impl MessageView {
    /// The message that carries `content` as JSON in an envelope with
    /// nothing set.
    pub open spec fn json(content: Seq<u8>) -> MessageView {
        MessageView {
            properties: BrokerPropertiesView::empty(),
            content,
            content_type: "text/json"@,
        }
    }
}

impl Message {
    /// The message whose content is a payload in its JSON encoding.
    /// `encoded` is what encoding the payload gave: the bytes, or why there
    /// are none.
    pub fn new_json(encoded: Result<Vec<u8>, String>) -> (r: Result<Message, AzureServiceBusError>)
        ensures
            match encoded {
                Ok(bytes) => r matches Ok(message) && message@ == MessageView::json(bytes@),
                Err(reason) => r matches Err(e) && e@ == AzureServiceBusErrorView::ConversionError(
                    reason@,
                ),
            },
    {
        match encoded {
            Ok(raw_bytes) => Ok(
                Message {
                    properties: BrokerProperties::new_empty(),
                    content: raw_bytes,
                    content_type: String::from_str("text/json"),
                },
            ),
            Err(reason) => Err(AzureServiceBusError::from_conversion_failure(reason)),
        }
    }

    /// The payload that the content of a message decodes to. `decoded` is
    /// what decoding the content gave: the payload, or why there is none.
    pub fn json_into<T>(decoded: Result<T, String>) -> (r: Result<T, AzureServiceBusError>)
        ensures
            match decoded {
                Ok(payload) => r == Ok::<T, AzureServiceBusError>(payload),
                Err(reason) => r matches Err(e) && e@ == AzureServiceBusErrorView::ConversionError(
                    reason@,
                ),
            },
    {
        match decoded {
            Ok(payload) => Ok(payload),
            Err(reason) => Err(AzureServiceBusError::from_conversion_failure(reason)),
        }
    }
}

/// What a reply to peek-lock holds under the header that carries the
/// envelope of the message.
#[derive(Debug)]
pub enum PropertiesHeader {
    /// The reply has no such header.
    Missing,
    /// The header is there but its value is not text; the field says why.
    Opaque(String),
    /// The header's text is not the encoding of an envelope; the field says
    /// why.
    Malformed(String),
    /// The envelope that the header's text encodes.
    Decoded(BrokerProperties),
}

/// The header of an envelope as a value of the model.
pub enum PropertiesHeaderView {
    Missing,
    Opaque(Seq<char>),
    Malformed(Seq<char>),
    Decoded(BrokerPropertiesView),
}

impl View for PropertiesHeader {
    type V = PropertiesHeaderView;

    open spec fn view(&self) -> PropertiesHeaderView {
        match self {
            PropertiesHeader::Missing => PropertiesHeaderView::Missing,
            PropertiesHeader::Opaque(reason) => PropertiesHeaderView::Opaque(reason@),
            PropertiesHeader::Malformed(reason) => PropertiesHeaderView::Malformed(reason@),
            PropertiesHeader::Decoded(properties) => PropertiesHeaderView::Decoded(properties@),
        }
    }
}

impl PropertiesHeaderView {
    /// The envelope that a reply carries, or the conversion failure that
    /// stands for a header which is absent, is not text, or does not encode
    /// an envelope.
    pub open spec fn envelope(self) -> Result<BrokerPropertiesView, AzureServiceBusErrorView> {
        match self {
            PropertiesHeaderView::Missing => Err(
                AzureServiceBusErrorView::ConversionError(
                    "BrokerProperites header not present in response."@,
                ),
            ),
            PropertiesHeaderView::Opaque(reason) => Err(
                AzureServiceBusErrorView::ConversionError(reason),
            ),
            PropertiesHeaderView::Malformed(reason) => Err(
                AzureServiceBusErrorView::ConversionError(reason),
            ),
            PropertiesHeaderView::Decoded(properties) => Ok(properties),
        }
    }
}

impl BrokerProperties {
    /// Reads the envelope of a received message off the reply that
    /// delivered it.
    pub fn from_http_response(header: PropertiesHeader) -> (r: Result<
        BrokerProperties,
        AzureServiceBusError,
    >)
        ensures
            match header@.envelope() {
                Ok(properties) => r matches Ok(p) && p@ == properties,
                Err(failure) => r matches Err(e) && e@ == failure,
            },
    {
        match header {
            PropertiesHeader::Missing => Err(
                AzureServiceBusError::ConversionError(
                    String::from_str("BrokerProperites header not present in response."),
                ),
            ),
            PropertiesHeader::Opaque(reason) => Err(
                AzureServiceBusError::from_conversion_failure(reason),
            ),
            PropertiesHeader::Malformed(reason) => Err(
                AzureServiceBusError::from_conversion_failure(reason),
            ),
            PropertiesHeader::Decoded(properties) => Ok(properties),
        }
    }
}

/// The address of a queue: the namespace it lives in and its path there.
#[derive(Debug)]
pub struct AzureServiceBusClient {
    namespace: String,
    path: String,
}

/// The address of a queue as a value of the model.
pub struct AzureServiceBusClientView {
    pub namespace: Seq<char>,
    pub path: Seq<char>,
}

impl AzureServiceBusClientView {
    /// The URL under which the messages of the queue are reached. Namespace
    /// and path are percent-encoded.
    pub open spec fn messages_url(self) -> Seq<char> {
        "https://"@ + percent_encoded(self.namespace) + ".servicebus.windows.net/"@
            + percent_encoded(self.path) + "/messages"@
    }

    /// The URL at which the next message is received.
    pub open spec fn head_url(self) -> Seq<char> {
        self.messages_url() + "/head"@
    }

    /// The URL of one locked message, named by its id and the token of the
    /// lock, both percent-encoded.
    pub open spec fn locked_message_url(self, message_id: Seq<char>, lock_token: Seq<char>) -> Seq<
        char,
    > {
        self.messages_url() + "/"@ + percent_encoded(message_id) + "/"@ + percent_encoded(
            lock_token,
        )
    }
}

impl View for AzureServiceBusClient {
    type V = AzureServiceBusClientView;

    closed spec fn view(&self) -> AzureServiceBusClientView {
        AzureServiceBusClientView { namespace: self.namespace@, path: self.path@ }
    }
}

/// A request that sends a message: its body is `body`, its `Content-Type`
/// header holds the media type, and its `BrokerProperties` header holds the
/// envelope, encoded. `correlation_id` is the id under which
/// the message travels.
#[derive(Debug)]
pub struct SendRequest {
    pub method: HttpMethod,
    pub url: String,
    pub content_type: String,
    pub properties: BrokerProperties,
    pub body: Vec<u8>,
    pub correlation_id: String,
}

/// A request to send as a value of the model.
pub struct SendRequestView {
    pub method: HttpMethod,
    pub url: Seq<char>,
    pub content_type: Seq<char>,
    pub properties: BrokerPropertiesView,
    pub body: Seq<u8>,
    pub correlation_id: Seq<char>,
}

impl View for SendRequest {
    type V = SendRequestView;

    open spec fn view(&self) -> SendRequestView {
        SendRequestView {
            method: self.method,
            url: self.url@,
            content_type: self.content_type@,
            properties: self.properties@,
            body: self.body@,
            correlation_id: self.correlation_id@,
        }
    }
}

/// A request without a body, sent with a `Content-Length` of zero.
#[derive(Debug)]
pub struct EmptyRequest {
    pub method: HttpMethod,
    pub url: String,
}

/// A request without a body as a value of the model.
pub struct EmptyRequestView {
    pub method: HttpMethod,
    pub url: Seq<char>,
}

impl View for EmptyRequest {
    type V = EmptyRequestView;

    open spec fn view(&self) -> EmptyRequestView {
        EmptyRequestView { method: self.method, url: self.url@ }
    }
}

/// The head of a reply to peek-lock: its status and the two headers that
/// describe a message.
#[derive(Debug)]
pub struct PeekLockReply {
    pub status: HttpStatus,
    pub content_type: HeaderValue,
    pub properties: PropertiesHeader,
}

/// A received message whose content is still to be read from the reply.
#[derive(Debug)]
pub struct PendingMessage {
    pub properties: BrokerProperties,
    pub content_type: String,
}

/// A message without its content as a value of the model.
pub struct PendingMessageView {
    pub properties: BrokerPropertiesView,
    pub content_type: Seq<char>,
}

impl View for PendingMessage {
    type V = PendingMessageView;

    open spec fn view(&self) -> PendingMessageView {
        PendingMessageView { properties: self.properties@, content_type: self.content_type@ }
    }
}

impl PendingMessageView {
    /// The message, given its content.
    pub open spec fn with_content(self, content: Seq<u8>) -> MessageView {
        MessageView { properties: self.properties, content, content_type: self.content_type }
    }
}

/// The media type that a reply states: the header's text, nothing where the
/// header is absent, and a conversion failure where it is not text.
pub open spec fn media_type(header: HeaderValue) -> Result<Seq<char>, AzureServiceBusErrorView> {
    match header {
        HeaderValue::Missing => Ok(Seq::empty()),
        HeaderValue::Text(text) => Ok(text@),
        HeaderValue::Opaque(reason) => Err(AzureServiceBusErrorView::ConversionError(reason@)),
    }
}

/// What the head of a reply to peek-lock means. Status 201 announces a
/// message, whose media type is read before its envelope; status 204 says
/// that the queue has none to give; any other status is a failure of its
/// class.
pub open spec fn peeked(
    status: u16,
    content_type: HeaderValue,
    properties: PropertiesHeaderView,
) -> Result<Option<PendingMessageView>, AzureServiceBusErrorView> {
    if status == 201 {
        match media_type(content_type) {
            Err(failure) => Err(failure),
            Ok(content_type) => match properties.envelope() {
                Err(failure) => Err(failure),
                Ok(properties) => Ok(Some(PendingMessageView { properties, content_type })),
            },
        }
    } else if status == 204 {
        Ok(None)
    } else {
        Err(AzureServiceBusErrorView::from_status(status))
    }
}

/// What the status of a reply means to an operation that succeeds with
/// `expected` and with no other status.
pub open spec fn acknowledged(status: u16, expected: u16) -> Result<(), AzureServiceBusErrorView> {
    if status == expected {
        Ok(())
    } else {
        Err(AzureServiceBusErrorView::from_status(status))
    }
}

/// The request that settles a locked message with `method`, or the request
/// failure that stands for an envelope which does not name one: without an
/// id first of all, else without a lock token.
pub open spec fn settlement(
    client: AzureServiceBusClientView,
    method: HttpMethod,
    properties: BrokerPropertiesView,
) -> Result<EmptyRequestView, AzureServiceBusErrorView> {
    match (properties.message_id, properties.lock_token) {
        (None, _) => Err(
            AzureServiceBusErrorView::RequestError("No message id found in broker properties."@),
        ),
        (Some(_), None) => Err(
            AzureServiceBusErrorView::RequestError("No lock token found in broker properties."@),
        ),
        (Some(message_id), Some(lock_token)) => Ok(
            EmptyRequestView { method, url: client.locked_message_url(message_id, lock_token) },
        ),
    }
}

/// The request that sends `message` when `candidate` is the id held ready
/// for a message without one. A message with a correlation id travels under
/// it, envelope untouched; any other travels under `candidate`, which is
/// entered in a copy of its envelope.
pub open spec fn send_request(
    client: AzureServiceBusClientView,
    message: MessageView,
    candidate: Seq<char>,
) -> SendRequestView {
    let (correlation_id, properties) = match message.properties.correlation_id {
        Some(id) => (id, message.properties),
        None => (
            candidate,
            BrokerPropertiesView { correlation_id: Some(candidate), ..message.properties },
        ),
    };
    SendRequestView {
        method: HttpMethod::Post,
        url: client.messages_url(),
        content_type: message.content_type,
        properties,
        body: message.content,
        correlation_id,
    }
}

impl AzureServiceBusClient {
    /// The client of the queue at `path` in `namespace`.
    pub fn new(namespace: &str, path: &str) -> (client: AzureServiceBusClient)
        ensures
            client@ == (AzureServiceBusClientView { namespace: namespace@, path: path@ }),
    {
        AzureServiceBusClient {
            namespace: String::from_str(namespace),
            path: String::from_str(path),
        }
    }

    /// The URL under which the messages of the queue are reached.
    fn messages_url(&self) -> (url: String)
        ensures
            url@ == self@.messages_url(),
    {
        let mut url = String::from_str("https://");
        url.append(encode(self.namespace.as_str()).as_str());
        url.append(".servicebus.windows.net/");
        url.append(encode(self.path.as_str()).as_str());
        url.append("/messages");
        url
    }

    /// The request that sends `message`, with `candidate` as the correlation
    /// id of a message that has none.
    pub fn send_with_id(&self, message: &Message, candidate: String) -> (request: SendRequest)
        ensures
            request@ == send_request(self@, message@, candidate@),
    {
        let url = self.messages_url();
        let content = message.content.clone();
        assert(content@ =~= message.content@);
        match &message.properties.correlation_id {
            Some(id) => SendRequest {
                method: HttpMethod::Post,
                url,
                content_type: message.content_type.clone(),
                properties: message.properties.clone(),
                body: content,
                correlation_id: id.clone(),
            },
            None => {
                let mut new_props = message.properties.clone();
                new_props.correlation_id = Some(candidate.clone());
                SendRequest {
                    method: HttpMethod::Post,
                    url,
                    content_type: message.content_type.clone(),
                    properties: new_props,
                    body: content,
                    correlation_id: candidate,
                }
            },
        }
    }

    /// The request that sends `message`. A message without a correlation id
    /// is given a freshly drawn one, in a copy of its envelope; `message`
    /// itself is left as it is. The id in the request is the one to return
    /// to the sender once the service has accepted the message.
    pub fn send(&self, message: &Message) -> (request: SendRequest)
        ensures
            request@ == send_request(self@, message@, request@.correlation_id),
            message@.properties.correlation_id is None ==> is_uuid_text(request@.correlation_id),
    {
        match &message.properties.correlation_id {
            Some(id) => self.send_with_id(message, id.clone()),
            None => self.send_with_id(message, new_uuid_text()),
        }
    }

    /// The request that sends a payload in its JSON encoding. `encoded` is
    /// what encoding the payload gave: the bytes, or why there are none.
    pub fn send_json(&self, encoded: Result<Vec<u8>, String>) -> (r: Result<
        SendRequest,
        AzureServiceBusError,
    >)
        ensures
            match encoded {
                Ok(bytes) => r matches Ok(request) && is_uuid_text(request@.correlation_id)
                    && request@ == send_request(
                    self@,
                    MessageView::json(bytes@),
                    request@.correlation_id,
                ),
                Err(reason) => r matches Err(e) && e@ == AzureServiceBusErrorView::ConversionError(
                    reason@,
                ),
            },
    {
        match Message::new_json(encoded) {
            Ok(msg) => Ok(self.send(&msg)),
            Err(e) => Err(e),
        }
    }

    /// Reads the reply to a request that sent a message under
    /// `correlation_id`. `reply` is the status of the reply, or why there
    /// was none. The message is accepted with status 201 and no other.
    pub fn send_response(correlation_id: String, reply: Result<HttpStatus, String>) -> (r: Result<
        String,
        AzureServiceBusError,
    >)
        ensures
            match reply {
                Err(reason) => r matches Err(e) && e@
                    == AzureServiceBusErrorView::CommunicationError(reason@),
                Ok(status) => match acknowledged(status.value(), 201) {
                    Ok(()) => r matches Ok(id) && id@ == correlation_id@,
                    Err(failure) => r matches Err(e) && e@ == failure,
                },
            },
    {
        match reply {
            Err(reason) => Err(AzureServiceBusError::from_transport_failure(reason)),
            Ok(status) => {
                if status.as_u16() != 201 {
                    return Err(AzureServiceBusError::from(status));
                }
                Ok(correlation_id)
            },
        }
    }

    /// The request that receives the next message of the queue under a lock.
    pub fn peek_lock(&self) -> (request: EmptyRequest)
        ensures
            request@ == (EmptyRequestView { method: HttpMethod::Post, url: self@.head_url() }),
    {
        let mut url = self.messages_url();
        url.append("/head");
        EmptyRequest { method: HttpMethod::Post, url }
    }

    /// Reads the head of the reply to peek-lock. `reply` is that head, or
    /// why there was no reply. Where a message is announced, its content is
    /// still to be read: see [`PendingMessage::with_content`].
    pub fn peek_lock_response(reply: Result<PeekLockReply, String>) -> (r: Result<
        Option<PendingMessage>,
        AzureServiceBusError,
    >)
        ensures
            match reply {
                Err(reason) => r matches Err(e) && e@
                    == AzureServiceBusErrorView::CommunicationError(reason@),
                Ok(head) => match peeked(head.status.value(), head.content_type, head.properties@) {
                    Ok(None) => r matches Ok(None),
                    Ok(Some(pending)) => r matches Ok(Some(p)) && p@ == pending,
                    Err(failure) => r matches Err(e) && e@ == failure,
                },
            },
    {
        match reply {
            Err(reason) => Err(AzureServiceBusError::from_transport_failure(reason)),
            Ok(head) => {
                let code = head.status.as_u16();
                if code == 201 {
                    let content_type = match head.content_type {
                        HeaderValue::Missing => String::new(),
                        HeaderValue::Text(text) => text,
                        HeaderValue::Opaque(reason) => {
                            return Err(AzureServiceBusError::from_conversion_failure(reason));
                        },
                    };
                    match BrokerProperties::from_http_response(head.properties) {
                        Ok(properties) => Ok(Some(PendingMessage { properties, content_type })),
                        Err(e) => Err(e),
                    }
                } else if code == 204 {
                    Ok(None)
                } else {
                    Err(AzureServiceBusError::from(head.status))
                }
            },
        }
    }

    /// The request that settles the locked message that `properties` names.
    fn settle(&self, method: HttpMethod, properties: &BrokerProperties) -> (r: Result<
        EmptyRequest,
        AzureServiceBusError,
    >)
        ensures
            match settlement(self@, method, properties@) {
                Ok(request) => r matches Ok(q) && q@ == request,
                Err(failure) => r matches Err(e) && e@ == failure,
            },
    {
        let message_id = match &properties.message_id {
            None => {
                return Err(
                    AzureServiceBusError::RequestError(
                        String::from_str("No message id found in broker properties."),
                    ),
                );
            },
            Some(message_id) => message_id,
        };
        let lock_token = match &properties.lock_token {
            None => {
                return Err(
                    AzureServiceBusError::RequestError(
                        String::from_str("No lock token found in broker properties."),
                    ),
                );
            },
            Some(lock_token) => lock_token,
        };
        let mut url = self.messages_url();
        url.append("/");
        url.append(encode(message_id.as_str()).as_str());
        url.append("/");
        url.append(encode(lock_token.as_str()).as_str());
        Ok(EmptyRequest { method, url })
    }

    /// The request that deletes a locked message, which acknowledges it. An
    /// envelope without message id or lock token is refused, and there is
    /// then no request to dispatch.
    pub fn delete_message(&self, message_properties: &BrokerProperties) -> (r: Result<
        EmptyRequest,
        AzureServiceBusError,
    >)
        ensures
            match settlement(self@, HttpMethod::Delete, message_properties@) {
                Ok(request) => r matches Ok(q) && q@ == request,
                Err(failure) => r matches Err(e) && e@ == failure,
            },
    {
        self.settle(HttpMethod::Delete, message_properties)
    }

    /// The request that gives up the lock on a message, so that the queue
    /// delivers the message again at once. An envelope without message id or
    /// lock token is refused, and there is then no request to dispatch.
    pub fn unlock_message(&self, message_properties: &BrokerProperties) -> (r: Result<
        EmptyRequest,
        AzureServiceBusError,
    >)
        ensures
            match settlement(self@, HttpMethod::Put, message_properties@) {
                Ok(request) => r matches Ok(q) && q@ == request,
                Err(failure) => r matches Err(e) && e@ == failure,
            },
    {
        self.settle(HttpMethod::Put, message_properties)
    }

    /// The request that extends the lock on a message without consuming the
    /// message. An envelope without message id or lock token is refused, and
    /// there is then no request to dispatch.
    pub fn renew_lock(&self, message_properties: &BrokerProperties) -> (r: Result<
        EmptyRequest,
        AzureServiceBusError,
    >)
        ensures
            match settlement(self@, HttpMethod::Post, message_properties@) {
                Ok(request) => r matches Ok(q) && q@ == request,
                Err(failure) => r matches Err(e) && e@ == failure,
            },
    {
        self.settle(HttpMethod::Post, message_properties)
    }

    /// Reads the reply to a request that settles a message. `reply` is the
    /// status of the reply, or why there was none. The message is settled
    /// with status 200 and no other.
    pub fn settle_response(reply: Result<HttpStatus, String>) -> (r: Result<
        (),
        AzureServiceBusError,
    >)
        ensures
            match reply {
                Err(reason) => r matches Err(e) && e@
                    == AzureServiceBusErrorView::CommunicationError(reason@),
                Ok(status) => match acknowledged(status.value(), 200) {
                    Ok(()) => r is Ok,
                    Err(failure) => r matches Err(e) && e@ == failure,
                },
            },
    {
        match reply {
            Err(reason) => Err(AzureServiceBusError::from_transport_failure(reason)),
            Ok(status) => {
                if status.as_u16() != 200 {
                    return Err(AzureServiceBusError::from(status));
                }
                Ok(())
            },
        }
    }
}

impl PendingMessage {
    /// The message, now that its content was read from the reply. `content`
    /// is what reading gave: the bytes, or why there are none.
    pub fn with_content(self, content: Result<Vec<u8>, String>) -> (r: Result<
        Message,
        AzureServiceBusError,
    >)
        ensures
            match content {
                Ok(bytes) => r matches Ok(message) && message@ == self@.with_content(bytes@),
                Err(reason) => r matches Err(e) && e@
                    == AzureServiceBusErrorView::CommunicationError(reason@),
            },
    {
        match content {
            Ok(bytes) => Ok(
                Message {
                    properties: self.properties,
                    content: bytes,
                    content_type: self.content_type,
                },
            ),
            Err(reason) => Err(AzureServiceBusError::from_transport_failure(reason)),
        }
    }
}

/// Peek-lock reads a reply by its status. Status 204 is an empty queue and
/// no failure. Status 201 is a message with the envelope that the reply's
/// header carries, unless a header cannot be read. Any other status is a
/// failure of the class that its range stands for.
pub proof fn lemma_peek_lock_reads_the_status(
    status: u16,
    content_type: HeaderValue,
    properties: PropertiesHeaderView,
)
    ensures
        status == 204 ==> peeked(status, content_type, properties) == Ok::<
            Option<PendingMessageView>,
            AzureServiceBusErrorView,
        >(None),
        status == 201 ==> (peeked(status, content_type, properties) is Ok <==> media_type(
            content_type,
        ) is Ok && properties is Decoded),
        status == 201 ==> (peeked(status, content_type, properties) matches Ok(found) ==> found
            matches Some(pending) && properties == PropertiesHeaderView::Decoded(
            pending.properties,
        ) && media_type(content_type) == Ok::<Seq<char>, AzureServiceBusErrorView>(
            pending.content_type,
        )),
        status == 201 ==> (peeked(status, content_type, properties) matches Err(failure)
            ==> failure is ConversionError),
        status != 201 && status != 204 ==> peeked(status, content_type, properties) == Err::<
            Option<PendingMessageView>,
            AzureServiceBusErrorView,
        >(AzureServiceBusErrorView::from_status(status)),
        status >= 500 ==> AzureServiceBusErrorView::from_status(status) is ServiceError,
        400 <= status < 500 ==> AzureServiceBusErrorView::from_status(status) is RequestError,
        status < 400 ==> AzureServiceBusErrorView::from_status(status) is CommunicationError,
{
}

/// A message can be settled exactly when its envelope holds both its id and
/// the token of its lock. Where either is missing, deleting, unlocking and
/// renewing alike fail with a request failure, and no request comes about.
pub proof fn lemma_settlement_needs_id_and_token(
    client: AzureServiceBusClientView,
    method: HttpMethod,
    properties: BrokerPropertiesView,
)
    ensures
        settlement(client, method, properties) is Ok <==> properties.names_locked_message(),
        !properties.names_locked_message() ==> (settlement(client, method, properties) matches Err(
            failure,
        ) && failure is RequestError),
        settlement(client, method, properties) matches Ok(request) ==> request.method == method
            && request.url == client.locked_message_url(
            properties.message_id->0,
            properties.lock_token->0,
        ),
{
}

/// A message is sent under exactly one correlation id, which its envelope
/// in the request holds. A message that has an id keeps it and its whole
/// envelope; a message that has none is given the candidate, which is not
/// empty where it is a UUID, and nothing else of its envelope changes.
/// Content and media type are sent as they are.
pub proof fn lemma_send_travels_under_one_id(
    client: AzureServiceBusClientView,
    message: MessageView,
    candidate: Seq<char>,
)
    ensures
        send_request(client, message, candidate).properties.correlation_id == Some(
            send_request(client, message, candidate).correlation_id,
        ),
        message.properties.correlation_id matches Some(id) ==> send_request(
            client,
            message,
            candidate,
        ).correlation_id == id && send_request(client, message, candidate).properties
            == message.properties,
        message.properties.correlation_id is None ==> send_request(
            client,
            message,
            candidate,
        ).correlation_id == candidate && send_request(client, message, candidate).properties == (
            BrokerPropertiesView { correlation_id: Some(candidate), ..message.properties }
        ),
        is_uuid_text(candidate) ==> candidate.len() > 0,
        send_request(client, message, candidate).body == message.content,
        send_request(client, message, candidate).content_type == message.content_type,
        send_request(client, message, candidate).url == client.messages_url(),
        send_request(client, message, candidate).method == HttpMethod::Post,
{
}

/// The content of a payload's message reaches the receiver byte for byte:
/// what is sent as the body of the request is the encoded payload, and a
/// message received with that body has it as its content.
pub proof fn lemma_content_travels_unchanged(
    client: AzureServiceBusClientView,
    content: Seq<u8>,
    candidate: Seq<char>,
    pending: PendingMessageView,
)
    ensures
        pending.with_content(
            send_request(client, MessageView::json(content), candidate).body,
        ).content == content,
{
}

} // verus!
