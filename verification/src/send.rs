//! Notification messages, and the two halves of handing one over for
//! delivery: what goes to the mailbox, and what is answered once the
//! mailbox has taken it or turned it down.

use crate::metadata::{Content, Tpl};
use crate::sample::{fresh_id, phone_number, safe_email, ID_LEN};
use crate::status::{Code, Status};
use crate::time::Timestamp;
use vstd::prelude::*;
use vstd::std_specs::convert::FromSpecImpl;
use vstd::string::*;

verus! {

#[derive(Clone, Debug, PartialEq, Eq)]
pub struct EmailMessage {
    pub message_id: String,
    pub subject: String,
    pub sender: String,
    pub recipients: Vec<String>,
    pub body: String,
}

#[derive(Clone, Debug, PartialEq, Eq)]
pub struct SmsMessage {
    pub message_id: String,
    pub sender: String,
    pub recipients: Vec<String>,
    pub body: String,
}

#[derive(Clone, Debug, PartialEq, Eq)]
pub struct InAppMessage {
    pub message_id: String,
    pub device_id: String,
    pub title: String,
    pub body: String,
}

/// A message of one of the kinds that can be delivered.
#[derive(Clone, Debug, PartialEq, Eq)]
pub enum Msg {
    Email(EmailMessage),
    Sms(SmsMessage),
    InApp(InAppMessage),
}

/// One item of the inbound stream. An item without a message names no
/// known kind.
#[derive(Clone, Debug, PartialEq, Eq)]
pub struct SendRequest {
    pub msg: Option<Msg>,
}

/// The acknowledgement that a message was handed over for delivery.
#[derive(Clone, Debug, PartialEq, Eq)]
pub struct SendResponse {
    pub message_id: String,
    pub timestamp: Option<Timestamp>,
}

/// The message of the failure that answers an item of no known kind.
pub open spec fn invalid_request() -> Seq<char> {
    "Invalid request"@
}

/// The message of the failure that answers a message which the mailbox
/// did not take.
pub open spec fn send_failure() -> Seq<char> {
    "Failed to send message"@
}

impl Msg {
    /// The id under which this message is acknowledged.
    pub open spec fn id(self) -> Seq<char> {
        match self {
            Msg::Email(m) => m.message_id@,
            Msg::Sms(m) => m.message_id@,
            Msg::InApp(m) => m.message_id@,
        }
    }

    pub fn message_id(&self) -> (id: &str)
        ensures
            id@ == self.id(),
    {
        match self {
            Msg::Email(m) => m.message_id.as_str(),
            Msg::Sms(m) => m.message_id.as_str(),
            Msg::InApp(m) => m.message_id.as_str(),
        }
    }
}

/// A kind of message that can be handed over for delivery.
pub trait Sender: Sized {
    /// The message as it travels to the mailbox.
    spec fn parcel(self) -> Msg;

    /// Gets the message ready for the mailbox: its id, kept for the
    /// acknowledgement, and the message itself, which moves on unchanged.
    fn send(self) -> (out: (String, Msg))
        ensures
            out.0@ == self.parcel().id(),
            out.1 == self.parcel(),
    ;
}

impl Sender for EmailMessage {
    open spec fn parcel(self) -> Msg {
        Msg::Email(self)
    }

    fn send(self) -> (out: (String, Msg)) {
        let message_id = self.message_id.clone();
        (message_id, Msg::Email(self))
    }
}

impl Sender for SmsMessage {
    open spec fn parcel(self) -> Msg {
        Msg::Sms(self)
    }

    fn send(self) -> (out: (String, Msg)) {
        let message_id = self.message_id.clone();
        (message_id, Msg::Sms(self))
    }
}

impl Sender for InAppMessage {
    open spec fn parcel(self) -> Msg {
        Msg::InApp(self)
    }

    fn send(self) -> (out: (String, Msg)) {
        let message_id = self.message_id.clone();
        (message_id, Msg::InApp(self))
    }
}

impl Sender for Msg {
    open spec fn parcel(self) -> Msg {
        self
    }

    fn send(self) -> (out: (String, Msg)) {
        match self {
            Msg::Email(m) => m.send(),
            Msg::Sms(m) => m.send(),
            Msg::InApp(m) => m.send(),
        }
    }
}

/// What a message is answered with once the mailbox has been tried: an
/// acknowledgement under the message's id, stamped `now`, where the mailbox
/// took the message; an internal failure where it did not.
pub fn acknowledge(message_id: String, taken: bool, now: Timestamp) -> (answer: Result<
    SendResponse,
    Status,
>)
    ensures
        taken ==> answer == Ok::<SendResponse, Status>(
            SendResponse { message_id, timestamp: Some(now) },
        ),
        !taken ==> answer is Err && answer->Err_0.has(Code::Internal, send_failure()),
{
    if taken {
        Ok(SendResponse { message_id, timestamp: Some(now) })
    } else {
        Err(Status::internal("Failed to send message"))
    }
}

/// What an item of no known kind is answered with.
pub fn reject() -> (status: Status)
    ensures
        status.has(Code::InvalidArgument, invalid_request()),
{
    Status::invalid_argument("Invalid request")
}

impl From<EmailMessage> for Msg {
    fn from(email: EmailMessage) -> (msg: Msg) {
        Msg::Email(email)
    }
}

impl FromSpecImpl<EmailMessage> for Msg {
    open spec fn obeys_from_spec() -> bool {
        true
    }

    open spec fn from_spec(email: EmailMessage) -> Msg {
        Msg::Email(email)
    }
}

impl From<EmailMessage> for SendRequest {
    fn from(email: EmailMessage) -> (request: SendRequest) {
        SendRequest { msg: Some(Msg::Email(email)) }
    }
}

impl FromSpecImpl<EmailMessage> for SendRequest {
    open spec fn obeys_from_spec() -> bool {
        true
    }

    open spec fn from_spec(email: EmailMessage) -> SendRequest {
        SendRequest { msg: Some(Msg::Email(email)) }
    }
}

impl From<SmsMessage> for Msg {
    fn from(sms: SmsMessage) -> (msg: Msg) {
        Msg::Sms(sms)
    }
}

impl FromSpecImpl<SmsMessage> for Msg {
    open spec fn obeys_from_spec() -> bool {
        true
    }

    open spec fn from_spec(sms: SmsMessage) -> Msg {
        Msg::Sms(sms)
    }
}

impl From<SmsMessage> for SendRequest {
    fn from(sms: SmsMessage) -> (request: SendRequest) {
        SendRequest { msg: Some(Msg::Sms(sms)) }
    }
}

impl FromSpecImpl<SmsMessage> for SendRequest {
    open spec fn obeys_from_spec() -> bool {
        true
    }

    open spec fn from_spec(sms: SmsMessage) -> SendRequest {
        SendRequest { msg: Some(Msg::Sms(sms)) }
    }
}

impl From<InAppMessage> for Msg {
    fn from(in_app: InAppMessage) -> (msg: Msg) {
        Msg::InApp(in_app)
    }
}

impl FromSpecImpl<InAppMessage> for Msg {
    open spec fn obeys_from_spec() -> bool {
        true
    }

    open spec fn from_spec(in_app: InAppMessage) -> Msg {
        Msg::InApp(in_app)
    }
}

impl From<InAppMessage> for SendRequest {
    fn from(in_app: InAppMessage) -> (request: SendRequest) {
        SendRequest { msg: Some(Msg::InApp(in_app)) }
    }
}

impl FromSpecImpl<InAppMessage> for SendRequest {
    open spec fn obeys_from_spec() -> bool {
        true
    }

    open spec fn from_spec(in_app: InAppMessage) -> SendRequest {
        SendRequest { msg: Some(Msg::InApp(in_app)) }
    }
}

impl EmailMessage {
    /// A made-up email with a fresh id, one recipient and a fixed
    /// greeting.
    pub fn fake() -> (email: EmailMessage)
        ensures
            email.message_id@.len() == ID_LEN,
            email.recipients@.len() == 1,
            email.subject@ == "Hello"@,
            email.body@ == "Hello, world!"@,
    {
        let message_id = fresh_id();
        let sender = safe_email();
        let mut recipients: Vec<String> = Vec::new();
        recipients.push(safe_email());
        EmailMessage {
            message_id,
            sender,
            recipients,
            subject: String::from_str("Hello"),
            body: String::from_str("Hello, world!"),
        }
    }
}

impl SmsMessage {
    /// A made-up text message with a fresh id, one recipient and a
    /// fixed greeting.
    pub fn fake() -> (sms: SmsMessage)
        ensures
            sms.message_id@.len() == ID_LEN,
            sms.recipients@.len() == 1,
            sms.body@ == "Hello, world!"@,
    {
        let message_id = fresh_id();
        let sender = phone_number();
        let mut recipients: Vec<String> = Vec::new();
        recipients.push(phone_number());
        SmsMessage { message_id, sender, recipients, body: String::from_str("Hello, world!") }
    }
}

impl InAppMessage {
    /// A made-up in-app message with a fresh id, a fresh device id and a
    /// fixed greeting.
    pub fn fake() -> (in_app: InAppMessage)
        ensures
            in_app.message_id@.len() == ID_LEN,
            in_app.device_id@.len() == ID_LEN,
            in_app.title@ == "Hello"@,
            in_app.body@ == "Hello, world!"@,
    {
        let message_id = fresh_id();
        let device_id = fresh_id();
        InAppMessage {
            message_id,
            device_id,
            title: String::from_str("Hello"),
            body: String::from_str("Hello, world!"),
        }
    }
}

impl SendRequest {
    /// The request to send an email about `contents` under a fresh id.
    pub fn new(subject: String, sender: String, recipients: &[String], contents: &[Content]) -> (request:
        SendRequest)
        ensures
            request.msg matches Some(Msg::Email(email)) && {
                &&& email.message_id@.len() == ID_LEN
                &&& email.subject == subject
                &&& email.sender == sender
                &&& email.recipients@ == recipients@
                &&& email.body@ == Tpl::body(contents@)
            },
    {
        let body = Tpl(contents).to_body();
        let mut to: Vec<String> = Vec::new();
        let mut i: usize = 0;
        while i < recipients.len()
            invariant
                i <= recipients.len(),
                to@ =~= recipients@.take(i as int),
            decreases recipients.len() - i,
        {
            to.push(recipients[i].clone());
            i += 1;
        }
        assert(recipients@.take(i as int) =~= recipients@);
        SendRequest {
            msg: Some(
                Msg::Email(EmailMessage { message_id: fresh_id(), subject, sender, recipients: to, body }),
            ),
        }
    }
}

} // verus!
