//! The client of the e-mail provider: it turns a message for a validated
//! recipient into one HTTP request, and the provider's reply into a result.
//! The request itself is carried out by whoever owns the network.

use crate::domain::subscriber_email::is_valid_email;
use crate::domain::SubscriberEmail;
use crate::json::{json_member, push_json_member};
use crate::secret::{secret_text, SecretText};
use std::time::Duration;
use vstd::prelude::*;

verus! {

/// A transactional message, as plain text.
pub struct EmailMessageView {
    pub from: Seq<char>,
    pub to: Seq<char>,
    pub subject: Seq<char>,
    pub html_body: Seq<char>,
    pub text_body: Seq<char>,
}

/// A transactional message. It lives for one call of `send`.
pub struct EmailMessage {
    pub from: String,
    pub to: String,
    pub subject: String,
    pub html_body: String,
    pub text_body: String,
}

impl View for EmailMessage {
    type V = EmailMessageView;

    open spec fn view(&self) -> EmailMessageView {
        EmailMessageView {
            from: self.from@,
            to: self.to@,
            subject: self.subject@,
            html_body: self.html_body@,
            text_body: self.text_body@,
        }
    }
}

/// The body that the provider expects for `message`: one JSON object with
/// the members `From`, `To`, `Subject`, `HtmlBody` and `TextBody`, in this
/// order and with these capitals.
pub open spec fn message_json(message: EmailMessageView) -> Seq<char> {
    seq!['{'] + json_member("From"@, message.from) + seq![','] + json_member("To"@, message.to)
        + seq![','] + json_member("Subject"@, message.subject) + seq![','] + json_member(
        "HtmlBody"@,
        message.html_body,
    ) + seq![','] + json_member("TextBody"@, message.text_body) + seq!['}']
}

impl EmailMessage {
    /// Writes the message as the provider's JSON object.
    pub fn to_json(&self) -> (body: String)
        ensures
            body@ == message_json(self@),
    {
        let mut body = String::new();
        body.push('{');
        push_json_member(&mut body, "From", self.from.as_str());
        body.push(',');
        push_json_member(&mut body, "To", self.to.as_str());
        body.push(',');
        push_json_member(&mut body, "Subject", self.subject.as_str());
        body.push(',');
        push_json_member(&mut body, "HtmlBody", self.html_body.as_str());
        body.push(',');
        push_json_member(&mut body, "TextBody", self.text_body.as_str());
        body.push('}');
        assert(body@ =~= message_json(self@));
        body
    }
}

/// The HTTP method of a request. The provider is only ever posted to.
#[derive(Debug, Clone, Copy, PartialEq, Eq, Structural)]
pub enum Method {
    Post,
}

/// One header of a request, as plain text.
pub struct HeaderView {
    pub name: Seq<char>,
    pub value: Seq<char>,
}

/// One header of a request.
pub struct Header {
    pub name: String,
    pub value: String,
}

impl View for Header {
    type V = HeaderView;

    open spec fn view(&self) -> HeaderView {
        HeaderView { name: self.name@, value: self.value@ }
    }
}

/// A request, as plain values.
pub struct HttpRequestView {
    pub method: Method,
    pub url: Seq<char>,
    pub headers: Seq<HeaderView>,
    pub body: Seq<char>,
    pub timeout: Duration,
}

/// Everything that the transport needs for one attempt. It holds the
/// provider's token in the clear, so it is neither printed nor kept.
pub struct HttpRequest {
    pub method: Method,
    pub url: String,
    pub headers: Vec<Header>,
    pub body: String,
    /// The time after which the attempt is given up.
    pub timeout: Duration,
}

impl View for HttpRequest {
    type V = HttpRequestView;

    open spec fn view(&self) -> HttpRequestView {
        HttpRequestView {
            method: self.method,
            url: self.url@,
            headers: self.headers@.map_values(|h: Header| h@),
            body: self.body@,
            timeout: self.timeout,
        }
    }
}

/// What became of one attempt.
#[derive(Debug, Clone, Copy, PartialEq, Eq, Structural)]
pub enum Reply {
    /// The provider answered in time, with this status code.
    Status(u16),
    /// No answer came before the timeout.
    TimedOut,
    /// The request never got through: no connection, no address, and the like.
    Failed,
}

/// Why a message was not delivered.
#[derive(Debug, Clone, Copy, PartialEq, Eq, Structural)]
pub enum DeliveryError {
    /// The request never got through.
    Transport,
    /// No answer came before the timeout.
    Timeout,
    /// The provider answered with this status code, which is not a 2xx.
    Status(u16),
}

/// Whether `code` is in the success range, 200 to 299.
pub open spec fn is_success(code: u16) -> bool {
    200 <= code <= 299
}

/// The result of a delivery whose attempt ended in `reply`: a success for a
/// 2xx answer that came in time, and a failure for everything else.
pub open spec fn delivery_outcome(reply: Reply) -> Result<(), DeliveryError> {
    match reply {
        Reply::Status(code) => if is_success(code) {
            Ok(())
        } else {
            Err(DeliveryError::Status(code))
        },
        Reply::TimedOut => Err(DeliveryError::Timeout),
        Reply::Failed => Err(DeliveryError::Transport),
    }
}

/// The settings of a client, as plain values.
pub struct EmailClientView {
    pub sender: Seq<char>,
    pub base_url: Seq<char>,
    pub auth_token: Seq<char>,
    pub timeout: Duration,
}

/// The message that `client` sends to `recipient`.
pub open spec fn message_for(
    client: EmailClientView,
    recipient: Seq<char>,
    subject: Seq<char>,
    html_body: Seq<char>,
    text_body: Seq<char>,
) -> EmailMessageView {
    EmailMessageView { from: client.sender, to: recipient, subject, html_body, text_body }
}

/// The request by which `client` hands `message` to the provider: a POST to
/// `<base_url>/email` that carries the token and the content type, with the
/// message as its JSON body, bounded by the client's timeout.
pub open spec fn request_for(client: EmailClientView, message: EmailMessageView) -> HttpRequestView {
    HttpRequestView {
        method: Method::Post,
        url: client.base_url + "/email"@,
        headers: seq![
            HeaderView { name: "X-Postmark-Server-Token"@, value: client.auth_token },
            HeaderView { name: "Content-Type"@, value: "application/json"@ },
        ],
        body: message_json(message),
        timeout: client.timeout,
    }
}

/// The provider's client: who sends, where to, with which token, and how
/// long an attempt may take. It is set up once and never changed.
pub struct EmailClient {
    sender: SubscriberEmail,
    base_url: String,
    auth_token: SecretText,
    timeout: Duration,
}

impl View for EmailClient {
    type V = EmailClientView;

    closed spec fn view(&self) -> EmailClientView {
        EmailClientView {
            sender: self.sender@,
            base_url: self.base_url@,
            auth_token: secret_text(self.auth_token),
            timeout: self.timeout,
        }
    }
}

impl EmailClient {
    /// A client that sends as `sender` through the provider at `base_url`.
    pub fn new(
        sender: SubscriberEmail,
        base_url: String,
        auth_token: SecretText,
        timeout: Duration,
    ) -> (client: EmailClient)
        ensures
            client@ == (EmailClientView {
                sender: sender@,
                base_url: base_url@,
                auth_token: secret_text(auth_token),
                timeout,
            }),
    {
        EmailClient { sender, base_url, auth_token, timeout }
    }

    /// The message from this client's sender to `recv`.
    pub fn message(
        &self,
        recv: &SubscriberEmail,
        subject: &str,
        html_body: &str,
        text_body: &str,
    ) -> (message: EmailMessage)
        ensures
            message@ == message_for(self@, recv@, subject@, html_body@, text_body@),
            is_valid_email(message@.from),
            is_valid_email(message@.to),
    {
        EmailMessage {
            from: self.sender.as_ref().to_owned(),
            to: recv.as_ref().to_owned(),
            subject: subject.to_owned(),
            html_body: html_body.to_owned(),
            text_body: text_body.to_owned(),
        }
    }

    /// The one request that delivers `message`.
    pub fn request(&self, message: &EmailMessage) -> (request: HttpRequest)
        ensures
            request@ == request_for(self@, message@),
    {
        let mut url = self.base_url.clone();
        url.append("/email");
        let mut headers: Vec<Header> = Vec::new();
        headers.push(
            Header {
                name: "X-Postmark-Server-Token".to_owned(),
                value: self.auth_token.expose().to_owned(),
            },
        );
        headers.push(
            Header { name: "Content-Type".to_owned(), value: "application/json".to_owned() },
        );
        let request = HttpRequest {
            method: Method::Post,
            url,
            headers,
            body: message.to_json(),
            timeout: self.timeout,
        };
        assert(request@.headers =~= request_for(self@, message@).headers);
        request
    }

    /// Judges the reply to the one attempt: only a 2xx answer that came in
    /// time is a success.
    pub fn outcome(reply: Reply) -> (r: Result<(), DeliveryError>)
        ensures
            r == delivery_outcome(reply),
    {
        match reply {
            Reply::Status(code) => if 200 <= code && code <= 299 {
                Ok(())
            } else {
                Err(DeliveryError::Status(code))
            },
            Reply::TimedOut => Err(DeliveryError::Timeout),
            Reply::Failed => Err(DeliveryError::Transport),
        }
    }

    /// Sends one message to `recv` through `transport`, which carries out a
    /// request and reports what became of it. The transport is called once,
    /// with the request for this message, and its report decides the result:
    /// there is no second attempt.
    pub fn send<T: FnOnce(HttpRequest) -> Reply>(
        &self,
        recv: SubscriberEmail,
        subject: &str,
        html_body: &str,
        text_body: &str,
        transport: T,
    ) -> (r: Result<(), DeliveryError>)
        requires
            forall|request: HttpRequest|
                request@ == request_for(
                    self@,
                    message_for(self@, recv@, subject@, html_body@, text_body@),
                ) ==> call_requires(transport, (request,)),
        ensures
            exists|request: HttpRequest, reply: Reply|
                {
                    &&& request@ == request_for(
                        self@,
                        message_for(self@, recv@, subject@, html_body@, text_body@),
                    )
                    &&& call_ensures(transport, (request,), reply)
                    &&& r == delivery_outcome(reply)
                },
    {
        let message = self.message(&recv, subject, html_body, text_body);
        let request = self.request(&message);
        let ghost sent = request;
        let reply = transport(request);
        assert(call_ensures(transport, (sent,), reply));
        Self::outcome(reply)
    }
}

/// A delivery succeeds exactly when the provider answered in time with a
/// status from 200 to 299.
pub proof fn law_success_is_a_2xx_in_time(reply: Reply)
    ensures
        delivery_outcome(reply) is Ok <==> (reply matches Reply::Status(code) && 200 <= code
            <= 299),
{
}

/// A failed delivery says what failed: the status that was no 2xx, the
/// timeout, or the transport.
pub proof fn law_failure_names_its_cause(reply: Reply)
    ensures
        reply matches Reply::Status(code) ==> (!is_success(code) ==> delivery_outcome(reply) == Err::<
            (),
            DeliveryError,
        >(DeliveryError::Status(code))),
        reply == Reply::TimedOut ==> delivery_outcome(reply) == Err::<(), DeliveryError>(
            DeliveryError::Timeout,
        ),
        reply == Reply::Failed ==> delivery_outcome(reply) == Err::<(), DeliveryError>(
            DeliveryError::Transport,
        ),
{
}

impl Clone for EmailClient {
    fn clone(&self) -> (copy: EmailClient)
        ensures
            copy@ == self@,
    {
        EmailClient {
            sender: self.sender.clone(),
            base_url: self.base_url.clone(),
            auth_token: self.auth_token.clone(),
            timeout: self.timeout,
        }
    }
}

} // verus!
