//! The ingress gateway: what to do with one HTTP request.
//!
//! The gateway decides, the caller acts. [`route`] reads a request and names
//! the next step; for a creation, the caller parses the body and [`create`]
//! names the step after that. Mutations are only ever published as command
//! envelopes: the gateway reads the store and never writes it.

use crate::envelope::CommandView;
use crate::envelope::MessageCommand;
use crate::envelope::MessageCommandType;
use crate::message::Message;
use crate::message::MessageHead;
use crate::message::MessageRequest;
use crate::message::MessageRequestView;
use crate::message::CONTENTS_LIMIT;
use crate::message::FROM_LIMIT;
use crate::message::SUBJECT_LIMIT;
use crate::records::keep_parsed;
use crate::records::parsed;
use crate::text::truncate;
use crate::text::truncated;
use vstd::prelude::*;
use vstd::string::StrSliceExecFns;
use vstd::string::StringExecFns;

verus! {

/// The status of every response, whatever the outcome.
pub const STATUS_OK: u16 = 200;

/// The request methods the gateway tells apart.
#[derive(Debug, Clone, Copy, PartialEq, Eq)]
pub enum Method {
    Get,
    Post,
    Delete,
    /// Any other method.
    Other,
}

/// A request body as the HTTP trigger delivers it.
#[derive(Debug, Clone, PartialEq, Eq)]
pub enum Body {
    Empty,
    Text(String),
    Binary(Vec<u8>),
}

/// A request body as mathematical values.
pub enum BodyView {
    Empty,
    Text(Seq<char>),
    Binary(Seq<u8>),
}

impl View for Body {
    type V = BodyView;

    open spec fn view(&self) -> BodyView {
        match *self {
            Body::Empty => BodyView::Empty,
            Body::Text(text) => BodyView::Text(text@),
            Body::Binary(bytes) => BodyView::Binary(bytes@),
        }
    }
}

/// The fixed acknowledgments and refusals. Each one is sent with the same
/// success status: the body alone tells them apart.
#[derive(Debug, Clone, Copy, PartialEq, Eq)]
pub enum Reply {
    MessageSent,
    QueuedForDeletion,
    InvalidMessageId,
    InvalidRequestBody,
    UnsupportedMethod,
}

impl Reply {
    /// The sentence this reply carries.
    pub open spec fn message_text(self) -> Seq<char> {
        match self {
            Reply::MessageSent => "Message sent"@,
            Reply::QueuedForDeletion => "Message queued for deletion"@,
            Reply::InvalidMessageId => "Invalid message ID"@,
            Reply::InvalidRequestBody => "Invalid request body type"@,
            Reply::UnsupportedMethod => "Unsupported method"@,
        }
    }

    /// The response body: a JSON object with the sentence under `message`.
    pub open spec fn body_text(self) -> Seq<char> {
        "{\"message\":\""@ + self.message_text() + "\"}"@
    }

    /// The sentence this reply carries.
    pub fn message(&self) -> (text: &'static str)
        ensures
            text@ == self.message_text(),
    {
        match self {
            Reply::MessageSent => "Message sent",
            Reply::QueuedForDeletion => "Message queued for deletion",
            Reply::InvalidMessageId => "Invalid message ID",
            Reply::InvalidRequestBody => "Invalid request body type",
            Reply::UnsupportedMethod => "Unsupported method",
        }
    }

    /// The response body as JSON text.
    pub fn body(&self) -> (json: String)
        ensures
            json@ == self.body_text(),
    {
        let mut json = String::from_str("{\"message\":\"");
        json.append(self.message());
        json.append("\"}");
        json
    }
}

/// What the gateway sends back.
#[derive(Debug, Clone, PartialEq, Eq)]
pub struct HttpResponse {
    pub status: u16,
    pub content_type: String,
    pub body: String,
}

/// Wraps a JSON body into a response. Success and refusal alike go out with
/// status 200 and the JSON content type.
pub fn respond(body: String) -> (response: HttpResponse)
    ensures
        response.status == STATUS_OK,
        response.content_type@ == "application/json"@,
        response.body@ == body@,
{
    HttpResponse { status: STATUS_OK, content_type: String::from_str("application/json"), body }
}

/// The next thing to do for a request.
#[derive(Debug, Clone, PartialEq, Eq)]
pub enum Step {
    /// Scan the store and answer with [`list_messages`].
    List,
    /// Look this identifier up in the store and answer with [`get_message`].
    Get { message_id: String },
    /// Parse this text as a creation payload and go on with [`create`].
    Create { body: String },
    /// Publish the envelope once, then send the reply.
    Publish { command: MessageCommand, reply: Reply },
    /// Send the reply; nothing else happens.
    Respond { reply: Reply },
}

/// A step as mathematical values.
pub enum StepView {
    List,
    Get { message_id: Seq<char> },
    Create { body: Seq<char> },
    Publish { command: CommandView, reply: Reply },
    Respond { reply: Reply },
}

impl StepView {
    /// The envelopes that this step puts on the bus.
    pub open spec fn published(self) -> Seq<CommandView> {
        match self {
            StepView::Publish { command, .. } => seq![command],
            _ => Seq::empty(),
        }
    }

    /// Whether this step reads the store. No step writes it.
    pub open spec fn reads_store(self) -> bool {
        self is List || self is Get
    }
}

impl View for Step {
    type V = StepView;

    open spec fn view(&self) -> StepView {
        match *self {
            Step::List => StepView::List,
            Step::Get { message_id } => StepView::Get { message_id: message_id@ },
            Step::Create { body } => StepView::Create { body: body@ },
            Step::Publish { command, reply } => StepView::Publish { command: command@, reply },
            Step::Respond { reply } => StepView::Respond { reply },
        }
    }
}

/// The identifier that a path names: everything after the leading slash,
/// verbatim. A path without a leading slash names none.
pub open spec fn identifier_of(path: Seq<char>) -> Option<Seq<char>> {
    if path.len() > 0 && path[0] == '/' {
        Some(path.subrange(1, path.len() as int))
    } else {
        None
    }
}

/// The envelope for a creation payload: each field clipped to its limit.
pub open spec fn put_of(request: MessageRequestView) -> CommandView {
    CommandView::Put {
        from: truncated(request.from, FROM_LIMIT as nat),
        subject: truncated(request.subject, SUBJECT_LIMIT as nat),
        contents: truncated(request.contents, CONTENTS_LIMIT as nat),
    }
}

/// The step for a request, by method and path.
pub open spec fn routed(method: Method, path: Seq<char>, body: BodyView) -> StepView {
    match method {
        Method::Get => if path == seq!['/'] {
            StepView::List
        } else {
            match identifier_of(path) {
                Some(message_id) => StepView::Get { message_id },
                None => StepView::Respond { reply: Reply::InvalidMessageId },
            }
        },
        Method::Post => match body {
            BodyView::Text(text) => StepView::Create { body: text },
            _ => StepView::Respond { reply: Reply::InvalidRequestBody },
        },
        Method::Delete => match identifier_of(path) {
            Some(message_id) => StepView::Publish {
                command: CommandView::Delete { message_id },
                reply: Reply::QueuedForDeletion,
            },
            None => StepView::Respond { reply: Reply::InvalidMessageId },
        },
        Method::Other => StepView::Respond { reply: Reply::UnsupportedMethod },
    }
}

/// The step after the body of a creation was parsed: publish the envelope
/// for a payload, refuse a body that did not parse.
pub open spec fn created(payload: Option<MessageRequestView>) -> StepView {
    match payload {
        Some(request) => StepView::Publish { command: put_of(request), reply: Reply::MessageSent },
        None => StepView::Respond { reply: Reply::InvalidRequestBody },
    }
}

/// The steps the gateway takes for one request, in order. `payload` is what
/// parsing the body gave, for the one request that has its body parsed: a
/// `POST` with a text body.
pub open spec fn steps_for(
    method: Method,
    path: Seq<char>,
    body: BodyView,
    payload: Option<MessageRequestView>,
) -> Seq<StepView> {
    let first = routed(method, path, body);
    if first is Create {
        seq![first, created(payload)]
    } else {
        seq![first]
    }
}

/// The envelopes that a sequence of steps puts on the bus, in order.
pub open spec fn published_by(steps: Seq<StepView>) -> Seq<CommandView>
    decreases steps.len(),
{
    if steps.len() == 0 {
        Seq::empty()
    } else {
        published_by(steps.drop_last()) + steps.last().published()
    }
}

/// The identifier that `path` names, if it has a leading slash.
pub fn identifier(path: &str) -> (message_id: Option<&str>)
    ensures
        match message_id {
            Some(id) => identifier_of(path@) == Some(id@),
            None => identifier_of(path@) is None,
        },
{
    let length = path.unicode_len();
    if length > 0 && path.get_char(0) == '/' {
        Some(path.substring_char(1, length))
    } else {
        None
    }
}

/// Builds the Put envelope for a creation payload. Fields over their limit
/// are clipped silently; nothing else is checked.
pub fn put_command(request: &MessageRequest) -> (command: MessageCommand)
    ensures
        command@ == put_of(request@),
        command@.within_limits(),
{
    MessageCommand {
        command: MessageCommandType::Put {
            from: truncate(request.from.as_str(), FROM_LIMIT).to_owned(),
            subject: truncate(request.subject.as_str(), SUBJECT_LIMIT).to_owned(),
            contents: truncate(request.contents.as_str(), CONTENTS_LIMIT).to_owned(),
        },
    }
}

/// Builds the Delete envelope for an identifier, taken verbatim. Whether a
/// message with that identifier exists is not looked at.
pub fn delete_command(message_id: &str) -> (command: MessageCommand)
    ensures
        command@ == (CommandView::Delete { message_id: message_id@ }),
{
    MessageCommand { command: MessageCommandType::Delete { message_id: message_id.to_owned() } }
}

/// Names the step for a request.
///
/// `GET /` lists, `GET /{id}` looks one identifier up, `POST` with a text
/// body asks for that body to be parsed, `DELETE /{id}` publishes a Delete
/// envelope. Anything else is answered with a fixed refusal.
pub fn route(method: Method, path: &str, body: Body) -> (step: Step)
    ensures
        step@ == routed(method, path@, body@),
{
    match method {
        Method::Get => {
            match identifier(path) {
                Some(message_id) => {
                    if message_id.unicode_len() == 0 {
                        assert(path@ =~= seq!['/']);
                        Step::List
                    } else {
                        assert(path@ != seq!['/']);
                        Step::Get { message_id: message_id.to_owned() }
                    }
                },
                None => {
                    assert(path@ != seq!['/']);
                    Step::Respond { reply: Reply::InvalidMessageId }
                },
            }
        },
        Method::Post => {
            match body {
                Body::Text(text) => Step::Create { body: text },
                _ => Step::Respond { reply: Reply::InvalidRequestBody },
            }
        },
        Method::Delete => {
            match identifier(path) {
                Some(message_id) => Step::Publish {
                    command: delete_command(message_id),
                    reply: Reply::QueuedForDeletion,
                },
                None => Step::Respond { reply: Reply::InvalidMessageId },
            }
        },
        Method::Other => Step::Respond { reply: Reply::UnsupportedMethod },
    }
}

/// Names the step after the body of a creation was parsed. A payload is
/// published as one Put envelope; a body that did not parse is refused and
/// nothing is published.
pub fn create(payload: Option<MessageRequest>) -> (step: Step)
    ensures
        step@ == created(
            match payload {
                Some(request) => Some(request@),
                None => None,
            },
        ),
{
    match payload {
        Some(request) => Step::Publish {
            command: put_command(&request),
            reply: Reply::MessageSent,
        },
        None => Step::Respond { reply: Reply::InvalidRequestBody },
    }
}

/// The listing for a scan of the store. Each scanned item either parsed as
/// a listing entry or did not; the ones that did not are skipped, and a
/// scan that returned no items at all gives the empty listing.
pub fn list_messages(scanned: Option<Vec<Option<MessageHead>>>) -> (messages: Vec<MessageHead>)
    ensures
        messages@ == match scanned {
            Some(items) => parsed(items@),
            None => Seq::empty(),
        },
{
    match scanned {
        Some(items) => keep_parsed(items),
        None => Vec::new(),
    }
}

/// The answer to a lookup. It is a collection even though one identifier
/// names at most one message; a lookup that returned no items at all gives
/// the empty collection.
pub fn get_message(found: Option<Vec<Message>>) -> (messages: Vec<Message>)
    ensures
        messages@ == match found {
            Some(items) => items@,
            None => Seq::empty(),
        },
{
    match found {
        Some(items) => items,
        None => Vec::new(),
    }
}

} // verus!
