//! The durable message record, its listing projection, and the creation
//! payload that clients submit.

use vstd::prelude::*;
use vstd::std_specs::convert::FromSpecImpl;

verus! {

/// The most characters of a sender label that a message carries.
pub const FROM_LIMIT: usize = 255;

/// The most characters of a subject that a message carries.
pub const SUBJECT_LIMIT: usize = 255;

/// The most characters of a body that a message carries.
pub const CONTENTS_LIMIT: usize = 4096;

/// What a client submits to create a message. Every field is untrusted and
/// of any length.
#[derive(Debug, Clone, PartialEq, Eq)]
pub struct MessageRequest {
    pub from: String,
    pub subject: String,
    pub contents: String,
}

/// A creation payload as mathematical text.
pub struct MessageRequestView {
    pub from: Seq<char>,
    pub subject: Seq<char>,
    pub contents: Seq<char>,
}

impl View for MessageRequest {
    type V = MessageRequestView;

    open spec fn view(&self) -> MessageRequestView {
        MessageRequestView { from: self.from@, subject: self.subject@, contents: self.contents@ }
    }
}

/// A stored message. Identifier and timestamp are assigned when the record
/// is created, never by the client; the timestamp is RFC 3339 text.
#[derive(Debug, Clone, PartialEq, Eq)]
pub struct Message {
    pub message_id: String,
    pub from: String,
    pub subject: String,
    pub contents: String,
    pub timestamp: String,
}

/// A stored message as mathematical text.
pub struct MessageView {
    pub message_id: Seq<char>,
    pub from: Seq<char>,
    pub subject: Seq<char>,
    pub contents: Seq<char>,
    pub timestamp: Seq<char>,
}

impl MessageView {
    /// Whether sender, subject and contents are within their limits, counted
    /// in characters.
    pub open spec fn within_limits(self) -> bool {
        &&& self.from.len() <= FROM_LIMIT
        &&& self.subject.len() <= SUBJECT_LIMIT
        &&& self.contents.len() <= CONTENTS_LIMIT
    }

    /// The listing projection: every field but `contents`.
    pub open spec fn head(self) -> MessageHeadView {
        MessageHeadView {
            message_id: self.message_id,
            from: self.from,
            subject: self.subject,
            timestamp: self.timestamp,
        }
    }
}

impl View for Message {
    type V = MessageView;

    open spec fn view(&self) -> MessageView {
        MessageView {
            message_id: self.message_id@,
            from: self.from@,
            subject: self.subject@,
            contents: self.contents@,
            timestamp: self.timestamp@,
        }
    }
}

/// A message without its contents, as shown in listings.
#[derive(Debug, Clone, PartialEq, Eq)]
pub struct MessageHead {
    pub message_id: String,
    pub from: String,
    pub subject: String,
    pub timestamp: String,
}

/// A listing entry as mathematical text.
pub struct MessageHeadView {
    pub message_id: Seq<char>,
    pub from: Seq<char>,
    pub subject: Seq<char>,
    pub timestamp: Seq<char>,
}

impl View for MessageHead {
    type V = MessageHeadView;

    open spec fn view(&self) -> MessageHeadView {
        MessageHeadView {
            message_id: self.message_id@,
            from: self.from@,
            subject: self.subject@,
            timestamp: self.timestamp@,
        }
    }
}

impl From<Message> for MessageHead {
    /// Projects a message to its listing entry: identifier, sender, subject
    /// and timestamp are carried over, the contents are dropped.
    fn from(message: Message) -> (head: MessageHead)
        ensures
            head@ == message@.head(),
    {
        MessageHead {
            message_id: message.message_id,
            from: message.from,
            subject: message.subject,
            timestamp: message.timestamp,
        }
    }
}

impl FromSpecImpl<Message> for MessageHead {
    open spec fn obeys_from_spec() -> bool {
        true
    }

    open spec fn from_spec(message: Message) -> MessageHead {
        MessageHead {
            message_id: message.message_id,
            from: message.from,
            subject: message.subject,
            timestamp: message.timestamp,
        }
    }
}

/// A listing entry depends on nothing but the four fields it shows: two
/// messages that differ only in their contents have the same entry.
pub proof fn lemma_head_ignores_contents(a: MessageView, b: MessageView)
    requires
        a.message_id == b.message_id,
        a.from == b.from,
        a.subject == b.subject,
        a.timestamp == b.timestamp,
    ensures
        a.head() == b.head(),
{
}

} // verus!
