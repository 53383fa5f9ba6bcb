//! The command envelope: the self-contained unit of intent that travels
//! from the gateway to the processor.

use crate::message::CONTENTS_LIMIT;
use crate::message::FROM_LIMIT;
use crate::message::SUBJECT_LIMIT;
use vstd::prelude::*;

verus! {

/// The two mutations a client can ask for. A closed sum: whoever applies a
/// command matches on every variant.
#[derive(Debug, Clone, PartialEq, Eq)]
pub enum MessageCommandType {
    /// Store a new message. Identifier and timestamp are assigned by the
    /// processor when it applies the command.
    Put { from: String, subject: String, contents: String },
    /// Remove the message with this identifier, if there is one.
    Delete { message_id: String },
}

/// A command as mathematical text.
pub enum CommandView {
    Put { from: Seq<char>, subject: Seq<char>, contents: Seq<char> },
    Delete { message_id: Seq<char> },
}

impl CommandView {
    /// Whether the text fields of a Put are within the message limits. A
    /// Delete carries an identifier only, which has no limit.
    pub open spec fn within_limits(self) -> bool {
        match self {
            CommandView::Put { from, subject, contents } => {
                &&& from.len() <= FROM_LIMIT
                &&& subject.len() <= SUBJECT_LIMIT
                &&& contents.len() <= CONTENTS_LIMIT
            },
            CommandView::Delete { .. } => true,
        }
    }
}

impl View for MessageCommandType {
    type V = CommandView;

    open spec fn view(&self) -> CommandView {
        match *self {
            MessageCommandType::Put { from, subject, contents } => CommandView::Put {
                from: from@,
                subject: subject@,
                contents: contents@,
            },
            MessageCommandType::Delete { message_id } => CommandView::Delete {
                message_id: message_id@,
            },
        }
    }
}

/// The envelope carried on the command bus.
#[derive(Debug, Clone, PartialEq, Eq)]
pub struct MessageCommand {
    pub command: MessageCommandType,
}

impl View for MessageCommand {
    type V = CommandView;

    open spec fn view(&self) -> CommandView {
        self.command@
    }
}

} // verus!
