//! A message command pipeline: an ingress gateway turns HTTP requests into
//! command envelopes, and a command processor turns delivered envelopes into
//! writes on a key-value message store.
//!
//! Every decision of the pipeline is a function from plain values to plain
//! values, stated over mathematical views and proved by Verus. Transport
//! (HTTP, the command bus, the store) stays with the caller.

pub mod envelope;
pub mod gateway;
pub mod message;
pub mod pipeline;
pub mod processor;
pub mod records;
pub mod store;
pub mod text;

pub use crate::envelope::MessageCommand;
pub use crate::envelope::MessageCommandType;
pub use crate::gateway::get_message;
pub use crate::gateway::list_messages;
pub use crate::message::Message;
pub use crate::message::MessageHead;
pub use crate::message::MessageRequest;
pub use crate::text::truncate;
