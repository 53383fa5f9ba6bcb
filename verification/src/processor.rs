//! The command processor: what to write to the store for each delivered
//! envelope.
//!
//! Identifiers and timestamps are assigned here, when a Put is applied, and
//! never taken from the client. The bus delivers at least once, so the same
//! envelope may be applied again: each application of a Put draws a new
//! identifier and makes a record of its own.

use crate::envelope::CommandView;
use crate::envelope::MessageCommand;
use crate::envelope::MessageCommandType;
use crate::message::Message;
use crate::message::MessageView;
use crate::records::keep_parsed;
use crate::records::parsed;
use crate::store::StoreOp;
use crate::store::StoreOpView;
use crate::store::Table;
use vstd::prelude::*;

verus! {

/// A lower-case hexadecimal digit.
pub open spec fn is_lower_hex(c: char) -> bool {
    ('0' <= c && c <= '9') || ('a' <= c && c <= 'f')
}

/// The shape of a generated identifier: a random (version 4) UUID in its
/// hyphenated lower-case form, `xxxxxxxx-xxxx-4xxx-yxxx-xxxxxxxxxxxx` with
/// `y` one of `8`, `9`, `a`, `b`.
pub open spec fn is_generated_id(text: Seq<char>) -> bool {
    &&& text.len() == 36
    &&& forall|i: int|
        0 <= i < 36 ==> if i == 8 || i == 13 || i == 18 || i == 23 {
            #[trigger] text[i] == '-'
        } else {
            is_lower_hex(text[i])
        }
    &&& text[14] == '4'
    &&& (text[19] == '8' || text[19] == '9' || text[19] == 'a' || text[19] == 'b')
}

/// The shape of a creation timestamp: RFC 3339 text for a time in UTC,
/// which is at least a date, a time to the second and the offset `+00:00`.
pub open spec fn is_utc_timestamp(text: Seq<char>) -> bool {
    &&& text.len() >= 25
    &&& text.subrange(text.len() - 6, text.len() as int) == seq!['+', '0', '0', ':', '0', '0']
}

/// The write for a command, given the identifier and timestamp to assign.
/// A Put becomes a full record; a Delete needs neither.
pub open spec fn applied(
    command: CommandView,
    message_id: Seq<char>,
    timestamp: Seq<char>,
) -> StoreOpView {
    match command {
        CommandView::Put { from, subject, contents } => StoreOpView::Put {
            record: MessageView { message_id, from, subject, contents, timestamp },
        },
        CommandView::Delete { message_id: target } => StoreOpView::Delete { message_id: target },
    }
}

/// Whether `op` is a write that the processor may make for `command`: the
/// command applied with some generated identifier and some UTC timestamp.
pub open spec fn handled(command: CommandView, op: StoreOpView) -> bool {
    match command {
        CommandView::Put { .. } => {
            &&& op matches StoreOpView::Put { record }
            &&& op == applied(command, record.message_id, record.timestamp)
            &&& is_generated_id(record.message_id)
            &&& is_utc_timestamp(record.timestamp)
        },
        CommandView::Delete { message_id } => op == (StoreOpView::Delete { message_id }),
    }
}

/// Draws a new identifier: calls `uuid::Uuid::new_v4` and renders the
/// result with the `Display` impl of `uuid::Uuid`.
///
/// Trusted: the text is the hyphenated lower-case form of a version 4
/// UUID. Nothing is claimed about which one; two calls may or may not
/// differ as far as this contract goes. The call panics if the operating
/// system cannot supply random bytes.
#[verifier::external_body]
fn generate_message_id() -> (message_id: String)
    ensures
        is_generated_id(message_id@),
{
    uuid::Uuid::new_v4().to_string()
}

/// Reads the clock: calls `chrono::Utc::now` and renders the result with
/// `chrono::DateTime::to_rfc3339`.
///
/// Trusted: the text is at least 25 characters long and ends in `+00:00`.
/// Nothing is claimed about which time it names. The call panics if the
/// system clock is set before 1970.
#[verifier::external_body]
fn current_timestamp() -> (timestamp: String)
    ensures
        is_utc_timestamp(timestamp@),
{
    chrono::Utc::now().to_rfc3339()
}

/// Turns a command into the write that applies it, assigning the given
/// identifier and timestamp to the record of a Put. For a Delete both are
/// left unused.
pub fn apply_command(command: MessageCommand, message_id: String, timestamp: String) -> (op:
    StoreOp)
    ensures
        op@ == applied(command@, message_id@, timestamp@),
{
    match command.command {
        MessageCommandType::Put { from, subject, contents } => StoreOp::Put {
            record: Message { message_id, from, subject, contents, timestamp },
        },
        MessageCommandType::Delete { message_id: target } => StoreOp::Delete { message_id: target },
    }
}

/// Decides the write for one delivered envelope.
///
/// A Put is given a newly generated identifier and the current time, and
/// becomes an unconditional insert of the full record. A Delete becomes an
/// unconditional removal; whether the identifier exists is not looked at.
pub fn handle_message(message: MessageCommand) -> (op: StoreOp)
    ensures
        handled(message@, op@),
{
    match message.command {
        MessageCommandType::Put { from, subject, contents } => {
            let message_id = generate_message_id();
            let timestamp = current_timestamp();
            apply_command(
                MessageCommand { command: MessageCommandType::Put { from, subject, contents } },
                message_id,
                timestamp,
            )
        },
        MessageCommandType::Delete { message_id } => StoreOp::Delete { message_id },
    }
}

/// Decides the writes for one delivered batch.
///
/// Each bus record either parsed as an envelope or did not. The ones that
/// did not are dropped; every other envelope gets its write, in order of
/// delivery, each decided on its own.
pub fn process_batch(records: Vec<Option<MessageCommand>>) -> (ops: Vec<StoreOp>)
    ensures
        ops@.len() == parsed(records@).len(),
        forall|i: int|
            0 <= i < ops@.len() ==> handled((#[trigger] parsed(records@)[i])@, ops@[i]@),
{
    let messages = keep_parsed(records);
    let ghost accepted = messages@;
    let mut ops: Vec<StoreOp> = Vec::new();
    for message in it: messages
        invariant
            it.seq() == accepted,
            ops@.len() == it.index(),
            forall|i: int| 0 <= i < ops@.len() ==> handled((#[trigger] accepted[i])@, ops@[i]@),
    {
        let op = handle_message(message);
        ops.push(op);
    }
    ops
}

/// The processor adds an identifier and a timestamp and changes nothing
/// else: the record of a Put within the limits is within the limits.
pub proof fn lemma_applied_keeps_limits(
    command: CommandView,
    message_id: Seq<char>,
    timestamp: Seq<char>,
)
    requires
        command is Put,
        command.within_limits(),
    ensures
        applied(command, message_id, timestamp) matches StoreOpView::Put { record }
            && record.within_limits(),
{
}

/// Applying one Put twice, as happens when the bus delivers it twice,
/// leaves two records that agree in sender, subject and contents, one under
/// each of the two identifiers drawn.
pub proof fn lemma_redelivered_put_makes_two_records(
    table: Table,
    command: CommandView,
    first_id: Seq<char>,
    first_time: Seq<char>,
    second_id: Seq<char>,
    second_time: Seq<char>,
)
    requires
        command is Put,
        first_id != second_id,
    ensures
        ({
            let first = applied(command, first_id, first_time);
            let second = applied(command, second_id, second_time);
            let after = second.run(first.run(table));
            &&& after.dom().contains(first_id)
            &&& after.dom().contains(second_id)
            &&& after[first_id] != after[second_id]
            &&& after[first_id].message_id == first_id
            &&& after[second_id].message_id == second_id
            &&& after[first_id].from == after[second_id].from
            &&& after[first_id].subject == after[second_id].subject
            &&& after[first_id].contents == after[second_id].contents
            &&& after[first_id].timestamp == first_time
            &&& after[second_id].timestamp == second_time
        }),
{
}

/// With identifiers that are new to a finite table, applying one Put twice
/// grows the table by two records.
pub proof fn lemma_redelivered_put_grows_by_two(
    table: Table,
    command: CommandView,
    first_id: Seq<char>,
    first_time: Seq<char>,
    second_id: Seq<char>,
    second_time: Seq<char>,
)
    requires
        command is Put,
        table.dom().finite(),
        first_id != second_id,
        !table.dom().contains(first_id),
        !table.dom().contains(second_id),
    ensures
        ({
            let first = applied(command, first_id, first_time);
            let second = applied(command, second_id, second_time);
            let after = second.run(first.run(table));
            &&& after.dom().finite()
            &&& after.dom().len() == table.dom().len() + 2
        }),
{
}

/// Applying a Delete for an identifier that is not stored is a write like
/// any other and leaves the table as it was.
pub proof fn lemma_delete_unknown_succeeds(
    table: Table,
    message_id: Seq<char>,
    any_id: Seq<char>,
    any_time: Seq<char>,
)
    requires
        !table.dom().contains(message_id),
    ensures
        ({
            let op = applied(CommandView::Delete { message_id }, any_id, any_time);
            &&& op == (StoreOpView::Delete { message_id })
            &&& op.run(table) == table
        }),
{
    assert(table.remove(message_id) =~= table);
}

} // verus!
