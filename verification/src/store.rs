//! The message store as the pipeline sees it: a table keyed by message
//! identifier, with string attributes, that is written only through
//! [`StoreOp`]s.
//!
//! The table itself lives elsewhere. This module fixes what is handed to it
//! and states, over a mathematical table, what each operation means.

use crate::message::Message;
use crate::message::MessageHeadView;
use crate::message::MessageView;
use vstd::prelude::*;
use vstd::string::StringExecFns;

verus! {

/// One named string attribute of a stored item.
#[derive(Debug, Clone, PartialEq, Eq)]
pub struct Attribute {
    pub name: String,
    pub value: String,
}

/// An attribute as mathematical text.
pub struct AttributeView {
    pub name: Seq<char>,
    pub value: Seq<char>,
}

impl View for Attribute {
    type V = AttributeView;

    open spec fn view(&self) -> AttributeView {
        AttributeView { name: self.name@, value: self.value@ }
    }
}

/// A write on the store.
#[derive(Debug, Clone, PartialEq, Eq)]
pub enum StoreOp {
    /// Insert the record under its identifier, whatever was there before.
    Put { record: Message },
    /// Remove whatever is stored under the identifier, if anything.
    Delete { message_id: String },
}

/// A write on the store as mathematical values.
pub enum StoreOpView {
    Put { record: MessageView },
    Delete { message_id: Seq<char> },
}

impl View for StoreOp {
    type V = StoreOpView;

    open spec fn view(&self) -> StoreOpView {
        match *self {
            StoreOp::Put { record } => StoreOpView::Put { record: record@ },
            StoreOp::Delete { message_id } => StoreOpView::Delete { message_id: message_id@ },
        }
    }
}

/// The store's contents: at most one record under each identifier.
pub type Table = Map<Seq<char>, MessageView>;

impl StoreOpView {
    /// The table after this write.
    pub open spec fn run(self, table: Table) -> Table {
        match self {
            StoreOpView::Put { record } => table.insert(record.message_id, record),
            StoreOpView::Delete { message_id } => table.remove(message_id),
        }
    }

    /// The attributes handed to the store: the whole item for a put, the
    /// key alone for a delete. The key comes first.
    pub open spec fn attributes(self) -> Seq<AttributeView> {
        match self {
            StoreOpView::Put { record } => seq![
                AttributeView { name: "message_id"@, value: record.message_id },
                AttributeView { name: "from"@, value: record.from },
                AttributeView { name: "subject"@, value: record.subject },
                AttributeView { name: "contents"@, value: record.contents },
                AttributeView { name: "timestamp"@, value: record.timestamp },
            ],
            StoreOpView::Delete { message_id } => seq![
                AttributeView { name: "message_id"@, value: message_id },
            ],
        }
    }
}

/// Every record is stored under its own identifier.
pub open spec fn well_keyed(table: Table) -> bool {
    forall|message_id: Seq<char>| #[trigger]
        table.dom().contains(message_id) ==> table[message_id].message_id == message_id
}

/// What a scan of the table lists: the head of every record, in no order.
pub open spec fn listing(table: Table) -> Set<MessageHeadView> {
    Set::new(
        |head: MessageHeadView|
            exists|message_id: Seq<char>| #[trigger]
                table.dom().contains(message_id) && table[message_id].head() == head,
    )
}

/// What a lookup of one identifier finds: the record stored under it, or
/// nothing.
pub open spec fn lookup(table: Table, message_id: Seq<char>) -> Seq<MessageView> {
    if table.dom().contains(message_id) {
        seq![table[message_id]]
    } else {
        Seq::empty()
    }
}

fn attribute(name: &str, value: &String) -> (attribute: Attribute)
    ensures
        attribute@ == (AttributeView { name: name@, value: value@ }),
{
    Attribute { name: String::from_str(name), value: value.clone() }
}

impl StoreOp {
    /// The attributes to hand to the store for this write: the whole item
    /// for a put, the key alone for a delete.
    pub fn attributes(&self) -> (attributes: Vec<Attribute>)
        ensures
            attributes@.len() == self@.attributes().len(),
            forall|i: int|
                0 <= i < attributes@.len() ==> (#[trigger] attributes@[i])@ == self@.attributes()[i],
    {
        let mut attributes: Vec<Attribute> = Vec::new();
        match self {
            StoreOp::Put { record } => {
                attributes.push(attribute("message_id", &record.message_id));
                attributes.push(attribute("from", &record.from));
                attributes.push(attribute("subject", &record.subject));
                attributes.push(attribute("contents", &record.contents));
                attributes.push(attribute("timestamp", &record.timestamp));
            },
            StoreOp::Delete { message_id } => {
                attributes.push(attribute("message_id", message_id));
            },
        }
        attributes
    }
}

/// A lookup of one identifier by key equality, as the store's query
/// language writes it: a condition over two substitution tokens, and what
/// each token stands for.
#[derive(Debug, Clone, PartialEq, Eq)]
pub struct KeyLookup {
    pub key_condition: String,
    pub name_token: String,
    pub name: String,
    pub value_token: String,
    pub value: String,
}

/// The lookup for `message_id`, taken verbatim.
pub fn key_lookup(message_id: &str) -> (lookup: KeyLookup)
    ensures
        lookup.key_condition@ == "#message_id = :message_id"@,
        lookup.name_token@ == "#message_id"@,
        lookup.name@ == "message_id"@,
        lookup.value_token@ == ":message_id"@,
        lookup.value@ == message_id@,
{
    KeyLookup {
        key_condition: String::from_str("#message_id = :message_id"),
        name_token: String::from_str("#message_id"),
        name: String::from_str("message_id"),
        value_token: String::from_str(":message_id"),
        value: String::from_str(message_id),
    }
}

/// Writes keep every record under its own identifier.
pub proof fn lemma_run_keeps_well_keyed(table: Table, op: StoreOpView)
    requires
        well_keyed(table),
    ensures
        well_keyed(op.run(table)),
{
}

/// No write changes part of a record: after any write, what is stored
/// under an identifier is either what was there before or the whole record
/// of the put just made.
pub proof fn lemma_no_partial_update(table: Table, op: StoreOpView, message_id: Seq<char>)
    requires
        op.run(table).dom().contains(message_id),
    ensures
        ({
            let after = op.run(table);
            ||| table.dom().contains(message_id) && after[message_id] == table[message_id]
            ||| op matches StoreOpView::Put { record } && record.message_id == message_id
                && after[message_id] == record
        }),
{
}

/// Deleting an identifier that is not stored changes nothing.
pub proof fn lemma_delete_missing_is_noop(table: Table, message_id: Seq<char>)
    requires
        !table.dom().contains(message_id),
    ensures
        (StoreOpView::Delete { message_id }).run(table) == table,
{
    assert(table.remove(message_id) =~= table);
}

/// After a delete the identifier is gone, whether or not it was there, and
/// every other record is as before. Deleting again changes nothing more.
pub proof fn lemma_delete_removes(table: Table, message_id: Seq<char>)
    ensures
        ({
            let after = (StoreOpView::Delete { message_id }).run(table);
            &&& !after.dom().contains(message_id)
            &&& lookup(after, message_id) == Seq::<MessageView>::empty()
            &&& forall|other: Seq<char>|
                other != message_id ==> lookup(after, other) == lookup(table, other)
            &&& (StoreOpView::Delete { message_id }).run(after) == after
        }),
{
    let after = table.remove(message_id);
    assert(after.remove(message_id) =~= after);
}

/// After a put the record is found under its identifier and its head is
/// listed; every other record is as before.
pub proof fn lemma_put_stores(table: Table, record: MessageView)
    ensures
        ({
            let after = (StoreOpView::Put { record }).run(table);
            &&& lookup(after, record.message_id) == seq![record]
            &&& listing(after).contains(record.head())
            &&& forall|other: Seq<char>|
                other != record.message_id ==> lookup(after, other) == lookup(table, other)
        }),
{
    let after = table.insert(record.message_id, record);
    assert(after.dom().contains(record.message_id) && after[record.message_id].head()
        == record.head());
}

/// Putting the same record again changes nothing: a put is idempotent once
/// the identifier is fixed.
pub proof fn lemma_put_same_record_twice(table: Table, record: MessageView)
    ensures
        ({
            let once = (StoreOpView::Put { record }).run(table);
            (StoreOpView::Put { record }).run(once) == once
        }),
{
    let once = table.insert(record.message_id, record);
    assert(once.insert(record.message_id, record) =~= once);
}

} // verus!
