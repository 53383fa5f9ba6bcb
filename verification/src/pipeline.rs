//! What holds of the pipeline as a whole: the gateway, the envelopes it
//! publishes, and the writes the processor makes of them.

use crate::envelope::CommandView;
use crate::gateway::identifier_of;
use crate::gateway::published_by;
use crate::gateway::put_of;
use crate::gateway::routed;
use crate::gateway::steps_for;
use crate::gateway::BodyView;
use crate::gateway::Method;
use crate::gateway::Reply;
use crate::gateway::StepView;
use crate::message::MessageHeadView;
use crate::message::MessageRequestView;
use crate::message::CONTENTS_LIMIT;
use crate::message::FROM_LIMIT;
use crate::message::SUBJECT_LIMIT;
use crate::processor::handled;
use crate::store::listing;
use crate::store::lookup;
use crate::store::StoreOpView;
use crate::store::Table;
use crate::text::truncated;
use vstd::prelude::*;

verus! {

/// A `POST` whose text body parsed publishes exactly one envelope, the Put
/// for the payload with every field within its limit, acknowledges with
/// "Message sent", and does not touch the store.
pub proof fn lemma_create_publishes_one_put(
    path: Seq<char>,
    text: Seq<char>,
    request: MessageRequestView,
)
    ensures
        ({
            let steps = steps_for(Method::Post, path, BodyView::Text(text), Some(request));
            &&& published_by(steps) == seq![put_of(request)]
            &&& put_of(request).within_limits()
            &&& steps.last() == (StepView::Publish {
                command: put_of(request),
                reply: Reply::MessageSent,
            })
            &&& forall|i: int| 0 <= i < steps.len() ==> !(#[trigger] steps[i]).reads_store()
        }),
{
    let steps = steps_for(Method::Post, path, BodyView::Text(text), Some(request));
    assert(steps.drop_last() =~= seq![routed(Method::Post, path, BodyView::Text(text))]);
    assert(steps.drop_last().drop_last() =~= Seq::<StepView>::empty());
    reveal_with_fuel(published_by, 3);
    assert(published_by(steps) =~= seq![put_of(request)]);
}

/// A `POST` whose body is not text, or did not parse, publishes nothing and
/// is answered with the invalid-body refusal.
pub proof fn lemma_rejected_create_publishes_nothing(
    path: Seq<char>,
    body: BodyView,
    payload: Option<MessageRequestView>,
)
    requires
        !(body is Text) || payload is None,
    ensures
        ({
            let steps = steps_for(Method::Post, path, body, payload);
            &&& published_by(steps) == Seq::<CommandView>::empty()
            &&& steps.last() == (StepView::Respond { reply: Reply::InvalidRequestBody })
        }),
{
    let steps = steps_for(Method::Post, path, body, payload);
    reveal_with_fuel(published_by, 3);
    if body is Text {
        assert(steps.drop_last() =~= seq![routed(Method::Post, path, body)]);
        assert(steps.drop_last().drop_last() =~= Seq::<StepView>::empty());
    } else {
        assert(steps.drop_last() =~= Seq::<StepView>::empty());
    }
    assert(published_by(steps) =~= Seq::<CommandView>::empty());
}

/// A `DELETE` for a path that names an identifier publishes exactly one
/// envelope, the Delete for that identifier taken verbatim, and answers
/// "queued for deletion". The store is not consulted, so the answer is the
/// same whether or not the identifier exists.
pub proof fn lemma_delete_publishes_one_delete(
    path: Seq<char>,
    body: BodyView,
    payload: Option<MessageRequestView>,
)
    requires
        identifier_of(path) is Some,
    ensures
        ({
            let steps = steps_for(Method::Delete, path, body, payload);
            let command = CommandView::Delete { message_id: identifier_of(path)->0 };
            &&& steps == seq![StepView::Publish { command, reply: Reply::QueuedForDeletion }]
            &&& published_by(steps) == seq![command]
            &&& !steps[0].reads_store()
        }),
{
    let steps = steps_for(Method::Delete, path, body, payload);
    assert(steps.drop_last() =~= Seq::<StepView>::empty());
    reveal_with_fuel(published_by, 2);
    assert(published_by(steps) =~= steps[0].published());
}

/// Only a `GET` reads the store, and a `GET` publishes nothing. No request
/// makes the gateway write the store: no step does.
pub proof fn lemma_reads_and_writes_are_apart(
    method: Method,
    path: Seq<char>,
    body: BodyView,
    payload: Option<MessageRequestView>,
)
    ensures
        ({
            let steps = steps_for(method, path, body, payload);
            &&& (exists|i: int| 0 <= i < steps.len() && (#[trigger] steps[i]).reads_store())
                ==> method == Method::Get
            &&& method == Method::Get ==> published_by(steps) == Seq::<CommandView>::empty()
            &&& published_by(steps).len() <= 1
        }),
{
    let steps = steps_for(method, path, body, payload);
    reveal_with_fuel(published_by, 3);
    if routed(method, path, body) is Create {
        assert(steps.drop_last() =~= seq![routed(method, path, body)]);
        assert(steps.drop_last().drop_last() =~= Seq::<StepView>::empty());
    } else {
        assert(steps.drop_last() =~= Seq::<StepView>::empty());
    }
}

/// A field longer than its limit reaches the envelope as exactly its first
/// characters up to the limit; a field within its limit reaches it whole.
pub proof fn lemma_envelope_fields_are_clipped(request: MessageRequestView)
    ensures
        put_of(request) matches CommandView::Put { from, subject, contents } && {
            &&& from == truncated(request.from, FROM_LIMIT as nat)
            &&& subject == truncated(request.subject, SUBJECT_LIMIT as nat)
            &&& contents == truncated(request.contents, CONTENTS_LIMIT as nat)
            &&& request.from.len() > FROM_LIMIT ==> from.len() == FROM_LIMIT
            &&& request.subject.len() > SUBJECT_LIMIT ==> subject.len() == SUBJECT_LIMIT
            &&& request.contents.len() > CONTENTS_LIMIT ==> contents.len() == CONTENTS_LIMIT
            &&& from.is_prefix_of(request.from)
            &&& subject.is_prefix_of(request.subject)
            &&& contents.is_prefix_of(request.contents)
        },
{
}

/// From creation to listing: once the processor has applied the envelope of
/// a creation payload, the table holds a record with the clipped fields,
/// each within its limit, under the identifier the processor drew, and a
/// scan lists its head.
pub proof fn lemma_created_message_is_listed(
    table: Table,
    request: MessageRequestView,
    op: StoreOpView,
)
    requires
        handled(put_of(request), op),
    ensures
        op matches StoreOpView::Put { record } && {
            let after = op.run(table);
            &&& record.from == truncated(request.from, FROM_LIMIT as nat)
            &&& record.subject == truncated(request.subject, SUBJECT_LIMIT as nat)
            &&& record.contents == truncated(request.contents, CONTENTS_LIMIT as nat)
            &&& record.within_limits()
            &&& lookup(after, record.message_id) == seq![record]
            &&& listing(after).contains(
                MessageHeadView {
                    message_id: record.message_id,
                    from: record.from,
                    subject: record.subject,
                    timestamp: record.timestamp,
                },
            )
        },
{
    let record = op->record;
    let after = op.run(table);
    assert(after.dom().contains(record.message_id));
    assert(after[record.message_id].head() == record.head());
}

/// From deletion request to store: the envelope of a `DELETE` for an
/// identifier that is not stored is applied as a removal that leaves the
/// table as it was.
pub proof fn lemma_delete_of_unknown_changes_nothing(
    table: Table,
    path: Seq<char>,
    body: BodyView,
    op: StoreOpView,
)
    requires
        identifier_of(path) is Some,
        !table.dom().contains(identifier_of(path)->0),
        routed(Method::Delete, path, body) matches StepView::Publish { command, .. } && handled(
            command,
            op,
        ),
    ensures
        op == (StoreOpView::Delete { message_id: identifier_of(path)->0 }),
        op.run(table) == table,
{
    assert(table.remove(identifier_of(path)->0) =~= table);
}

} // verus!
