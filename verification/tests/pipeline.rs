use message_pipeline::envelope::MessageCommand;
use message_pipeline::envelope::MessageCommandType;
use message_pipeline::gateway::create;
use message_pipeline::gateway::list_messages;
use message_pipeline::gateway::route;
use message_pipeline::gateway::Body;
use message_pipeline::gateway::Method;
use message_pipeline::gateway::Reply;
use message_pipeline::gateway::Step;
use message_pipeline::message::Message;
use message_pipeline::message::MessageHead;
use message_pipeline::message::MessageRequest;
use message_pipeline::processor::handle_message;
use message_pipeline::store::StoreOp;
use std::collections::BTreeMap;

fn message(message_id: &str, contents: &str) -> Message {
    Message {
        message_id: message_id.to_string(),
        from: "alice".to_string(),
        subject: "hello".to_string(),
        contents: contents.to_string(),
        timestamp: "2024-01-01T00:00:00+00:00".to_string(),
    }
}

/// A table keyed by identifier, written the way the store is.
fn run(table: &mut BTreeMap<String, Message>, op: StoreOp) {
    match op {
        StoreOp::Put { record } => {
            table.insert(record.message_id.clone(), record);
        }
        StoreOp::Delete { message_id } => {
            table.remove(&message_id);
        }
    }
}

fn scan(table: &BTreeMap<String, Message>) -> Vec<MessageHead> {
    list_messages(Some(table.values().map(|m| Some(MessageHead::from(m.clone()))).collect()))
}

/// Reads a creation payload the way a JSON reader would hand it over.
fn payload(body: &str) -> Option<MessageRequest> {
    let value: serde_json::Value = serde_json::from_str(body).ok()?;
    Some(MessageRequest {
        from: value.get("from")?.as_str()?.to_string(),
        subject: value.get("subject")?.as_str()?.to_string(),
        contents: value.get("contents")?.as_str()?.to_string(),
    })
}

fn published(step: Step) -> MessageCommand {
    match step {
        Step::Publish { command, .. } => command,
        other => panic!("expected a publish step, got {:?}", other),
    }
}

#[test]
fn head_has_every_field_but_the_contents() {
    let head = MessageHead::from(message("id-1", "the body"));
    assert_eq!(
        head,
        MessageHead {
            message_id: "id-1".to_string(),
            from: "alice".to_string(),
            subject: "hello".to_string(),
            timestamp: "2024-01-01T00:00:00+00:00".to_string(),
        }
    );
}

#[test]
fn head_does_not_depend_on_the_contents() {
    assert_eq!(
        MessageHead::from(message("id-1", "one body")),
        MessageHead::from(message("id-1", "another body"))
    );
    let converted: MessageHead = message("id-1", "").into();
    assert_eq!(converted, MessageHead::from(message("id-1", "x")));
}

#[test]
fn created_message_is_listed_once_applied() {
    let body = "{\"from\":\"a\",\"subject\":\"b\",\"contents\":\"c\"}";
    let text = match route(Method::Post, "/", Body::Text(body.to_string())) {
        Step::Create { body } => body,
        other => panic!("expected a create step, got {:?}", other),
    };
    let step = create(payload(&text));
    assert_eq!(
        step,
        Step::Publish {
            command: MessageCommand {
                command: MessageCommandType::Put {
                    from: "a".to_string(),
                    subject: "b".to_string(),
                    contents: "c".to_string(),
                }
            },
            reply: Reply::MessageSent,
        }
    );

    let mut table = BTreeMap::new();
    // Nothing is visible before the processor has applied the envelope.
    assert_eq!(scan(&table), Vec::<MessageHead>::new());

    run(&mut table, handle_message(published(step)));
    let listed = scan(&table);
    assert_eq!(listed.len(), 1);
    assert_eq!(listed[0].from, "a");
    assert_eq!(listed[0].subject, "b");
    assert_eq!(listed[0].message_id.len(), 36);
    assert!(listed[0].timestamp.ends_with("+00:00"));
    assert_eq!(table[&listed[0].message_id].contents, "c");
}

#[test]
fn redelivered_put_is_stored_twice() {
    let envelope = published(create(payload(
        "{\"from\":\"a\",\"subject\":\"b\",\"contents\":\"c\"}",
    )));
    let mut table = BTreeMap::new();
    run(&mut table, handle_message(envelope.clone()));
    run(&mut table, handle_message(envelope));
    assert_eq!(table.len(), 2);
    let listed = scan(&table);
    assert_eq!(listed.len(), 2);
    assert_ne!(listed[0].message_id, listed[1].message_id);
    assert_eq!(listed[0].from, listed[1].from);
    assert_eq!(listed[0].subject, listed[1].subject);
}

#[test]
fn delete_of_unknown_identifier_is_a_no_op() {
    let step = route(Method::Delete, "/unknown-id", Body::Empty);
    assert_eq!(
        step,
        Step::Publish {
            command: MessageCommand {
                command: MessageCommandType::Delete { message_id: "unknown-id".to_string() }
            },
            reply: Reply::QueuedForDeletion,
        }
    );
    assert_eq!(Reply::QueuedForDeletion.body(), "{\"message\":\"Message queued for deletion\"}");

    let mut table = BTreeMap::new();
    table.insert("known".to_string(), message("known", "kept"));
    let before = table.clone();
    let op = handle_message(published(step));
    assert_eq!(op, StoreOp::Delete { message_id: "unknown-id".to_string() });
    run(&mut table, op);
    assert_eq!(table, before);
}

#[test]
fn delete_removes_a_stored_message() {
    let mut table = BTreeMap::new();
    run(&mut table, handle_message(published(create(payload(
        "{\"from\":\"a\",\"subject\":\"b\",\"contents\":\"c\"}",
    )))));
    let message_id = scan(&table)[0].message_id.clone();
    let path = format!("/{}", message_id);
    run(&mut table, handle_message(published(route(Method::Delete, &path, Body::Empty))));
    assert!(table.is_empty());
    // A second delivery of the same Delete changes nothing more.
    run(&mut table, handle_message(published(route(Method::Delete, &path, Body::Empty))));
    assert!(table.is_empty());
}

#[test]
fn unparsable_creation_publishes_nothing() {
    let text = match route(Method::Post, "/", Body::Text("not json".to_string())) {
        Step::Create { body } => body,
        other => panic!("expected a create step, got {:?}", other),
    };
    assert_eq!(create(payload(&text)), Step::Respond { reply: Reply::InvalidRequestBody });
    assert_eq!(
        create(payload("{\"from\":\"a\",\"subject\":\"b\"}")),
        Step::Respond { reply: Reply::InvalidRequestBody }
    );
}
