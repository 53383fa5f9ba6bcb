use message_pipeline::envelope::MessageCommand;
use message_pipeline::envelope::MessageCommandType;
use message_pipeline::gateway::create;
use message_pipeline::gateway::delete_command;
use message_pipeline::gateway::get_message;
use message_pipeline::gateway::identifier;
use message_pipeline::gateway::list_messages;
use message_pipeline::gateway::put_command;
use message_pipeline::gateway::respond;
use message_pipeline::gateway::route;
use message_pipeline::gateway::Body;
use message_pipeline::gateway::Method;
use message_pipeline::gateway::Reply;
use message_pipeline::gateway::Step;
use message_pipeline::gateway::STATUS_OK;
use message_pipeline::message::Message;
use message_pipeline::message::MessageHead;
use message_pipeline::message::MessageRequest;
use message_pipeline::message::CONTENTS_LIMIT;
use message_pipeline::message::FROM_LIMIT;
use message_pipeline::message::SUBJECT_LIMIT;

fn request(from: &str, subject: &str, contents: &str) -> MessageRequest {
    MessageRequest {
        from: from.to_string(),
        subject: subject.to_string(),
        contents: contents.to_string(),
    }
}

fn put(from: &str, subject: &str, contents: &str) -> MessageCommand {
    MessageCommand {
        command: MessageCommandType::Put {
            from: from.to_string(),
            subject: subject.to_string(),
            contents: contents.to_string(),
        },
    }
}

fn delete(message_id: &str) -> MessageCommand {
    MessageCommand { command: MessageCommandType::Delete { message_id: message_id.to_string() } }
}

fn head(message_id: &str) -> MessageHead {
    MessageHead {
        message_id: message_id.to_string(),
        from: "a".to_string(),
        subject: "b".to_string(),
        timestamp: "2024-01-01T00:00:00+00:00".to_string(),
    }
}

#[test]
fn limits_are_as_configured() {
    assert_eq!(FROM_LIMIT, 255);
    assert_eq!(SUBJECT_LIMIT, 255);
    assert_eq!(CONTENTS_LIMIT, 4096);
    assert_eq!(STATUS_OK, 200);
}

#[test]
fn identifier_is_the_path_after_the_slash() {
    assert_eq!(identifier("/abc"), Some("abc"));
    assert_eq!(identifier("/"), Some(""));
    assert_eq!(identifier("/a/b"), Some("a/b"));
    assert_eq!(identifier("//"), Some("/"));
    assert_eq!(identifier("/é€"), Some("é€"));
}

#[test]
fn path_without_leading_slash_names_no_identifier() {
    assert_eq!(identifier(""), None);
    assert_eq!(identifier("abc"), None);
    assert_eq!(identifier("abc/"), None);
}

#[test]
fn get_root_lists() {
    assert_eq!(route(Method::Get, "/", Body::Empty), Step::List);
    assert_eq!(route(Method::Get, "/", Body::Text("ignored".to_string())), Step::List);
}

#[test]
fn get_with_identifier_looks_it_up() {
    assert_eq!(
        route(Method::Get, "/abc", Body::Empty),
        Step::Get { message_id: "abc".to_string() }
    );
    assert_eq!(
        route(Method::Get, "/a/b c", Body::Empty),
        Step::Get { message_id: "a/b c".to_string() }
    );
}

#[test]
fn get_without_leading_slash_is_refused() {
    assert_eq!(
        route(Method::Get, "", Body::Empty),
        Step::Respond { reply: Reply::InvalidMessageId }
    );
    assert_eq!(
        route(Method::Get, "abc", Body::Empty),
        Step::Respond { reply: Reply::InvalidMessageId }
    );
}

#[test]
fn post_with_text_body_asks_for_parsing() {
    let body = "{\"from\":\"a\",\"subject\":\"b\",\"contents\":\"c\"}";
    assert_eq!(
        route(Method::Post, "/", Body::Text(body.to_string())),
        Step::Create { body: body.to_string() }
    );
    // The path plays no part in a creation.
    assert_eq!(
        route(Method::Post, "/anything", Body::Text("x".to_string())),
        Step::Create { body: "x".to_string() }
    );
}

#[test]
fn post_without_text_body_is_refused() {
    assert_eq!(
        route(Method::Post, "/", Body::Empty),
        Step::Respond { reply: Reply::InvalidRequestBody }
    );
    assert_eq!(
        route(Method::Post, "/", Body::Binary(vec![123, 125])),
        Step::Respond { reply: Reply::InvalidRequestBody }
    );
}

#[test]
fn delete_publishes_a_delete_envelope() {
    assert_eq!(
        route(Method::Delete, "/abc", Body::Empty),
        Step::Publish { command: delete("abc"), reply: Reply::QueuedForDeletion }
    );
}

#[test]
fn delete_takes_the_identifier_verbatim() {
    assert_eq!(
        route(Method::Delete, "/a%20b/c", Body::Empty),
        Step::Publish { command: delete("a%20b/c"), reply: Reply::QueuedForDeletion }
    );
    assert_eq!(
        route(Method::Delete, "/", Body::Empty),
        Step::Publish { command: delete(""), reply: Reply::QueuedForDeletion }
    );
}

#[test]
fn delete_without_leading_slash_is_refused() {
    assert_eq!(
        route(Method::Delete, "", Body::Empty),
        Step::Respond { reply: Reply::InvalidMessageId }
    );
    assert_eq!(
        route(Method::Delete, "abc", Body::Empty),
        Step::Respond { reply: Reply::InvalidMessageId }
    );
}

#[test]
fn other_methods_are_unsupported() {
    assert_eq!(
        route(Method::Other, "/", Body::Empty),
        Step::Respond { reply: Reply::UnsupportedMethod }
    );
    assert_eq!(
        route(Method::Other, "/abc", Body::Text("{}".to_string())),
        Step::Respond { reply: Reply::UnsupportedMethod }
    );
}

#[test]
fn parsed_payload_is_published_as_one_put() {
    assert_eq!(
        create(Some(request("a", "b", "c"))),
        Step::Publish { command: put("a", "b", "c"), reply: Reply::MessageSent }
    );
}

#[test]
fn unparsable_body_is_refused_and_nothing_is_published() {
    assert_eq!(create(None), Step::Respond { reply: Reply::InvalidRequestBody });
}

#[test]
fn empty_fields_are_accepted() {
    assert_eq!(put_command(&request("", "", "")), put("", "", ""));
}

#[test]
fn put_command_keeps_fields_within_limits() {
    let from = "f".repeat(255);
    let subject = "s".repeat(255);
    let contents = "c".repeat(4096);
    assert_eq!(
        put_command(&request(&from, &subject, &contents)),
        put(&from, &subject, &contents)
    );
}

#[test]
fn put_command_clips_each_field_to_its_limit() {
    let command = put_command(&request(&"f".repeat(256), &"s".repeat(1000), &"c".repeat(4097)));
    assert_eq!(command, put(&"f".repeat(255), &"s".repeat(255), &"c".repeat(4096)));
}

#[test]
fn sender_of_300_characters_is_published_with_255() {
    let step = create(Some(request(&"x".repeat(300), "b", "c")));
    match step {
        Step::Publish {
            command: MessageCommand { command: MessageCommandType::Put { from, subject, contents } },
            reply,
        } => {
            assert_eq!(from.chars().count(), 255);
            assert!(from.chars().all(|c| c == 'x'));
            assert_eq!(subject, "b");
            assert_eq!(contents, "c");
            assert_eq!(reply, Reply::MessageSent);
        }
        other => panic!("expected a publish step, got {:?}", other),
    }
}

#[test]
fn limits_count_characters_not_bytes() {
    let command = put_command(&request(&"é".repeat(300), &"😀".repeat(256), &"€".repeat(5000)));
    assert_eq!(command, put(&"é".repeat(255), &"😀".repeat(255), &"€".repeat(4096)));
}

#[test]
fn delete_command_carries_the_identifier() {
    assert_eq!(delete_command("abc"), delete("abc"));
    assert_eq!(delete_command(""), delete(""));
}

#[test]
fn reply_sentences() {
    assert_eq!(Reply::MessageSent.message(), "Message sent");
    assert_eq!(Reply::QueuedForDeletion.message(), "Message queued for deletion");
    assert_eq!(Reply::InvalidMessageId.message(), "Invalid message ID");
    assert_eq!(Reply::InvalidRequestBody.message(), "Invalid request body type");
    assert_eq!(Reply::UnsupportedMethod.message(), "Unsupported method");
}

#[test]
fn reply_bodies() {
    assert_eq!(Reply::MessageSent.body(), "{\"message\":\"Message sent\"}");
    assert_eq!(Reply::QueuedForDeletion.body(), "{\"message\":\"Message queued for deletion\"}");
    assert_eq!(Reply::InvalidMessageId.body(), "{\"message\":\"Invalid message ID\"}");
    assert_eq!(Reply::InvalidRequestBody.body(), "{\"message\":\"Invalid request body type\"}");
    assert_eq!(Reply::UnsupportedMethod.body(), "{\"message\":\"Unsupported method\"}");
}

#[test]
fn reply_bodies_are_json_objects_with_one_message() {
    let replies = [
        Reply::MessageSent,
        Reply::QueuedForDeletion,
        Reply::InvalidMessageId,
        Reply::InvalidRequestBody,
        Reply::UnsupportedMethod,
    ];
    for reply in replies {
        let value: serde_json::Value = serde_json::from_str(&reply.body()).unwrap();
        let object = value.as_object().unwrap();
        assert_eq!(object.len(), 1);
        assert_eq!(object.get("message").unwrap().as_str().unwrap(), reply.message());
    }
}

#[test]
fn every_response_is_a_json_success() {
    let response = respond(Reply::UnsupportedMethod.body());
    assert_eq!(response.status, 200);
    assert_eq!(response.content_type, "application/json");
    assert_eq!(response.body, "{\"message\":\"Unsupported method\"}");

    let listing = respond("{\"messages\":[]}".to_string());
    assert_eq!(listing.status, 200);
    assert_eq!(listing.content_type, "application/json");
    assert_eq!(listing.body, "{\"messages\":[]}");
}

#[test]
fn listing_skips_items_that_did_not_parse() {
    let scanned = vec![Some(head("1")), None, Some(head("2")), None, None, Some(head("3"))];
    assert_eq!(list_messages(Some(scanned)), vec![head("1"), head("2"), head("3")]);
}

#[test]
fn listing_of_nothing_is_empty() {
    assert_eq!(list_messages(None), Vec::<MessageHead>::new());
    assert_eq!(list_messages(Some(Vec::new())), Vec::<MessageHead>::new());
    assert_eq!(list_messages(Some(vec![None, None])), Vec::<MessageHead>::new());
}

#[test]
fn lookup_answers_with_what_was_found() {
    let message = Message {
        message_id: "1".to_string(),
        from: "a".to_string(),
        subject: "b".to_string(),
        contents: "c".to_string(),
        timestamp: "2024-01-01T00:00:00+00:00".to_string(),
    };
    assert_eq!(get_message(Some(vec![message.clone()])), vec![message.clone()]);
    assert_eq!(
        get_message(Some(vec![message.clone(), message.clone()])),
        vec![message.clone(), message]
    );
    assert_eq!(get_message(Some(Vec::new())), Vec::<Message>::new());
    assert_eq!(get_message(None), Vec::<Message>::new());
}
