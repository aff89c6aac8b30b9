use personal_assistant::conversation::{
    begin_exchange, begin_exchange_at, can_submit, fill_template, finish_exchange,
    is_valid_template, receive_token, Entity, Message, ModelConfigState, Payload,
    DEFAULT_TEMPLATE, PLACEHOLDER,
};

fn at(content: &str, entity: Entity, is_loading: bool, time: &str) -> Message {
    Message { content: content.to_string(), entity, is_loading, time: time.to_string() }
}

#[test]
fn a_default_message_is_empty_and_dated() {
    let message = Message::default();
    assert_eq!(message.content, "");
    assert_eq!(message.entity, Entity::User);
    assert!(!message.is_loading);
    assert!(!message.time.is_empty());
    assert_ne!(message.time, "%a %e %b %Y, %T");
    assert!(!message.time.contains('%'));
    assert!(message.time.contains(", "));
    assert_eq!(message.time.matches(':').count(), 2);
}

#[test]
fn a_message_written_at_a_time() {
    assert_eq!(Message::written_at("noon".to_string()), at("", Entity::User, false, "noon"));
    assert_eq!(Entity::default(), Entity::User);
    assert_eq!(ModelConfigState::default(), ModelConfigState(false));
}

#[test]
fn content_grows_at_the_end() {
    let mut message = at("Hel", Entity::Bot, true, "t");
    message.update_content("lo");
    message.update_content("");
    message.update_content(", world");
    assert_eq!(message, at("Hello, world", Entity::Bot, true, "t"));
    message.done();
    assert_eq!(message, at("Hello, world", Entity::Bot, false, "t"));
    message.done();
    assert_eq!(message, at("Hello, world", Entity::Bot, false, "t"));
}

#[test]
fn the_default_template_is_valid() {
    assert_eq!(PLACEHOLDER, "{{PROMPT}}");
    assert!(is_valid_template(DEFAULT_TEMPLATE));
    assert!(DEFAULT_TEMPLATE.starts_with("A chat between a human (\"User\")"));
    assert!(DEFAULT_TEMPLATE.ends_with("\nUser: {{PROMPT}}\nAssistant: "));
}

#[test]
fn a_template_needs_the_whole_placeholder() {
    assert!(is_valid_template("{{PROMPT}}"));
    assert!(is_valid_template("x{{PROMPT}}"));
    assert!(is_valid_template("{{PROMPT}}x"));
    assert!(is_valid_template("{{{PROMPT}}}"));
    assert!(is_valid_template("é{{PROMPT}}é"));
    assert!(!is_valid_template(""));
    assert!(!is_valid_template("{{PROMPT}"));
    assert!(!is_valid_template("{PROMPT}}"));
    assert!(!is_valid_template("{{prompt}}"));
    assert!(!is_valid_template("{{PROMPT }}"));
    assert!(!is_valid_template("User: , Assistant: "));
}

#[test]
fn filling_replaces_every_placeholder() {
    assert_eq!(fill_template("{{PROMPT}}", "hi").message, "hi");
    assert_eq!(fill_template("User: {{PROMPT}}\nAssistant: ", "hi").message, "User: hi\nAssistant: ");
    assert_eq!(fill_template("{{PROMPT}}{{PROMPT}}", "ab").message, "abab");
    assert_eq!(fill_template("a{{PROMPT}}b{{PROMPT}}c", "").message, "abc");
    assert_eq!(fill_template("no mark here", "hi").message, "no mark here");
    assert_eq!(fill_template("", "hi").message, "");
    assert_eq!(fill_template("{{PROMPT}", "hi").message, "{{PROMPT}");
    assert_eq!(fill_template("{{{PROMPT}}}", "x").message, "{x}");
    assert_eq!(fill_template("é{{PROMPT}}ü", "ñ").message, "éñü");
    assert_eq!(fill_template("{{PROMPT}}", "{{PROMPT}}").message, "{{PROMPT}}");
    assert_eq!(fill_template("{{PROMPT}}!", "{{PROMPT}}{{PROMPT}}").message, "{{PROMPT}}{{PROMPT}}!");
}

#[test]
fn filling_agrees_with_the_standard_replace() {
    let templates = [
        DEFAULT_TEMPLATE,
        "{{PROMPT}}{{PROMPT}}{{PROMPT}}",
        "{{{{PROMPT}}}}",
        "{{PROMPT{{PROMPT}}}}",
        "{{PROMP{{PROMPT}}T}}",
        "tail {{PROMPT}",
        "x",
    ];
    for template in templates {
        for input in ["", "hello", "{{PROMPT}}", "}}", "日本語"] {
            assert_eq!(fill_template(template, input).message, template.replace("{{PROMPT}}", input));
            assert_eq!(is_valid_template(template), template.contains("{{PROMPT}}"));
        }
    }
}

#[test]
fn the_payload_carries_the_filled_template() {
    let payload = fill_template(DEFAULT_TEMPLATE, "What is Rust?");
    assert!(payload.message.ends_with("\nUser: What is Rust?\nAssistant: "));
    assert_eq!(payload.clone(), payload);
    assert_ne!(payload, Payload { message: String::new() });
}

#[test]
fn sending_needs_input_template_model_and_quiet() {
    assert!(can_submit("hi", true, true, false));
    assert!(!can_submit("", true, true, false));
    assert!(!can_submit("hi", false, true, false));
    assert!(!can_submit("hi", true, false, false));
    assert!(!can_submit("hi", true, true, true));
    assert!(can_submit(" ", true, true, false));
}

#[test]
fn an_exchange_opens_with_question_and_empty_answer() {
    let mut messages = vec![at("earlier", Entity::Bot, false, "t0")];
    begin_exchange_at(&mut messages, "How are you?", "t1".to_string(), "t2".to_string());
    assert_eq!(
        messages,
        vec![
            at("earlier", Entity::Bot, false, "t0"),
            at("How are you?", Entity::User, false, "t1"),
            at("", Entity::Bot, true, "t2"),
        ]
    );
}

#[test]
fn an_exchange_opened_now_is_dated_by_the_clock() {
    let mut messages = Vec::new();
    begin_exchange(&mut messages, "Hi");
    assert_eq!(messages.len(), 2);
    assert_eq!(messages[0], at("Hi", Entity::User, false, &messages[0].time.clone()));
    assert_eq!(messages[1], at("", Entity::Bot, true, &messages[1].time.clone()));
    assert!(!messages[0].time.is_empty());
    assert!(!messages[1].time.contains('%'));
}

#[test]
fn tokens_fill_the_last_message_only() {
    let mut messages = Vec::new();
    begin_exchange_at(&mut messages, "Hi", "t1".to_string(), "t2".to_string());
    for token in ["Hel", "lo", "", "!"] {
        receive_token(&mut messages, token);
    }
    assert_eq!(
        messages,
        vec![at("Hi", Entity::User, false, "t1"), at("Hello!", Entity::Bot, true, "t2")]
    );
    finish_exchange(&mut messages);
    assert_eq!(
        messages,
        vec![at("Hi", Entity::User, false, "t1"), at("Hello!", Entity::Bot, false, "t2")]
    );
}

#[test]
fn a_token_before_any_message_is_dropped() {
    let mut messages: Vec<Message> = Vec::new();
    receive_token(&mut messages, "early");
    assert_eq!(messages, vec![]);
    finish_exchange(&mut messages);
    assert_eq!(messages, vec![]);
}
