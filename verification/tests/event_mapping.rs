use mosaic_core::event_mapping::{
    is_contextual_user_message, parse_turn_item, turn_item_with_id, web_search_action_detail,
};
use mosaic_core::protocol::{
    AgentMessageContent, ContentItem, ResponseItem, TurnItem, UserInput, WebSearchAction,
};

fn message(id: Option<&str>, role: &str, content: Vec<ContentItem>) -> ResponseItem {
    ResponseItem::Message {
        id: id.map(|s| s.to_string()),
        role: role.into(),
        content,
        end_turn: None,
        phase: None,
    }
}

#[test]
fn parses_user_text_message() {
    let item = message(Some("u1"), "user", vec![ContentItem::InputText { text: "hello".into() }]);
    let ti = parse_turn_item(&item).unwrap();
    match ti {
        TurnItem::UserMessage(m) => {
            assert_eq!(m.content.len(), 1);
            assert_eq!(m.id.len(), 36);
            match &m.content[0] {
                UserInput::Text { text, .. } => assert_eq!(text, "hello"),
                other => panic!("expected Text, got {other:?}"),
            }
        },
        other => panic!("expected UserMessage, got {other:?}"),
    }
}

#[test]
fn user_message_ids_are_fresh() {
    let item = message(Some("u1"), "user", vec![ContentItem::InputText { text: "hello".into() }]);
    let (a, b) = (parse_turn_item(&item).unwrap(), parse_turn_item(&item).unwrap());
    match (a, b) {
        (TurnItem::UserMessage(x), TurnItem::UserMessage(y)) => assert_ne!(x.id, y.id),
        _ => panic!("expected user messages"),
    }
    match turn_item_with_id(&item, "fixed".to_string()).unwrap() {
        TurnItem::UserMessage(m) => assert_eq!(m.id, "fixed"),
        other => panic!("expected UserMessage, got {other:?}"),
    }
}

#[test]
fn parses_user_message_with_image() {
    let item = message(
        None,
        "user",
        vec![
            ContentItem::InputText { text: "look at this".into() },
            ContentItem::InputImage { image_url: "https://img.png".into() },
        ],
    );
    let ti = parse_turn_item(&item).unwrap();
    match ti {
        TurnItem::UserMessage(m) => assert_eq!(m.content.len(), 2),
        other => panic!("expected UserMessage, got {other:?}"),
    }
}

#[test]
fn skips_contextual_user_messages() {
    let cases = vec![
        "<environment_context>test</environment_context>",
        "<skill>\n<name>demo</name>\nbody\n</skill>",
        "# AGENTS.md instructions for dir\n\n<INSTRUCTIONS>\nbody\n</INSTRUCTIONS>",
        "<user_shell_command>echo 42</user_shell_command>",
    ];
    for text in cases {
        let item = message(None, "user", vec![ContentItem::InputText { text: text.into() }]);
        assert!(parse_turn_item(&item).is_none(), "should skip: {text}");
    }
}

#[test]
fn plain_text_is_not_contextual() {
    assert!(!is_contextual_user_message(&[ContentItem::InputText { text: "hi".into() }]));
    assert!(is_contextual_user_message(&[ContentItem::InputText {
        text: "<environment_context>x</environment_context>".into()
    }]));
}

#[test]
fn skips_image_wrapper_tags() {
    let item = message(
        None,
        "user",
        vec![
            ContentItem::InputText { text: "<image>".into() },
            ContentItem::InputImage { image_url: "data:image/png;base64,abc".into() },
            ContentItem::InputText { text: "</image>".into() },
            ContentItem::InputText { text: "describe this".into() },
        ],
    );
    let ti = parse_turn_item(&item).unwrap();
    match ti {
        TurnItem::UserMessage(m) => assert_eq!(m.content.len(), 2),
        other => panic!("expected UserMessage, got {other:?}"),
    }
}

#[test]
fn parses_assistant_message() {
    let item = message(Some("a1"), "assistant", vec![ContentItem::OutputText { text: "hi".into() }]);
    let ti = parse_turn_item(&item).unwrap();
    match ti {
        TurnItem::AgentMessage(m) => {
            assert_eq!(m.id, "a1");
            match &m.content[0] {
                AgentMessageContent::Text { text } => assert_eq!(text, "hi"),
            }
        },
        other => panic!("expected AgentMessage, got {other:?}"),
    }
}

#[test]
fn skips_system_messages() {
    let item = message(None, "system", vec![ContentItem::InputText { text: "sys".into() }]);
    assert!(parse_turn_item(&item).is_none());
}

#[test]
fn skips_function_calls() {
    let item = ResponseItem::FunctionCall {
        id: Some("fc1".into()),
        name: "shell".into(),
        arguments: "{}".into(),
        call_id: "c1".into(),
    };
    assert!(parse_turn_item(&item).is_none());
}

#[test]
fn parses_web_search() {
    let item = ResponseItem::WebSearchCall {
        id: Some("ws1".into()),
        status: Some("completed".into()),
        action: Some(WebSearchAction::Search { query: Some("rust".into()), queries: None }),
    };
    let ti = parse_turn_item(&item).unwrap();
    match ti {
        TurnItem::WebSearch(s) => {
            assert_eq!(s.query, "rust");
            assert_eq!(s.id, "ws1");
        },
        other => panic!("expected WebSearch, got {other:?}"),
    }
}

#[test]
fn web_search_details() {
    let action = WebSearchAction::Search {
        query: None,
        queries: Some(vec!["a".into(), "b".into()]),
    };
    assert_eq!(web_search_action_detail(&action), "a, b");
    let open = WebSearchAction::OpenPage { url: Some("https://x".into()) };
    assert_eq!(web_search_action_detail(&open), "https://x");
}

#[test]
fn empty_assistant_message_returns_none() {
    let item = message(Some("a2"), "assistant", vec![]);
    assert!(parse_turn_item(&item).is_none());
}
