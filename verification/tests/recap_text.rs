use worker_engine::message::{AssistantItem, Message, ToolResultPart, UserItem};
use worker_engine::recap::build_worker_recap;

#[test]
fn recap_of_tool_call_with_short_args() {
    let messages = vec![Message::Assistant(vec![AssistantItem::ToolCall {
        id: "c1".to_string(),
        name: "shell".to_string(),
        args: "{\"cmd\":\"ls\"}".to_string(),
    }])];
    assert_eq!(build_worker_recap(&messages), "- Called `shell` ({\"cmd\":\"ls\"})\n");
}

#[test]
fn recap_truncates_long_args_at_100_chars() {
    let args: String = "a".repeat(150);
    let messages = vec![Message::Assistant(vec![AssistantItem::ToolCall {
        id: "c1".to_string(),
        name: "file".to_string(),
        args: args.clone(),
    }])];
    let expected = format!("- Called `file` ({}...)\n", &args[..100]);
    assert_eq!(build_worker_recap(&messages), expected);
}

#[test]
fn recap_notes_nonempty_assistant_text() {
    let messages = vec![Message::Assistant(vec![
        AssistantItem::Text(String::new()),
        AssistantItem::Text("plan made".to_string()),
    ])];
    assert_eq!(build_worker_recap(&messages), "- Noted: plan made\n");
}

#[test]
fn recap_truncates_long_notes_at_200_chars() {
    let text: String = "n".repeat(250);
    let messages = vec![Message::Assistant(vec![AssistantItem::Text(text.clone())])];
    let expected = format!("- Noted: {}...\n", &text[..200]);
    assert_eq!(build_worker_recap(&messages), expected);
}

#[test]
fn recap_includes_tool_result_texts() {
    let messages = vec![Message::User(vec![UserItem::ToolResult {
        call_id: Some("c1".to_string()),
        parts: vec![
            ToolResultPart::Text("ok".to_string()),
            ToolResultPart::Opaque,
            ToolResultPart::Text("r".repeat(180)),
        ],
    }])];
    let expected = format!("  Result: ok\n  Result: {}...\n", "r".repeat(150));
    assert_eq!(build_worker_recap(&messages), expected);
}

#[test]
fn recap_orders_lines_as_history_does() {
    let messages = vec![
        Message::Assistant(vec![
            AssistantItem::ToolCall {
                id: "c1".to_string(),
                name: "shell".to_string(),
                args: "{}".to_string(),
            },
            AssistantItem::Text("done listing".to_string()),
        ]),
        Message::User(vec![UserItem::ToolResult {
            call_id: None,
            parts: vec![ToolResultPart::Text("two files".to_string())],
        }]),
    ];
    assert_eq!(
        build_worker_recap(&messages),
        "- Called `shell` ({})\n- Noted: done listing\n  Result: two files\n",
    );
}

#[test]
fn recap_of_nothing_significant_is_the_sentinel() {
    let empty: Vec<Message> = vec![];
    assert_eq!(
        build_worker_recap(&empty),
        "No significant actions recorded in compacted history.",
    );
    let quiet = vec![
        Message::User(vec![UserItem::Text("hi".to_string()), UserItem::Opaque]),
        Message::Assistant(vec![AssistantItem::Text(String::new()), AssistantItem::Opaque]),
    ];
    assert_eq!(
        build_worker_recap(&quiet),
        "No significant actions recorded in compacted history.",
    );
}
