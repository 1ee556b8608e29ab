use worker_engine::message::{AssistantItem, Message, ToolResultPart, UserItem};
use worker_engine::state::WorkerState;
use worker_engine::worker::Worker;

fn worker_with_channel() -> Worker {
    Worker::new(Some("chan-7".to_string()), "count the files".to_string(), "sys".to_string())
}

#[test]
fn trace_layout_is_exact() {
    let mut w = worker_with_channel();
    w.state = WorkerState::Failed;
    let history = vec![
        Message::User(vec![UserItem::Text("hello".to_string())]),
        Message::Assistant(vec![AssistantItem::Text("hi there".to_string())]),
    ];
    let trace = w.failure_trace(&history, "boom", "2024-05-01T10:00:00+00:00");
    let expected = format!(
        "=== Worker Failure Log ===\n\
         Worker ID: {}\n\
         Channel ID: chan-7\n\
         Timestamp: 2024-05-01T10:00:00+00:00\n\
         State: Failed\n\
         \n\
         --- Task ---\n\
         count the files\n\
         \n\
         --- Error ---\n\
         boom\n\
         \n\
         --- History (2 messages) ---\n\
         \n\
         [0] User:\n\
         \x20 hello\n\
         \n\
         [1] Assistant:\n\
         \x20 hi there\n",
        w.id,
    );
    assert_eq!(trace, expected);
}

#[test]
fn trace_without_channel_omits_the_line() {
    let w = Worker::new(None, "t".to_string(), "s".to_string());
    let trace = w.failure_trace(&vec![], "err", "ts");
    assert!(!trace.contains("Channel ID:"));
    assert!(trace.contains("Worker ID: "));
    assert!(trace.contains("--- History (0 messages) ---"));
}

#[test]
fn trace_truncates_tool_call_args_at_500() {
    let w = worker_with_channel();
    let args: String = "x".repeat(600);
    let history = vec![Message::Assistant(vec![AssistantItem::ToolCall {
        id: "call-9".to_string(),
        name: "browser".to_string(),
        args: args.clone(),
    }])];
    let trace = w.failure_trace(&history, "err", "ts");
    let expected_line = format!(
        "  Tool Call: browser (id: call-9)\n    Args: {}...[truncated]\n",
        &args[..500],
    );
    assert!(trace.contains(&expected_line));
}

#[test]
fn trace_truncates_tool_result_text_at_2000() {
    let w = worker_with_channel();
    let text: String = "y".repeat(2500);
    let history = vec![Message::User(vec![UserItem::ToolResult {
        call_id: Some("c-1".to_string()),
        parts: vec![ToolResultPart::Text(text.clone())],
    }])];
    let trace = w.failure_trace(&history, "err", "ts");
    assert!(trace.contains("  Tool Result (id: c-1):\n"));
    let expected_part = format!("    {}...[truncated]\n", &text[..2000]);
    assert!(trace.contains(&expected_part));
}

#[test]
fn trace_labels_unknown_call_ids_and_opaque_content() {
    let w = worker_with_channel();
    let history = vec![
        Message::User(vec![
            UserItem::ToolResult { call_id: None, parts: vec![ToolResultPart::Text("fine".to_string())] },
            UserItem::Opaque,
        ]),
        Message::Assistant(vec![AssistantItem::Opaque]),
    ];
    let trace = w.failure_trace(&history, "err", "ts");
    assert!(trace.contains("  Tool Result (id: unknown):\n    fine\n"));
    assert!(trace.contains("  [non-text content]\n"));
    assert!(trace.contains("  [other content]\n"));
}

#[test]
fn trace_with_current_clock_embeds_the_rest_unchanged() {
    let mut w = worker_with_channel();
    w.state = WorkerState::Failed;
    let history = vec![Message::User(vec![UserItem::Text("hello".to_string())])];
    let trace = w.failure_trace_now(&history, "late failure");
    assert!(trace.starts_with("=== Worker Failure Log ===\n"));
    assert!(trace.contains("Timestamp: "));
    assert!(trace.contains("--- Error ---\nlate failure\n"));
    assert!(trace.contains("[0] User:\n  hello\n"));
}
