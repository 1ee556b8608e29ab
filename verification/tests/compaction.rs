use worker_engine::compact::{remove_count, usage_percent, CompactionOutcome};
use worker_engine::message::{AssistantItem, Message, UserItem};
use worker_engine::prompts::PromptEngine;
use worker_engine::worker::Worker;

fn user_text(s: &str) -> Message {
    Message::User(vec![UserItem::Text(s.to_string())])
}

fn assistant_text(s: &str) -> Message {
    Message::Assistant(vec![AssistantItem::Text(s.to_string())])
}

fn numbered_history(n: usize) -> Vec<Message> {
    (0..n)
        .map(|i| if i % 2 == 0 { user_text(&format!("msg-{i}")) } else { assistant_text(&format!("msg-{i}")) })
        .collect()
}

fn message_text(m: &Message) -> String {
    match m {
        Message::User(items) => match &items[0] {
            UserItem::Text(t) => t.clone(),
            _ => panic!("expected text item"),
        },
        Message::Assistant(items) => match &items[0] {
            AssistantItem::Text(t) => t.clone(),
            _ => panic!("expected text item"),
        },
    }
}

fn engine() -> PromptEngine {
    match PromptEngine::new("en") {
        Ok(e) => e,
        Err(e) => panic!("engine construction failed: {}", e.detail),
    }
}

fn worker() -> Worker {
    Worker::new(None, "task".to_string(), "sys".to_string())
}

#[test]
fn remove_count_clamps_round_to_legal_range() {
    // round(total * f) clamped to [1, total - 2]
    assert_eq!(remove_count(10, 50), 5);
    assert_eq!(remove_count(5, 75), 3); // round(3.75) = 4, clamped to 3
    assert_eq!(remove_count(3, 0), 1); // rounds to 0, clamped up to 1
    assert_eq!(remove_count(100, 100), 98); // clamped down to total - 2
    assert_eq!(remove_count(7, 50), 4); // round(3.5) = 4, half-up
}

#[test]
fn usage_percent_rounds_half_up() {
    assert_eq!(usage_percent(72, 100), 72);
    assert_eq!(usage_percent(1, 3), 33);
    assert_eq!(usage_percent(2, 3), 67);
    assert_eq!(usage_percent(5, 0), 0);
}

#[test]
fn soft_compaction_fires_at_72_percent_on_ten_messages() {
    // history of 10, usage 0.72: soft compaction removes 5, leaving 5 + 1 marker
    let e = engine();
    let w = worker();
    let mut h = numbered_history(10);
    let out = w.maybe_compact_history(&mut h, 72, 100, &e);
    match out {
        CompactionOutcome::Compacted(rep) => {
            assert_eq!(rep.removed, 5);
            assert_eq!(rep.remaining, 6);
            assert_eq!(rep.usage_percent, 72);
        }
        _ => panic!("soft compaction must fire at 72%"),
    }
    assert_eq!(h.len(), 6);
    // the marker is at index 0
    match &h[0] {
        Message::User(items) => {
            assert_eq!(items.len(), 1);
            match &items[0] {
                UserItem::Text(t) => {
                    assert!(t.contains("5 messages compacted"), "marker text: {t}");
                }
                _ => panic!("marker must be a text item"),
            }
        }
        _ => panic!("marker must be a User message"),
    }
    // the remainder keeps its order
    for (k, expected) in (5..10).enumerate() {
        assert_eq!(message_text(&h[k + 1]), format!("msg-{expected}"));
    }
}

#[test]
fn soft_compaction_skipped_under_threshold() {
    let e = engine();
    let w = worker();
    let mut h = numbered_history(10);
    let out = w.maybe_compact_history(&mut h, 69, 100, &e);
    assert!(matches!(out, CompactionOutcome::NotNeeded));
    assert_eq!(h.len(), 10);
    for i in 0..10 {
        assert_eq!(message_text(&h[i]), format!("msg-{i}"));
    }
}

#[test]
fn forced_compaction_of_three_messages_is_a_noop() {
    // history of 3: no-op, history unchanged
    let e = engine();
    let w = worker();
    let mut h = numbered_history(3);
    let out = w.force_compact_history(&mut h, 1000, 100, &e);
    assert!(matches!(out, CompactionOutcome::NotNeeded));
    assert_eq!(h.len(), 3);
    for i in 0..3 {
        assert_eq!(message_text(&h[i]), format!("msg-{i}"));
    }
}

#[test]
fn forced_compaction_of_five_messages_leaves_three() {
    // history of 5, f = 0.75: remove_count = clamp(round(3.75), 1, 3) = 3
    let e = engine();
    let w = worker();
    let mut h = numbered_history(5);
    let out = w.force_compact_history(&mut h, 90, 100, &e);
    match out {
        CompactionOutcome::Compacted(rep) => {
            assert_eq!(rep.removed, 3);
            assert_eq!(rep.remaining, 3);
            assert_eq!(rep.usage_percent, 90);
        }
        _ => panic!("forced compaction must fire"),
    }
    assert_eq!(h.len(), 3);
    assert_eq!(message_text(&h[1]), "msg-3");
    assert_eq!(message_text(&h[2]), "msg-4");
}

#[test]
fn compaction_never_removes_two_most_recent() {
    let e = engine();
    let w = worker();
    for n in 5..20 {
        for hundredths in [50u64, 75] {
            let mut h = numbered_history(n);
            let last = message_text(&h[n - 1]);
            let second_last = message_text(&h[n - 2]);
            let out = w.compact_history(&mut h, hundredths, 100, 100, &e);
            assert!(matches!(out, CompactionOutcome::Compacted(_)));
            assert_eq!(message_text(&h[h.len() - 1]), last);
            assert_eq!(message_text(&h[h.len() - 2]), second_last);
        }
    }
}

#[test]
fn compaction_marker_carries_recap_of_removed() {
    let e = engine();
    let w = worker();
    let mut h = vec![
        Message::Assistant(vec![AssistantItem::ToolCall {
            id: "c1".to_string(),
            name: "shell".to_string(),
            args: "{\"cmd\":\"ls\"}".to_string(),
        }]),
        user_text("a"),
        user_text("b"),
        user_text("c"),
        user_text("d"),
        user_text("e"),
    ];
    let out = w.compact_history(&mut h, 50, 80, 100, &e);
    let rep = match out {
        CompactionOutcome::Compacted(rep) => rep,
        _ => panic!("must compact"),
    };
    assert_eq!(rep.removed, 3);
    assert_eq!(rep.recap, "- Called `shell` ({\"cmd\":\"ls\"})\n");
    match &h[0] {
        Message::User(items) => match &items[0] {
            UserItem::Text(t) => {
                assert_eq!(
                    t,
                    "[System: Earlier work has been summarized to free up context. 3 messages compacted.]\n\n## Work completed so far:\n\n- Called `shell` ({\"cmd\":\"ls\"})\n",
                );
            }
            _ => panic!("marker must be text"),
        },
        _ => panic!("marker must be a User message"),
    }
}

#[test]
fn compaction_with_empty_window_still_fires_soft_check() {
    // a window of 0 counts as exhausted usage
    let e = engine();
    let w = worker();
    let mut h = numbered_history(10);
    let out = w.maybe_compact_history(&mut h, 0, 0, &e);
    match out {
        CompactionOutcome::Compacted(rep) => {
            assert_eq!(rep.removed, 5);
            assert_eq!(rep.usage_percent, 0);
        }
        _ => panic!("soft compaction must fire when the window reads 0"),
    }
}
