//! Failure diagnostics: on every terminal failure or cancellation the engine
//! builds a structured trace of the worker's execution (identity, state,
//! task, error, full labelled history). Delivering the trace to durable
//! storage is the caller's job and best-effort only.

use vstd::prelude::*;
use vstd::string::*;

use crate::message::{AssistantItem, Message, ToolResultPart, UserItem};
use crate::state::{state_label, WorkerState};
use crate::text::{clip, clipped, dec_str, u64_to_string};

verus! {

/// Relies on chrono::Utc::now and chrono::DateTime::to_rfc3339: the current
/// wall-clock time in RFC 3339 form. The result depends on the clock, so
/// nothing is promised of it.
#[verifier::external_body]
pub fn now_rfc3339() -> String {
    chrono::Utc::now().to_rfc3339()
}

/// The head of a failure trace, before the per-message lines.
pub open spec fn trace_header(
    id: Seq<char>,
    channel: Option<Seq<char>>,
    ts: Seq<char>,
    state: WorkerState,
    task: Seq<char>,
    error: Seq<char>,
    total: nat,
) -> Seq<char> {
    "=== Worker Failure Log ===\n"@ + "Worker ID: "@ + id + "\n"@ + (match channel {
        Some(c) => "Channel ID: "@ + c + "\n"@,
        None => Seq::empty(),
    }) + "Timestamp: "@ + ts + "\n"@ + "State: "@ + state_label(state) + "\n"@ + "\n"@
        + "--- Task ---\n"@ + task + "\n"@ + "\n"@ + "--- Error ---\n"@ + error + "\n"@ + "\n"@
        + "--- History ("@ + dec_str(total) + " messages) ---\n"@
}

/// What one tool-result part contributes to the trace: its text, truncated
/// to 2000 characters; parts of another kind contribute nothing.
pub open spec fn trace_result_part(part: ToolResultPart) -> Seq<char> {
    match part {
        ToolResultPart::Text(t) => "    "@ + clipped(t@, 2000, "...[truncated]"@) + "\n"@,
        ToolResultPart::Opaque => Seq::empty(),
    }
}

/// What a list of tool-result parts contributes, in order.
pub open spec fn trace_result_parts(parts: Seq<ToolResultPart>) -> Seq<char>
    decreases parts.len(),
{
    if parts.len() == 0 {
        Seq::empty()
    } else {
        trace_result_parts(parts.drop_last()) + trace_result_part(parts.last())
    }
}

/// What one user content item contributes to the trace.
pub open spec fn trace_user_item(item: UserItem) -> Seq<char> {
    match item {
        UserItem::Text(t) => "  "@ + t@ + "\n"@,
        UserItem::ToolResult { call_id, parts } => "  Tool Result (id: "@ + (match call_id {
            Some(c) => c@,
            None => "unknown"@,
        }) + "):\n"@ + trace_result_parts(parts@),
        UserItem::Opaque => "  [non-text content]\n"@,
    }
}

/// What a list of user items contributes, in order.
pub open spec fn trace_user_items(items: Seq<UserItem>) -> Seq<char>
    decreases items.len(),
{
    if items.len() == 0 {
        Seq::empty()
    } else {
        trace_user_items(items.drop_last()) + trace_user_item(items.last())
    }
}

/// What one assistant content item contributes to the trace; tool-call
/// arguments are truncated to 500 characters.
pub open spec fn trace_assistant_item(item: AssistantItem) -> Seq<char> {
    match item {
        AssistantItem::Text(t) => "  "@ + t@ + "\n"@,
        AssistantItem::ToolCall { id, name, args } => "  Tool Call: "@ + name@ + " (id: "@ + id@
            + ")\n    Args: "@ + clipped(args@, 500, "...[truncated]"@) + "\n"@,
        AssistantItem::Opaque => "  [other content]\n"@,
    }
}

/// What a list of assistant items contributes, in order.
pub open spec fn trace_assistant_items(items: Seq<AssistantItem>) -> Seq<char>
    decreases items.len(),
{
    if items.len() == 0 {
        Seq::empty()
    } else {
        trace_assistant_items(items.drop_last()) + trace_assistant_item(items.last())
    }
}

/// What the message at position `index` contributes: a blank line, the
/// position and actor label, then its items.
pub open spec fn trace_message(index: nat, m: Message) -> Seq<char> {
    "\n["@ + dec_str(index) + (match m {
        Message::User(items) => "] User:\n"@ + trace_user_items(items@),
        Message::Assistant(items) => "] Assistant:\n"@ + trace_assistant_items(items@),
    })
}

/// The per-message lines of the trace, in history order.
pub open spec fn trace_messages(ms: Seq<Message>) -> Seq<char>
    decreases ms.len(),
{
    if ms.len() == 0 {
        Seq::empty()
    } else {
        trace_messages(ms.drop_last()) + trace_message((ms.len() - 1) as nat, ms.last())
    }
}

/// The full failure trace.
pub open spec fn trace_of(
    id: Seq<char>,
    channel: Option<Seq<char>>,
    ts: Seq<char>,
    state: WorkerState,
    task: Seq<char>,
    error: Seq<char>,
    history: Seq<Message>,
) -> Seq<char> {
    trace_header(id, channel, ts, state, task, error, history.len()) + trace_messages(history)
}

/// Append what one user item contributes.
fn push_trace_user_item(out: &mut String, item: &UserItem)
    ensures
        final(out)@ == old(out)@ + trace_user_item(*item),
{
    match item {
        UserItem::Text(t) => {
            out.append("  ");
            out.append(t.as_str());
            out.append("\n");
            proof {
                assert(out@ =~= old(out)@ + trace_user_item(*item));
            }
        },
        UserItem::ToolResult { call_id, parts } => {
            out.append("  Tool Result (id: ");
            match call_id {
                Some(c) => out.append(c.as_str()),
                None => out.append("unknown"),
            }
            out.append("):\n");
            let ghost head = old(out)@ + "  Tool Result (id: "@ + (match item->ToolResult_call_id {
                Some(c) => c@,
                None => "unknown"@,
            }) + "):\n"@;
            proof {
                assert(out@ =~= head);
            }
            let mut j: usize = 0;
            proof {
                assert(parts@.take(0) =~= Seq::<ToolResultPart>::empty());
            }
            while j < parts.len()
                invariant
                    j <= parts@.len(),
                    out@ == head + trace_result_parts(parts@.take(j as int)),
                decreases parts@.len() - j,
            {
                proof {
                    assert(parts@.take(j + 1).drop_last() =~= parts@.take(j as int));
                    assert(parts@.take(j + 1).last() == parts@[j as int]);
                }
                match &parts[j] {
                    ToolResultPart::Text(t) => {
                        out.append("    ");
                        let clipped_text = clip(t.as_str(), 2000, "...[truncated]");
                        out.append(clipped_text.as_str());
                        out.append("\n");
                        proof {
                            assert(out@ =~= head + trace_result_parts(parts@.take(j + 1)));
                        }
                    },
                    ToolResultPart::Opaque => {},
                }
                j = j + 1;
            }
            proof {
                assert(parts@.take(parts@.len() as int) =~= parts@);
                assert(out@ =~= old(out)@ + trace_user_item(*item));
            }
        },
        UserItem::Opaque => {
            out.append("  [non-text content]\n");
        },
    }
}

/// Append what one assistant item contributes.
fn push_trace_assistant_item(out: &mut String, item: &AssistantItem)
    ensures
        final(out)@ == old(out)@ + trace_assistant_item(*item),
{
    match item {
        AssistantItem::Text(t) => {
            out.append("  ");
            out.append(t.as_str());
            out.append("\n");
            proof {
                assert(out@ =~= old(out)@ + trace_assistant_item(*item));
            }
        },
        AssistantItem::ToolCall { id, name, args } => {
            out.append("  Tool Call: ");
            out.append(name.as_str());
            out.append(" (id: ");
            out.append(id.as_str());
            out.append(")\n    Args: ");
            let clipped_args = clip(args.as_str(), 500, "...[truncated]");
            out.append(clipped_args.as_str());
            out.append("\n");
            proof {
                assert(out@ =~= old(out)@ + trace_assistant_item(*item));
            }
        },
        AssistantItem::Opaque => {
            out.append("  [other content]\n");
        },
    }
}

/// Append what the message at position `index` contributes.
fn push_trace_message(out: &mut String, index: u64, m: &Message)
    ensures
        final(out)@ == old(out)@ + trace_message(index as nat, *m),
{
    out.append("\n[");
    let position = u64_to_string(index);
    out.append(position.as_str());
    let ghost head = old(out)@ + "\n["@ + dec_str(index as nat);
    proof {
        assert(out@ =~= head);
    }
    match m {
        Message::User(items) => {
            out.append("] User:\n");
            let ghost head2 = head + "] User:\n"@;
            proof {
                assert(out@ =~= head2);
                assert(items@.take(0) =~= Seq::<UserItem>::empty());
            }
            let mut j: usize = 0;
            while j < items.len()
                invariant
                    j <= items@.len(),
                    out@ == head2 + trace_user_items(items@.take(j as int)),
                decreases items@.len() - j,
            {
                proof {
                    assert(items@.take(j + 1).drop_last() =~= items@.take(j as int));
                    assert(items@.take(j + 1).last() == items@[j as int]);
                }
                push_trace_user_item(out, &items[j]);
                j = j + 1;
            }
            proof {
                assert(items@.take(items@.len() as int) =~= items@);
                assert(out@ =~= old(out)@ + trace_message(index as nat, *m));
            }
        },
        Message::Assistant(items) => {
            out.append("] Assistant:\n");
            let ghost head2 = head + "] Assistant:\n"@;
            proof {
                assert(out@ =~= head2);
                assert(items@.take(0) =~= Seq::<AssistantItem>::empty());
            }
            let mut j: usize = 0;
            while j < items.len()
                invariant
                    j <= items@.len(),
                    out@ == head2 + trace_assistant_items(items@.take(j as int)),
                decreases items@.len() - j,
            {
                proof {
                    assert(items@.take(j + 1).drop_last() =~= items@.take(j as int));
                    assert(items@.take(j + 1).last() == items@[j as int]);
                }
                push_trace_assistant_item(out, &items[j]);
                j = j + 1;
            }
            proof {
                assert(items@.take(items@.len() as int) =~= items@);
                assert(out@ =~= old(out)@ + trace_message(index as nat, *m));
            }
        },
    }
}

/// Build the full failure trace from the worker's identity, its state, the
/// task, the error text, a timestamp and the history.
pub fn build_failure_trace(
    id: &str,
    channel_id: &Option<String>,
    timestamp: &str,
    state: WorkerState,
    task: &str,
    error: &str,
    history: &Vec<Message>,
) -> (r: String)
    ensures
        r@ == trace_of(
            id@,
            crate::text::opt_text(*channel_id),
            timestamp@,
            state,
            task@,
            error@,
            history@,
        ),
{
    let mut out = String::new();
    out.append("=== Worker Failure Log ===\n");
    out.append("Worker ID: ");
    out.append(id);
    out.append("\n");
    match channel_id {
        Some(c) => {
            out.append("Channel ID: ");
            out.append(c.as_str());
            out.append("\n");
        },
        None => {},
    }
    out.append("Timestamp: ");
    out.append(timestamp);
    out.append("\n");
    out.append("State: ");
    out.append(state.label());
    out.append("\n");
    out.append("\n");
    out.append("--- Task ---\n");
    out.append(task);
    out.append("\n");
    out.append("\n");
    out.append("--- Error ---\n");
    out.append(error);
    out.append("\n");
    out.append("\n");
    out.append("--- History (");
    let total = u64_to_string(history.len() as u64);
    out.append(total.as_str());
    out.append(" messages) ---\n");
    let ghost head = trace_header(
        id@,
        crate::text::opt_text(*channel_id),
        timestamp@,
        state,
        task@,
        error@,
        history@.len(),
    );
    proof {
        assert(out@ =~= head);
        assert(history@.take(0) =~= Seq::<Message>::empty());
    }
    let mut i: usize = 0;
    while i < history.len()
        invariant
            i <= history@.len(),
            out@ == head + trace_messages(history@.take(i as int)),
        decreases history@.len() - i,
    {
        proof {
            assert(history@.take(i + 1).drop_last() =~= history@.take(i as int));
            assert(history@.take(i + 1).last() == history@[i as int]);
        }
        push_trace_message(&mut out, i as u64, &history[i]);
        i = i + 1;
    }
    proof {
        assert(history@.take(history@.len() as int) =~= history@);
    }
    out
}

} // verus!
