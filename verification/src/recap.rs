//! The recap: a condensed textual summary of removed history entries (tool
//! calls, assistant notes, tool results), placed in the compaction marker so
//! the model does not repeat completed work.

use vstd::prelude::*;
use vstd::string::*;

use crate::message::{AssistantItem, Message, ToolResultPart, UserItem};
use crate::text::{clip, clipped};

verus! {

/// Recap line for one tool invocation: its name and the first 100 characters
/// of its arguments.
pub open spec fn recap_tool_call_line(name: Seq<char>, args: Seq<char>) -> Seq<char> {
    "- Called `"@ + name + "` ("@ + clipped(args, 100, "..."@) + ")\n"@
}

/// Recap line for one non-empty assistant note: its first 200 characters.
pub open spec fn recap_noted_line(text: Seq<char>) -> Seq<char> {
    "- Noted: "@ + clipped(text, 200, "..."@) + "\n"@
}

/// Recap line for one tool-result text: its first 150 characters.
pub open spec fn recap_result_line(text: Seq<char>) -> Seq<char> {
    "  Result: "@ + clipped(text, 150, "..."@) + "\n"@
}

/// What one assistant content item contributes to the recap.
pub open spec fn recap_of_assistant_item(item: AssistantItem) -> Seq<char> {
    match item {
        AssistantItem::ToolCall { id, name, args } => recap_tool_call_line(name@, args@),
        AssistantItem::Text(t) => if t@.len() > 0 {
            recap_noted_line(t@)
        } else {
            Seq::empty()
        },
        AssistantItem::Opaque => Seq::empty(),
    }
}

/// What one tool-result part contributes to the recap.
pub open spec fn recap_of_result_part(part: ToolResultPart) -> Seq<char> {
    match part {
        ToolResultPart::Text(t) => recap_result_line(t@),
        ToolResultPart::Opaque => Seq::empty(),
    }
}

/// What a list of tool-result parts contributes, in order.
pub open spec fn recap_of_result_parts(parts: Seq<ToolResultPart>) -> Seq<char>
    decreases parts.len(),
{
    if parts.len() == 0 {
        Seq::empty()
    } else {
        recap_of_result_parts(parts.drop_last()) + recap_of_result_part(parts.last())
    }
}

/// What one user content item contributes to the recap.
pub open spec fn recap_of_user_item(item: UserItem) -> Seq<char> {
    match item {
        UserItem::ToolResult { call_id, parts } => recap_of_result_parts(parts@),
        _ => Seq::empty(),
    }
}

/// What a list of assistant items contributes, in order.
pub open spec fn recap_of_assistant_items(items: Seq<AssistantItem>) -> Seq<char>
    decreases items.len(),
{
    if items.len() == 0 {
        Seq::empty()
    } else {
        recap_of_assistant_items(items.drop_last()) + recap_of_assistant_item(items.last())
    }
}

/// What a list of user items contributes, in order.
pub open spec fn recap_of_user_items(items: Seq<UserItem>) -> Seq<char>
    decreases items.len(),
{
    if items.len() == 0 {
        Seq::empty()
    } else {
        recap_of_user_items(items.drop_last()) + recap_of_user_item(items.last())
    }
}

/// What one message contributes to the recap.
pub open spec fn recap_of_message(m: Message) -> Seq<char> {
    match m {
        Message::Assistant(items) => recap_of_assistant_items(items@),
        Message::User(items) => recap_of_user_items(items@),
    }
}

/// The recap lines of `messages`, in order, before the empty-recap fallback.
pub open spec fn recap_body(messages: Seq<Message>) -> Seq<char>
    decreases messages.len(),
{
    if messages.len() == 0 {
        Seq::empty()
    } else {
        recap_body(messages.drop_last()) + recap_of_message(messages.last())
    }
}

/// The recap of `messages`: its lines, or the fixed sentinel when nothing in
/// them qualifies for a line.
pub open spec fn recap_of(messages: Seq<Message>) -> Seq<char> {
    if recap_body(messages).len() == 0 {
        "No significant actions recorded in compacted history."@
    } else {
        recap_body(messages)
    }
}

/// Append what one assistant item contributes.
fn push_assistant_item_recap(out: &mut String, item: &AssistantItem)
    ensures
        final(out)@ == old(out)@ + recap_of_assistant_item(*item),
{
    match item {
        AssistantItem::ToolCall { id, name, args } => {
            out.append("- Called `");
            out.append(name.as_str());
            out.append("` (");
            let clipped_args = clip(args.as_str(), 100, "...");
            out.append(clipped_args.as_str());
            out.append(")\n");
            proof {
                assert(out@ =~= old(out)@ + recap_of_assistant_item(*item));
            }
        },
        AssistantItem::Text(t) => {
            if t.as_str().unicode_len() > 0 {
                out.append("- Noted: ");
                let clipped_text = clip(t.as_str(), 200, "...");
                out.append(clipped_text.as_str());
                out.append("\n");
                proof {
                    assert(out@ =~= old(out)@ + recap_of_assistant_item(*item));
                }
            } else {
                proof {
                    assert(out@ =~= old(out)@ + recap_of_assistant_item(*item));
                }
            }
        },
        AssistantItem::Opaque => {
            proof {
                assert(out@ =~= old(out)@ + recap_of_assistant_item(*item));
            }
        },
    }
}

/// Append what one user item contributes.
fn push_user_item_recap(out: &mut String, item: &UserItem)
    ensures
        final(out)@ == old(out)@ + recap_of_user_item(*item),
{
    match item {
        UserItem::ToolResult { call_id, parts } => {
            let mut j: usize = 0;
            proof {
                assert(parts@.take(0) =~= Seq::<ToolResultPart>::empty());
            }
            while j < parts.len()
                invariant
                    j <= parts@.len(),
                    out@ == old(out)@ + recap_of_result_parts(parts@.take(j as int)),
                decreases parts@.len() - j,
            {
                proof {
                    assert(parts@.take(j + 1).drop_last() =~= parts@.take(j as int));
                    assert(parts@.take(j + 1).last() == parts@[j as int]);
                }
                match &parts[j] {
                    ToolResultPart::Text(t) => {
                        out.append("  Result: ");
                        let clipped_text = clip(t.as_str(), 150, "...");
                        out.append(clipped_text.as_str());
                        out.append("\n");
                        proof {
                            assert(out@ =~= old(out)@ + recap_of_result_parts(
                                parts@.take(j + 1),
                            ));
                        }
                    },
                    ToolResultPart::Opaque => {},
                }
                j = j + 1;
            }
            proof {
                assert(parts@.take(parts@.len() as int) =~= parts@);
            }
        },
        _ => {
            proof {
                assert(out@ =~= old(out)@ + recap_of_user_item(*item));
            }
        },
    }
}

/// Append what one message contributes.
fn push_message_recap(out: &mut String, m: &Message)
    ensures
        final(out)@ == old(out)@ + recap_of_message(*m),
{
    match m {
        Message::Assistant(items) => {
            let mut j: usize = 0;
            proof {
                assert(items@.take(0) =~= Seq::<AssistantItem>::empty());
            }
            while j < items.len()
                invariant
                    j <= items@.len(),
                    out@ == old(out)@ + recap_of_assistant_items(items@.take(j as int)),
                decreases items@.len() - j,
            {
                proof {
                    assert(items@.take(j + 1).drop_last() =~= items@.take(j as int));
                    assert(items@.take(j + 1).last() == items@[j as int]);
                }
                push_assistant_item_recap(out, &items[j]);
                j = j + 1;
            }
            proof {
                assert(items@.take(items@.len() as int) =~= items@);
            }
        },
        Message::User(items) => {
            let mut j: usize = 0;
            proof {
                assert(items@.take(0) =~= Seq::<UserItem>::empty());
            }
            while j < items.len()
                invariant
                    j <= items@.len(),
                    out@ == old(out)@ + recap_of_user_items(items@.take(j as int)),
                decreases items@.len() - j,
            {
                proof {
                    assert(items@.take(j + 1).drop_last() =~= items@.take(j as int));
                    assert(items@.take(j + 1).last() == items@[j as int]);
                }
                push_user_item_recap(out, &items[j]);
                j = j + 1;
            }
            proof {
                assert(items@.take(items@.len() as int) =~= items@);
            }
        },
    }
}

/// The recap of the oldest `count` messages of `history`.
pub fn recap_of_prefix(history: &Vec<Message>, count: usize) -> (r: String)
    requires
        count <= history@.len(),
    ensures
        r@ == recap_of(history@.take(count as int)),
{
    let mut out = String::new();
    let mut i: usize = 0;
    proof {
        assert(history@.take(0) =~= Seq::<Message>::empty());
    }
    while i < count
        invariant
            i <= count <= history@.len(),
            out@ == recap_body(history@.take(i as int)),
        decreases count - i,
    {
        proof {
            assert(history@.take(i + 1).drop_last() =~= history@.take(i as int));
            assert(history@.take(i + 1).last() == history@[i as int]);
        }
        push_message_recap(&mut out, &history[i]);
        i = i + 1;
    }
    if out.as_str().unicode_len() == 0 {
        String::from_str("No significant actions recorded in compacted history.")
    } else {
        out
    }
}

/// Build a brief recap of removed worker history for the compaction marker.
pub fn build_worker_recap(messages: &Vec<Message>) -> (r: String)
    ensures
        r@ == recap_of(messages@),
{
    let n = messages.len();
    let r = recap_of_prefix(messages, n);
    proof {
        assert(messages@.take(messages@.len() as int) =~= messages@);
    }
    r
}

} // verus!
