//! The conversation history model: an ordered sequence of messages, each a
//! list of content items. The history only grows through model-invocation
//! rounds and only shrinks through compaction.

use vstd::prelude::*;
use vstd::string::*;

verus! {

/// One piece of a tool result.
pub enum ToolResultPart {
    /// Plain text returned by a tool.
    Text(String),
    /// Content of some other kind; the engine never looks inside it.
    Opaque,
}

/// One content item of a `User` message.
pub enum UserItem {
    /// Free text.
    Text(String),
    /// The result of an earlier tool invocation.
    ToolResult { call_id: Option<String>, parts: Vec<ToolResultPart> },
    /// Content of some other kind; the engine never looks inside it.
    Opaque,
}

/// One content item of an `Assistant` message.
pub enum AssistantItem {
    /// Free text.
    Text(String),
    /// A tool invocation: its call id, the tool's name and the rendered
    /// argument payload.
    ToolCall { id: String, name: String, args: String },
    /// Content of some other kind; the engine never looks inside it.
    Opaque,
}

/// One message of the conversation history.
pub enum Message {
    /// A message with the `User` actor.
    User(Vec<UserItem>),
    /// A message with the `Assistant` actor.
    Assistant(Vec<AssistantItem>),
}

/// A `User` message holding exactly one free-text item; compaction markers
/// have this shape.
pub fn user_text_message(text: String) -> (m: Message)
    ensures
        m matches Message::User(items) && items@.len() == 1 && (items@[0] matches UserItem::Text(t)
        && t == text),
{
    Message::User(vec![UserItem::Text(text)])
}

/// The free-text items of one assistant message, in order.
pub open spec fn assistant_text_parts(items: Seq<AssistantItem>) -> Seq<Seq<char>>
    decreases items.len(),
{
    if items.len() == 0 {
        Seq::empty()
    } else {
        assistant_text_parts(items.drop_last()) + (match items.last() {
            AssistantItem::Text(t) => seq![t@],
            _ => Seq::empty(),
        })
    }
}

/// `parts` joined with a newline between neighbours.
pub open spec fn join_lines(parts: Seq<Seq<char>>) -> Seq<char>
    decreases parts.len(),
{
    if parts.len() == 0 {
        Seq::empty()
    } else if parts.len() == 1 {
        parts[0]
    } else {
        join_lines(parts.drop_last()) + "\n"@ + parts.last()
    }
}

/// The text of the most recent assistant message that has at least one
/// free-text item: its text items joined with newlines. `None` when no such
/// message exists.
pub open spec fn last_assistant_text(history: Seq<Message>) -> Option<Seq<char>>
    decreases history.len(),
{
    if history.len() == 0 {
        None
    } else {
        match history.last() {
            Message::Assistant(items) => if assistant_text_parts(items@).len() > 0 {
                Some(join_lines(assistant_text_parts(items@)))
            } else {
                last_assistant_text(history.drop_last())
            },
            Message::User(_) => last_assistant_text(history.drop_last()),
        }
    }
}

/// Extract the last assistant text message from a history.
pub fn extract_last_assistant_text(history: &Vec<Message>) -> (r: Option<String>)
    ensures
        r matches Some(s) ==> last_assistant_text(history@) matches Some(t) && s@ == t,
        r is None ==> last_assistant_text(history@) is None,
{
    let mut i = history.len();
    proof {
        assert(history@.take(i as int) =~= history@);
    }
    while i > 0
        invariant
            i <= history@.len(),
            last_assistant_text(history@) == last_assistant_text(history@.take(i as int)),
        decreases i,
    {
        proof {
            assert(history@.take(i as int).drop_last() =~= history@.take(i - 1));
            assert(history@.take(i as int).last() == history@[i - 1]);
        }
        match &history[i - 1] {
            Message::Assistant(items) => {
                let joined = join_assistant_texts(items);
                if let Some(text) = joined {
                    return Some(text);
                }
            },
            Message::User(_) => {},
        }
        i = i - 1;
    }
    None
}

/// Join the free-text items of one assistant message with newlines; `None`
/// when it has no free-text item.
fn join_assistant_texts(items: &Vec<AssistantItem>) -> (r: Option<String>)
    ensures
        r matches Some(s) ==> assistant_text_parts(items@).len() > 0 && s@ == join_lines(
            assistant_text_parts(items@),
        ),
        r is None ==> assistant_text_parts(items@).len() == 0,
{
    let mut out = String::new();
    let mut found = false;
    let mut j: usize = 0;
    proof {
        assert(items@.take(0) =~= Seq::<AssistantItem>::empty());
    }
    while j < items.len()
        invariant
            j <= items@.len(),
            found <==> assistant_text_parts(items@.take(j as int)).len() > 0,
            found ==> out@ == join_lines(assistant_text_parts(items@.take(j as int))),
            !found ==> out@ == Seq::<char>::empty(),
        decreases items@.len() - j,
    {
        proof {
            assert(items@.take(j + 1).drop_last() =~= items@.take(j as int));
            assert(items@.take(j + 1).last() == items@[j as int]);
        }
        match &items[j] {
            AssistantItem::Text(t) => {
                let ghost prev = assistant_text_parts(items@.take(j as int));
                if found {
                    out.append("\n");
                }
                out.append(t.as_str());
                proof {
                    assert(assistant_text_parts(items@.take(j + 1)) =~= prev.push(t@));
                    assert(prev.push(t@).drop_last() =~= prev);
                    assert(prev.push(t@).last() == t@);
                    if prev.len() > 0 {
                        assert(join_lines(prev.push(t@)) == join_lines(prev) + "\n"@ + t@);
                    }
                }
                found = true;
            },
            _ => {},
        }
        j = j + 1;
    }
    proof {
        assert(items@.take(items@.len() as int) =~= items@);
    }
    if found {
        Some(out)
    } else {
        None
    }
}

} // verus!
