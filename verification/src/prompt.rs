//! Folding an OpenAI message list into the single prompt that a Copilot
//! session takes.
//!
//! Every message but the last `user` one becomes a tagged history entry
//! (`<previous_system>`, `<previous_user>`, `<previous_assistant>` with its
//! `<tool_call>` lines, `<tool_result>`, or `<previous_ROLE>` for other roles);
//! the last `user` message closes the prompt untagged, after a `---` line when
//! there is history. Image parts become `[image: URL]` hints.

use vstd::prelude::*;
use crate::text::text_eq;
use crate::types::{ChatMessage, ContentPart, MessageContent, ToolCall};

verus! {

/// The text of one part of a multi-part message.
pub open spec fn part_text(p: ContentPart) -> Seq<char> {
    match p {
        ContentPart::Text { text } => text@,
        ContentPart::ImageUrl { image_url } => "[image: "@ + image_url.url@ + "]"@,
        ContentPart::Other => Seq::empty(),
    }
}

/// The texts of `parts`, one per line.
pub open spec fn parts_text(parts: Seq<ContentPart>) -> Seq<char>
    decreases parts.len(),
{
    if parts.len() == 0 {
        Seq::empty()
    } else if parts.len() == 1 {
        part_text(parts[0])
    } else {
        parts_text(parts.drop_last()) + "\n"@ + part_text(parts.last())
    }
}

/// The text of a message's content.
pub open spec fn content_text(c: MessageContent) -> Seq<char> {
    match c {
        MessageContent::Text(s) => s@,
        MessageContent::Null => Seq::empty(),
        MessageContent::Parts(parts) => parts_text(parts@),
    }
}

/// One `<tool_call>` line of an assistant history entry.
pub open spec fn tool_call_line(c: ToolCall) -> Seq<char> {
    "<tool_call id=\""@ + c.id@ + "\" name=\""@ + c.function.name@ + "\">"@
        + c.function.arguments@ + "</tool_call>\n"@
}

/// The `<tool_call>` lines of `calls`, in order.
pub open spec fn tool_call_lines(calls: Seq<ToolCall>) -> Seq<char>
    decreases calls.len(),
{
    if calls.len() == 0 {
        Seq::empty()
    } else {
        tool_call_lines(calls.drop_last()) + tool_call_line(calls.last())
    }
}

/// `text` between `open` and `close`, or nothing when `text` is empty.
pub open spec fn tagged_if_text(open: Seq<char>, text: Seq<char>, close: Seq<char>) -> Seq<char> {
    if text.len() > 0 {
        open + text + close
    } else {
        Seq::empty()
    }
}

/// The history entry that a message other than the last `user` one becomes.
pub open spec fn history_entry(m: ChatMessage) -> Seq<char> {
    let text = content_text(m.content);
    let role = m.role@;
    if role == "system"@ {
        tagged_if_text("<previous_system>\n"@, text, "\n</previous_system>\n\n"@)
    } else if role == "user"@ {
        tagged_if_text("<previous_user>\n"@, text, "\n</previous_user>\n\n"@)
    } else if role == "assistant"@ {
        "<previous_assistant>\n"@ + (if text.len() > 0 {
            text + "\n"@
        } else {
            Seq::empty()
        }) + match m.tool_calls {
            Some(calls) => tool_call_lines(calls@),
            None => Seq::empty(),
        } + "</previous_assistant>\n\n"@
    } else if role == "tool"@ {
        "<tool_result tool_call_id=\""@ + match m.tool_call_id {
            Some(id) => id@,
            None => Seq::empty(),
        } + "\">\n"@ + text + "\n</tool_result>\n\n"@
    } else {
        tagged_if_text(
            "<previous_"@ + role + ">\n"@,
            text,
            "\n</previous_"@ + role + ">\n\n"@,
        )
    }
}

/// Index of the last `user` message among the first `n` messages.
pub open spec fn last_user_before(msgs: Seq<ChatMessage>, n: int) -> Option<int>
    decreases n,
{
    if n <= 0 {
        None
    } else if msgs[n - 1].role@ == "user"@ {
        Some(n - 1)
    } else {
        last_user_before(msgs, n - 1)
    }
}

/// The index found is that of a `user` message, and no later message is one.
pub proof fn lemma_last_user_before(msgs: Seq<ChatMessage>, n: int)
    requires
        n <= msgs.len(),
    ensures
        last_user_before(msgs, n) matches Some(k) ==> 0 <= k < n && msgs[k].role@ == "user"@
            && forall|j: int| k < j < n ==> msgs[j].role@ != "user"@,
        last_user_before(msgs, n) is None ==> forall|j: int| 0 <= j < n ==> msgs[j].role@ != "user"@,
    decreases n,
{
    if n > 0 {
        lemma_last_user_before(msgs, n - 1);
    }
}

/// Index of the last `user` message.
pub open spec fn last_user_index(msgs: Seq<ChatMessage>) -> Option<int> {
    last_user_before(msgs, msgs.len() as int)
}

/// The history entries of the first `n` messages, leaving out message `skip`.
pub open spec fn history(msgs: Seq<ChatMessage>, skip: Option<int>, n: int) -> Seq<char>
    decreases n,
{
    if n <= 0 {
        Seq::empty()
    } else {
        history(msgs, skip, n - 1) + if skip == Some(n - 1) {
            Seq::empty()
        } else {
            history_entry(msgs[n - 1])
        }
    }
}

/// The prompt that a message list becomes.
pub open spec fn prompt_of(msgs: Seq<ChatMessage>) -> Seq<char> {
    if msgs.len() == 0 {
        Seq::empty()
    } else {
        let last = last_user_index(msgs);
        let body = history(msgs, last, msgs.len() as int);
        match last {
            Some(k) => (if body.len() > 0 {
                body + "---\n\n"@
            } else {
                body
            }) + content_text(msgs[k].content),
            None => if body.len() == 0 {
                content_text(msgs.last().content)
            } else {
                body
            },
        }
    }
}

/// The text of a message's content: parts are joined by newlines, and an
/// image part becomes `[image: URL]`.
pub fn extract_text(content: &MessageContent) -> (out: String)
    ensures
        out@ == content_text(*content),
{
    match content {
        MessageContent::Text(s) => s.clone(),
        MessageContent::Null => String::new(),
        MessageContent::Parts(parts) => {
            let mut out = String::new();
            let mut i: usize = 0;
            while i < parts.len()
                invariant
                    i <= parts@.len(),
                    out@ == parts_text(parts@.take(i as int)),
                decreases parts@.len() - i,
            {
                let ghost before = parts@.take(i as int);
                if i > 0 {
                    out.append("\n");
                }
                match &parts[i] {
                    ContentPart::Text { text } => out.append(text.as_str()),
                    ContentPart::ImageUrl { image_url } => {
                        out.append("[image: ");
                        out.append(image_url.url.as_str());
                        out.append("]");
                    },
                    ContentPart::Other => {},
                }
                proof {
                    let after = parts@.take(i + 1);
                    assert(after.drop_last() =~= before);
                    assert(after.last() == parts@[i as int]);
                    if i == 0 {
                        assert(after.len() == 1);
                        assert(out@ =~= part_text(after[0]));
                    } else {
                        assert(out@ =~= parts_text(before) + "\n"@ + part_text(after.last()));
                    }
                }
                i = i + 1;
            }
            assert(parts@.take(parts@.len() as int) =~= parts@);
            out
        },
    }
}

/// Appends the `<tool_call>` lines of `calls` to `buf`.
fn push_tool_call_lines(buf: &mut String, calls: &Vec<ToolCall>)
    ensures
        final(buf)@ == old(buf)@ + tool_call_lines(calls@),
{
    let ghost start = buf@;
    let mut i: usize = 0;
    while i < calls.len()
        invariant
            i <= calls@.len(),
            buf@ == start + tool_call_lines(calls@.take(i as int)),
        decreases calls@.len() - i,
    {
        let c = &calls[i];
        let ghost before = buf@;
        buf.append("<tool_call id=\"");
        buf.append(c.id.as_str());
        buf.append("\" name=\"");
        buf.append(c.function.name.as_str());
        buf.append("\">");
        buf.append(c.function.arguments.as_str());
        buf.append("</tool_call>\n");
        proof {
            let after = calls@.take(i + 1);
            assert(after.drop_last() =~= calls@.take(i as int));
            assert(after.last() == calls@[i as int]);
            assert(buf@ =~= before + tool_call_line(calls@[i as int]));
        }
        i = i + 1;
    }
    assert(calls@.take(calls@.len() as int) =~= calls@);
}

/// Appends `open`, `text` and `close` to `buf` when `text` is not empty.
fn push_tagged_if_text(buf: &mut String, open: &str, text: &String, close: &str)
    ensures
        final(buf)@ == old(buf)@ + tagged_if_text(open@, text@, close@),
{
    if !text.as_str().is_empty() {
        buf.append(open);
        buf.append(text.as_str());
        buf.append(close);
        assert(final(buf)@ =~= old(buf)@ + (open@ + text@ + close@));
    } else {
        assert(final(buf)@ =~= old(buf)@);
    }
}

/// Appends the history entry of `msg` to `buf`.
fn push_history_entry(buf: &mut String, msg: &ChatMessage)
    ensures
        final(buf)@ == old(buf)@ + history_entry(*msg),
{
    let text = extract_text(&msg.content);
    let role = msg.role.as_str();
    if text_eq(role, "system") {
        push_tagged_if_text(buf, "<previous_system>\n", &text, "\n</previous_system>\n\n");
    } else if text_eq(role, "user") {
        push_tagged_if_text(buf, "<previous_user>\n", &text, "\n</previous_user>\n\n");
    } else if text_eq(role, "assistant") {
        let ghost b0 = buf@;
        buf.append("<previous_assistant>\n");
        if !text.as_str().is_empty() {
            buf.append(text.as_str());
            buf.append("\n");
        }
        let ghost b1 = buf@;
        match &msg.tool_calls {
            Some(calls) => push_tool_call_lines(buf, calls),
            None => {},
        }
        let ghost b2 = buf@;
        buf.append("</previous_assistant>\n\n");
        proof {
            let t = content_text(msg.content);
            let mid = if t.len() > 0 {
                t + "\n"@
            } else {
                Seq::empty()
            };
            let calls_text = match &msg.tool_calls {
                Some(calls) => tool_call_lines(calls@),
                None => Seq::<char>::empty(),
            };
            assert(b1 =~= b0 + "<previous_assistant>\n"@ + mid);
            assert(b2 =~= b1 + calls_text);
            assert(buf@ =~= b0 + ("<previous_assistant>\n"@ + mid + calls_text
                + "</previous_assistant>\n\n"@));
        }
    } else if text_eq(role, "tool") {
        let ghost b0 = buf@;
        buf.append("<tool_result tool_call_id=\"");
        match &msg.tool_call_id {
            Some(id) => buf.append(id.as_str()),
            None => {},
        }
        buf.append("\">\n");
        buf.append(text.as_str());
        buf.append("\n</tool_result>\n\n");
        proof {
            let id_text = match &msg.tool_call_id {
                Some(id) => id@,
                None => Seq::<char>::empty(),
            };
            assert(buf@ =~= b0 + ("<tool_result tool_call_id=\""@ + id_text + "\">\n"@ + text@
                + "\n</tool_result>\n\n"@));
        }
    } else {
        let mut open = String::from_str("<previous_");
        open.append(role);
        open.append(">\n");
        let mut close = String::from_str("\n</previous_");
        close.append(role);
        close.append(">\n\n");
        push_tagged_if_text(buf, open.as_str(), &text, close.as_str());
    }
}

/// Index of the last message whose role is `user`.
fn find_last_user(messages: &[ChatMessage]) -> (r: Option<usize>)
    ensures
        match r {
            Some(k) => last_user_index(messages@) == Some(k as int),
            None => last_user_index(messages@) is None,
        },
{
    let mut n: usize = messages.len();
    while n > 0
        invariant
            n <= messages@.len(),
            last_user_index(messages@) == last_user_before(messages@, n as int),
        decreases n,
    {
        if text_eq(messages[n - 1].role.as_str(), "user") {
            return Some(n - 1);
        }
        n = n - 1;
    }
    None
}

/// Folds `messages` into one prompt: the history entries of all messages but
/// the last `user` one, in order, then (after `---` when there is history) the
/// text of that last `user` message. Without any `user` message the history
/// is the prompt, or, when that is empty, the text of the last message.
pub fn build_prompt(messages: &[ChatMessage]) -> (prompt: String)
    ensures
        prompt@ == prompt_of(messages@),
{
    if messages.len() == 0 {
        return String::new();
    }
    let last_user = find_last_user(messages);
    proof {
        lemma_last_user_before(messages@, messages@.len() as int);
    }
    let ghost skip = match last_user {
        Some(k) => Some(k as int),
        None => None,
    };
    let mut buf = String::new();
    let mut i: usize = 0;
    while i < messages.len()
        invariant
            i <= messages@.len(),
            skip == last_user_index(messages@),
            skip == match last_user {
                Some(k) => Some(k as int),
                None => None::<int>,
            },
            buf@ == history(messages@, skip, i as int),
        decreases messages@.len() - i,
    {
        let is_last_user = match last_user {
            Some(k) => k == i,
            None => false,
        };
        if !is_last_user {
            push_history_entry(&mut buf, &messages[i]);
        }
        i = i + 1;
    }
    match last_user {
        Some(k) => {
            let text = extract_text(&messages[k].content);
            if !buf.as_str().is_empty() {
                buf.append("---\n\n");
            }
            buf.append(text.as_str());
        },
        None => {
            if buf.as_str().is_empty() {
                let text = extract_text(&messages[messages.len() - 1].content);
                buf.append(text.as_str());
            }
        },
    }
    buf
}

/// An empty conversation gives an empty prompt.
pub proof fn lemma_empty_conversation_empty_prompt()
    ensures
        prompt_of(Seq::<ChatMessage>::empty()) == Seq::<char>::empty(),
{
}

/// The prompt ends with the untagged text of the last `user` message; when
/// other messages left history, `---` and a blank line separate it from them.
pub proof fn lemma_prompt_ends_with_last_user_text(msgs: Seq<ChatMessage>)
    requires
        last_user_index(msgs) is Some,
    ensures
        ({
            let k: int = last_user_index(msgs)->Some_0;
            let body = history(msgs, Some(k), msgs.len() as int);
            let text = content_text(msgs[k].content);
            &&& 0 <= k < msgs.len()
            &&& msgs[k].role@ == "user"@
            &&& forall|j: int| k < j < msgs.len() ==> msgs[j].role@ != "user"@
            &&& prompt_of(msgs) == if body.len() > 0 {
                body + "---\n\n"@ + text
            } else {
                text
            }
        }),
{
    lemma_last_user_before(msgs, msgs.len() as int);
    let k: int = last_user_index(msgs)->Some_0;
    let body = history(msgs, Some(k), msgs.len() as int);
    assert(body.len() == 0 ==> body =~= Seq::<char>::empty());
}

/// A conversation of one `user` message is prompted with exactly its text.
pub proof fn lemma_lone_user_message(m: ChatMessage)
    requires
        m.role@ == "user"@,
    ensures
        prompt_of(seq![m]) == content_text(m.content),
{
    let msgs = seq![m];
    assert(last_user_index(msgs) == Some(0int));
    assert(history(msgs, Some(0int), 0) == Seq::<char>::empty());
    assert(history(msgs, Some(0int), 1) =~= Seq::<char>::empty());
}

/// Without any `user` message the prompt is the history of all messages, or,
/// when they leave none, the text of the last message.
pub proof fn lemma_prompt_without_user(msgs: Seq<ChatMessage>)
    requires
        msgs.len() > 0,
        forall|j: int| 0 <= j < msgs.len() ==> msgs[j].role@ != "user"@,
    ensures
        ({
            let body = history(msgs, None, msgs.len() as int);
            prompt_of(msgs) == if body.len() > 0 {
                body
            } else {
                content_text(msgs.last().content)
            }
        }),
{
    lemma_last_user_before(msgs, msgs.len() as int);
}

/// Assistant and tool messages always leave a history entry, even without text.
pub proof fn lemma_assistant_and_tool_entries_nonempty(m: ChatMessage)
    requires
        m.role@ == "assistant"@ || m.role@ == "tool"@,
    ensures
        history_entry(m).len() > 0,
{
    reveal_strlit("assistant");
    reveal_strlit("tool");
    reveal_strlit("system");
    reveal_strlit("user");
    reveal_strlit("<previous_assistant>\n");
    reveal_strlit("<tool_result tool_call_id=\"");
    assert("assistant"@ != "system"@ && "assistant"@ != "user"@) by {
        assert("assistant"@[0] != "system"@[0] && "assistant"@[0] != "user"@[0]);
    }
    assert("tool"@ != "system"@ && "tool"@ != "user"@ && "tool"@ != "assistant"@) by {
        assert("tool"@.len() != "system"@.len() && "tool"@[0] != "user"@[0]);
        assert("tool"@[0] != "assistant"@[0]);
    }
}

/// A message that leaves no trace: not `user`, `assistant` or `tool`, and
/// without text.
pub open spec fn is_traceless(x: ChatMessage) -> bool {
    &&& x.role@ != "user"@
    &&& x.role@ != "assistant"@
    &&& x.role@ != "tool"@
    &&& content_text(x.content).len() == 0
}

/// The index that message `k` of `msgs` has after inserting one message at `p`.
pub open spec fn shifted(k: Option<int>, p: int) -> Option<int> {
    match k {
        Some(i) => if i < p {
            Some(i)
        } else {
            Some(i + 1)
        },
        None => None,
    }
}

proof fn lemma_traceless_entry_empty(x: ChatMessage)
    requires
        is_traceless(x),
    ensures
        history_entry(x).len() == 0,
{
    assert(content_text(x.content) =~= Seq::<char>::empty());
}

proof fn lemma_last_user_insert(msgs: Seq<ChatMessage>, p: int, x: ChatMessage, n: int)
    requires
        0 <= p <= msgs.len(),
        0 <= n <= msgs.len() + 1,
        x.role@ != "user"@,
    ensures
        last_user_before(msgs.insert(p, x), n) == if n <= p {
            last_user_before(msgs, n)
        } else {
            shifted(last_user_before(msgs, n - 1), p)
        },
    decreases n,
{
    let q = msgs.insert(p, x);
    if n > 0 {
        lemma_last_user_insert(msgs, p, x, n - 1);
        lemma_last_user_before(msgs, n - 1);
        if n - 1 < p {
            assert(q[n - 1] == msgs[n - 1]);
        } else if n - 1 == p {
            assert(q[n - 1] == x);
        } else {
            assert(q[n - 1] == msgs[n - 2]);
            lemma_last_user_before(msgs, n - 2);
        }
    }
}

proof fn lemma_history_insert(
    msgs: Seq<ChatMessage>,
    p: int,
    x: ChatMessage,
    skip: Option<int>,
    n: int,
)
    requires
        0 <= p <= msgs.len(),
        0 <= n <= msgs.len() + 1,
        is_traceless(x),
        skip matches Some(k) ==> 0 <= k < msgs.len(),
    ensures
        history(msgs.insert(p, x), shifted(skip, p), n) == if n <= p {
            history(msgs, skip, n)
        } else {
            history(msgs, skip, n - 1)
        },
    decreases n,
{
    let q = msgs.insert(p, x);
    if n > 0 {
        lemma_history_insert(msgs, p, x, skip, n - 1);
        if n - 1 < p {
            assert(q[n - 1] == msgs[n - 1]);
        } else if n - 1 == p {
            assert(q[n - 1] == x);
            lemma_traceless_entry_empty(x);
            assert(history(q, shifted(skip, p), n) =~= history(q, shifted(skip, p), n - 1));
        } else {
            assert(q[n - 1] == msgs[n - 2]);
        }
    }
}

proof fn lemma_history_concat_len(msgs: Seq<ChatMessage>, skip: Option<int>, n: int, i: int)
    requires
        0 <= i < n <= msgs.len(),
        skip != Some(i),
    ensures
        history_entry(msgs[i]).len() <= history(msgs, skip, n).len(),
    decreases n,
{
    if i < n - 1 {
        lemma_history_concat_len(msgs, skip, n - 1, i);
    }
}

proof fn lemma_empty_entry_no_text(m: ChatMessage)
    requires
        history_entry(m).len() == 0,
    ensures
        content_text(m.content).len() == 0,
{
    if m.role@ == "assistant"@ || m.role@ == "tool"@ {
        lemma_assistant_and_tool_entries_nonempty(m);
    }
}

/// Inserting a message that is neither `user`, `assistant` nor `tool` and has
/// no text (an empty system message, say), anywhere, leaves the prompt as it was.
pub proof fn lemma_traceless_message_leaves_no_trace(msgs: Seq<ChatMessage>, p: int, x: ChatMessage)
    requires
        0 <= p <= msgs.len(),
        is_traceless(x),
    ensures
        prompt_of(msgs.insert(p, x)) == prompt_of(msgs),
{
    let q = msgs.insert(p, x);
    let n = msgs.len() as int;
    lemma_last_user_insert(msgs, p, x, n + 1);
    lemma_last_user_before(msgs, n);
    let last = last_user_index(msgs);
    assert(last_user_index(q) == shifted(last, p));
    lemma_history_insert(msgs, p, x, last, n + 1);
    let body = history(msgs, last, n);
    assert(history(q, last_user_index(q), n + 1) == body);
    if n == 0 {
        assert(q =~= seq![x]);
        assert(prompt_of(q) == content_text(x.content));
        assert(content_text(x.content) =~= Seq::<char>::empty());
    } else {
        match last {
            Some(k) => {
                if k < p {
                    assert(q[k] == msgs[k]);
                } else {
                    assert(q[k + 1] == msgs[k]);
                }
            },
            None => {
                if body.len() == 0 {
                    assert(msgs.last() == msgs[n - 1]);
                    lemma_history_concat_len(msgs, None, n, n - 1);
                    lemma_empty_entry_no_text(msgs[n - 1]);
                    if p == n {
                        assert(q.last() == x);
                    } else {
                        assert(q.last() == msgs[n - 1]);
                    }
                    assert(content_text(q.last().content) =~= content_text(msgs.last().content));
                }
            },
        }
    }
}

/// The total length of the texts of `parts`, separators not counted.
pub open spec fn parts_len_sum(parts: Seq<ContentPart>) -> int
    decreases parts.len(),
{
    if parts.len() == 0 {
        0
    } else {
        parts_len_sum(parts.drop_last()) + part_text(parts.last()).len()
    }
}

/// A text part gives its text, an image part `[image: URL]`, and any other
/// part nothing.
pub proof fn lemma_part_texts(p: ContentPart)
    ensures
        p matches ContentPart::Text { text } ==> part_text(p) == text@,
        p matches ContentPart::ImageUrl { image_url } ==> part_text(p) == "[image: "@
            + image_url.url@ + "]"@,
        p is Other ==> part_text(p).len() == 0,
{
}

/// The parts of a message are joined by exactly one newline between each two
/// of them, whatever their kinds: the text is as long as the parts' texts
/// together plus one character for each of the `n - 1` joints.
pub proof fn lemma_parts_joined_by_newlines(parts: Seq<ContentPart>)
    requires
        parts.len() >= 1,
    ensures
        parts_text(parts).len() == parts_len_sum(parts) + parts.len() - 1,
    decreases parts.len(),
{
    reveal_strlit("\n");
    let init = parts.drop_last();
    if parts.len() > 1 {
        lemma_parts_joined_by_newlines(init);
        assert(parts_text(parts) == parts_text(init) + "\n"@ + part_text(parts.last()));
        assert(parts_len_sum(parts) == parts_len_sum(init) + part_text(parts.last()).len());
    } else {
        assert(init.len() == 0);
        assert(parts_len_sum(init) == 0);
        assert(parts.last() == parts[0]);
        assert(parts_text(parts) == part_text(parts[0]));
        assert(parts_len_sum(parts) == part_text(parts[0]).len());
    }
}

/// Each part after the first is preceded by a newline and nothing else: the
/// text of the first `i + 1` parts is that of the first `i`, a newline, and
/// the text of part `i`.
pub proof fn lemma_each_part_after_a_newline(parts: Seq<ContentPart>, i: int)
    requires
        1 <= i < parts.len(),
    ensures
        parts_text(parts.take(i + 1)) == parts_text(parts.take(i)) + "\n"@ + part_text(parts[i]),
{
    assert(parts.take(i + 1).drop_last() =~= parts.take(i));
}

/// Two text parts are joined by a newline.
pub proof fn lemma_two_text_parts(a: String, b: String)
    ensures
        parts_text(seq![ContentPart::Text { text: a }, ContentPart::Text { text: b }]) == a@
            + "\n"@ + b@,
{
    let ps = seq![ContentPart::Text { text: a }, ContentPart::Text { text: b }];
    let first = seq![ContentPart::Text { text: a }];
    assert(ps.drop_last() =~= first);
    assert(parts_text(first) == part_text(first[0]));
    assert(part_text(first[0]) == a@);
    assert(ps.last() == ContentPart::Text { text: b });
    assert(part_text(ps.last()) == b@);
    assert(parts_text(ps) == parts_text(first) + "\n"@ + part_text(ps.last()));
}

/// Whether `a` occurs in `b` as a contiguous piece.
pub open spec fn is_infix(a: Seq<char>, b: Seq<char>) -> bool {
    exists|k: int| 0 <= k && k + a.len() <= b.len() && #[trigger] b.subrange(k, k + a.len()) == a
}

proof fn lemma_infix_self(a: Seq<char>)
    ensures
        is_infix(a, a),
{
    let k: int = 0;
    assert(a.subrange(k, k + a.len()) =~= a);
}

proof fn lemma_infix_len(a: Seq<char>, b: Seq<char>)
    requires
        is_infix(a, b),
    ensures
        a.len() <= b.len(),
{
    let k = choose|k: int| 0 <= k && k + a.len() <= b.len() && #[trigger] b.subrange(k, k + a.len()) == a;
}

proof fn lemma_infix_extend(a: Seq<char>, b: Seq<char>, x: Seq<char>, y: Seq<char>)
    requires
        is_infix(a, b),
    ensures
        is_infix(a, x + b + y),
{
    let k = choose|k: int| 0 <= k && k + a.len() <= b.len() && #[trigger] b.subrange(k, k + a.len()) == a;
    let c = x + b + y;
    let k2 = k + x.len();
    assert(c.subrange(k2, k2 + a.len()) =~= b.subrange(k, k + a.len()));
}

proof fn lemma_infix_trans(a: Seq<char>, b: Seq<char>, c: Seq<char>)
    requires
        is_infix(a, b),
        is_infix(b, c),
    ensures
        is_infix(a, c),
{
    let k = choose|k: int| 0 <= k && k + a.len() <= b.len() && #[trigger] b.subrange(k, k + a.len()) == a;
    let j = choose|j: int| 0 <= j && j + b.len() <= c.len() && #[trigger] c.subrange(j, j + b.len()) == b;
    assert(c.subrange(j + k, j + k + a.len()) =~= b.subrange(k, k + a.len()));
}

/// A `<tool_call>` line gives the call's id, name and JSON arguments.
pub proof fn lemma_tool_call_line(c: ToolCall)
    ensures
        tool_call_line(c) == "<tool_call id=\""@ + c.id@ + "\" name=\""@ + c.function.name@
            + "\">"@ + c.function.arguments@ + "</tool_call>\n"@,
{
}

/// The `<tool_call>` lines hold a line for every call, in order.
pub proof fn lemma_tool_call_lines_in_order(calls: Seq<ToolCall>, i: int)
    requires
        0 <= i < calls.len(),
    ensures
        tool_call_lines(calls.take(i + 1)) == tool_call_lines(calls.take(i)) + tool_call_line(calls[i]),
        is_infix(tool_call_line(calls[i]), tool_call_lines(calls)),
    decreases calls.len(),
{
    assert(calls.take(i + 1).drop_last() =~= calls.take(i));
    let init = calls.drop_last();
    if i == calls.len() - 1 {
        lemma_infix_self(tool_call_line(calls[i]));
        lemma_infix_extend(tool_call_line(calls[i]), tool_call_line(calls[i]), tool_call_lines(init), Seq::empty());
        assert(tool_call_lines(init) + tool_call_line(calls[i]) + Seq::<char>::empty() =~= tool_call_lines(calls));
    } else {
        lemma_tool_call_lines_in_order(init, i);
        assert(init[i] == calls[i]);
        lemma_infix_extend(tool_call_line(calls[i]), tool_call_lines(init), Seq::empty(), tool_call_line(calls.last()));
        assert(Seq::<char>::empty() + tool_call_lines(init) + tool_call_line(calls.last()) =~= tool_call_lines(calls));
    }
}

/// The history entry of an assistant message holds its text (when it has
/// any) and then the `<tool_call>` lines of all its tool calls, whether or
/// not it has text.
pub proof fn lemma_assistant_entry(m: ChatMessage)
    requires
        m.role@ == "assistant"@,
    ensures
        history_entry(m) == "<previous_assistant>\n"@ + (if content_text(m.content).len() > 0 {
            content_text(m.content) + "\n"@
        } else {
            Seq::empty()
        }) + match m.tool_calls {
            Some(calls) => tool_call_lines(calls@),
            None => Seq::empty(),
        } + "</previous_assistant>\n\n"@,
{
    reveal_strlit("assistant");
    reveal_strlit("system");
    reveal_strlit("user");
    assert("assistant"@ != "system"@ && "assistant"@ != "user"@) by {
        assert("assistant"@[0] != "system"@[0] && "assistant"@[0] != "user"@[0]);
    }
}

proof fn lemma_history_holds_entry(msgs: Seq<ChatMessage>, skip: Option<int>, n: int, i: int)
    requires
        0 <= i < n <= msgs.len(),
        skip != Some(i),
    ensures
        is_infix(history_entry(msgs[i]), history(msgs, skip, n)),
    decreases n,
{
    let e = history_entry(msgs[i]);
    if i == n - 1 {
        lemma_infix_self(e);
        lemma_infix_extend(e, e, history(msgs, skip, n - 1), Seq::empty());
        assert(history(msgs, skip, n - 1) + e + Seq::<char>::empty() =~= history(msgs, skip, n));
    } else {
        lemma_history_holds_entry(msgs, skip, n - 1, i);
        let last = if skip == Some(n - 1) {
            Seq::<char>::empty()
        } else {
            history_entry(msgs[n - 1])
        };
        lemma_infix_extend(e, history(msgs, skip, n - 1), Seq::empty(), last);
        assert(Seq::<char>::empty() + history(msgs, skip, n - 1) + last =~= history(msgs, skip, n));
    }
}

/// Every tool call of an assistant message reaches the prompt: its
/// `<tool_call>` line occurs in the prompt, whether or not the message also
/// has text.
pub proof fn lemma_prompt_shows_tool_calls(msgs: Seq<ChatMessage>, i: int, j: int)
    requires
        0 <= i < msgs.len(),
        msgs[i].role@ == "assistant"@,
        msgs[i].tool_calls is Some,
        0 <= j < msgs[i].tool_calls->Some_0@.len(),
    ensures
        is_infix(tool_call_line(msgs[i].tool_calls->Some_0@[j]), prompt_of(msgs)),
{
    let m = msgs[i];
    let calls = m.tool_calls->Some_0@;
    let line = tool_call_line(calls[j]);
    lemma_tool_call_lines_in_order(calls, j);
    lemma_assistant_entry(m);
    let mid = if content_text(m.content).len() > 0 {
        content_text(m.content) + "\n"@
    } else {
        Seq::empty()
    };
    lemma_infix_extend(line, tool_call_lines(calls), "<previous_assistant>\n"@ + mid, "</previous_assistant>\n\n"@);
    assert(history_entry(m) == ("<previous_assistant>\n"@ + mid) + tool_call_lines(calls) + "</previous_assistant>\n\n"@);
    let n = msgs.len() as int;
    lemma_last_user_before(msgs, n);
    let last = last_user_index(msgs);
    reveal_strlit("assistant");
    reveal_strlit("user");
    assert("assistant"@ != "user"@) by {
        assert("assistant"@[0] != "user"@[0]);
    }
    assert(last != Some(i));
    lemma_history_holds_entry(msgs, last, n, i);
    let body = history(msgs, last, n);
    lemma_infix_trans(line, history_entry(m), body);
    lemma_assistant_and_tool_entries_nonempty(m);
    lemma_infix_len(history_entry(m), body);
    assert(body.len() > 0);
    match last {
        Some(k) => {
            let text = content_text(msgs[k].content);
            lemma_infix_extend(line, body, Seq::empty(), "---\n\n"@ + text);
            assert(Seq::<char>::empty() + body + ("---\n\n"@ + text) =~= body + "---\n\n"@ + text);
        },
        None => {},
    }
}

} // verus!
