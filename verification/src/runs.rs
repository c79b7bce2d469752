//! Laws over whole runs of session events: what a stream sends over a run,
//! and that the streamed and the non-streamed answer agree on the same run.

use vstd::prelude::*;
use crate::handlers::{blocking_step, BlockingView};
use crate::session::{json_text_of, SessionEvent};
use crate::streaming::{stream_emit, stream_step, ChatStream, FinishReason, ItemView};

verus! {

/// The state of stream `s` after the events `es`, and the items it sent.
pub open spec fn stream_run(s: ChatStream, es: Seq<SessionEvent>) -> (ChatStream, Seq<ItemView>)
    decreases es.len(),
{
    if es.len() == 0 {
        (s, Seq::empty())
    } else {
        let r = stream_run(s, es.drop_last());
        (stream_step(r.0, es.last()), r.1 + stream_emit(r.0, es.last()))
    }
}

/// What a non-streamed answer has gathered from `v` after the events `es`.
pub open spec fn blocking_run(v: BlockingView, es: Seq<SessionEvent>) -> BlockingView
    decreases es.len(),
{
    if es.len() == 0 {
        v
    } else {
        blocking_step(blocking_run(v, es.drop_last()), es.last())
    }
}

/// An event in the middle of an answer: a delta, a tool call, usage, or an
/// ignored event (not the whole message, an error, or the end).
pub open spec fn is_middle_event(e: SessionEvent) -> bool {
    match e {
        SessionEvent::MessageDelta(_) | SessionEvent::ToolStart { .. } | SessionEvent::Usage {
            ..
        } | SessionEvent::Other => true,
        _ => false,
    }
}

/// An event that ends an answer normally.
pub open spec fn is_ending_event(e: SessionEvent) -> bool {
    e is Idle || e is Closed
}

/// The number of tool calls among `es`.
pub open spec fn tool_count(es: Seq<SessionEvent>) -> nat
    decreases es.len(),
{
    if es.len() == 0 {
        0
    } else {
        tool_count(es.drop_last()) + if es.last() is ToolStart {
            1nat
        } else {
            0nat
        }
    }
}

/// The answer text that `items` carry.
pub open spec fn content_of(items: Seq<ItemView>) -> Seq<char>
    decreases items.len(),
{
    if items.len() == 0 {
        Seq::empty()
    } else {
        content_of(items.drop_last()) + match items.last() {
            ItemView::Content(t) => t,
            _ => Seq::empty(),
        }
    }
}

/// The id, name and arguments of the tool calls that `items` carry.
pub open spec fn tools_of(items: Seq<ItemView>) -> Seq<(Seq<char>, Seq<char>, Seq<char>)>
    decreases items.len(),
{
    if items.len() == 0 {
        Seq::empty()
    } else {
        tools_of(items.drop_last()) + match items.last() {
            ItemView::Tool { index, id, name, arguments } => seq![(id, name, arguments)],
            _ => Seq::empty(),
        }
    }
}

/// The indices of the tool calls that `items` carry.
pub open spec fn tool_indices_of(items: Seq<ItemView>) -> Seq<u32>
    decreases items.len(),
{
    if items.len() == 0 {
        Seq::empty()
    } else {
        tool_indices_of(items.drop_last()) + match items.last() {
            ItemView::Tool { index, .. } => seq![index],
            _ => Seq::empty(),
        }
    }
}

/// How many `[DONE]` markers `items` hold.
pub open spec fn done_count(items: Seq<ItemView>) -> nat
    decreases items.len(),
{
    if items.len() == 0 {
        0
    } else {
        done_count(items.drop_last()) + if items.last() is Done {
            1nat
        } else {
            0nat
        }
    }
}

proof fn lemma_append_one_or_none(out: Seq<ItemView>, emit: Seq<ItemView>)
    requires
        emit.len() <= 1,
    ensures
        emit.len() == 0 ==> out + emit == out,
        emit.len() == 1 ==> (out + emit).drop_last() == out && (out + emit).last() == emit[0],
{
    if emit.len() == 0 {
        assert(out + emit =~= out);
    } else {
        assert((out + emit).drop_last() =~= out);
    }
}

/// Over events in the middle of an answer, a stream sends only content and
/// tool chunks, no `[DONE]`; its tool calls are numbered on from its index
/// without gaps; and its finish reason becomes `tool_calls` once a tool call
/// was sent.
pub proof fn lemma_stream_middle_run(s: ChatStream, es: Seq<SessionEvent>)
    requires
        forall|i: int| 0 <= i < es.len() ==> is_middle_event(#[trigger] es[i]),
        s.tool_index + tool_count(es) <= u32::MAX,
    ensures
        ({
            let (s1, out) = stream_run(s, es);
            &&& forall|i: int| 0 <= i < out.len() ==> (#[trigger] out[i] is Content || out[i] is Tool)
            &&& done_count(out) == 0
            &&& s1.tool_index == s.tool_index + tool_count(es)
            &&& tool_indices_of(out) == Seq::new(
                tool_count(es),
                |i: int| (s.tool_index + i) as u32,
            )
            &&& s1.finished == s.finished
            &&& s1.include_usage == s.include_usage
            &&& s1.finish_reason == if tool_count(es) > 0 {
                FinishReason::ToolCalls
            } else {
                s.finish_reason
            }
        }),
    decreases es.len(),
{
    if es.len() > 0 {
        let init = es.drop_last();
        let e = es.last();
        assert forall|i: int| 0 <= i < init.len() implies is_middle_event(#[trigger] init[i]) by {
            assert(init[i] == es[i]);
        }
        assert(is_middle_event(es[es.len() - 1]));
        lemma_stream_middle_run(s, init);
        let r = stream_run(s, init);
        let emit = stream_emit(r.0, e);
        let out = r.1 + emit;
        lemma_append_one_or_none(r.1, emit);
        assert forall|i: int| 0 <= i < out.len() implies (#[trigger] out[i] is Content
            || out[i] is Tool) by {
            if i >= r.1.len() {
                assert(out[i] == emit[i - r.1.len()]);
            } else {
                assert(out[i] == r.1[i]);
            }
        }
        assert(tool_indices_of(out) =~= Seq::new(
            tool_count(es),
            |i: int| (s.tool_index + i) as u32,
        ));
    }
}

/// A run that ends normally sends `[DONE]` exactly once, as its last item,
/// after the finish chunk, whose reason is `tool_calls` exactly when a tool
/// call came (for a stream that starts with the reason `stop`).
pub proof fn lemma_stream_ending_run(s: ChatStream, es: Seq<SessionEvent>, end: SessionEvent)
    requires
        forall|i: int| 0 <= i < es.len() ==> is_middle_event(#[trigger] es[i]),
        s.tool_index + tool_count(es) <= u32::MAX,
        s.finish_reason == FinishReason::Stop,
        is_ending_event(end),
    ensures
        ({
            let (s1, out) = stream_run(s, es.push(end));
            let reason = if tool_count(es) > 0 {
                FinishReason::ToolCalls
            } else {
                FinishReason::Stop
            };
            &&& done_count(out) == 1
            &&& out.last() is Done
            &&& out.contains(ItemView::Finish(reason))
            &&& s1.finished
        }),
{
    lemma_stream_middle_run(s, es);
    assert(es.push(end).drop_last() =~= es);
    let r = stream_run(s, es);
    let emit = stream_emit(r.0, end);
    let out = r.1 + emit;
    assert(emit[0] == ItemView::Finish(r.0.finish_reason));
    assert(out[r.1.len() as int] == emit[0]);
    let tail = if r.0.include_usage {
        seq![ItemView::Finish(r.0.finish_reason), ItemView::UsageReport(r.0.usage)]
    } else {
        seq![ItemView::Finish(r.0.finish_reason)]
    };
    assert(emit =~= tail.push(ItemView::Done));
    assert(out.drop_last() =~= r.1 + tail);
    let fin = r.1.push(ItemView::Finish(r.0.finish_reason));
    assert(fin.drop_last() =~= r.1);
    assert(done_count(fin) == done_count(r.1));
    if r.0.include_usage {
        assert((r.1 + tail).drop_last() =~= fin);
        assert(done_count(r.1 + tail) == done_count(fin));
    } else {
        assert(r.1 + tail =~= fin);
    }
    assert(done_count(out) == done_count(r.1 + tail) + 1);
    assert(stream_run(s, es.push(end)) == (stream_step(r.0, end), out));
    assert(out.last() is Done);
    assert(out.contains(ItemView::Finish(r.0.finish_reason)));
}

/// Fed the same events in the middle of an answer, a stream and a
/// non-streamed answer that start alike agree: the text of the content
/// chunks is the text gathered, the tool chunks carry the tool calls
/// gathered (id, name, arguments, in order), and finish reason and token
/// counts are the same.
pub proof fn lemma_answers_agree(s: ChatStream, v: BlockingView, es: Seq<SessionEvent>)
    requires
        forall|i: int| 0 <= i < es.len() ==> is_middle_event(#[trigger] es[i]),
        v.finish_reason == s.finish_reason,
        v.prompt_tokens == s.usage.prompt_tokens,
        v.completion_tokens == s.usage.completion_tokens,
    ensures
        ({
            let (s1, out) = stream_run(s, es);
            let v1 = blocking_run(v, es);
            &&& v1.content == v.content + content_of(out)
            &&& v1.calls == v.calls + tools_of(out)
            &&& v1.finish_reason == s1.finish_reason
            &&& v1.prompt_tokens == s1.usage.prompt_tokens
            &&& v1.completion_tokens == s1.usage.completion_tokens
        }),
    decreases es.len(),
{
    if es.len() == 0 {
        assert(v.content + Seq::<char>::empty() =~= v.content);
        assert(v.calls + Seq::<(Seq<char>, Seq<char>, Seq<char>)>::empty() =~= v.calls);
    } else {
        let init = es.drop_last();
        let e = es.last();
        assert forall|i: int| 0 <= i < init.len() implies is_middle_event(#[trigger] init[i]) by {
            assert(init[i] == es[i]);
        }
        assert(is_middle_event(es[es.len() - 1]));
        lemma_answers_agree(s, v, init);
        let r = stream_run(s, init);
        let w = blocking_run(v, init);
        let emit = stream_emit(r.0, e);
        lemma_append_one_or_none(r.1, emit);
        match e {
            SessionEvent::MessageDelta(t) => {
                assert(w.content + t@ =~= v.content + (content_of(r.1) + t@));
                assert(tools_of(r.1 + emit) == tools_of(r.1) + Seq::empty());
                assert(tools_of(r.1) + Seq::<(Seq<char>, Seq<char>, Seq<char>)>::empty() =~= tools_of(r.1));
            },
            SessionEvent::ToolStart { .. } => {
                assert(content_of(r.1) + Seq::<char>::empty() =~= content_of(r.1));
                assert(w.calls.push(emit_tool(emit[0])) =~= v.calls + (tools_of(r.1) + seq![emit_tool(emit[0])]));
            },
            _ => {},
        }
    }
}

/// The id, name and arguments of a tool item.
pub open spec fn emit_tool(v: ItemView) -> (Seq<char>, Seq<char>, Seq<char>) {
    match v {
        ItemView::Tool { index, id, name, arguments } => (id, name, arguments),
        _ => (Seq::empty(), Seq::empty(), Seq::empty()),
    }
}

/// The texts of the deltas among `es`, in order.
pub open spec fn delta_text(es: Seq<SessionEvent>) -> Seq<char>
    decreases es.len(),
{
    if es.len() == 0 {
        Seq::empty()
    } else {
        delta_text(es.drop_last()) + match es.last() {
            SessionEvent::MessageDelta(t) => t@,
            _ => Seq::empty(),
        }
    }
}

/// The id, name and JSON arguments of the tool calls among `es`, in order.
pub open spec fn tool_calls_in(es: Seq<SessionEvent>) -> Seq<(Seq<char>, Seq<char>, Seq<char>)>
    decreases es.len(),
{
    if es.len() == 0 {
        Seq::empty()
    } else {
        tool_calls_in(es.drop_last()) + match es.last() {
            SessionEvent::ToolStart { tool_call_id, tool_name, arguments } => seq![
                (tool_call_id@, tool_name@, json_text_of(arguments)),
            ],
            _ => Seq::empty(),
        }
    }
}

proof fn lemma_content_of_concat(a: Seq<ItemView>, b: Seq<ItemView>)
    ensures
        content_of(a + b) == content_of(a) + content_of(b),
    decreases b.len(),
{
    if b.len() == 0 {
        assert(a + b =~= a);
        assert(content_of(a) + Seq::<char>::empty() =~= content_of(a));
    } else {
        lemma_content_of_concat(a, b.drop_last());
        assert((a + b).drop_last() =~= a + b.drop_last());
        assert((a + b).last() == b.last());
        let piece = match b.last() {
            ItemView::Content(t) => t,
            _ => Seq::empty(),
        };
        assert(content_of(a) + content_of(b.drop_last()) + piece =~= content_of(a) + (content_of(
            b.drop_last(),
        ) + piece));
    }
}

proof fn lemma_tools_of_concat(a: Seq<ItemView>, b: Seq<ItemView>)
    ensures
        tools_of(a + b) == tools_of(a) + tools_of(b),
    decreases b.len(),
{
    if b.len() == 0 {
        assert(a + b =~= a);
        assert(tools_of(a) + Seq::<(Seq<char>, Seq<char>, Seq<char>)>::empty() =~= tools_of(a));
    } else {
        lemma_tools_of_concat(a, b.drop_last());
        assert((a + b).drop_last() =~= a + b.drop_last());
        assert((a + b).last() == b.last());
        let piece = match b.last() {
            ItemView::Tool { index, id, name, arguments } => seq![(id, name, arguments)],
            _ => Seq::empty(),
        };
        assert(tools_of(a) + tools_of(b.drop_last()) + piece =~= tools_of(a) + (tools_of(
            b.drop_last(),
        ) + piece));
    }
}

proof fn lemma_emit_content_and_tools(s: ChatStream, e: SessionEvent)
    ensures
        content_of(stream_emit(s, e)) == match e {
            SessionEvent::MessageDelta(t) => t@,
            _ => Seq::empty(),
        },
        tools_of(stream_emit(s, e)) == match e {
            SessionEvent::ToolStart { tool_call_id, tool_name, arguments } => seq![
                (tool_call_id@, tool_name@, json_text_of(arguments)),
            ],
            _ => Seq::<(Seq<char>, Seq<char>, Seq<char>)>::empty(),
        },
{
    reveal_with_fuel(content_of, 5);
    reveal_with_fuel(tools_of, 5);
    let out = stream_emit(s, e);
    let none = Seq::<ItemView>::empty();
    match e {
        SessionEvent::MessageDelta(t) => {
            assert(out.drop_last() =~= none);
            assert(Seq::<char>::empty() + t@ =~= t@);
        },
        SessionEvent::ToolStart { tool_call_id, tool_name, arguments } => {
            assert(out.drop_last() =~= none);
            let c = (tool_call_id@, tool_name@, json_text_of(arguments));
            assert(Seq::<(Seq<char>, Seq<char>, Seq<char>)>::empty() + seq![c] =~= seq![c]);
        },
        SessionEvent::Error(m) => {
            let one = seq![ItemView::Failure(m@)];
            assert(out.drop_last() =~= one);
            assert(one.drop_last() =~= none);
        },
        SessionEvent::Idle | SessionEvent::Closed => {
            let f = seq![ItemView::Finish(s.finish_reason)];
            assert(f.drop_last() =~= none);
            if s.include_usage {
                let fu = f.push(ItemView::UsageReport(s.usage));
                assert(out.drop_last() =~= fu);
                assert(fu.drop_last() =~= f);
            } else {
                assert(out.drop_last() =~= f);
            }
        },
        _ => {
            assert(out =~= none);
        },
    }
}

/// Over any run of events, the text that a stream sends is exactly the texts
/// of the deltas, in order: a whole-message event, usage, tool calls and the
/// end add no text.
pub proof fn lemma_stream_text_is_deltas(s: ChatStream, es: Seq<SessionEvent>)
    ensures
        content_of(stream_run(s, es).1) == delta_text(es),
    decreases es.len(),
{
    if es.len() > 0 {
        let r = stream_run(s, es.drop_last());
        lemma_stream_text_is_deltas(s, es.drop_last());
        lemma_content_of_concat(r.1, stream_emit(r.0, es.last()));
        lemma_emit_content_and_tools(r.0, es.last());
    }
}

/// Over any run of events, the tool chunks that a stream sends carry exactly
/// the tool calls of the run, in order, with their JSON arguments.
pub proof fn lemma_stream_tools_are_calls(s: ChatStream, es: Seq<SessionEvent>)
    ensures
        tools_of(stream_run(s, es).1) == tool_calls_in(es),
    decreases es.len(),
{
    if es.len() > 0 {
        let r = stream_run(s, es.drop_last());
        lemma_stream_tools_are_calls(s, es.drop_last());
        lemma_tools_of_concat(r.1, stream_emit(r.0, es.last()));
        lemma_emit_content_and_tools(r.0, es.last());
    }
}

/// Over any run of events, a non-streamed answer records exactly the tool
/// calls of the run, in order; and over a run without whole-message events,
/// its text is the texts of the deltas, in order.
pub proof fn lemma_blocking_run_gathers(v: BlockingView, es: Seq<SessionEvent>)
    ensures
        blocking_run(v, es).calls == v.calls + tool_calls_in(es),
        (forall|i: int| 0 <= i < es.len() ==> !(#[trigger] es[i] is Message)) ==> blocking_run(
            v,
            es,
        ).content == v.content + delta_text(es),
    decreases es.len(),
{
    if es.len() == 0 {
        assert(v.calls + Seq::<(Seq<char>, Seq<char>, Seq<char>)>::empty() =~= v.calls);
        assert(v.content + Seq::<char>::empty() =~= v.content);
    } else {
        let init = es.drop_last();
        lemma_blocking_run_gathers(v, init);
        let w = blocking_run(v, init);
        if forall|i: int| 0 <= i < es.len() ==> !(#[trigger] es[i] is Message) {
            assert forall|i: int| 0 <= i < init.len() implies !(#[trigger] init[i] is Message) by {
                assert(init[i] == es[i]);
            }
            assert(!(es[es.len() - 1] is Message));
        }
        match es.last() {
            SessionEvent::MessageDelta(t) => {
                if forall|i: int| 0 <= i < es.len() ==> !(#[trigger] es[i] is Message) {
                    assert(w.content + t@ =~= v.content + (delta_text(init) + t@));
                }
                assert(tool_calls_in(init) + Seq::<(Seq<char>, Seq<char>, Seq<char>)>::empty() =~= tool_calls_in(init));
            },
            SessionEvent::ToolStart { tool_call_id, tool_name, arguments } => {
                let c = (tool_call_id@, tool_name@, json_text_of(arguments));
                assert(w.calls.push(c) =~= v.calls + (tool_calls_in(init) + seq![c]));
                assert(delta_text(init) + Seq::<char>::empty() =~= delta_text(init));
            },
            _ => {
                assert(tool_calls_in(init) + Seq::<(Seq<char>, Seq<char>, Seq<char>)>::empty() =~= tool_calls_in(init));
                assert(delta_text(init) + Seq::<char>::empty() =~= delta_text(init));
                assert(v.content + delta_text(init) + Seq::<char>::empty() =~= v.content + delta_text(init));
            },
        }
    }
}

} // verus!
