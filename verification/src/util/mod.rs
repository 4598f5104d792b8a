//! Showing the streamed pieces of an answer in a terminal: a heading whenever the
//! stream turns from reasoning to answer or back, then the text; a line per tool call.
//! The writing itself happens at the edge of the program.

use vstd::prelude::*;
use crate::message::ToolCallView;
use crate::output::{AgentOutputPart, AgentOutputPartView};

verus! {

/// The heading before the answer.
pub open spec fn answer_heading() -> Seq<char> {
    "\n -> answer 🤓\n"@
}

/// The heading before the reasoning.
pub open spec fn reasoning_heading() -> Seq<char> {
    "\n -> reasoning 🤔\n"@
}

/// The lines that announce tool calls.
pub open spec fn tool_call_lines(calls: Seq<ToolCallView>) -> Seq<char>
    decreases calls.len(),
{
    if calls.len() == 0 {
        Seq::empty()
    } else {
        tool_call_lines(calls.drop_last()) + "\ntool call -> "@ + calls.last().name + "\n"@
    }
}

/// What is shown for a piece, and whether reasoning is being shown after it.
pub open spec fn rendered(showing_reasoning: bool, part: AgentOutputPartView) -> (bool, Seq<char>) {
    match part {
        AgentOutputPartView::Content(text) => (
            false,
            if showing_reasoning {
                answer_heading() + text
            } else {
                text
            },
        ),
        AgentOutputPartView::Reasoning(text) => (
            true,
            if showing_reasoning {
                text
            } else {
                reasoning_heading() + text
            },
        ),
        AgentOutputPartView::Tool(calls) => (showing_reasoning, tool_call_lines(calls)),
    }
}

/// Every tool call is announced, in order: what is shown for the tool calls `calls`
/// is the line of each call, one after another, and the state stays as it was.
pub proof fn lemma_every_tool_call_is_announced(showing_reasoning: bool, calls: Seq<ToolCallView>)
    ensures
        rendered(showing_reasoning, AgentOutputPartView::Tool(calls)) == (
            showing_reasoning,
            calls.map_values(|c: ToolCallView| "\ntool call -> "@ + c.name + "\n"@).flatten(),
        ),
    decreases calls.len(),
{
    let lines = calls.map_values(|c: ToolCallView| "\ntool call -> "@ + c.name + "\n"@);
    if calls.len() == 0 {
        assert(lines =~= Seq::<Seq<char>>::empty());
    } else {
        lemma_every_tool_call_is_announced(showing_reasoning, calls.drop_last());
        assert(lines =~= calls.drop_last().map_values(|c: ToolCallView| "\ntool call -> "@ + c.name + "\n"@).push(
            "\ntool call -> "@ + calls.last().name + "\n"@,
        ));
        calls.drop_last().map_values(|c: ToolCallView| "\ntool call -> "@ + c.name + "\n"@).lemma_flatten_push(
            "\ntool call -> "@ + calls.last().name + "\n"@,
        );
        assert(tool_call_lines(calls) =~= tool_call_lines(calls.drop_last()) + "\ntool call -> "@ + calls.last().name + "\n"@);
    }
}

/// One more tool call adds its line after those of the others: showing the calls
/// `calls` and then `call` shows what `calls` shows, followed by the line of `call`;
/// showing no call shows nothing.
pub proof fn lemma_one_more_tool_call(showing_reasoning: bool, calls: Seq<ToolCallView>, call: ToolCallView)
    ensures
        rendered(showing_reasoning, AgentOutputPartView::Tool(calls.push(call))).1 == rendered(
            showing_reasoning,
            AgentOutputPartView::Tool(calls),
        ).1 + "\ntool call -> "@ + call.name + "\n"@,
        rendered(showing_reasoning, AgentOutputPartView::Tool(Seq::empty())).1 == Seq::<char>::empty(),
{
    assert(calls.push(call).drop_last() =~= calls);
}

/// A heading is shown exactly where the stream turns: text of the answer shows the
/// answer heading before it only after reasoning, and reasoning shows the reasoning
/// heading only after the answer (or at the start); then the text itself follows. The
/// state after a piece of text is whether it was reasoning, so a second piece of the
/// same kind shows just its text; tool calls leave the state as it was.
pub proof fn lemma_heading_when_stream_turns(showing_reasoning: bool, text: Seq<char>, more: Seq<char>)
    ensures
        rendered(showing_reasoning, AgentOutputPartView::Content(text)) == (
            false,
            if showing_reasoning {
                "\n -> answer 🤓\n"@ + text
            } else {
                text
            },
        ),
        rendered(showing_reasoning, AgentOutputPartView::Reasoning(text)) == (
            true,
            if showing_reasoning {
                text
            } else {
                "\n -> reasoning 🤔\n"@ + text
            },
        ),
        rendered(rendered(showing_reasoning, AgentOutputPartView::Content(text)).0, AgentOutputPartView::Content(more)).1
            == more,
        rendered(rendered(showing_reasoning, AgentOutputPartView::Reasoning(text)).0, AgentOutputPartView::Reasoning(more)).1
            == more,
        forall|calls: Seq<ToolCallView>|
            #[trigger] rendered(showing_reasoning, AgentOutputPartView::Tool(calls)).0 == showing_reasoning,
{
}

/// Whether the terminal is showing reasoning or the answer.
pub struct TuiState {
    pub is_reasoning: bool,
}

impl TuiState {
    /// The state before anything is shown: not reasoning.
    pub fn new() -> (r: Self)
        ensures
            !r.is_reasoning,
    {
        TuiState { is_reasoning: false }
    }

    /// The text to show for a piece; the state follows.
    pub fn render(&mut self, part: &AgentOutputPart) -> (r: String)
        ensures
            (final(self).is_reasoning, r@) == rendered(old(self).is_reasoning, part@),
            part@ matches AgentOutputPartView::Tool(calls) ==> r@ == calls.map_values(
                |c: ToolCallView| "\ntool call -> "@ + c.name + "\n"@,
            ).flatten() && final(self).is_reasoning == old(self).is_reasoning,
    {
        match part {
            AgentOutputPart::Content(text) => {
                let mut out = String::new();
                if self.is_reasoning {
                    out.append("\n -> answer 🤓\n");
                }
                out.append(text.as_str());
                self.is_reasoning = false;
                assert(out@ =~= rendered(old(self).is_reasoning, part@).1);
                out
            },
            AgentOutputPart::Reasoning(text) => {
                let mut out = String::new();
                if !self.is_reasoning {
                    out.append("\n -> reasoning 🤔\n");
                }
                out.append(text.as_str());
                self.is_reasoning = true;
                assert(out@ =~= rendered(old(self).is_reasoning, part@).1);
                out
            },
            AgentOutputPart::Tool(calls) => {
                let ghost cv = crate::message::calls_view(calls@);
                let mut out = String::new();
                let mut i: usize = 0;
                while i < calls.len()
                    invariant
                        i <= calls.len(),
                        cv == crate::message::calls_view(calls@),
                        out@ == tool_call_lines(cv.take(i as int)),
                    decreases calls.len() - i,
                {
                    out.append("\ntool call -> ");
                    out.append(calls[i].name.as_str());
                    out.append("\n");
                    proof {
                        let next = cv.take(i + 1);
                        assert(next.drop_last() =~= cv.take(i as int));
                        assert(out@ =~= tool_call_lines(next));
                    }
                    i = i + 1;
                }
                assert(cv.take(calls.len() as int) =~= cv);
                proof {
                    lemma_every_tool_call_is_announced(self.is_reasoning, cv);
                }
                out
            },
        }
    }
}

} // verus!
