//! The decisions of one run of a streaming chat provider.
//!
//! A run sends the conversation to the model and reads the answer as a stream of
//! chunks. Each chunk adds reasoning, content or tool-call pieces to the current turn
//! and may end it: with `stop` the run is finished; with `tool_calls` the tools are
//! run, their answers join the conversation, and the conversation is sent again.
//! [`ProviderRun`] takes these decisions; the program around it does the sending,
//! the reading and the running of tools.

use vstd::prelude::*;
use crate::error::Error;
use crate::message::{
    Message, MessageView, ToolCall, ToolCallView, calls_view, clone_messages, clone_tool_calls,
    messages_view,
};
use crate::output::{AgentOutputPart, AgentOutputPartView, AngentOutput, parts_view};
use crate::request::{Request, RequestView, Tool, ToolView, clone_tools, tools_view};
use crate::tool::ToolOutput;

verus! {

/// Why the model stopped a turn.
#[derive(Debug, Clone, Copy, PartialEq, Eq, Structural)]
pub enum FinishReason {
    Stop,
    Length,
    ToolCalls,
    ContentFilter,
    FunctionCall,
}

/// A piece of a tool call in a streamed chunk.
#[derive(Debug)]
pub struct ToolCallChunk {
    pub id: Option<String>,
    pub name: Option<String>,
    pub arguments: Option<String>,
}

/// A piece of a tool call as a value.
pub struct ToolCallChunkView {
    pub id: Option<Seq<char>>,
    pub name: Option<Seq<char>>,
    pub arguments: Option<Seq<char>>,
}

impl View for ToolCallChunk {
    type V = ToolCallChunkView;

    open spec fn view(&self) -> ToolCallChunkView {
        ToolCallChunkView {
            id: crate::message::opt_text(self.id),
            name: crate::message::opt_text(self.name),
            arguments: crate::message::opt_text(self.arguments),
        }
    }
}

/// What one choice of a streamed chunk adds.
#[derive(Debug)]
pub struct ChoiceDelta {
    pub reasoning: Option<String>,
    pub content: Option<String>,
    pub tool_calls: Option<Vec<ToolCallChunk>>,
    pub finish_reason: Option<FinishReason>,
}

/// What a choice adds, as a value.
pub struct ChoiceDeltaView {
    pub reasoning: Option<Seq<char>>,
    pub content: Option<Seq<char>>,
    pub tool_calls: Option<Seq<ToolCallChunkView>>,
    pub finish_reason: Option<FinishReason>,
}

impl View for ChoiceDelta {
    type V = ChoiceDeltaView;

    open spec fn view(&self) -> ChoiceDeltaView {
        ChoiceDeltaView {
            reasoning: crate::message::opt_text(self.reasoning),
            content: crate::message::opt_text(self.content),
            tool_calls: match self.tool_calls {
                Some(cs) => Some(cs@.map_values(|c: ToolCallChunk| c@)),
                None => None,
            },
            finish_reason: self.finish_reason,
        }
    }
}

/// The views of the choices of a chunk.
pub open spec fn choices_view(s: Seq<ChoiceDelta>) -> Seq<ChoiceDeltaView> {
    s.map_values(|d: ChoiceDelta| d@)
}

/// The turn that the model is streaming: what it has said so far.
pub struct TurnView {
    pub reasoning: Seq<char>,
    pub content: Seq<char>,
    pub calls: Seq<ToolCallView>,
}

/// A turn before the first chunk.
pub open spec fn empty_turn() -> TurnView {
    TurnView { reasoning: Seq::empty(), content: Seq::empty(), calls: Seq::empty() }
}

/// A run as a value.
pub struct ProviderRunView {
    /// The request that started the run.
    pub request: RequestView,
    /// The tools offered to the model.
    pub tools: Seq<ToolView>,
    /// The messages that the run added to the conversation.
    pub out_messages: Seq<MessageView>,
    /// The turn being streamed.
    pub turn: TurnView,
}

/// The text, or nothing.
pub open spec fn or_empty(s: Option<Seq<char>>) -> Seq<char> {
    match s {
        Some(t) => t,
        None => Seq::empty(),
    }
}

/// The pieces streamed out for the text of a choice: its reasoning, then its content.
pub open spec fn text_parts(d: ChoiceDeltaView) -> Seq<AgentOutputPartView> {
    (match d.reasoning {
        Some(r) => seq![AgentOutputPartView::Reasoning(r)],
        None => Seq::empty(),
    }) + (match d.content {
        Some(c) => seq![AgentOutputPartView::Content(c)],
        None => Seq::empty(),
    })
}

/// The turn with the text of a choice added.
pub open spec fn with_text(t: TurnView, d: ChoiceDeltaView) -> TurnView {
    TurnView {
        reasoning: t.reasoning + or_empty(d.reasoning),
        content: t.content + or_empty(d.content),
        calls: t.calls,
    }
}

/// A first piece of a tool call names both the call's id and the tool.
pub open spec fn opens_call(c: ToolCallChunkView) -> bool {
    c.id is Some && c.name is Some
}

/// `i` is the first piece that fails to open its call.
pub open spec fn is_first_unopened(chunks: Seq<ToolCallChunkView>, i: int) -> bool {
    &&& 0 <= i < chunks.len()
    &&& !opens_call(chunks[i])
    &&& forall|j: int| 0 <= j < i ==> opens_call(chunks[j])
}

/// The calls that the first pieces open, with no arguments yet.
pub open spec fn opened_calls(chunks: Seq<ToolCallChunkView>) -> Seq<ToolCallView> {
    chunks.map_values(|c: ToolCallChunkView| ToolCallView { id: c.id->0, name: c.name->0, arguments: Seq::empty() })
}

/// `i` is the first later piece that brings arguments for a call that no first piece
/// opened.
pub open spec fn is_first_stray(n_calls: int, chunks: Seq<ToolCallChunkView>, i: int) -> bool {
    &&& n_calls <= i < chunks.len()
    &&& chunks[i].arguments is Some
    &&& forall|j: int| n_calls <= j < i ==> chunks[j].arguments is None
}

/// The calls with the arguments of later pieces added, piece `i` to call `i`.
pub open spec fn extended_calls(calls: Seq<ToolCallView>, chunks: Seq<ToolCallChunkView>) -> Seq<ToolCallView> {
    Seq::new(
        calls.len(),
        |i: int|
            if i < chunks.len() && chunks[i].arguments is Some {
                ToolCallView { arguments: calls[i].arguments + chunks[i].arguments->0, ..calls[i] }
            } else {
                calls[i]
            },
    )
}

/// The calls after the tool-call pieces of a choice, or nothing where the pieces are
/// malformed.
pub open spec fn calls_after(calls: Seq<ToolCallView>, chunks: Option<Seq<ToolCallChunkView>>) -> Option<Seq<ToolCallView>> {
    match chunks {
        None => Some(calls),
        Some(cs) => if calls.len() == 0 {
            if exists|i: int| is_first_unopened(cs, i) {
                None
            } else {
                Some(opened_calls(cs))
            }
        } else {
            if exists|i: int| is_first_stray(calls.len() as int, cs, i) {
                None
            } else {
                Some(extended_calls(calls, cs))
            }
        },
    }
}

/// The error for malformed tool-call pieces: the first piece that fails to open its
/// call, and the field it lacks; or the first piece with arguments for a call that
/// was never opened.
pub open spec fn is_tool_chunk_error(calls: Seq<ToolCallView>, chunks: Seq<ToolCallChunkView>, e: Error) -> bool {
    if calls.len() == 0 {
        exists|i: int|
            is_first_unopened(chunks, i) && (e matches Error::MissingToolCallField { index, field } && index
                == i && field@ == (if chunks[i].id is None {
                "id"@
            } else {
                "function.name"@
            }))
    } else {
        exists|i: int|
            is_first_stray(calls.len() as int, chunks, i) && (e matches Error::ToolCallDeltaOutOfBounds {
                index,
            } && index == i)
    }
}

/// The assistant message that ends a turn with `stop`.
pub open spec fn stop_message(t: TurnView) -> MessageView {
    MessageView::Assistant { content: Some(t.content), reasoning: Some(t.reasoning), tool_calls: None }
}

/// What a run does next.
pub enum NextStepView {
    /// Read the next chunk.
    Continue,
    /// The run is done; these are the messages it added.
    Finished(Seq<MessageView>),
    /// Run these tool calls and hand their answers back.
    CallTools(Seq<ToolCallView>),
    /// The run failed.
    Failed,
}

/// One chunk's effect on a run: the new run, the pieces streamed out, and what comes
/// next.
pub struct StepView {
    pub state: ProviderRunView,
    pub parts: Seq<AgentOutputPartView>,
    pub next: NextStepView,
}

/// The effect of a chunk with these choices; the first choice is the one that counts.
pub open spec fn chunk_step(s: ProviderRunView, choices: Seq<ChoiceDeltaView>) -> StepView {
    if choices.len() == 0 {
        StepView { state: s, parts: Seq::empty(), next: NextStepView::Failed }
    } else {
        let d = choices[0];
        let t1 = with_text(s.turn, d);
        let parts = text_parts(d);
        match calls_after(t1.calls, d.tool_calls) {
            None => StepView { state: ProviderRunView { turn: t1, ..s }, parts, next: NextStepView::Failed },
            Some(calls) => {
                let t2 = TurnView { calls, ..t1 };
                match d.finish_reason {
                    Some(FinishReason::Stop) => {
                        let out = s.out_messages.push(stop_message(t2));
                        StepView {
                            state: ProviderRunView { out_messages: out, turn: t2, ..s },
                            parts,
                            next: NextStepView::Finished(out),
                        }
                    },
                    Some(FinishReason::ToolCalls) => StepView {
                        state: ProviderRunView { turn: t2, ..s },
                        parts: parts.push(AgentOutputPartView::Tool(calls)),
                        next: NextStepView::CallTools(calls),
                    },
                    _ => StepView { state: ProviderRunView { turn: t2, ..s }, parts, next: NextStepView::Continue },
                }
            },
        }
    }
}

/// What a run does next.
#[derive(Debug)]
pub enum NextStep {
    /// Read the next chunk.
    Continue,
    /// The run is done.
    Finished(AngentOutput),
    /// Run these tool calls, in order, and hand their answers to
    /// [`ProviderRun::on_tool_results`].
    CallTools(Vec<ToolCall>),
}

/// The effect of one chunk: the pieces to stream out, in order, and then what comes
/// next (or the error that ends the run).
#[derive(Debug)]
pub struct ChunkOutcome {
    pub parts: Vec<AgentOutputPart>,
    pub next: Result<NextStep, Error>,
}

/// What comes next, as a value.
pub open spec fn next_view(n: Result<NextStep, Error>) -> NextStepView {
    match n {
        Ok(NextStep::Continue) => NextStepView::Continue,
        Ok(NextStep::Finished(out)) => NextStepView::Finished(out.messages()),
        Ok(NextStep::CallTools(calls)) => NextStepView::CallTools(calls_view(calls@)),
        Err(_) => NextStepView::Failed,
    }
}

/// The assistant message that asks for the tool calls of a turn; an empty content or
/// reasoning is left out.
pub open spec fn tool_call_message(t: TurnView) -> MessageView {
    MessageView::Assistant {
        content: if t.content.len() == 0 { None } else { Some(t.content) },
        reasoning: if t.reasoning.len() == 0 { None } else { Some(t.reasoning) },
        tool_calls: Some(t.calls),
    }
}

/// The messages that carry the answers of the tools.
pub open spec fn tool_messages(outputs: Seq<ToolOutput>) -> Seq<MessageView> {
    outputs.map_values(|o: ToolOutput| MessageView::Tool { tool_call_id: o.tool_call_id@, content: o.content@ })
}

/// A run after the tools have answered the calls of its turn: the calls and the
/// answers join the conversation, and a new turn begins.
pub open spec fn after_tool_results(s: ProviderRunView, outputs: Seq<ToolOutput>) -> ProviderRunView {
    ProviderRunView {
        out_messages: s.out_messages.push(tool_call_message(s.turn)) + tool_messages(outputs),
        turn: empty_turn(),
        ..s
    }
}

/// The conversation that a run sends to the model: the request's messages, then
/// those that the run added.
pub open spec fn conversation_of(s: ProviderRunView) -> Seq<MessageView> {
    s.request.messages + s.out_messages
}

/// One run of a streaming chat provider.
pub struct ProviderRun {
    request: Request,
    tools: Vec<Tool>,
    out_messages: Vec<Message>,
    reasoning: String,
    content: String,
    calls: Vec<ToolCall>,
}

impl View for ProviderRun {
    type V = ProviderRunView;

    closed spec fn view(&self) -> ProviderRunView {
        ProviderRunView {
            request: self.request@,
            tools: tools_view(self.tools@),
            out_messages: messages_view(self.out_messages@),
            turn: TurnView {
                reasoning: self.reasoning@,
                content: self.content@,
                calls: calls_view(self.calls@),
            },
        }
    }
}

/// Appends clones of the messages of `more` to `out`.
fn push_messages(out: &mut Vec<Message>, more: &Vec<Message>)
    ensures
        messages_view(final(out)@) == messages_view(old(out)@) + messages_view(more@),
{
    let ghost start = out@;
    let mut i: usize = 0;
    while i < more.len()
        invariant
            i <= more.len(),
            out@.len() == start.len() + i,
            forall|j: int| #![trigger out@[j]] 0 <= j < start.len() ==> out@[j] == start[j],
            forall|j: int| #![trigger more@[j]] 0 <= j < i ==> out@[start.len() + j]@ == more@[j]@,
        decreases more.len() - i,
    {
        let m = more[i].clone();
        out.push(m);
        i = i + 1;
    }
    assert(messages_view(out@) =~= messages_view(start) + messages_view(more@)) by {
        assert forall|j: int| 0 <= j < out@.len() implies #[trigger] messages_view(out@)[j] == (messages_view(start) + messages_view(more@))[j] by {
            if j >= start.len() {
                assert(out@[start.len() + (j - start.len())]@ == more@[j - start.len()]@);
            }
        }
    }
}

impl ProviderRun {
    /// A run of `request`, offering the model the request's tools and then `executor_tools`.
    pub fn new(request: Request, executor_tools: Vec<Tool>) -> (r: Self)
        ensures
            r@ == (ProviderRunView {
                request: request@,
                tools: request@.tools + tools_view(executor_tools@),
                out_messages: Seq::empty(),
                turn: empty_turn(),
            }),
    {
        let mut tools = clone_tools(request.tools());
        let ghost start = tools@;
        let mut i: usize = 0;
        while i < executor_tools.len()
            invariant
                i <= executor_tools.len(),
                tools@.len() == start.len() + i,
                forall|j: int| #![trigger tools@[j]] 0 <= j < start.len() ==> tools@[j] == start[j],
                forall|j: int| #![trigger executor_tools@[j]] 0 <= j < i ==> tools@[start.len() + j]@ == executor_tools@[j]@,
            decreases executor_tools.len() - i,
        {
            let t = executor_tools[i].clone();
            tools.push(t);
            i = i + 1;
        }
        assert(tools_view(tools@) =~= tools_view(start) + tools_view(executor_tools@)) by {
            assert forall|j: int| 0 <= j < tools@.len() implies #[trigger] tools_view(tools@)[j] == (tools_view(start) + tools_view(executor_tools@))[j] by {
                if j >= start.len() {
                    assert(tools@[start.len() + (j - start.len())]@ == executor_tools@[j - start.len()]@);
                }
            }
        }
        let r = ProviderRun {
            request,
            tools,
            out_messages: Vec::new(),
            reasoning: String::new(),
            content: String::new(),
            calls: Vec::new(),
        };
        assert(r@.out_messages =~= Seq::empty());
        assert(r@.turn.calls =~= Seq::empty());
        r
    }

    /// The request that started the run.
    pub fn request(&self) -> (r: &Request)
        ensures
            r@ == self@.request,
    {
        &self.request
    }

    /// The tools offered to the model.
    pub fn tools(&self) -> (r: &Vec<Tool>)
        ensures
            tools_view(r@) == self@.tools,
    {
        &self.tools
    }

    /// The conversation to send to the model now.
    pub fn conversation(&self) -> (r: Vec<Message>)
        ensures
            messages_view(r@) == conversation_of(self@),
            messages_view(r@) == self@.request.messages + self@.out_messages,
    {
        let mut out = clone_messages(self.request.messages());
        push_messages(&mut out, &self.out_messages);
        out
    }

    /// The output of a run whose stream ended without `stop`: the messages added so far.
    pub fn on_end(&self) -> (r: AngentOutput)
        ensures
            r.messages() == self@.out_messages,
    {
        AngentOutput { contents: clone_messages(&self.out_messages) }
    }

    /// Adds the tool-call pieces of a choice to the turn, or tells why they are malformed.
    fn absorb_tool_chunks(&mut self, chunks: &Vec<ToolCallChunk>) -> (r: Result<(), Error>)
        ensures
            ({
                let cv = chunks@.map_values(|c: ToolCallChunk| c@);
                let before = old(self)@.turn.calls;
                match r {
                    Ok(()) => calls_after(before, Some(cv)) == Some(final(self)@.turn.calls)
                        && final(self)@ == (ProviderRunView {
                            turn: TurnView { calls: final(self)@.turn.calls, ..old(self)@.turn },
                            ..old(self)@
                        }),
                    Err(e) => calls_after(before, Some(cv)) is None && is_tool_chunk_error(before, cv, e)
                        && final(self)@ == old(self)@,
                }
            }),
    {
        let ghost cv = chunks@.map_values(|c: ToolCallChunk| c@);
        let ghost before = self@.turn.calls;
        let n = self.calls.len();
        if n == 0 {
            let mut opened: Vec<ToolCall> = Vec::new();
            let mut i: usize = 0;
            while i < chunks.len()
                invariant
                    i <= chunks.len(),
                    self@ == old(self)@,
                    before == old(self)@.turn.calls,
                    before.len() == 0,
                    cv == chunks@.map_values(|c: ToolCallChunk| c@),
                    opened@.len() == i,
                    forall|j: int| 0 <= j < i ==> opens_call(#[trigger] cv[j]),
                    forall|j: int| #![trigger opened@[j]] 0 <= j < i ==> opened@[j]@ == opened_calls(cv)[j],
                decreases chunks.len() - i,
            {
                let c = &chunks[i];
                match (&c.id, &c.name) {
                    (Some(id), Some(name)) => {
                        opened.push(ToolCall::new(id.clone(), name.clone()));
                    },
                    (None, _) => {
                        assert(is_first_unopened(cv, i as int));
                        return Err(Error::MissingToolCallField { index: i, field: "id" });
                    },
                    (Some(_), None) => {
                        assert(is_first_unopened(cv, i as int));
                        return Err(Error::MissingToolCallField { index: i, field: "function.name" });
                    },
                }
                i = i + 1;
            }
            assert(calls_view(opened@) =~= opened_calls(cv));
            assert forall|k: int| !is_first_unopened(cv, k) by {}
            self.calls = opened;
            Ok(())
        } else {
            let mut i: usize = n;
            while i < chunks.len()
                invariant
                    0 < n <= i,
                    i <= chunks.len() || i == n,
                    self@ == old(self)@,
                    before == old(self)@.turn.calls,
                    n == before.len(),
                    cv == chunks@.map_values(|c: ToolCallChunk| c@),
                    forall|j: int| n <= j < i ==> (#[trigger] cv[j]).arguments is None,
                decreases chunks.len() - i,
            {
                if chunks[i].arguments.is_some() {
                    assert(is_first_stray(n as int, cv, i as int));
                    return Err(Error::ToolCallDeltaOutOfBounds { index: i });
                }
                i = i + 1;
            }
            assert forall|k: int| !is_first_stray(n as int, cv, k) by {}
            let mut extended: Vec<ToolCall> = Vec::new();
            let mut i: usize = 0;
            while i < n
                invariant
                    i <= n,
                    self@ == old(self)@,
                    before == old(self)@.turn.calls,
                    n == self.calls@.len(),
                    before == calls_view(self.calls@),
                    cv == chunks@.map_values(|c: ToolCallChunk| c@),
                    extended@.len() == i,
                    forall|j: int| #![trigger extended@[j]] 0 <= j < i ==> extended@[j]@ == extended_calls(before, cv)[j],
                decreases n - i,
            {
                let mut c = self.calls[i].clone();
                if i < chunks.len() {
                    match &chunks[i].arguments {
                        Some(a) => {
                            c.arguments.append(a.as_str());
                        },
                        None => {},
                    }
                }
                extended.push(c);
                i = i + 1;
            }
            assert(calls_view(extended@) =~= extended_calls(before, cv));
            self.calls = extended;
            Ok(())
        }
    }

    /// Takes in one streamed chunk: adds what its first choice says to the turn, and
    /// tells what to stream out and what comes next.
    pub fn on_chunk(&mut self, choices: Vec<ChoiceDelta>) -> (r: ChunkOutcome)
        ensures
            ({
                let st = chunk_step(old(self)@, choices_view(choices@));
                &&& final(self)@ == st.state
                &&& parts_view(r.parts@) == st.parts
                &&& next_view(r.next) == st.next
            }),
            r.next matches Err(e) ==> (choices@.len() == 0 && e is EmptyChoices) || (choices@.len() > 0
                && (choices_view(choices@)[0].tool_calls matches Some(cs) && is_tool_chunk_error(
                with_text(old(self)@.turn, choices_view(choices@)[0]).calls,
                cs,
                e,
            ))),
    {
        if choices.len() == 0 {
            let r = ChunkOutcome { parts: Vec::new(), next: Err(Error::EmptyChoices) };
            assert(parts_view(r.parts@) =~= Seq::empty());
            return r;
        }
        let ghost s0 = self@;
        let ghost dv = choices_view(choices@)[0];
        let d = &choices[0];
        let mut parts: Vec<AgentOutputPart> = Vec::new();
        match &d.reasoning {
            Some(r) => {
                self.reasoning.append(r.as_str());
                parts.push(AgentOutputPart::Reasoning(r.clone()));
            },
            None => {},
        }
        match &d.content {
            Some(c) => {
                self.content.append(c.as_str());
                parts.push(AgentOutputPart::Content(c.clone()));
            },
            None => {},
        }
        assert(parts_view(parts@) =~= text_parts(dv));
        assert(self@.turn.reasoning =~= with_text(s0.turn, dv).reasoning);
        assert(self@.turn.content =~= with_text(s0.turn, dv).content);
        assert(self@ == ProviderRunView { turn: with_text(s0.turn, dv), ..s0 });
        match &d.tool_calls {
            Some(chunks) => {
                match self.absorb_tool_chunks(chunks) {
                    Ok(()) => {},
                    Err(e) => {
                        return ChunkOutcome { parts, next: Err(e) };
                    },
                }
            },
            None => {},
        }
        match d.finish_reason {
            Some(FinishReason::Stop) => {
                let m = Message::assistant_with_details(
                    Some(self.content.clone()),
                    Some(self.reasoning.clone()),
                    None,
                );
                self.out_messages.push(m);
                assert(messages_view(self.out_messages@) =~= s0.out_messages.push(stop_message(self@.turn)));
                let out = AngentOutput { contents: clone_messages(&self.out_messages) };
                ChunkOutcome { parts, next: Ok(NextStep::Finished(out)) }
            },
            Some(FinishReason::ToolCalls) => {
                let ghost p0 = parts_view(parts@);
                parts.push(AgentOutputPart::Tool(clone_tool_calls(&self.calls)));
                assert(parts_view(parts@) =~= p0.push(AgentOutputPartView::Tool(self@.turn.calls)));
                ChunkOutcome { parts, next: Ok(NextStep::CallTools(clone_tool_calls(&self.calls))) }
            },
            _ => ChunkOutcome { parts, next: Ok(NextStep::Continue) },
        }
    }

    /// Takes in the answers of the tools to the calls of the turn: the calls and the
    /// answers join the conversation, and a new turn begins.
    pub fn on_tool_results(&mut self, outputs: Vec<ToolOutput>)
        ensures
            final(self)@ == after_tool_results(old(self)@, outputs@),
            final(self)@.out_messages.len() == old(self)@.out_messages.len() + 1 + outputs@.len(),
            forall|j: int| #![trigger outputs@[j]] 0 <= j < outputs@.len() ==> final(self)@.out_messages[old(self)@.out_messages.len() + 1 + j]
                == (MessageView::Tool { tool_call_id: outputs@[j].tool_call_id@, content: outputs@[j].content@ }),
            final(self)@.out_messages.subrange(0, old(self)@.out_messages.len() as int) == old(self)@.out_messages,
    {
        let ghost s0 = self@;
        let content = if self.content.as_str().is_empty() {
            None
        } else {
            Some(self.content.clone())
        };
        let reasoning = if self.reasoning.as_str().is_empty() {
            None
        } else {
            Some(self.reasoning.clone())
        };
        let mut calls: Vec<ToolCall> = Vec::new();
        std::mem::swap(&mut calls, &mut self.calls);
        let m = Message::assistant_with_details(content, reasoning, Some(calls));
        assert(m@ == tool_call_message(s0.turn));
        let mut answers: Vec<Message> = Vec::new();
        let mut i: usize = 0;
        while i < outputs.len()
            invariant
                i <= outputs.len(),
                answers@.len() == i,
                forall|j: int| #![trigger answers@[j]] 0 <= j < i ==> answers@[j]@ == tool_messages(outputs@)[j],
            decreases outputs.len() - i,
        {
            let o = &outputs[i];
            answers.push(Message::tool(o.tool_call_id.clone(), o.content.clone()));
            i = i + 1;
        }
        assert(messages_view(answers@) =~= tool_messages(outputs@));
        self.out_messages.push(m);
        assert(messages_view(self.out_messages@) =~= s0.out_messages.push(tool_call_message(s0.turn)));
        push_messages(&mut self.out_messages, &answers);
        self.reasoning = String::new();
        self.content = String::new();
        assert(self@.turn.calls =~= Seq::empty());
        proof {
            lemma_tool_results_are_answered_in_order(s0, outputs@);
            assert(self@.out_messages.subrange(0, s0.out_messages.len() as int) =~= s0.out_messages);
        }
    }
}

/// The content that a sequence of streamed pieces carries, in order.
pub open spec fn content_of(parts: Seq<AgentOutputPartView>) -> Seq<char>
    decreases parts.len(),
{
    if parts.len() == 0 {
        Seq::empty()
    } else {
        content_of(parts.drop_last()) + match parts.last() {
            AgentOutputPartView::Content(c) => c,
            _ => Seq::empty(),
        }
    }
}

/// The reasoning that a sequence of streamed pieces carries, in order.
pub open spec fn reasoning_of(parts: Seq<AgentOutputPartView>) -> Seq<char>
    decreases parts.len(),
{
    if parts.len() == 0 {
        Seq::empty()
    } else {
        reasoning_of(parts.drop_last()) + match parts.last() {
            AgentOutputPartView::Reasoning(r) => r,
            _ => Seq::empty(),
        }
    }
}

/// A run after the chunks, one after another, and all the pieces streamed out.
pub open spec fn run_chunks(s: ProviderRunView, chunks: Seq<Seq<ChoiceDeltaView>>) -> (ProviderRunView, Seq<AgentOutputPartView>)
    decreases chunks.len(),
{
    if chunks.len() == 0 {
        (s, Seq::empty())
    } else {
        let before = run_chunks(s, chunks.drop_last());
        let st = chunk_step(before.0, chunks.last());
        (st.state, before.1 + st.parts)
    }
}

/// Each of the chunks lets the run go on reading.
pub open spec fn continues_through(s: ProviderRunView, chunks: Seq<Seq<ChoiceDeltaView>>) -> bool
    decreases chunks.len(),
{
    chunks.len() == 0 || (continues_through(s, chunks.drop_last()) && chunk_step(
        run_chunks(s, chunks.drop_last()).0,
        chunks.last(),
    ).next is Continue)
}

proof fn lemma_content_of_append(a: Seq<AgentOutputPartView>, b: Seq<AgentOutputPartView>)
    ensures
        content_of(a + b) == content_of(a) + content_of(b),
        reasoning_of(a + b) == reasoning_of(a) + reasoning_of(b),
    decreases b.len(),
{
    if b.len() == 0 {
        assert(a + b =~= a);
    } else {
        lemma_content_of_append(a, b.drop_last());
        assert((a + b).drop_last() =~= a + b.drop_last());
        assert(content_of(b) == content_of(b.drop_last()) + match b.last() {
            AgentOutputPartView::Content(c) => c,
            _ => Seq::empty(),
        });
    }
}

proof fn lemma_text_parts(d: ChoiceDeltaView)
    ensures
        content_of(text_parts(d)) == or_empty(d.content),
        reasoning_of(text_parts(d)) == or_empty(d.reasoning),
{
    let r: Seq<AgentOutputPartView> = match d.reasoning {
        Some(x) => seq![AgentOutputPartView::Reasoning(x)],
        None => Seq::empty(),
    };
    let c: Seq<AgentOutputPartView> = match d.content {
        Some(x) => seq![AgentOutputPartView::Content(x)],
        None => Seq::empty(),
    };
    lemma_content_of_append(r, c);
    assert(text_parts(d) == r + c);
    if r.len() == 1 {
        assert(r.drop_last() =~= Seq::<AgentOutputPartView>::empty());
        assert(content_of(r) == content_of(r.drop_last()) + Seq::<char>::empty());
        assert(reasoning_of(r) == reasoning_of(r.drop_last()) + d.reasoning->0);
        assert(content_of(r) =~= Seq::<char>::empty());
        assert(reasoning_of(r) =~= or_empty(d.reasoning));
    } else {
        assert(content_of(r) =~= Seq::<char>::empty());
        assert(reasoning_of(r) =~= or_empty(d.reasoning));
    }
    if c.len() == 1 {
        assert(c.drop_last() =~= Seq::<AgentOutputPartView>::empty());
        assert(content_of(c) == content_of(c.drop_last()) + d.content->0);
        assert(reasoning_of(c) == reasoning_of(c.drop_last()) + Seq::<char>::empty());
        assert(content_of(c) =~= or_empty(d.content));
        assert(reasoning_of(c) =~= Seq::<char>::empty());
    } else {
        assert(content_of(c) =~= or_empty(d.content));
        assert(reasoning_of(c) =~= Seq::<char>::empty());
    }
    assert(Seq::<char>::empty() + or_empty(d.content) =~= or_empty(d.content));
    assert(or_empty(d.reasoning) + Seq::<char>::empty() =~= or_empty(d.reasoning));
}

/// A chunk adds to the turn exactly the text of the pieces it streams out, and adds
/// a message only where it finishes the run.
proof fn lemma_step_text(s: ProviderRunView, choices: Seq<ChoiceDeltaView>)
    ensures
        ({
            let st = chunk_step(s, choices);
            &&& st.state.turn.content == s.turn.content + content_of(st.parts)
            &&& st.state.turn.reasoning == s.turn.reasoning + reasoning_of(st.parts)
            &&& st.state.request == s.request
            &&& !(st.next is Finished) ==> st.state.out_messages == s.out_messages
        }),
{
    let st = chunk_step(s, choices);
    if choices.len() == 0 {
        assert(s.turn.content + Seq::<char>::empty() =~= s.turn.content);
        assert(s.turn.reasoning + Seq::<char>::empty() =~= s.turn.reasoning);
    } else {
        let d = choices[0];
        lemma_text_parts(d);
        let tp = text_parts(d);
        if st.parts.len() != tp.len() {
            let tool = st.parts.last();
            assert(st.parts.drop_last() =~= tp);
            assert(content_of(st.parts) == content_of(tp) + Seq::<char>::empty());
            assert(content_of(tp) + Seq::<char>::empty() =~= content_of(tp));
            assert(reasoning_of(st.parts) == reasoning_of(tp) + Seq::<char>::empty());
            assert(reasoning_of(tp) + Seq::<char>::empty() =~= reasoning_of(tp));
        }
    }
}

proof fn lemma_continuing_run(s: ProviderRunView, chunks: Seq<Seq<ChoiceDeltaView>>)
    requires
        continues_through(s, chunks),
    ensures
        ({
            let r = run_chunks(s, chunks);
            &&& r.0.turn.content == s.turn.content + content_of(r.1)
            &&& r.0.turn.reasoning == s.turn.reasoning + reasoning_of(r.1)
            &&& r.0.out_messages == s.out_messages
            &&& r.0.request == s.request
        }),
    decreases chunks.len(),
{
    if chunks.len() == 0 {
        assert(s.turn.content + Seq::<char>::empty() =~= s.turn.content);
        assert(s.turn.reasoning + Seq::<char>::empty() =~= s.turn.reasoning);
    } else {
        let before = run_chunks(s, chunks.drop_last());
        lemma_continuing_run(s, chunks.drop_last());
        lemma_step_text(before.0, chunks.last());
        let st = chunk_step(before.0, chunks.last());
        lemma_content_of_append(before.1, st.parts);
        assert(s.turn.content + content_of(before.1) + content_of(st.parts) =~= s.turn.content + (
        content_of(before.1) + content_of(st.parts)));
        assert(s.turn.reasoning + reasoning_of(before.1) + reasoning_of(st.parts) =~= s.turn.reasoning
            + (reasoning_of(before.1) + reasoning_of(st.parts)));
    }
}

/// What a run answers is what it streamed: where a fresh turn is streamed chunk by
/// chunk and the last chunk finishes the run, the run's output ends with an assistant
/// message whose content is all the content streamed out, in order, and whose
/// reasoning is all the reasoning streamed out; the messages before it are those the
/// run had added before the turn.
pub proof fn lemma_answer_is_streamed_text(
    s: ProviderRunView,
    chunks: Seq<Seq<ChoiceDeltaView>>,
    last: Seq<ChoiceDeltaView>,
)
    requires
        s.turn == empty_turn(),
        continues_through(s, chunks),
        chunk_step(run_chunks(s, chunks).0, last).next is Finished,
    ensures
        ({
            let before = run_chunks(s, chunks);
            let st = chunk_step(before.0, last);
            let parts = before.1 + st.parts;
            &&& st.next == NextStepView::Finished(
                s.out_messages.push(
                    MessageView::Assistant {
                        content: Some(content_of(parts)),
                        reasoning: Some(reasoning_of(parts)),
                        tool_calls: None,
                    },
                ),
            )
            &&& st.next matches NextStepView::Finished(msgs) && crate::output::last_assistant_message(msgs)
                == Some((content_of(parts), reasoning_of(parts)))
        }),
{
    let before = run_chunks(s, chunks);
    lemma_continuing_run(s, chunks);
    lemma_step_text(before.0, last);
    let st = chunk_step(before.0, last);
    lemma_content_of_append(before.1, st.parts);
    assert(Seq::<char>::empty() + content_of(before.1) =~= content_of(before.1));
    assert(Seq::<char>::empty() + reasoning_of(before.1) =~= reasoning_of(before.1));
    assert(content_of(before.1) + content_of(st.parts) =~= before.0.turn.content + content_of(st.parts));
}

/// The tools' answers join the conversation: where a chunk asks for tool calls and
/// the tools answer them, the next request holds the conversation so far, then the
/// assistant message that asks for exactly those calls, then one message per answer,
/// in order; and a fresh turn begins.
pub proof fn lemma_tool_answers_join_conversation(
    s: ProviderRunView,
    choices: Seq<ChoiceDeltaView>,
    outputs: Seq<ToolOutput>,
)
    requires
        chunk_step(s, choices).next is CallTools,
    ensures
        ({
            let st = chunk_step(s, choices);
            let next = after_tool_results(st.state, outputs);
            &&& st.next matches NextStepView::CallTools(calls) && conversation_of(next) == conversation_of(s).push(
                MessageView::Assistant {
                    content: if st.state.turn.content.len() == 0 {
                        None
                    } else {
                        Some(st.state.turn.content)
                    },
                    reasoning: if st.state.turn.reasoning.len() == 0 {
                        None
                    } else {
                        Some(st.state.turn.reasoning)
                    },
                    tool_calls: Some(calls),
                },
            ) + tool_messages(outputs)
            &&& next.turn == empty_turn()
            &&& next.request == s.request
        }),
{
    let st = chunk_step(s, choices);
    let next = after_tool_results(st.state, outputs);
    assert(conversation_of(next) =~= conversation_of(s).push(tool_call_message(st.state.turn)) + tool_messages(outputs));
}

proof fn lemma_some_stray_is_first(n: int, pieces: Seq<ToolCallChunkView>, j: int)
    requires
        n <= j < pieces.len(),
        pieces[j].arguments is Some,
    ensures
        exists|i: int| is_first_stray(n, pieces, i),
    decreases j - n,
{
    if exists|k: int| n <= k < j && (#[trigger] pieces[k]).arguments is Some {
        let k = choose|k: int| n <= k < j && (#[trigger] pieces[k]).arguments is Some;
        lemma_some_stray_is_first(n, pieces, k);
    } else {
        assert(is_first_stray(n, pieces, j));
    }
}

proof fn lemma_some_unopened_is_first(pieces: Seq<ToolCallChunkView>, j: int)
    requires
        0 <= j < pieces.len(),
        !opens_call(pieces[j]),
    ensures
        exists|i: int| is_first_unopened(pieces, i),
    decreases j,
{
    if exists|k: int| 0 <= k < j && !opens_call(#[trigger] pieces[k]) {
        let k = choose|k: int| 0 <= k < j && !opens_call(#[trigger] pieces[k]);
        lemma_some_unopened_is_first(pieces, k);
    } else {
        assert(is_first_unopened(pieces, j));
    }
}

/// Later pieces of tool calls extend the calls at their own positions: where the turn
/// has opened calls and the first choice of a chunk brings tool-call pieces, the chunk
/// fails exactly where some piece past the last call brings arguments. Otherwise the
/// turn keeps as many calls, each with its id and tool, and the arguments of call `i`
/// are its old arguments followed by those of piece `i`, where piece `i` brings any;
/// the arguments of a piece never go to another call. A chunk that ends the turn with
/// `tool_calls` asks for exactly these calls.
pub proof fn lemma_pieces_extend_their_own_calls(s: ProviderRunView, choices: Seq<ChoiceDeltaView>)
    requires
        choices.len() > 0,
        choices[0].tool_calls is Some,
        s.turn.calls.len() > 0,
    ensures
        ({
            let pieces = choices[0].tool_calls->0;
            let before = s.turn.calls;
            let st = chunk_step(s, choices);
            &&& (st.next is Failed) <==> exists|j: int| before.len() <= j < pieces.len() && (#[trigger] pieces[j]).arguments is Some
            &&& !(st.next is Failed) ==> st.state.turn.calls.len() == before.len()
            &&& !(st.next is Failed) ==> forall|i: int| #![trigger st.state.turn.calls[i]] 0 <= i < before.len() ==> st.state.turn.calls[i] == (ToolCallView {
                id: before[i].id,
                name: before[i].name,
                arguments: before[i].arguments + if i < pieces.len() && pieces[i].arguments is Some {
                    pieces[i].arguments->0
                } else {
                    Seq::empty()
                },
            })
            &&& st.next matches NextStepView::CallTools(calls) ==> calls == st.state.turn.calls
        }),
{
    let pieces = choices[0].tool_calls->0;
    let before = s.turn.calls;
    let n = before.len() as int;
    let t1 = with_text(s.turn, choices[0]);
    assert(t1.calls == before);
    if exists|j: int| n <= j < pieces.len() && (#[trigger] pieces[j]).arguments is Some {
        let j = choose|j: int| n <= j < pieces.len() && (#[trigger] pieces[j]).arguments is Some;
        lemma_some_stray_is_first(n, pieces, j);
    } else {
        assert forall|k: int| !is_first_stray(n, pieces, k) by {
            if is_first_stray(n, pieces, k) {
                assert(pieces[k].arguments is Some);
            }
        }
        let st = chunk_step(s, choices);
        assert(st.state.turn.calls == extended_calls(before, pieces));
        assert forall|i: int| 0 <= i < n implies #[trigger] st.state.turn.calls[i] == (ToolCallView {
            id: before[i].id,
            name: before[i].name,
            arguments: before[i].arguments + if i < pieces.len() && pieces[i].arguments is Some {
                pieces[i].arguments->0
            } else {
                Seq::empty()
            },
        }) by {
            if !(i < pieces.len() && pieces[i].arguments is Some) {
                assert(before[i].arguments + Seq::<char>::empty() =~= before[i].arguments);
            }
        }
    }
}

/// The first pieces of a turn's tool calls open the calls, one per piece and in order:
/// where the turn has no calls yet and the first choice of a chunk brings tool-call
/// pieces, the chunk fails exactly where some piece lacks the call's id or its tool.
/// Otherwise call `i` has the id and the tool of piece `i`, and no arguments yet.
pub proof fn lemma_pieces_open_calls(s: ProviderRunView, choices: Seq<ChoiceDeltaView>)
    requires
        choices.len() > 0,
        choices[0].tool_calls is Some,
        s.turn.calls.len() == 0,
    ensures
        ({
            let pieces = choices[0].tool_calls->0;
            let st = chunk_step(s, choices);
            &&& (st.next is Failed) <==> exists|j: int| 0 <= j < pieces.len() && ((#[trigger] pieces[j]).id is None || pieces[j].name is None)
            &&& !(st.next is Failed) ==> st.state.turn.calls.len() == pieces.len()
            &&& !(st.next is Failed) ==> forall|i: int| #![trigger st.state.turn.calls[i]] 0 <= i < pieces.len() ==> st.state.turn.calls[i] == (ToolCallView {
                id: pieces[i].id->0,
                name: pieces[i].name->0,
                arguments: Seq::empty(),
            })
        }),
{
    let pieces = choices[0].tool_calls->0;
    let t1 = with_text(s.turn, choices[0]);
    assert(t1.calls == s.turn.calls);
    if exists|j: int| 0 <= j < pieces.len() && ((#[trigger] pieces[j]).id is None || pieces[j].name is None) {
        let j = choose|j: int| 0 <= j < pieces.len() && ((#[trigger] pieces[j]).id is None || pieces[j].name is None);
        lemma_some_unopened_is_first(pieces, j);
    } else {
        assert forall|k: int| !is_first_unopened(pieces, k) by {
            if is_first_unopened(pieces, k) {
                assert(pieces[k].id is None || pieces[k].name is None);
            }
        }
    }
}

/// A turn's tool calls are assembled from the streamed pieces: where a turn without
/// calls reads a chunk whose pieces open calls and lets the run go on, and then a chunk
/// whose pieces extend them without failing, call `i` has the id and the tool of the
/// `i`-th opening piece and the arguments of the `i`-th later piece.
pub proof fn lemma_calls_assembled(s: ProviderRunView, first: Seq<ChoiceDeltaView>, second: Seq<ChoiceDeltaView>)
    requires
        s.turn.calls.len() == 0,
        first.len() > 0,
        first[0].tool_calls matches Some(opening) && opening.len() > 0,
        chunk_step(s, first).next is Continue,
        second.len() > 0,
        second[0].tool_calls is Some,
        !(chunk_step(chunk_step(s, first).state, second).next is Failed),
    ensures
        ({
            let opening = first[0].tool_calls->0;
            let later = second[0].tool_calls->0;
            let calls = chunk_step(chunk_step(s, first).state, second).state.turn.calls;
            &&& calls.len() == opening.len()
            &&& forall|i: int| #![trigger calls[i]] 0 <= i < opening.len() ==> calls[i] == (ToolCallView {
                id: opening[i].id->0,
                name: opening[i].name->0,
                arguments: if i < later.len() && later[i].arguments is Some {
                    later[i].arguments->0
                } else {
                    Seq::empty()
                },
            })
        }),
{
    let mid = chunk_step(s, first).state;
    lemma_pieces_open_calls(s, first);
    lemma_pieces_extend_their_own_calls(mid, second);
    let opening = first[0].tool_calls->0;
    let later = second[0].tool_calls->0;
    let calls = chunk_step(mid, second).state.turn.calls;
    assert forall|i: int| 0 <= i < opening.len() implies #[trigger] calls[i] == (ToolCallView {
        id: opening[i].id->0,
        name: opening[i].name->0,
        arguments: if i < later.len() && later[i].arguments is Some {
            later[i].arguments->0
        } else {
            Seq::empty()
        },
    }) by {
        assert(mid.turn.calls[i].arguments == Seq::<char>::empty());
        if i < later.len() && later[i].arguments is Some {
            assert(Seq::<char>::empty() + later[i].arguments->0 =~= later[i].arguments->0);
        } else {
            assert(Seq::<char>::empty() + Seq::<char>::empty() =~= Seq::<char>::empty());
        }
    }
}

/// The tools' answers join the run's messages: after the answers `outputs`, the run
/// keeps the messages it had, then adds the assistant message that asks for the calls
/// of the turn (with its text, an empty one left out), then for each output `j`, in
/// order, a tool message with the id and the content of output `j`; a fresh turn
/// begins, and the request and the tools are kept.
pub proof fn lemma_tool_results_are_answered_in_order(s: ProviderRunView, outputs: Seq<ToolOutput>)
    ensures
        ({
            let after = after_tool_results(s, outputs);
            let n = s.out_messages.len() as int;
            &&& after.out_messages.len() == n + 1 + outputs.len()
            &&& forall|i: int| #![trigger after.out_messages[i]] 0 <= i < n ==> after.out_messages[i] == s.out_messages[i]
            &&& after.out_messages[n] == (MessageView::Assistant {
                content: if s.turn.content.len() == 0 { None } else { Some(s.turn.content) },
                reasoning: if s.turn.reasoning.len() == 0 { None } else { Some(s.turn.reasoning) },
                tool_calls: Some(s.turn.calls),
            })
            &&& forall|j: int| #![trigger outputs[j]] 0 <= j < outputs.len() ==> after.out_messages[n + 1 + j] == (MessageView::Tool {
                tool_call_id: outputs[j].tool_call_id@,
                content: outputs[j].content@,
            })
            &&& after.turn.reasoning.len() == 0 && after.turn.content.len() == 0 && after.turn.calls.len() == 0
            &&& after.request == s.request && after.tools == s.tools
        }),
{
    let after = after_tool_results(s, outputs);
    let n = s.out_messages.len() as int;
    assert forall|j: int| #![trigger outputs[j]] 0 <= j < outputs.len() implies after.out_messages[n + 1 + j] == (MessageView::Tool {
        tool_call_id: outputs[j].tool_call_id@,
        content: outputs[j].content@,
    }) by {
        assert(after.out_messages[n + 1 + j] == tool_messages(outputs)[j]);
    }
}

/// What a run sends to the model is the whole conversation: every message of the
/// request, in order, followed by every message that the run added, in order.
pub proof fn lemma_conversation_keeps_every_message(s: ProviderRunView)
    ensures
        conversation_of(s).len() == s.request.messages.len() + s.out_messages.len(),
        forall|i: int| #![trigger s.request.messages[i]] 0 <= i < s.request.messages.len() ==> conversation_of(s)[i] == s.request.messages[i],
        forall|j: int| #![trigger s.out_messages[j]] 0 <= j < s.out_messages.len() ==> conversation_of(s)[s.request.messages.len() + j] == s.out_messages[j],
        s.out_messages.len() == 0 ==> conversation_of(s) == s.request.messages,
{
    if s.out_messages.len() == 0 {
        assert(conversation_of(s) =~= s.request.messages);
    }
}

/// The first choice of a chunk decides what comes next: a chunk without choices fails
/// and changes nothing; a choice without tool-call pieces never fails. Where the chunk
/// does not fail, `stop` finishes the run with the messages it had and then an
/// assistant message with all the content and reasoning of the turn; `tool_calls`
/// asks for the calls of the turn; any other reason, or none, goes on reading. The
/// text of the choice is added to the turn, and only `stop` adds a message.
pub proof fn lemma_finish_reason_decides(s: ProviderRunView, choices: Seq<ChoiceDeltaView>)
    ensures
        ({
            let st = chunk_step(s, choices);
            &&& choices.len() == 0 ==> st.next is Failed && st.state == s && st.parts.len() == 0
            &&& choices.len() > 0 && choices[0].tool_calls is None ==> !(st.next is Failed)
            &&& choices.len() > 0 ==> st.state.turn.content == s.turn.content + or_empty(choices[0].content)
                && st.state.turn.reasoning == s.turn.reasoning + or_empty(choices[0].reasoning)
                && st.state.request == s.request && st.state.tools == s.tools
            &&& choices.len() > 0 ==> st.parts == (match choices[0].reasoning {
                Some(r) => seq![AgentOutputPartView::Reasoning(r)],
                None => Seq::empty(),
            }) + (match choices[0].content {
                Some(c) => seq![AgentOutputPartView::Content(c)],
                None => Seq::empty(),
            }) + (if st.next is CallTools {
                seq![AgentOutputPartView::Tool(st.state.turn.calls)]
            } else {
                Seq::empty()
            })
            &&& choices.len() > 0 && !(st.next is Failed) ==> {
                let reason = choices[0].finish_reason;
                &&& (st.next is Finished) == (reason == Some(FinishReason::Stop))
                &&& (st.next is CallTools) == (reason == Some(FinishReason::ToolCalls))
                &&& (st.next is Continue) == (reason != Some(FinishReason::Stop) && reason != Some(FinishReason::ToolCalls))
                &&& st.next is CallTools ==> st.next == NextStepView::CallTools(st.state.turn.calls)
                &&& st.next is Finished ==> st.next == NextStepView::Finished(st.state.out_messages)
                    && st.state.out_messages == s.out_messages.push(MessageView::Assistant {
                        content: Some(st.state.turn.content),
                        reasoning: Some(st.state.turn.reasoning),
                        tool_calls: None,
                    })
                &&& !(st.next is Finished) ==> st.state.out_messages == s.out_messages
            }
        }),
{
    let st = chunk_step(s, choices);
    if choices.len() > 0 && !(st.next is CallTools) {
        assert(text_parts(choices[0]) + Seq::<AgentOutputPartView>::empty() =~= text_parts(choices[0]));
    }
}

} // verus!
