//! Tools: what a tool answers, the registry that finds the tool a model calls, and
//! the tools that come with the library.

use vstd::prelude::*;
use std::sync::Arc;
use crate::error::Error;
use crate::message::ToolCall;
use crate::request::{Tool, ToolView, clone_tools, tools_view};

pub mod ask_user;
pub mod shell;
pub mod weather;

verus! {

/// What a tool answers to one call.
#[derive(Debug, PartialEq)]
pub struct ToolOutput {
    pub tool_call_id: String,
    pub content: String,
}

impl Clone for ToolOutput {
    fn clone(&self) -> (r: Self)
        ensures
            r == *self,
    {
        ToolOutput { tool_call_id: self.tool_call_id.clone(), content: self.content.clone() }
    }
}

impl ToolOutput {
    /// The answer `content` to the call with id `tool_call_id`.
    pub fn new(tool_call_id: String, content: String) -> (r: Self)
        ensures
            r == (ToolOutput { tool_call_id, content }),
    {
        ToolOutput { tool_call_id, content }
    }
}

/// Something that offers tools to a model.
pub trait ToolProvider {
    /// The definitions of the tools offered.
    fn tools(&self) -> Vec<Tool>;
}

/// A tool executor that knows no tool and answers every call with empty content.
#[derive(Debug)]
pub struct NoopToolExecutor;

impl NoopToolExecutor {
    /// The answer to a call: its id, and no content.
    pub fn output(&self, call: ToolCall) -> (r: ToolOutput)
        ensures
            r.tool_call_id == call.id,
            r.content@ == Seq::<char>::empty(),
    {
        ToolOutput::new(call.id, String::new())
    }
}

impl ToolProvider for NoopToolExecutor {
    fn tools(&self) -> (r: Vec<Tool>)
        ensures
            r@.len() == 0,
    {
        Vec::new()
    }
}

/// A tool executor made of a function from a call to the answer.
pub struct ToolFn<F> {
    f: F,
}

impl<F> ToolFn<F> {
    /// The function that answers the calls.
    pub closed spec fn function(&self) -> F {
        self.f
    }

    /// An executor that answers calls with `f`.
    pub fn new(f: F) -> (r: Self)
        ensures
            r.function() == f,
    {
        ToolFn { f }
    }

    /// The function that answers the calls.
    pub fn get(&self) -> (r: &F)
        ensures
            *r == self.function(),
    {
        &self.f
    }
}

/// A tool together with the executor that answers its calls.
pub struct RegisteredTool<E> {
    tool: Tool,
    executor: E,
}

/// A registered tool that several owners share.
pub type SharedRegisteredTool<E> = Arc<RegisteredTool<E>>;

impl<E> RegisteredTool<E> {
    /// The definition of the tool.
    pub closed spec fn definition(&self) -> ToolView {
        self.tool@
    }

    /// The executor of the tool.
    pub closed spec fn handler(&self) -> E {
        self.executor
    }

    /// Registers `tool` with the executor that answers its calls.
    pub fn new(tool: Tool, executor: E) -> (r: SharedRegisteredTool<E>)
        ensures
            r.definition() == tool@,
            r.handler() == executor,
    {
        Arc::new(RegisteredTool { tool, executor })
    }

    /// The definition of the tool.
    pub fn tool(&self) -> (r: &Tool)
        ensures
            r@ == self.definition(),
    {
        &self.tool
    }

    /// The executor of the tool.
    pub fn executor(&self) -> (r: &E)
        ensures
            *r == self.handler(),
    {
        &self.executor
    }
}

/// No two tools of the sequence have the same name.
pub open spec fn names_unique<E>(s: Seq<SharedRegisteredTool<E>>) -> bool {
    forall|i: int, j: int|
        0 <= i < s.len() && 0 <= j < s.len() && i != j ==> s[i].definition().name() != s[j].definition().name()
}

/// The position of the tool named `name`, if any.
pub open spec fn position_of<E>(s: Seq<SharedRegisteredTool<E>>, name: Seq<char>) -> Option<int> {
    if exists|i: int| 0 <= i < s.len() && s[i].definition().name() == name {
        Some(choose|i: int| 0 <= i < s.len() && s[i].definition().name() == name)
    } else {
        None
    }
}

/// The tools after `tool` is registered: it takes the place of the tool of the same
/// name, or comes last.
pub open spec fn with_tool<E>(s: Seq<SharedRegisteredTool<E>>, tool: SharedRegisteredTool<E>) -> Seq<SharedRegisteredTool<E>> {
    match position_of(s, tool.definition().name()) {
        Some(i) => s.update(i, tool),
        None => s.push(tool),
    }
}

/// The tools that a model can call, each under its own name.
pub struct ToolRegistry<E> {
    tools: Vec<SharedRegisteredTool<E>>,
}

impl<E> View for ToolRegistry<E> {
    type V = Seq<SharedRegisteredTool<E>>;

    closed spec fn view(&self) -> Seq<SharedRegisteredTool<E>> {
        self.tools@
    }
}

impl<E> ToolRegistry<E> {
    #[verifier::type_invariant]
    spec fn inv(&self) -> bool {
        names_unique(self.tools@)
    }

    /// An empty registry.
    pub fn new() -> (r: Self)
        ensures
            r@ == Seq::<SharedRegisteredTool<E>>::empty(),
            names_unique(r@),
    {
        ToolRegistry { tools: Vec::new() }
    }

    /// The position of the tool named `name`, if any.
    fn find_index(&self, name: &String) -> (r: Option<usize>)
        ensures
            match r {
                Some(i) => i < self@.len() && self@[i as int].definition().name() == name@,
                None => position_of(self@, name@) is None,
            },
    {
        let mut i: usize = 0;
        while i < self.tools.len()
            invariant
                i <= self.tools@.len(),
                forall|j: int| 0 <= j < i ==> self.tools@[j].definition().name() != name@,
            decreases self.tools@.len() - i,
        {
            let entry_name = self.tools[i].tool.name();
            if entry_name.to_owned() == *name {
                return Some(i);
            }
            i = i + 1;
        }
        None
    }

    /// Registers a tool under its name; a tool of the same name gives way to it.
    pub fn insert(&mut self, tool: SharedRegisteredTool<E>)
        ensures
            final(self)@ == with_tool(old(self)@, tool),
            names_unique(final(self)@),
    {
        proof {
            use_type_invariant(&*self);
        }
        let name = tool.tool.name().to_owned();
        let found = self.find_index(&name);
        let ghost old_tools = self@;
        let mut tools: Vec<SharedRegisteredTool<E>> = Vec::new();
        std::mem::swap(&mut tools, &mut self.tools);
        match found {
            Some(i) => {
                proof {
                    let p = position_of(old_tools, name@);
                    assert(p is Some);
                    let k = p->0;
                    if k != i as int {
                        assert(old_tools[k].definition().name() == old_tools[i as int].definition().name());
                    }
                }
                tools.set(i, tool);
            },
            None => {
                tools.push(tool);
            },
        }
        assert(names_unique(tools@));
        self.tools = tools;
    }

    /// Registers `tool` with the executor that answers its calls.
    pub fn insert_executor(&mut self, tool: Tool, executor: E)
        ensures
            exists|t: SharedRegisteredTool<E>|
                t.definition() == tool@ && t.handler() == executor && final(self)@ == with_tool(old(self)@, t),
            names_unique(final(self)@),
    {
        let t = RegisteredTool::new(tool, executor);
        self.insert(t);
    }

    /// The definition of the tool named `name`.
    pub fn tool(&self, name: &str) -> (r: Option<&Tool>)
        ensures
            match r {
                Some(t) => position_of(self@, name@) matches Some(i) && t@ == self@[i].definition(),
                None => position_of(self@, name@) is None,
            },
            names_unique(self@),
    {
        proof {
            use_type_invariant(self);
        }
        let key = name.to_owned();
        match self.find_index(&key) {
            Some(i) => {
                proof {
                    let k = choose|k: int| 0 <= k < self@.len() && self@[k].definition().name() == name@;
                    assert(k == i);
                }
                Some(&self.tools[i].tool)
            },
            None => None,
        }
    }

    /// The registered tool that answers calls of `name`: the tool a model means
    /// when it calls `name`.
    pub fn find(&self, name: &str) -> (r: Result<&SharedRegisteredTool<E>, Error>)
        ensures
            match r {
                Ok(t) => position_of(self@, name@) matches Some(i) && *t == self@[i],
                Err(e) => position_of(self@, name@) is None && (e matches Error::ToolNotFound { name: n } && n@ == name@),
            },
            names_unique(self@),
    {
        proof {
            use_type_invariant(self);
        }
        let key = name.to_owned();
        match self.find_index(&key) {
            Some(i) => {
                proof {
                    let k = choose|k: int| 0 <= k < self@.len() && self@[k].definition().name() == name@;
                    assert(k == i);
                }
                Ok(&self.tools[i])
            },
            None => Err(Error::ToolNotFound { name: key }),
        }
    }

    /// The definitions of the registered tools, in the order they were registered.
    pub fn tools(&self) -> (r: Vec<Tool>)
        ensures
            r@.len() == self@.len(),
            forall|i: int| 0 <= i < self@.len() ==> #[trigger] r@[i]@ == self@[i].definition(),
            names_unique(self@),
    {
        proof {
            use_type_invariant(self);
        }
        let mut out: Vec<Tool> = Vec::new();
        let mut i: usize = 0;
        while i < self.tools.len()
            invariant
                i <= self.tools@.len(),
                out@.len() == i,
                forall|j: int| 0 <= j < i ==> #[trigger] out@[j]@ == self.tools@[j].definition(),
            decreases self.tools@.len() - i,
        {
            out.push(self.tools[i].tool.clone());
            i = i + 1;
        }
        out
    }

    /// Whether no tool is registered.
    pub fn is_empty(&self) -> (r: bool)
        ensures
            r == (self@.len() == 0),
            names_unique(self@),
    {
        proof {
            use_type_invariant(self);
        }
        self.tools.len() == 0
    }
}

impl<E> ToolProvider for ToolRegistry<E> {
    fn tools(&self) -> (r: Vec<Tool>)
        ensures
            r@.len() == self@.len(),
            forall|i: int| 0 <= i < self@.len() ==> #[trigger] r@[i]@ == self@[i].definition(),
    {
        ToolRegistry::tools(self)
    }
}

/// Registering keeps the order of registration: a tool under a new name comes after
/// all the others, which stay as they were; a tool under a name already registered
/// takes that tool's place, and every other tool stays where it was.
pub proof fn lemma_registration_keeps_order<E>(s: Seq<SharedRegisteredTool<E>>, tool: SharedRegisteredTool<E>)
    requires
        names_unique(s),
    ensures
        ({
            let name = tool.definition().name();
            let after = with_tool(s, tool);
            &&& (forall|i: int| 0 <= i < s.len() ==> (#[trigger] s[i]).definition().name() != name) ==> {
                &&& after.len() == s.len() + 1
                &&& after[s.len() as int] == tool
                &&& forall|i: int| 0 <= i < s.len() ==> #[trigger] after[i] == s[i]
            }
            &&& (exists|i: int| 0 <= i < s.len() && (#[trigger] s[i]).definition().name() == name) ==> {
                &&& after.len() == s.len()
                &&& forall|i: int|
                    0 <= i < s.len() ==> #[trigger] after[i] == if s[i].definition().name() == name {
                        tool
                    } else {
                        s[i]
                    }
            }
        }),
{
    let name = tool.definition().name();
    match position_of(s, name) {
        Some(k) => {
            assert forall|i: int| 0 <= i < s.len() && s[i].definition().name() == name implies i == k by {
                if i != k {
                    assert(s[i].definition().name() == s[k].definition().name());
                }
            }
        },
        None => {},
    }
}

/// Registering a tool keeps the names unique, makes the tool the one found under its
/// name, and changes nothing that is found under another name.
pub proof fn lemma_registered_tool_is_found<E>(
    s: Seq<SharedRegisteredTool<E>>,
    tool: SharedRegisteredTool<E>,
    other: Seq<char>,
)
    requires
        names_unique(s),
        other != tool.definition().name(),
    ensures
        names_unique(with_tool(s, tool)),
        position_of(with_tool(s, tool), tool.definition().name()) matches Some(i) && with_tool(s, tool)[i] == tool,
        position_of(with_tool(s, tool), other) is Some <==> position_of(s, other) is Some,
        position_of(s, other) matches Some(i) ==> (position_of(with_tool(s, tool), other) matches Some(j)
            && with_tool(s, tool)[j] == s[i]),
{
    let name = tool.definition().name();
    let after = with_tool(s, tool);
    match position_of(s, name) {
        Some(i) => {
            assert(after == s.update(i, tool));
            assert forall|a: int, b: int|
                0 <= a < after.len() && 0 <= b < after.len() && a != b implies after[a].definition().name()
                != after[b].definition().name() by {
                if a != i && b != i {
                    assert(after[a] == s[a] && after[b] == s[b]);
                }
            }
        },
        None => {
            assert(after == s.push(tool));
        },
    }
    let p = position_of(after, name);
    assert(p is Some) by {
        match position_of(s, name) {
            Some(i) => assert(after[i].definition().name() == name),
            None => assert(after[s.len() as int].definition().name() == name),
        }
    }
    let k = p->0;
    match position_of(s, name) {
        Some(i) => {
            if k != i {
                assert(after[k].definition().name() == after[i].definition().name());
            }
        },
        None => {
            if k != s.len() {
                assert(s[k].definition().name() == name);
            }
        },
    }
    assert forall|j: int| 0 <= j < s.len() && s[j].definition().name() == other implies after[j] == s[j] by {
        match position_of(s, name) {
            Some(i) => {
                if j == i {
                    assert(s[i].definition().name() == name);
                }
            },
            None => {},
        }
    }
    if position_of(s, other) is Some {
        let i = position_of(s, other)->0;
        assert(after[i].definition().name() == other);
        let j = position_of(after, other)->0;
        if j != i {
            assert(after[j].definition().name() == other);
            if j < s.len() {
                assert(after[j] == s[j]);
            }
        }
    }
    if position_of(after, other) is Some {
        let j = position_of(after, other)->0;
        if j < s.len() {
            match position_of(s, name) {
                Some(i) => {
                    if j != i {
                        assert(s[j].definition().name() == other);
                    }
                },
                None => {
                    assert(s[j].definition().name() == other);
                },
            }
        }
    }
}

} // verus!
