//! Multi-step workflows: layers that wrap a step around the next one, and a
//! builder that stacks them.

use vstd::prelude::*;
use crate::json::{Json, json_object_response_format};
use crate::message::{Message, MessageView, messages_view};
use crate::provider::{Client, OpenAI};
use crate::request::{Request, RequestBuilder, RequestView};
use crate::tool::NoopToolExecutor;

verus! {

/// The client of the OpenAI provider that the steps use.
pub type OpenAiProvider = Client<OpenAI<NoopToolExecutor>>;

/// Something that wraps itself around the next step.
pub trait Layer<Inner>: Sized {
    /// What the layer makes of the next step.
    type Out;

    /// The step that results from wrapping this layer around `next`.
    spec fn spec_layer(self, next: Inner) -> Self::Out;

    /// Wraps this layer around `next`.
    fn layer(self, next: Inner) -> (r: Self::Out)
        ensures
            r == self.spec_layer(next),
    ;
}

/// The layer that changes nothing.
pub struct Identity {}

impl<L> Layer<L> for Identity {
    type Out = L;

    open spec fn spec_layer(self, next: L) -> L {
        next
    }

    fn layer(self, next: L) -> (r: L) {
        next
    }
}

/// Two layers, one wrapped around the other: `inner` wraps the next step, and
/// `outer` wraps the result.
pub struct Stack<Inner, Outer> {
    inner: Inner,
    outer: Outer,
}

impl<Inner, Outer> Stack<Inner, Outer> {
    /// The layer that wraps the next step first.
    pub closed spec fn first(self) -> Inner {
        self.inner
    }

    /// The layer that wraps what the first one made.
    pub closed spec fn second(self) -> Outer {
        self.outer
    }
}

impl<Inner, Outer, S> Layer<S> for Stack<Inner, Outer> where Inner: Layer<S>, Outer: Layer<Inner::Out> {
    type Out = Outer::Out;

    open spec fn spec_layer(self, next: S) -> Outer::Out {
        self.second().spec_layer(self.first().spec_layer(next))
    }

    fn layer(self, next: S) -> (r: Outer::Out) {
        let out = self.inner.layer(next);
        self.outer.layer(out)
    }
}

/// Builds a workflow: layers are added one by one, and the step they end in is given
/// last. The first layer added is the outermost: it runs first.
pub struct WorkFlowBuilder<L> {
    inner: L,
}

impl<L> WorkFlowBuilder<L> {
    /// The layers added so far, stacked.
    pub closed spec fn stack(self) -> L {
        self.inner
    }

    /// Adds a layer, inside those added before.
    pub fn layer<Outer>(self, layer: Outer) -> (r: WorkFlowBuilder<Stack<Outer, L>>)
        ensures
            r.stack().first() == layer,
            r.stack().second() == self.stack(),
    {
        WorkFlowBuilder { inner: Stack { inner: layer, outer: self.inner } }
    }

    /// Ends the workflow in the step `s`.
    pub fn output<S>(self, s: S) -> (r: L::Out) where L: Layer<S>
        ensures
            r == self.stack().spec_layer(s),
    {
        self.inner.layer(s)
    }

    /// Ends the workflow in the step `s`, which chooses among branches.
    pub fn switch<S>(self, s: S) -> (r: L::Out) where L: Layer<S>
        ensures
            r == self.stack().spec_layer(s),
    {
        self.inner.layer(s)
    }
}

impl WorkFlowBuilder<Identity> {
    /// A workflow with no layer yet.
    pub fn new() -> (r: Self)
        ensures
            r.stack() == (Identity {}),
    {
        WorkFlowBuilder { inner: Identity {} }
    }
}

impl Default for WorkFlowBuilder<Identity> {
    fn default() -> (r: Self)
        ensures
            r.stack() == (Identity {}),
    {
        Self::new()
    }
}

/// A workflow with no layer is the step it ends in.
pub proof fn lemma_no_layer<S>(w: WorkFlowBuilder<Identity>, s: S)
    requires
        w.stack() == (Identity {}),
    ensures
        w.stack().spec_layer(s) == s,
{
}

/// Layers wrap in the order they are added: a layer added last wraps the step first,
/// and what it makes is wrapped by the layers added before it.
pub proof fn lemma_last_layer_wraps_first<L, X, S>(
    w: WorkFlowBuilder<L>,
    added: WorkFlowBuilder<Stack<X, L>>,
    x: X,
    s: S,
) where X: Layer<S>, L: Layer<X::Out>
    requires
        added.stack().first() == x,
        added.stack().second() == w.stack(),
    ensures
        added.stack().spec_layer(s) == w.stack().spec_layer(x.spec_layer(s)),
{
}

/// With two layers added, `a` then `b`, the workflow is `a` wrapped around `b`
/// wrapped around the step: `a` runs first.
pub proof fn lemma_two_layers<A, B, S>(
    w: WorkFlowBuilder<Stack<B, Stack<A, Identity>>>,
    a: A,
    b: B,
    s: S,
) where B: Layer<S>, A: Layer<B::Out>
    requires
        w.stack().first() == b,
        w.stack().second().first() == a,
        w.stack().second().second() == (Identity {}),
    ensures
        w.stack().spec_layer(s) == a.spec_layer(b.spec_layer(s)),
{
}

/// The instruction of the step that asks the model for a JSON summary.
pub open spec fn json_output_prompt() -> Seq<char> {
    "你会收到 用户的年龄 名字和爱好请你 返回json  {name,age,hobby,weather}"@
}

/// The last step of a workflow: asks the model to answer its input with a JSON object.
pub struct JsonOutput {
    inner: OpenAiProvider,
    request: Request,
}

impl JsonOutput {
    /// The request that this step starts from.
    pub closed spec fn base_request(&self) -> RequestView {
        self.request@
    }

    /// The client that this step asks.
    pub closed spec fn client(&self) -> OpenAiProvider {
        self.inner
    }

    /// A step that asks through `c`: its request holds the instruction as a system
    /// message and asks for a JSON object.
    pub fn new(c: OpenAiProvider) -> (r: Self)
        ensures
            r.client() == c,
            r.base_request().messages == seq![MessageView::System { content: json_output_prompt() }],
            r.base_request().extra == Some(json_object_response_format()),
            r.base_request().tools.len() == 0,
            r.base_request().model == crate::request::default_model(),
    {
        let mut messages: Vec<Message> = Vec::new();
        messages.push(Message::system(String::from_str("你会收到 用户的年龄 名字和爱好请你 返回json  {name,age,hobby,weather}")));
        assert(messages_view(messages@) =~= seq![MessageView::System { content: json_output_prompt() }]);
        let request = RequestBuilder::default().messages(messages).extra(Json::json_object_response_format()).build().unwrap();
        JsonOutput { inner: c, request }
    }

    /// The request for an input: this step's request with the input as the last user
    /// message.
    pub fn request_for(&self, raw_input: String) -> (r: Request)
        ensures
            r@ == (RequestView {
                messages: self.base_request().messages.push(MessageView::User { text: raw_input@ }),
                ..self.base_request()
            }),
    {
        let mut req = self.request.clone();
        let m = Message::user_text(raw_input);
        let messages = req.messages_mut();
        let ghost before = messages@;
        messages.push(m);
        assert(messages_view(messages@) =~= messages_view(before).push(MessageView::User { text: raw_input@ }));
        req
    }

    /// The client that this step asks, to be used in place.
    pub fn client_mut(&mut self) -> (r: &mut OpenAiProvider)
        ensures
            *r == old(self).client(),
            final(self).client() == *final(r),
            final(self).base_request() == old(self).base_request(),
    {
        &mut self.inner
    }
}

} // verus!
