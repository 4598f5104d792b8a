//! Providers: the client that talks to a model, and the decisions of a run.
//!
//! A provider is asked to run a request and answers with an [`AngentOutput`]. The
//! asking and answering are asynchronous and happen at the edge of the program; the
//! decisions that a run of the OpenAI provider takes are in [`run`].

use vstd::prelude::*;
use tokio::sync::mpsc::{Receiver, Sender};
use crate::output::AgentOutputPart;
use crate::tool::NoopToolExecutor;

pub mod run;

verus! {

/// The sending half of a bounded tokio channel.
#[verifier::external_type_specification]
#[verifier::external_body]
#[verifier::reject_recursive_types(T)]
pub struct ExSender<T>(Sender<T>);

/// The receiving half of a bounded tokio channel.
#[verifier::external_type_specification]
#[verifier::external_body]
#[verifier::reject_recursive_types(T)]
pub struct ExReceiver<T>(Receiver<T>);

/// Opens a bounded tokio channel (`tokio::sync::mpsc::channel`) that holds up to
/// `buffer` messages. tokio panics on a capacity of 0 or above its largest,
/// `usize::MAX >> 3`, so neither is admitted. Nothing is stated of the two halves:
/// they are handles of one new channel, opaque here.
#[verifier::external_body]
fn channel<T>(buffer: usize) -> (r: (Sender<T>, Receiver<T>))
    requires
        0 < buffer <= usize::MAX / 8,
{
    tokio::sync::mpsc::channel(buffer)
}

/// The OpenAI chat provider: the executor that answers the tools' calls, and where
/// the streamed pieces of the answer go.
pub struct OpenAI<E> {
    tool_executor: E,
    output_part_tx: Option<Sender<AgentOutputPart>>,
}

impl<E> OpenAI<E> {
    /// The executor that answers the tools' calls.
    pub closed spec fn executor(&self) -> E {
        self.tool_executor
    }

    /// Where the streamed pieces go, if anywhere.
    pub closed spec fn output_sink(&self) -> Option<Sender<AgentOutputPart>> {
        self.output_part_tx
    }

    /// The executor that answers the tools' calls.
    pub fn tool_executor(&self) -> (r: &E)
        ensures
            *r == self.executor(),
    {
        &self.tool_executor
    }

    /// Where the streamed pieces go, if anywhere.
    pub fn output_part_tx(&self) -> (r: &Option<Sender<AgentOutputPart>>)
        ensures
            *r == self.output_sink(),
    {
        &self.output_part_tx
    }
}

impl OpenAI<NoopToolExecutor> {
    /// A provider that knows no tools and streams its pieces nowhere.
    pub fn new() -> (r: Client<OpenAI<NoopToolExecutor>>)
        ensures
            r.provider().executor() == NoopToolExecutor,
            r.provider().output_sink() is None,
    {
        Client { inner: OpenAI { tool_executor: NoopToolExecutor, output_part_tx: None } }
    }

    /// A provider that knows no tools and streams its pieces to `output_part_tx`.
    pub fn with_output_part_tx(output_part_tx: Sender<AgentOutputPart>) -> (r: Client<OpenAI<NoopToolExecutor>>)
        ensures
            r.provider().executor() == NoopToolExecutor,
            r.provider().output_sink() == Some(output_part_tx),
    {
        Client { inner: OpenAI { tool_executor: NoopToolExecutor, output_part_tx: Some(output_part_tx) } }
    }
}

/// A client of a provider.
pub struct Client<T> {
    inner: T,
}

impl<T> Client<T> {
    /// The provider.
    pub closed spec fn provider(&self) -> T {
        self.inner
    }

    /// The provider.
    pub fn inner(&self) -> (r: &T)
        ensures
            *r == self.provider(),
    {
        &self.inner
    }

    /// The provider, to be used in place.
    pub fn inner_mut(&mut self) -> (r: &mut T)
        ensures
            *r == old(self).provider(),
            final(self).provider() == *final(r),
    {
        &mut self.inner
    }
}

impl Client<OpenAI<NoopToolExecutor>> {
    /// A client of the OpenAI provider, with no tools and no stream of pieces.
    pub fn new() -> (r: Self)
        ensures
            r.provider().executor() == NoopToolExecutor,
            r.provider().output_sink() is None,
    {
        OpenAI::new()
    }
}

impl Default for Client<OpenAI<NoopToolExecutor>> {
    fn default() -> (r: Self)
        ensures
            r.provider().executor() == NoopToolExecutor,
            r.provider().output_sink() is None,
    {
        Self::new()
    }
}

impl<E> Client<OpenAI<E>> {
    /// The same client, with `tool_executor` answering the tools' calls.
    pub fn with_tool_executor<X>(self, tool_executor: X) -> (r: Client<OpenAI<X>>)
        ensures
            r.provider().executor() == tool_executor,
            r.provider().output_sink() == self.provider().output_sink(),
    {
        Client { inner: OpenAI { tool_executor, output_part_tx: self.inner.output_part_tx } }
    }

    /// The same client, streaming its pieces into a new channel of 1024 places, and
    /// the receiving end of that channel.
    pub fn with_tx(self) -> (r: (Self, Receiver<AgentOutputPart>))
        ensures
            r.0.provider().executor() == self.provider().executor(),
            r.0.provider().output_sink() is Some,
    {
        let (tx, rx) = channel(1024);
        (Client { inner: OpenAI { tool_executor: self.inner.tool_executor, output_part_tx: Some(tx) } }, rx)
    }
}

} // verus!
