//! An agent that first collects what it can learn about the user's question, then
//! hands the question, enriched with it, to the next provider.

use vstd::prelude::*;
use crate::error::Error;
use crate::message::{Message, MessageView, messages_view};
use crate::output::{AngentOutput, last_assistant_message};
use crate::request::{Request, RequestBuilder, RequestView, default_model};

verus! {

/// The instruction that the collecting model gets unless it is told another.
pub open spec fn info_collect_prompt() -> Seq<char> {
    "你是一个信息收集者，你只管收集信息，最后的回答必须要包括用户的原始问题， 以及你收集到的所有信息，尽量多的使用ask_user 去获取不确定的信息。\n            最后输出格式：\n            用户原始问题：...\n            已知的信息:..."@
}

/// Collects information about the user's question with a model that may ask the
/// user, then runs the next provider on the question rewritten with it.
pub struct InfoCollectAgent<C> {
    next: C,
    prompt: String,
}

impl<C> InfoCollectAgent<C> {
    /// The provider that answers the enriched question.
    pub closed spec fn next_provider(&self) -> C {
        self.next
    }

    /// The instruction that the collecting model gets.
    pub closed spec fn instruction(&self) -> Seq<char> {
        self.prompt@
    }

    /// An agent in front of `agent`, with the default instruction.
    pub fn new(agent: C) -> (r: Self)
        ensures
            r.next_provider() == agent,
            r.instruction() == info_collect_prompt(),
    {
        let mut prompt = String::new();
        prompt.append("你是一个信息收集者，你只管收集信息，最后的回答必须要包括用户的原始问题， 以及你收集到的所有信息，尽量多的使用ask_user 去获取不确定的信息。\n            最后输出格式：\n            用户原始问题：...\n            已知的信息:...");
        InfoCollectAgent { next: agent, prompt }
    }

    /// The same agent with another instruction.
    pub fn with_prompt(self, prompt: String) -> (r: Self)
        ensures
            r.next_provider() == self.next_provider(),
            r.instruction() == prompt@,
    {
        InfoCollectAgent { prompt, ..self }
    }

    /// The next provider, to be used in place.
    pub fn next_mut(&mut self) -> (r: &mut C)
        ensures
            *r == old(self).next_provider(),
            final(self).next_provider() == *final(r),
            final(self).instruction() == old(self).instruction(),
    {
        &mut self.next
    }

    /// The request for the collecting model: the instruction as a system message, then
    /// the last message of `req`; no request without a message.
    pub fn collect_request(&self, req: &Request) -> (r: Result<Request, Error>)
        ensures
            match r {
                Ok(c) => req@.messages.len() > 0 && c@ == (RequestView {
                    tools: Seq::empty(),
                    messages: seq![MessageView::System { content: self.instruction() }, req@.messages.last()],
                    extra: None,
                    model: default_model(),
                }),
                Err(e) => req@.messages.len() == 0 && e is MissingMessage,
            },
    {
        let last = match req.get_last_message() {
            Some(m) => m,
            None => {
                return Err(Error::MissingMessage);
            },
        };
        let mut messages: Vec<Message> = Vec::new();
        messages.push(Message::system(self.prompt.clone()));
        messages.push(last);
        assert(messages_view(messages@) =~= seq![MessageView::System { content: self.instruction() }, req@.messages.last()]);
        let b = RequestBuilder::default().messages(messages);
        assert(b@.tools =~= Seq::empty());
        Ok(b.build().unwrap())
    }

    /// The request for the next provider: `req` with the text of its last message, where
    /// that is a user message, replaced by what was collected; no request where the
    /// collecting model gave no content.
    pub fn apply_collected(&self, req: Request, collected: AngentOutput) -> (r: Result<Request, Error>)
        ensures
            match r {
                Ok(next) => last_assistant_message(collected.messages()) matches Some((info, _)) && next@ == (
                if req@.messages.len() > 0 && req@.messages.last() is User {
                    RequestView {
                        messages: req@.messages.update(
                            req@.messages.len() - 1,
                            MessageView::User { text: info },
                        ),
                        ..req@
                    }
                } else {
                    req@
                }),
                Err(e) => last_assistant_message(collected.messages()) is None && e is MissingAssistantContent,
            },
    {
        let info = collected.assistant_content()?;
        let mut req = req;
        let messages = req.messages_mut();
        let n = messages.len();
        if n > 0 {
            let is_user = match &messages[n - 1] {
                Message::User { .. } => true,
                _ => false,
            };
            if is_user {
                let ghost before = messages@;
                let ghost text = info@;
                messages.set(n - 1, Message::user_text(info));
                assert(messages_view(messages@) =~= messages_view(before).update(
                    n - 1,
                    MessageView::User { text },
                ));
            }
        }
        Ok(req)
    }
}

/// Puts an information-collecting agent in front of a provider.
pub trait WithInfoCollectAgent: Sized {
    fn with_info_collect_agent(self) -> (r: InfoCollectAgent<Self>)
        ensures
            r.next_provider() == self,
            r.instruction() == info_collect_prompt(),
    ;
}

impl<T> WithInfoCollectAgent for T {
    fn with_info_collect_agent(self) -> (r: InfoCollectAgent<T>) {
        InfoCollectAgent::new(self)
    }
}

} // verus!
