//! An agent that first has a model write a plan for the user's request, then hands
//! the plan to the next provider in place of the request.

use vstd::prelude::*;
use crate::error::Error;
use crate::message::{Message, MessageView, messages_view};
use crate::request::{Request, RequestBuilder, RequestView, default_model};

verus! {

/// The instruction that the planning model gets.
pub open spec fn plan_prompt() -> Seq<char> {
    "你是一个计划小能手，你会根据用户的输入来做一份详细的任务计划书，同时你将会使用ask_user工具来询问用户任何不明白的问题。你不需要执行任务，你只需要做计划即可。"@
}

/// Has a model that may ask the user write a plan for the user's request, then runs
/// the next provider on the plan.
pub struct PlanAgent<C> {
    next: C,
}

impl<C> PlanAgent<C> {
    /// The provider that carries out the plan.
    pub closed spec fn next_provider(&self) -> C {
        self.next
    }

    /// A planner in front of `next`.
    pub fn new(next: C) -> (r: Self)
        ensures
            r.next_provider() == next,
    {
        PlanAgent { next }
    }

    /// The next provider, to be used in place.
    pub fn next_mut(&mut self) -> (r: &mut C)
        ensures
            *r == old(self).next_provider(),
            final(self).next_provider() == *final(r),
    {
        &mut self.next
    }

    /// The request for the planning model: the instruction, then what the user said
    /// last; no request where the conversation does not end with a user message.
    pub fn plan_request(&self, req: &Request) -> (r: Result<Request, Error>)
        ensures
            match r {
                Ok(p) => req@.messages.len() > 0 && (req@.messages.last() matches MessageView::User { text }
                    && p@ == (RequestView {
                    tools: Seq::empty(),
                    messages: seq![
                        MessageView::Assistant { content: Some(plan_prompt()), reasoning: None, tool_calls: None },
                        MessageView::User { text },
                    ],
                    extra: None,
                    model: default_model(),
                })),
                Err(e) => !(req@.messages.len() > 0 && req@.messages.last() is User) && e is MissingUserContent,
            },
    {
        let user_message = req.get_last_user_message()?;
        let mut messages: Vec<Message> = Vec::new();
        messages.push(Message::assistant(String::from_str("你是一个计划小能手，你会根据用户的输入来做一份详细的任务计划书，同时你将会使用ask_user工具来询问用户任何不明白的问题。你不需要执行任务，你只需要做计划即可。")));
        messages.push(Message::user(user_message));
        let ghost text = req@.messages.last()->User_text;
        assert(messages_view(messages@) =~= seq![
            MessageView::Assistant { content: Some(plan_prompt()), reasoning: None, tool_calls: None },
            MessageView::User { text },
        ]);
        let b = RequestBuilder::default().messages(messages);
        assert(b@.tools =~= Seq::empty());
        Ok(b.build().unwrap())
    }

    /// The request for the next provider: `req` with its last message replaced by the
    /// plan as a user message (with no message to replace, the plan is added).
    pub fn apply_plan(&self, req: Request, plan: String) -> (r: Request)
        ensures
            r@ == (RequestView {
                messages: (if req@.messages.len() > 0 {
                    req@.messages.drop_last()
                } else {
                    req@.messages
                }).push(MessageView::User { text: plan@ }),
                ..req@
            }),
    {
        let mut req = req;
        let messages = req.messages_mut();
        let ghost before = messages_view(messages@);
        let _ = messages.pop();
        let ghost text = plan@;
        messages.push(Message::user_text(plan));
        assert(messages_view(messages@) =~= (if before.len() > 0 {
            before.drop_last()
        } else {
            before
        }).push(MessageView::User { text }));
        req
    }
}

/// Puts a planner in front of a provider.
pub trait WithPlanner: Sized {
    fn with_planner(self) -> (r: PlanAgent<Self>)
        ensures
            r.next_provider() == self,
    ;
}

impl<P> WithPlanner for P {
    fn with_planner(self) -> (r: PlanAgent<P>) {
        PlanAgent { next: self }
    }
}

} // verus!
