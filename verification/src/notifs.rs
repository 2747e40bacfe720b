//! A notification on its way: some content, and the rules that say where
//! it goes.

use crate::routing::{NotifChannelType, NotifChannels};
use crate::workflow::{
    step, workflow_step, SubmitType, VerifyType, Workflow, WorkflowAction, WorkflowEvent,
};
use vstd::prelude::*;

verus! {

/// A notification that holds content of some kind, ready to be sent.
#[derive(Debug, PartialEq, Eq)]
pub struct Notif<C> {
    embed: C,
}

/// Where a notification goes.
#[derive(Debug, PartialEq, Eq)]
pub enum Delivery<C> {
    /// The content goes to this channel.
    Send { channel: u64, content: C },
    /// The category has no channel: the acting user is warned, and the
    /// content is not sent.
    Warn { category: NotifChannelType },
}

/// Where content goes under a routing: to the channel of its category, or
/// nowhere, with a warning, where the category has none.
pub open spec fn delivery<C>(routing: NotifChannels, category: NotifChannelType, content: C) -> Delivery<
    C,
> {
    match routing.destination(category) {
        Some(channel) => Delivery::Send { channel, content },
        None => Delivery::Warn { category },
    }
}

impl<C> Notif<C> {
    /// The content that the notification holds.
    pub closed spec fn content(&self) -> C {
        self.embed
    }

    /// A notification with this content.
    pub fn new(embed: C) -> (notif: Self)
        ensures
            notif.content() == embed,
    {
        Self { embed }
    }

    /// Replaces the content.
    pub fn set_embed(&mut self, embed: C) -> (this: &mut Self)
        ensures
            this.content() == embed,
            *final(self) == *final(this),
    {
        self.embed = embed;
        self
    }

    fn deliver(self, routing: &NotifChannels, category: NotifChannelType) -> (to: Delivery<C>)
        ensures
            to == delivery(*routing, category, self.content()),
    {
        match routing.route(category) {
            Some(channel) => Delivery::Send { channel, content: self.embed },
            None => Delivery::Warn { category },
        }
    }

    /// Where a notification of general activity goes.
    pub fn general(self, routing: &NotifChannels) -> (to: Delivery<C>)
        ensures
            to == delivery(*routing, NotifChannelType::General, self.content()),
    {
        self.deliver(routing, NotifChannelType::General)
    }

    /// Where the announcement of a verification goes.
    pub fn verification(self, routing: &NotifChannels, verify_type: VerifyType) -> (to: Delivery<C>)
        ensures
            to == delivery(*routing, verify_type.verify_category(), self.content()),
    {
        self.deliver(routing, verify_type.verify_channel())
    }

    /// Where the content goes once the direct message to its recipient has
    /// been tried: nowhere else where the message was delivered, to the
    /// fallback channel where it was not.
    pub fn dm_notif(self, routing: &NotifChannels, delivered: bool) -> (to: Option<Delivery<C>>)
        ensures
            to == if delivered {
                None
            } else {
                Some(delivery(*routing, NotifChannelType::DmFallback, self.content()))
            },
    {
        if delivered {
            None
        } else {
            Some(self.deliver(routing, NotifChannelType::DmFallback))
        }
    }

    /// Starts the approval workflow for a completed submission: the content
    /// is to be posted, with the two actions, to the channel of the
    /// submission's category, and the workflow waits to hear that it was;
    /// or the category has no channel, and the workflow halts at once.
    pub fn submit(self, routing: &NotifChannels, user_id: u64, submit_type: SubmitType) -> (started: (
        Workflow,
        Delivery<C>,
    ))
        ensures
            started.0 == workflow_step(
                *routing,
                Workflow::Idle,
                WorkflowEvent::Submitted { kind: submit_type, submitter: user_id },
            ).0,
            started.1 == delivery(*routing, submit_type.submit_category(), self.content()),
            started.1 is Warn <==> started.0 is Halted,
            started.1 is Send <==> started.0 == (Workflow::Posting {
                kind: submit_type,
                submitter: user_id,
            }),
    {
        let (state, action) = step(
            routing,
            Workflow::Idle,
            WorkflowEvent::Submitted { kind: submit_type, submitter: user_id },
        );
        match action {
            WorkflowAction::Post { channel, kind } => (
                state,
                Delivery::Send { channel, content: self.embed },
            ),
            _ => (state, Delivery::Warn { category: submit_type.submit_channel() }),
        }
    }
}

} // verus!
