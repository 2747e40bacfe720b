//! The approval workflow: a submission is posted to the staff with two
//! exclusive actions, one staff member decides, the backend is told, and
//! the submitter is notified.
//!
//! The workflow is a state machine over what the chat platform and the
//! backend report. A driver performs each [`WorkflowAction`] and reports
//! what came of it as a [`WorkflowEvent`]; [`step`] decides what is next.

use crate::client::{Call, CallView, Method};
use crate::routing::{NotifChannelType, NotifChannels};
use crate::text::{decimal, decimal_string, join};
use vstd::prelude::*;

verus! {

/// What was submitted.
#[derive(Debug, Clone, Copy, PartialEq, Eq, Structural)]
pub enum SubmitType {
    Ad,
    User,
}

/// What was verified: the same two kinds.
pub type VerifyType = SubmitType;

/// How long the prompt for a rejection's reason stays open, in seconds.
pub const REASON_TIMEOUT_SECS: u64 = 600;

/// The least number of characters that a rejection's reason must have.
pub const REASON_MIN_LENGTH: u64 = 10;

/// The two actions on a posted submission, and everything else that may
/// be clicked.
#[derive(Debug, Clone, Copy, PartialEq, Eq, Structural)]
pub enum Button {
    Approve,
    Reject,
    Other,
}

/// What the staff member decided.
#[derive(Debug, PartialEq, Eq)]
pub enum Decision {
    Approve,
    Reject { reason: String },
}

/// How a workflow ended.
#[derive(Debug, Clone, Copy, PartialEq, Eq, Structural)]
pub enum Resolution {
    /// The submission was approved and the backend has verified it.
    Approved,
    /// The submission was rejected and the backend has removed it.
    Rejected,
    /// The backend or the chat platform failed; the submitter was not told.
    Errored,
}

/// The posted decision: which kind of submission, by whom, and the posted
/// message that carries the two actions.
#[derive(Debug, Clone, Copy, PartialEq, Eq, Structural)]
pub struct Ticket {
    pub kind: SubmitType,
    pub submitter: u64,
    pub message_id: u64,
}

/// Where a workflow stands.
#[derive(Debug, PartialEq, Eq)]
pub enum Workflow {
    /// Nothing was posted yet.
    Idle,
    /// The decision request is being posted.
    Posting { kind: SubmitType, submitter: u64 },
    /// The decision request is posted and waits for a staff member.
    Posted(Ticket),
    /// A staff member chose to reject and is asked for the reason.
    Prompting(Ticket),
    /// The backend is being told of the decision.
    Calling { ticket: Ticket, decision: Decision },
    /// The staff member is being told how the backend answered.
    Acking { ticket: Ticket, decision: Decision, succeeded: bool },
    /// The posted message is being deleted.
    Deleting { ticket: Ticket, decision: Decision, succeeded: bool },
    /// The submitter is being told by direct message.
    Notifying { ticket: Ticket, decision: Decision },
    /// The direct message failed; the fallback is in progress.
    FallingBack { ticket: Ticket, decision: Decision },
    /// The workflow has ended.
    Resolved(Resolution),
    /// No channel is set for the submission's category; nothing was posted.
    Halted,
}

/// What the driver reports.
#[derive(Debug, PartialEq, Eq)]
pub enum WorkflowEvent {
    /// A submission was completed.
    Submitted { kind: SubmitType, submitter: u64 },
    /// The decision request was posted as this message.
    PostedAs { message_id: u64 },
    /// Something was clicked on this message.
    Clicked { message_id: u64, button: Button },
    /// The staff member gave this reason.
    ReasonGiven(String),
    /// The staff member left the prompt without a reason.
    ReasonAbandoned,
    /// The backend call has ended.
    BackendAnswered { succeeded: bool },
    /// What was asked for has been carried out.
    Done,
    /// The direct message could not be delivered.
    Undelivered,
    /// What was asked for failed on the chat platform.
    Failed(String),
}

/// What a staff member is told after acting.
#[derive(Debug, Clone, Copy, PartialEq, Eq, Structural)]
pub enum Ack {
    Verified,
    VerifyFailed,
    Rejected,
    RejectFailed,
    NoReason,
}

/// What the submitter, or a channel, is told.
#[derive(Debug, PartialEq, Eq)]
pub enum Notice {
    /// To the submitter: the submission was verified.
    Verified,
    /// To the submitter: the submission was rejected, for this reason.
    Rejected { reason: String },
    /// To the verification channel: a submission was verified.
    VerificationDone,
}

/// What the driver is to do next.
#[derive(Debug, PartialEq, Eq)]
pub enum WorkflowAction {
    /// Tell the acting user that no channel is set for this category.
    Warn { category: NotifChannelType },
    /// Post the submission's summary with the two actions to this channel
    /// and report `PostedAs`.
    Post { channel: u64, kind: SubmitType },
    /// Wait for a click on the posted message and report `Clicked`.
    Wait,
    /// Ask the staff member for the reason and report `ReasonGiven` or
    /// `ReasonAbandoned`.
    Prompt { kind: SubmitType, timeout_secs: u64, min_length: u64 },
    /// Make this backend call and report `BackendAnswered`.
    Call(Call),
    /// Tell the staff member this, visible to them alone. After `NoReason`
    /// go on waiting; after any other report `Done`.
    Ack { kind: SubmitType, ack: Ack },
    /// Delete the posted message and report `Done`.
    Delete { message_id: u64 },
    /// Send this to the submitter directly and report `Done` or
    /// `Undelivered`.
    Dm { user: u64, kind: SubmitType, notice: Notice },
    /// Send this to the channel.
    Send { channel: u64, kind: SubmitType, notice: Notice },
    /// Nothing more is to be done.
    Stop,
    /// The event does not belong to this step; nothing is to be done.
    Ignore,
}

/// What a [`WorkflowAction`] holds, with the route that the workflow built
/// as a sequence of characters.
pub enum WorkflowActionView {
    Warn { category: NotifChannelType },
    Post { channel: u64, kind: SubmitType },
    Wait,
    Prompt { kind: SubmitType, timeout_secs: u64, min_length: u64 },
    Call(CallView),
    Ack { kind: SubmitType, ack: Ack },
    Delete { message_id: u64 },
    Dm { user: u64, kind: SubmitType, notice: Notice },
    Send { channel: u64, kind: SubmitType, notice: Notice },
    Stop,
    Ignore,
}

impl View for WorkflowAction {
    type V = WorkflowActionView;

    open spec fn view(&self) -> WorkflowActionView {
        match *self {
            WorkflowAction::Warn { category } => WorkflowActionView::Warn { category },
            WorkflowAction::Post { channel, kind } => WorkflowActionView::Post { channel, kind },
            WorkflowAction::Wait => WorkflowActionView::Wait,
            WorkflowAction::Prompt { kind, timeout_secs, min_length } =>
                WorkflowActionView::Prompt { kind, timeout_secs, min_length },
            WorkflowAction::Call(call) => WorkflowActionView::Call(call@),
            WorkflowAction::Ack { kind, ack } => WorkflowActionView::Ack { kind, ack },
            WorkflowAction::Delete { message_id } => WorkflowActionView::Delete { message_id },
            WorkflowAction::Dm { user, kind, notice } => WorkflowActionView::Dm {
                user,
                kind,
                notice,
            },
            WorkflowAction::Send { channel, kind, notice } => WorkflowActionView::Send {
                channel,
                kind,
                notice,
            },
            WorkflowAction::Stop => WorkflowActionView::Stop,
            WorkflowAction::Ignore => WorkflowActionView::Ignore,
        }
    }
}

impl Button {
    /// The action that a control's identifier stands for.
    pub open spec fn of(custom_id: Seq<char>) -> Button {
        if custom_id == "verify-submission"@ {
            Button::Approve
        } else if custom_id == "reject-submission"@ {
            Button::Reject
        } else {
            Button::Other
        }
    }

    /// Reads the action from the identifier of the control that was
    /// clicked.
    pub fn from_custom_id(custom_id: &str) -> (button: Button)
        ensures
            button == Button::of(custom_id@),
    {
        let clicked = String::from_str(custom_id);
        if clicked == String::from_str("verify-submission") {
            Button::Approve
        } else if clicked == String::from_str("reject-submission") {
            Button::Reject
        } else {
            Button::Other
        }
    }

    /// The identifier of the control for an action; `Other` has none.
    pub fn custom_id(&self) -> (id: Option<&'static str>)
        ensures
            match *self {
                Button::Approve => id matches Some(text) && text@ == "verify-submission"@,
                Button::Reject => id matches Some(text) && text@ == "reject-submission"@,
                Button::Other => id.is_none(),
            },
    {
        match self {
            Button::Approve => Some("verify-submission"),
            Button::Reject => Some("reject-submission"),
            Button::Other => None,
        }
    }
}

impl SubmitType {
    /// The category that a new submission of this kind is posted under.
    pub open spec fn submit_category(self) -> NotifChannelType {
        match self {
            SubmitType::User => NotifChannelType::UserSubmit,
            SubmitType::Ad => NotifChannelType::AdSubmit,
        }
    }

    /// The category that a verification of this kind is announced under.
    pub open spec fn verify_category(self) -> NotifChannelType {
        match self {
            SubmitType::User => NotifChannelType::UserVerify,
            SubmitType::Ad => NotifChannelType::AdVerify,
        }
    }

    /// The category that a new submission of this kind is posted under.
    pub fn submit_channel(&self) -> (category: NotifChannelType)
        ensures
            category == self.submit_category(),
    {
        match self {
            SubmitType::User => NotifChannelType::UserSubmit,
            SubmitType::Ad => NotifChannelType::AdSubmit,
        }
    }

    /// The category that a verification of this kind is announced under.
    pub fn verify_channel(&self) -> (category: NotifChannelType)
        ensures
            category == self.verify_category(),
    {
        match self {
            SubmitType::User => NotifChannelType::UserVerify,
            SubmitType::Ad => NotifChannelType::AdVerify,
        }
    }
}

/// The backend call that verifies a submission.
pub open spec fn verify_call(kind: SubmitType, discord_id: u64) -> CallView {
    CallView {
        method: Method::Patch,
        route: match kind {
            SubmitType::User => "/patch/user/verify/"@ + decimal(discord_id as nat),
            SubmitType::Ad => "/patch/ad/verify/"@ + decimal(discord_id as nat),
        },
        with_body: false,
    }
}

/// The backend call that removes a submission.
pub open spec fn reject_call(kind: SubmitType, discord_id: u64) -> CallView {
    CallView {
        method: Method::Delete,
        route: match kind {
            SubmitType::User => "/delete/user/by-discord/"@ + decimal(discord_id as nat),
            SubmitType::Ad => "/delete/ad/by-discord/"@ + decimal(discord_id as nat),
        },
        with_body: false,
    }
}

/// The backend call that carries out a decision.
pub open spec fn decision_call(ticket: Ticket, decision: Decision) -> CallView {
    match decision {
        Decision::Approve => verify_call(ticket.kind, ticket.submitter),
        Decision::Reject { .. } => reject_call(ticket.kind, ticket.submitter),
    }
}

/// What the staff member is told once the backend has answered.
pub open spec fn ack_for(decision: Decision, succeeded: bool) -> Ack {
    match decision {
        Decision::Approve => if succeeded {
            Ack::Verified
        } else {
            Ack::VerifyFailed
        },
        Decision::Reject { .. } => if succeeded {
            Ack::Rejected
        } else {
            Ack::RejectFailed
        },
    }
}

/// What the submitter is told of a decision.
pub open spec fn notice_for(decision: Decision) -> Notice {
    match decision {
        Decision::Approve => Notice::Verified,
        Decision::Reject { reason } => Notice::Rejected { reason },
    }
}

/// The call that verifies a user's site.
pub fn verify_user(discord_id: u64) -> (call: Call)
    ensures
        call@ == verify_call(SubmitType::User, discord_id),
{
    let id = decimal_string(discord_id);
    Call { method: Method::Patch, route: join("/patch/user/verify/", id.as_str()), with_body: false }
}

/// The call that verifies a user's ad.
pub fn verify_ad(discord_id: u64) -> (call: Call)
    ensures
        call@ == verify_call(SubmitType::Ad, discord_id),
{
    let id = decimal_string(discord_id);
    Call { method: Method::Patch, route: join("/patch/ad/verify/", id.as_str()), with_body: false }
}

/// The call that removes a user's site.
pub fn reject_user(discord_id: u64) -> (call: Call)
    ensures
        call@ == reject_call(SubmitType::User, discord_id),
{
    let id = decimal_string(discord_id);
    Call {
        method: Method::Delete,
        route: join("/delete/user/by-discord/", id.as_str()),
        with_body: false,
    }
}

/// The call that removes a user's ad.
pub fn reject_ad(discord_id: u64) -> (call: Call)
    ensures
        call@ == reject_call(SubmitType::Ad, discord_id),
{
    let id = decimal_string(discord_id);
    Call {
        method: Method::Delete,
        route: join("/delete/ad/by-discord/", id.as_str()),
        with_body: false,
    }
}

/// What ends a workflow once the submitter has been told, or could not be
/// told: an approval is announced in the verification channel of its kind,
/// or the acting user is warned that none is set; a rejection ends quietly.
pub open spec fn conclude(routing: NotifChannels, ticket: Ticket, decision: Decision) -> (
    Workflow,
    WorkflowActionView,
) {
    match decision {
        Decision::Approve => match routing.destination(ticket.kind.verify_category()) {
            Some(channel) => (
                Workflow::Resolved(Resolution::Approved),
                WorkflowActionView::Send {
                    channel,
                    kind: ticket.kind,
                    notice: Notice::VerificationDone,
                },
            ),
            None => (
                Workflow::Resolved(Resolution::Approved),
                WorkflowActionView::Warn { category: ticket.kind.verify_category() },
            ),
        },
        Decision::Reject { .. } => (Workflow::Resolved(Resolution::Rejected), WorkflowActionView::Stop),
    }
}

/// The workflow's rule: the state that follows and the action to take,
/// for each state and event under the given routing.
pub open spec fn workflow_step(routing: NotifChannels, state: Workflow, event: WorkflowEvent) -> (
    Workflow,
    WorkflowActionView,
) {
    match (state, event) {
        (Workflow::Idle, WorkflowEvent::Submitted { kind, submitter }) => match routing.destination(
            kind.submit_category(),
        ) {
            Some(channel) => (
                Workflow::Posting { kind, submitter },
                WorkflowActionView::Post { channel, kind },
            ),
            None => (
                Workflow::Halted,
                WorkflowActionView::Warn { category: kind.submit_category() },
            ),
        },
        (Workflow::Posting { kind, submitter }, WorkflowEvent::PostedAs { message_id }) => (
            Workflow::Posted(Ticket { kind, submitter, message_id }),
            WorkflowActionView::Wait,
        ),
        (Workflow::Posted(ticket), WorkflowEvent::Clicked { message_id, button }) => {
            if message_id != ticket.message_id {
                (state, WorkflowActionView::Ignore)
            } else {
                match button {
                    Button::Approve => (
                        Workflow::Calling { ticket, decision: Decision::Approve },
                        WorkflowActionView::Call(verify_call(ticket.kind, ticket.submitter)),
                    ),
                    Button::Reject => (
                        Workflow::Prompting(ticket),
                        WorkflowActionView::Prompt {
                            kind: ticket.kind,
                            timeout_secs: REASON_TIMEOUT_SECS,
                            min_length: REASON_MIN_LENGTH,
                        },
                    ),
                    Button::Other => (state, WorkflowActionView::Ignore),
                }
            }
        },
        (Workflow::Prompting(ticket), WorkflowEvent::ReasonGiven(reason)) => (
            Workflow::Calling { ticket, decision: Decision::Reject { reason } },
            WorkflowActionView::Call(reject_call(ticket.kind, ticket.submitter)),
        ),
        (Workflow::Prompting(ticket), WorkflowEvent::ReasonAbandoned) => (
            Workflow::Posted(ticket),
            WorkflowActionView::Ack { kind: ticket.kind, ack: Ack::NoReason },
        ),
        (Workflow::Calling { ticket, decision }, WorkflowEvent::BackendAnswered { succeeded }) => (
            Workflow::Acking { ticket, decision, succeeded },
            WorkflowActionView::Ack { kind: ticket.kind, ack: ack_for(decision, succeeded) },
        ),
        (Workflow::Acking { ticket, decision, succeeded }, WorkflowEvent::Done) => (
            Workflow::Deleting { ticket, decision, succeeded },
            WorkflowActionView::Delete { message_id: ticket.message_id },
        ),
        (Workflow::Deleting { ticket, decision, succeeded }, WorkflowEvent::Done) => {
            if succeeded {
                (
                    Workflow::Notifying { ticket, decision },
                    WorkflowActionView::Dm {
                        user: ticket.submitter,
                        kind: ticket.kind,
                        notice: notice_for(decision),
                    },
                )
            } else {
                (Workflow::Resolved(Resolution::Errored), WorkflowActionView::Stop)
            }
        },
        (Workflow::Notifying { ticket, decision }, WorkflowEvent::Done) => conclude(
            routing,
            ticket,
            decision,
        ),
        (Workflow::Notifying { ticket, decision }, WorkflowEvent::Undelivered) => {
            match routing.destination(NotifChannelType::DmFallback) {
                Some(channel) => (
                    Workflow::FallingBack { ticket, decision },
                    WorkflowActionView::Send {
                        channel,
                        kind: ticket.kind,
                        notice: notice_for(decision),
                    },
                ),
                None => (
                    Workflow::FallingBack { ticket, decision },
                    WorkflowActionView::Warn { category: NotifChannelType::DmFallback },
                ),
            }
        },
        (Workflow::FallingBack { ticket, decision }, WorkflowEvent::Done) => conclude(
            routing,
            ticket,
            decision,
        ),
        (Workflow::Idle, WorkflowEvent::Failed(_)) => (state, WorkflowActionView::Ignore),
        (Workflow::Resolved(_), WorkflowEvent::Failed(_)) => (state, WorkflowActionView::Ignore),
        (Workflow::Halted, WorkflowEvent::Failed(_)) => (state, WorkflowActionView::Ignore),
        (_, WorkflowEvent::Failed(_)) => (
            Workflow::Resolved(Resolution::Errored),
            WorkflowActionView::Stop,
        ),
        _ => (state, WorkflowActionView::Ignore),
    }
}

fn call_for(ticket: &Ticket, approve: bool) -> (call: Call)
    ensures
        approve ==> call@ == verify_call(ticket.kind, ticket.submitter),
        !approve ==> call@ == reject_call(ticket.kind, ticket.submitter),
{
    match ticket.kind {
        SubmitType::User => if approve {
            verify_user(ticket.submitter)
        } else {
            reject_user(ticket.submitter)
        },
        SubmitType::Ad => if approve {
            verify_ad(ticket.submitter)
        } else {
            reject_ad(ticket.submitter)
        },
    }
}

fn ack_of(decision: &Decision, succeeded: bool) -> (ack: Ack)
    ensures
        ack == ack_for(*decision, succeeded),
{
    match decision {
        Decision::Approve => if succeeded {
            Ack::Verified
        } else {
            Ack::VerifyFailed
        },
        Decision::Reject { .. } => if succeeded {
            Ack::Rejected
        } else {
            Ack::RejectFailed
        },
    }
}

fn notice_of(decision: &Decision) -> (notice: Notice)
    ensures
        notice == notice_for(*decision),
{
    match decision {
        Decision::Approve => Notice::Verified,
        Decision::Reject { reason } => Notice::Rejected { reason: reason.clone() },
    }
}

fn finish(routing: &NotifChannels, ticket: Ticket, decision: Decision) -> (next: (
    Workflow,
    WorkflowAction,
))
    ensures
        (next.0, next.1@) == conclude(*routing, ticket, decision),
{
    match decision {
        Decision::Approve => match routing.route(ticket.kind.verify_channel()) {
            Some(channel) => (
                Workflow::Resolved(Resolution::Approved),
                WorkflowAction::Send { channel, kind: ticket.kind, notice: Notice::VerificationDone },
            ),
            None => (
                Workflow::Resolved(Resolution::Approved),
                WorkflowAction::Warn { category: ticket.kind.verify_channel() },
            ),
        },
        Decision::Reject { .. } => (Workflow::Resolved(Resolution::Rejected), WorkflowAction::Stop),
    }
}

fn errored() -> (next: (Workflow, WorkflowAction))
    ensures
        next.0 == Workflow::Resolved(Resolution::Errored),
        next.1@ == WorkflowActionView::Stop,
{
    (Workflow::Resolved(Resolution::Errored), WorkflowAction::Stop)
}

/// One step of the workflow under the current routing.
///
/// A submission is posted to the channel of its category, or the acting
/// user is warned that none is set and the workflow halts. The posted
/// message then waits for one click on it: an approval tells the backend
/// to verify, a rejection first asks for the reason and then tells the
/// backend to remove; a prompt left without a reason puts the message back
/// to waiting. Once the backend has been told, no click is heard any more.
/// The staff member is told how the backend answered and the message is
/// deleted. Only where the backend succeeded is the submitter told, by
/// direct message or, where that fails, in the fallback channel.
pub fn step(routing: &NotifChannels, state: Workflow, event: WorkflowEvent) -> (next: (
    Workflow,
    WorkflowAction,
))
    ensures
        (next.0, next.1@) == workflow_step(*routing, state, event),
{
    match state {
        Workflow::Idle => match event {
            WorkflowEvent::Submitted { kind, submitter } => match routing.route(
                kind.submit_channel(),
            ) {
                Some(channel) => (
                    Workflow::Posting { kind, submitter },
                    WorkflowAction::Post { channel, kind },
                ),
                None => (Workflow::Halted, WorkflowAction::Warn { category: kind.submit_channel() }),
            },
            _ => (Workflow::Idle, WorkflowAction::Ignore),
        },
        Workflow::Posting { kind, submitter } => match event {
            WorkflowEvent::PostedAs { message_id } => (
                Workflow::Posted(Ticket { kind, submitter, message_id }),
                WorkflowAction::Wait,
            ),
            WorkflowEvent::Failed(_) => errored(),
            _ => (Workflow::Posting { kind, submitter }, WorkflowAction::Ignore),
        },
        Workflow::Posted(ticket) => match event {
            WorkflowEvent::Clicked { message_id, button } => {
                if message_id != ticket.message_id {
                    (Workflow::Posted(ticket), WorkflowAction::Ignore)
                } else {
                    match button {
                        Button::Approve => (
                            Workflow::Calling { ticket, decision: Decision::Approve },
                            WorkflowAction::Call(call_for(&ticket, true)),
                        ),
                        Button::Reject => (
                            Workflow::Prompting(ticket),
                            WorkflowAction::Prompt {
                                kind: ticket.kind,
                                timeout_secs: REASON_TIMEOUT_SECS,
                                min_length: REASON_MIN_LENGTH,
                            },
                        ),
                        Button::Other => (Workflow::Posted(ticket), WorkflowAction::Ignore),
                    }
                }
            },
            WorkflowEvent::Failed(_) => errored(),
            _ => (Workflow::Posted(ticket), WorkflowAction::Ignore),
        },
        Workflow::Prompting(ticket) => match event {
            WorkflowEvent::ReasonGiven(reason) => (
                Workflow::Calling { ticket, decision: Decision::Reject { reason } },
                WorkflowAction::Call(call_for(&ticket, false)),
            ),
            WorkflowEvent::ReasonAbandoned => (
                Workflow::Posted(ticket),
                WorkflowAction::Ack { kind: ticket.kind, ack: Ack::NoReason },
            ),
            WorkflowEvent::Failed(_) => errored(),
            _ => (Workflow::Prompting(ticket), WorkflowAction::Ignore),
        },
        Workflow::Calling { ticket, decision } => match event {
            WorkflowEvent::BackendAnswered { succeeded } => {
                let ack = ack_of(&decision, succeeded);
                (
                    Workflow::Acking { ticket, decision, succeeded },
                    WorkflowAction::Ack { kind: ticket.kind, ack },
                )
            },
            WorkflowEvent::Failed(_) => errored(),
            _ => (Workflow::Calling { ticket, decision }, WorkflowAction::Ignore),
        },
        Workflow::Acking { ticket, decision, succeeded } => match event {
            WorkflowEvent::Done => (
                Workflow::Deleting { ticket, decision, succeeded },
                WorkflowAction::Delete { message_id: ticket.message_id },
            ),
            WorkflowEvent::Failed(_) => errored(),
            _ => (Workflow::Acking { ticket, decision, succeeded }, WorkflowAction::Ignore),
        },
        Workflow::Deleting { ticket, decision, succeeded } => match event {
            WorkflowEvent::Done => {
                if succeeded {
                    let notice = notice_of(&decision);
                    (
                        Workflow::Notifying { ticket, decision },
                        WorkflowAction::Dm { user: ticket.submitter, kind: ticket.kind, notice },
                    )
                } else {
                    errored()
                }
            },
            WorkflowEvent::Failed(_) => errored(),
            _ => (Workflow::Deleting { ticket, decision, succeeded }, WorkflowAction::Ignore),
        },
        Workflow::Notifying { ticket, decision } => match event {
            WorkflowEvent::Done => finish(routing, ticket, decision),
            WorkflowEvent::Undelivered => {
                match routing.route(NotifChannelType::DmFallback) {
                    Some(channel) => {
                        let notice = notice_of(&decision);
                        (
                            Workflow::FallingBack { ticket, decision },
                            WorkflowAction::Send { channel, kind: ticket.kind, notice },
                        )
                    },
                    None => (
                        Workflow::FallingBack { ticket, decision },
                        WorkflowAction::Warn { category: NotifChannelType::DmFallback },
                    ),
                }
            },
            WorkflowEvent::Failed(_) => errored(),
            _ => (Workflow::Notifying { ticket, decision }, WorkflowAction::Ignore),
        },
        Workflow::FallingBack { ticket, decision } => match event {
            WorkflowEvent::Done => finish(routing, ticket, decision),
            WorkflowEvent::Failed(_) => errored(),
            _ => (Workflow::FallingBack { ticket, decision }, WorkflowAction::Ignore),
        },
        Workflow::Resolved(resolution) => (Workflow::Resolved(resolution), WorkflowAction::Ignore),
        Workflow::Halted => (Workflow::Halted, WorkflowAction::Ignore),
    }
}

impl Workflow {
    /// The workflow has ended: nothing more will be done for it.
    pub open spec fn ended(self) -> bool {
        self is Resolved || self is Halted
    }

    /// The backend has not been told of a decision yet.
    pub open spec fn undecided(self) -> bool {
        self is Idle || self is Posting || self is Posted || self is Prompting
    }

    /// Whether the workflow has ended.
    pub fn is_ended(&self) -> (ended: bool)
        ensures
            ended == self.ended(),
    {
        match self {
            Workflow::Resolved(_) => true,
            Workflow::Halted => true,
            _ => false,
        }
    }
}

/// The states and actions of a whole workflow: the rule applied to a row of
/// events, each state handed on to the next.
pub open spec fn run(routing: NotifChannels, state: Workflow, events: Seq<WorkflowEvent>) -> (
    Workflow,
    Seq<WorkflowActionView>,
)
    decreases events.len(),
{
    if events.len() == 0 {
        (state, Seq::empty())
    } else {
        let first = workflow_step(routing, state, events[0]);
        let rest = run(routing, first.0, events.drop_first());
        (rest.0, seq![first.1] + rest.1)
    }
}

/// How many times a row of actions tells the backend of a decision.
pub open spec fn resolutions(actions: Seq<WorkflowActionView>) -> nat
    decreases actions.len(),
{
    if actions.len() == 0 {
        0
    } else {
        (if actions[0] is Call {
            1nat
        } else {
            0nat
        }) + resolutions(actions.drop_first())
    }
}

/// A submission for a category without a channel is not posted anywhere:
/// the acting user is warned, and the workflow halts.
pub proof fn lemma_unset_category_halts(routing: NotifChannels, kind: SubmitType, submitter: u64)
    requires
        routing.destination(kind.submit_category()).is_none(),
    ensures
        workflow_step(routing, Workflow::Idle, WorkflowEvent::Submitted { kind, submitter }) == (
            Workflow::Halted,
            WorkflowActionView::Warn { category: kind.submit_category() },
        ),
{
}

/// Whatever the state and the event, the workflow names a channel only if
/// the routing holds it for the category at hand, and never the
/// identifier zero.
pub proof fn lemma_sends_only_where_routed(
    routing: NotifChannels,
    state: Workflow,
    event: WorkflowEvent,
)
    ensures
        workflow_step(routing, state, event).1 matches WorkflowActionView::Post { channel, kind }
            ==> channel != 0 && routing.lookup(kind.submit_category()) == Some(channel),
        workflow_step(routing, state, event).1 matches WorkflowActionView::Send {
            channel,
            kind,
            notice,
        } ==> channel != 0 && (routing.lookup(NotifChannelType::DmFallback) == Some(channel)
            || routing.lookup(kind.verify_category()) == Some(channel)),
{
}

/// A workflow that has ended stays as it is and asks for nothing,
/// whatever is reported to it.
pub proof fn lemma_ended_is_final(routing: NotifChannels, state: Workflow, event: WorkflowEvent)
    requires
        state.ended(),
    ensures
        workflow_step(routing, state, event) == (state, WorkflowActionView::Ignore),
{
}

proof fn lemma_resolutions_of_cons(first: WorkflowActionView, rest: Seq<WorkflowActionView>)
    ensures
        resolutions(seq![first] + rest) == (if first is Call {
            1nat
        } else {
            0nat
        }) + resolutions(rest),
{
    let all = seq![first] + rest;
    assert(all.drop_first() =~= rest);
    assert(all[0] == first);
}

proof fn lemma_decided_stays_decided(
    routing: NotifChannels,
    state: Workflow,
    events: Seq<WorkflowEvent>,
)
    requires
        !state.undecided(),
    ensures
        resolutions(run(routing, state, events).1) == 0,
        !run(routing, state, events).0.undecided(),
    decreases events.len(),
{
    if events.len() > 0 {
        let first = workflow_step(routing, state, events[0]);
        lemma_decided_stays_decided(routing, first.0, events.drop_first());
        lemma_resolutions_of_cons(first.1, run(routing, first.0, events.drop_first()).1);
    }
}

/// Exactly one branch: whatever is clicked, in whatever order and however
/// fast, one workflow tells the backend of a decision at most once. The
/// click that decides moves the workflow on, and every later click finds
/// it past the point of deciding.
pub proof fn lemma_decides_at_most_once(
    routing: NotifChannels,
    state: Workflow,
    events: Seq<WorkflowEvent>,
)
    ensures
        resolutions(run(routing, state, events).1) <= 1,
    decreases events.len(),
{
    if events.len() > 0 {
        let first = workflow_step(routing, state, events[0]);
        let rest = run(routing, first.0, events.drop_first());
        lemma_resolutions_of_cons(first.1, rest.1);
        if first.1 is Call {
            lemma_decided_stays_decided(routing, first.0, events.drop_first());
        } else {
            lemma_decides_at_most_once(routing, first.0, events.drop_first());
        }
    }
}

/// Of two clicks in a row on both actions of a posted message, the first
/// decides and the second is not heard.
pub proof fn lemma_second_click_is_ignored(
    routing: NotifChannels,
    ticket: Ticket,
    second: Button,
)
    ensures
        ({
            let first = workflow_step(
                routing,
                Workflow::Posted(ticket),
                WorkflowEvent::Clicked { message_id: ticket.message_id, button: Button::Approve },
            );
            let next = workflow_step(
                routing,
                first.0,
                WorkflowEvent::Clicked { message_id: ticket.message_id, button: second },
            );
            &&& first.0 == (Workflow::Calling { ticket, decision: Decision::Approve })
            &&& first.1 == WorkflowActionView::Call(verify_call(ticket.kind, ticket.submitter))
            &&& next == (first.0, WorkflowActionView::Ignore)
        }),
{
}

/// Where the direct message cannot be delivered, what the submitter was to
/// be told goes, unchanged, to the fallback channel; and where no fallback
/// channel is set, the acting user is warned instead.
pub proof fn lemma_fallback_carries_the_notice(
    routing: NotifChannels,
    ticket: Ticket,
    decision: Decision,
)
    ensures
        ({
            let told = workflow_step(
                routing,
                Workflow::Deleting { ticket, decision, succeeded: true },
                WorkflowEvent::Done,
            );
            let fallen = workflow_step(routing, told.0, WorkflowEvent::Undelivered);
            &&& told.1 == (WorkflowActionView::Dm {
                user: ticket.submitter,
                kind: ticket.kind,
                notice: notice_for(decision),
            })
            &&& match routing.destination(NotifChannelType::DmFallback) {
                Some(channel) => fallen.1 == (WorkflowActionView::Send {
                    channel,
                    kind: ticket.kind,
                    notice: notice_for(decision),
                }),
                None => fallen.1 == (WorkflowActionView::Warn {
                    category: NotifChannelType::DmFallback,
                }),
            }
        }),
{
}

/// Where the backend fails, the submitter is told nothing: from the
/// backend's failure on, no action addresses the submitter or a channel.
pub proof fn lemma_failure_tells_no_submitter(
    routing: NotifChannels,
    ticket: Ticket,
    decision: Decision,
)
    ensures
        ({
            let acked = workflow_step(
                routing,
                Workflow::Calling { ticket, decision },
                WorkflowEvent::BackendAnswered { succeeded: false },
            );
            let deleted = workflow_step(routing, acked.0, WorkflowEvent::Done);
            let ended = workflow_step(routing, deleted.0, WorkflowEvent::Done);
            &&& acked.1 == (WorkflowActionView::Ack {
                kind: ticket.kind,
                ack: ack_for(decision, false),
            })
            &&& deleted.1 == (WorkflowActionView::Delete { message_id: ticket.message_id })
            &&& ended == (Workflow::Resolved(Resolution::Errored), WorkflowActionView::Stop)
        }),
{
}

} // verus!
