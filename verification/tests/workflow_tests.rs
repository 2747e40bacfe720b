use collar::client::{Call, Method};
use collar::routing::{NotifChannelType, NotifChannels};
use collar::workflow::{
    reject_ad, reject_user, step, verify_ad, verify_user, Ack, Button, Decision, Notice,
    Resolution, SubmitType, Ticket, Workflow, WorkflowAction, WorkflowEvent, REASON_MIN_LENGTH,
    REASON_TIMEOUT_SECS,
};

fn routing() -> NotifChannels {
    let mut channels = NotifChannels::new();
    channels.set(NotifChannelType::UserSubmit, 11);
    channels.set(NotifChannelType::AdSubmit, 12);
    channels.set(NotifChannelType::UserVerify, 13);
    channels.set(NotifChannelType::AdVerify, 14);
    channels.set(NotifChannelType::General, 15);
    channels.set(NotifChannelType::DmFallback, 16);
    channels
}

fn ticket(kind: SubmitType) -> Ticket {
    Ticket { kind, submitter: 42, message_id: 900 }
}

fn click(button: Button) -> WorkflowEvent {
    WorkflowEvent::Clicked { message_id: 900, button }
}

fn drive(
    channels: &NotifChannels,
    mut state: Workflow,
    events: Vec<WorkflowEvent>,
) -> (Workflow, Vec<WorkflowAction>) {
    let mut actions = Vec::new();
    for event in events {
        let (next, action) = step(channels, state, event);
        state = next;
        actions.push(action);
    }
    (state, actions)
}

#[test]
fn prompt_limits() {
    assert_eq!(REASON_TIMEOUT_SECS, 600);
    assert_eq!(REASON_MIN_LENGTH, 10);
}

#[test]
fn buttons_are_read_from_their_identifiers() {
    assert_eq!(Button::from_custom_id("verify-submission"), Button::Approve);
    assert_eq!(Button::from_custom_id("reject-submission"), Button::Reject);
    assert_eq!(Button::from_custom_id("verify-submission "), Button::Other);
    assert_eq!(Button::from_custom_id(""), Button::Other);
    assert_eq!(Button::from_custom_id("something-else"), Button::Other);
    assert_eq!(Button::Approve.custom_id(), Some("verify-submission"));
    assert_eq!(Button::Reject.custom_id(), Some("reject-submission"));
    assert_eq!(Button::Other.custom_id(), None);
}

#[test]
fn resolution_calls_name_the_submitter() {
    assert_eq!(
        verify_user(42),
        Call { method: Method::Patch, route: "/patch/user/verify/42".to_string(), with_body: false }
    );
    assert_eq!(
        verify_ad(7),
        Call { method: Method::Patch, route: "/patch/ad/verify/7".to_string(), with_body: false }
    );
    assert_eq!(
        reject_user(175928847299117063),
        Call {
            method: Method::Delete,
            route: "/delete/user/by-discord/175928847299117063".to_string(),
            with_body: false
        }
    );
    assert_eq!(
        reject_ad(0),
        Call { method: Method::Delete, route: "/delete/ad/by-discord/0".to_string(), with_body: false }
    );
}

#[test]
fn submission_is_posted_to_the_channel_of_its_kind() {
    let (state, action) = step(
        &routing(),
        Workflow::Idle,
        WorkflowEvent::Submitted { kind: SubmitType::User, submitter: 42 },
    );
    assert_eq!(state, Workflow::Posting { kind: SubmitType::User, submitter: 42 });
    assert_eq!(action, WorkflowAction::Post { channel: 11, kind: SubmitType::User });
    let (state, action) = step(
        &routing(),
        Workflow::Idle,
        WorkflowEvent::Submitted { kind: SubmitType::Ad, submitter: 42 },
    );
    assert_eq!(state, Workflow::Posting { kind: SubmitType::Ad, submitter: 42 });
    assert_eq!(action, WorkflowAction::Post { channel: 12, kind: SubmitType::Ad });
}

#[test]
fn unset_category_warns_and_halts() {
    let mut channels = routing();
    channels.user_submit_id = None;
    let (state, action) = step(
        &channels,
        Workflow::Idle,
        WorkflowEvent::Submitted { kind: SubmitType::User, submitter: 42 },
    );
    assert_eq!(state, Workflow::Halted);
    assert!(state.is_ended());
    assert_eq!(action, WorkflowAction::Warn { category: NotifChannelType::UserSubmit });
    let (state, action) = step(&channels, state, WorkflowEvent::PostedAs { message_id: 1 });
    assert_eq!(state, Workflow::Halted);
    assert_eq!(action, WorkflowAction::Ignore);
}

#[test]
fn channel_zero_is_treated_as_unset() {
    let mut channels = routing();
    channels.ad_submit_id = Some(0);
    let (state, action) = step(
        &channels,
        Workflow::Idle,
        WorkflowEvent::Submitted { kind: SubmitType::Ad, submitter: 42 },
    );
    assert_eq!(state, Workflow::Halted);
    assert_eq!(action, WorkflowAction::Warn { category: NotifChannelType::AdSubmit });
}

#[test]
fn approval_runs_to_the_announcement() {
    let (state, actions) = drive(
        &routing(),
        Workflow::Idle,
        vec![
            WorkflowEvent::Submitted { kind: SubmitType::Ad, submitter: 42 },
            WorkflowEvent::PostedAs { message_id: 900 },
            click(Button::Approve),
            WorkflowEvent::BackendAnswered { succeeded: true },
            WorkflowEvent::Done,
            WorkflowEvent::Done,
            WorkflowEvent::Done,
        ],
    );
    assert_eq!(state, Workflow::Resolved(Resolution::Approved));
    assert_eq!(
        actions,
        vec![
            WorkflowAction::Post { channel: 12, kind: SubmitType::Ad },
            WorkflowAction::Wait,
            WorkflowAction::Call(verify_ad(42)),
            WorkflowAction::Ack { kind: SubmitType::Ad, ack: Ack::Verified },
            WorkflowAction::Delete { message_id: 900 },
            WorkflowAction::Dm { user: 42, kind: SubmitType::Ad, notice: Notice::Verified },
            WorkflowAction::Send {
                channel: 14,
                kind: SubmitType::Ad,
                notice: Notice::VerificationDone
            },
        ]
    );
}

#[test]
fn approval_without_a_verification_channel_ends_in_a_warning() {
    let mut channels = routing();
    channels.user_verify_id = None;
    let (state, action) = step(
        &channels,
        Workflow::Notifying { ticket: ticket(SubmitType::User), decision: Decision::Approve },
        WorkflowEvent::Done,
    );
    assert_eq!(state, Workflow::Resolved(Resolution::Approved));
    assert_eq!(action, WorkflowAction::Warn { category: NotifChannelType::UserVerify });
}

#[test]
fn rejection_asks_for_the_reason_and_tells_the_submitter() {
    let (state, actions) = drive(
        &routing(),
        Workflow::Posted(ticket(SubmitType::User)),
        vec![
            click(Button::Reject),
            WorkflowEvent::ReasonGiven("the site is down".to_string()),
            WorkflowEvent::BackendAnswered { succeeded: true },
            WorkflowEvent::Done,
            WorkflowEvent::Done,
            WorkflowEvent::Done,
        ],
    );
    assert_eq!(state, Workflow::Resolved(Resolution::Rejected));
    assert_eq!(
        actions,
        vec![
            WorkflowAction::Prompt { kind: SubmitType::User, timeout_secs: 600, min_length: 10 },
            WorkflowAction::Call(reject_user(42)),
            WorkflowAction::Ack { kind: SubmitType::User, ack: Ack::Rejected },
            WorkflowAction::Delete { message_id: 900 },
            WorkflowAction::Dm {
                user: 42,
                kind: SubmitType::User,
                notice: Notice::Rejected { reason: "the site is down".to_string() }
            },
            WorkflowAction::Stop,
        ]
    );
}

#[test]
fn abandoned_prompt_puts_the_message_back_to_waiting() {
    let (state, actions) = drive(
        &routing(),
        Workflow::Posted(ticket(SubmitType::Ad)),
        vec![click(Button::Reject), WorkflowEvent::ReasonAbandoned, click(Button::Approve)],
    );
    assert_eq!(
        state,
        Workflow::Calling { ticket: ticket(SubmitType::Ad), decision: Decision::Approve }
    );
    assert_eq!(
        actions,
        vec![
            WorkflowAction::Prompt { kind: SubmitType::Ad, timeout_secs: 600, min_length: 10 },
            WorkflowAction::Ack { kind: SubmitType::Ad, ack: Ack::NoReason },
            WorkflowAction::Call(verify_ad(42)),
        ]
    );
}

#[test]
fn second_click_is_ignored() {
    let (state, actions) = drive(
        &routing(),
        Workflow::Posted(ticket(SubmitType::User)),
        vec![click(Button::Approve), click(Button::Reject), click(Button::Approve)],
    );
    assert_eq!(
        state,
        Workflow::Calling { ticket: ticket(SubmitType::User), decision: Decision::Approve }
    );
    assert_eq!(
        actions,
        vec![
            WorkflowAction::Call(verify_user(42)),
            WorkflowAction::Ignore,
            WorkflowAction::Ignore
        ]
    );
}

#[test]
fn clicks_while_the_reason_is_asked_are_ignored() {
    let (state, actions) = drive(
        &routing(),
        Workflow::Posted(ticket(SubmitType::User)),
        vec![click(Button::Reject), click(Button::Approve)],
    );
    assert_eq!(state, Workflow::Prompting(ticket(SubmitType::User)));
    assert_eq!(actions[1], WorkflowAction::Ignore);
}

#[test]
fn clicks_on_other_messages_and_other_controls_are_ignored() {
    let channels = routing();
    let (state, action) = step(
        &channels,
        Workflow::Posted(ticket(SubmitType::User)),
        WorkflowEvent::Clicked { message_id: 901, button: Button::Approve },
    );
    assert_eq!(state, Workflow::Posted(ticket(SubmitType::User)));
    assert_eq!(action, WorkflowAction::Ignore);
    let (state, action) = step(&channels, state, click(Button::Other));
    assert_eq!(state, Workflow::Posted(ticket(SubmitType::User)));
    assert_eq!(action, WorkflowAction::Ignore);
}

#[test]
fn backend_failure_is_told_to_staff_and_not_to_the_submitter() {
    for (decision, ack) in [
        (Decision::Approve, Ack::VerifyFailed),
        (Decision::Reject { reason: "because it is".to_string() }, Ack::RejectFailed),
    ] {
        let (state, actions) = drive(
            &routing(),
            Workflow::Calling { ticket: ticket(SubmitType::Ad), decision },
            vec![
                WorkflowEvent::BackendAnswered { succeeded: false },
                WorkflowEvent::Done,
                WorkflowEvent::Done,
                WorkflowEvent::Done,
            ],
        );
        assert_eq!(state, Workflow::Resolved(Resolution::Errored));
        assert_eq!(
            actions,
            vec![
                WorkflowAction::Ack { kind: SubmitType::Ad, ack },
                WorkflowAction::Delete { message_id: 900 },
                WorkflowAction::Stop,
                WorkflowAction::Ignore,
            ]
        );
    }
}

#[test]
fn undelivered_message_goes_to_the_fallback_channel_unchanged() {
    let decision = Decision::Reject { reason: "not a real site".to_string() };
    let (state, actions) = drive(
        &routing(),
        Workflow::Deleting { ticket: ticket(SubmitType::User), decision, succeeded: true },
        vec![WorkflowEvent::Done, WorkflowEvent::Undelivered, WorkflowEvent::Done],
    );
    assert_eq!(state, Workflow::Resolved(Resolution::Rejected));
    let notice = Notice::Rejected { reason: "not a real site".to_string() };
    assert_eq!(
        actions,
        vec![
            WorkflowAction::Dm {
                user: 42,
                kind: SubmitType::User,
                notice: Notice::Rejected { reason: "not a real site".to_string() }
            },
            WorkflowAction::Send { channel: 16, kind: SubmitType::User, notice },
            WorkflowAction::Stop,
        ]
    );
}

#[test]
fn undelivered_message_without_a_fallback_channel_warns_and_goes_on() {
    let mut channels = routing();
    channels.dm_fallback_id = None;
    let (state, actions) = drive(
        &channels,
        Workflow::Notifying { ticket: ticket(SubmitType::Ad), decision: Decision::Approve },
        vec![WorkflowEvent::Undelivered, WorkflowEvent::Done],
    );
    assert_eq!(state, Workflow::Resolved(Resolution::Approved));
    assert_eq!(
        actions,
        vec![
            WorkflowAction::Warn { category: NotifChannelType::DmFallback },
            WorkflowAction::Send {
                channel: 14,
                kind: SubmitType::Ad,
                notice: Notice::VerificationDone
            },
        ]
    );
}

#[test]
fn platform_failure_ends_the_workflow() {
    let channels = routing();
    let states = vec![
        Workflow::Posting { kind: SubmitType::User, submitter: 42 },
        Workflow::Posted(ticket(SubmitType::User)),
        Workflow::Prompting(ticket(SubmitType::User)),
        Workflow::Calling { ticket: ticket(SubmitType::User), decision: Decision::Approve },
        Workflow::Acking {
            ticket: ticket(SubmitType::User),
            decision: Decision::Approve,
            succeeded: true,
        },
        Workflow::Deleting {
            ticket: ticket(SubmitType::User),
            decision: Decision::Approve,
            succeeded: true,
        },
        Workflow::Notifying { ticket: ticket(SubmitType::User), decision: Decision::Approve },
        Workflow::FallingBack { ticket: ticket(SubmitType::User), decision: Decision::Approve },
    ];
    for state in states {
        let (state, action) = step(&channels, state, WorkflowEvent::Failed("forbidden".to_string()));
        assert_eq!(state, Workflow::Resolved(Resolution::Errored));
        assert_eq!(action, WorkflowAction::Stop);
    }
    let (state, action) =
        step(&channels, Workflow::Idle, WorkflowEvent::Failed("forbidden".to_string()));
    assert_eq!(state, Workflow::Idle);
    assert_eq!(action, WorkflowAction::Ignore);
}

#[test]
fn an_ended_workflow_hears_nothing() {
    let channels = routing();
    for resolution in [Resolution::Approved, Resolution::Rejected, Resolution::Errored] {
        for event in [
            click(Button::Approve),
            click(Button::Reject),
            WorkflowEvent::Done,
            WorkflowEvent::Undelivered,
            WorkflowEvent::Failed("x".to_string()),
            WorkflowEvent::Submitted { kind: SubmitType::Ad, submitter: 1 },
        ] {
            let (state, action) = step(&channels, Workflow::Resolved(resolution), event);
            assert_eq!(state, Workflow::Resolved(resolution));
            assert!(state.is_ended());
            assert_eq!(action, WorkflowAction::Ignore);
        }
    }
}

#[test]
fn at_most_one_decision_reaches_the_backend() {
    let channels = routing();
    let buttons = [Button::Approve, Button::Reject, Button::Other];
    for first in buttons {
        for second in buttons {
            for third in buttons {
                let (_, actions) = drive(
                    &channels,
                    Workflow::Posted(ticket(SubmitType::User)),
                    vec![
                        click(first),
                        WorkflowEvent::ReasonGiven("a long enough reason".to_string()),
                        click(second),
                        WorkflowEvent::ReasonAbandoned,
                        click(third),
                        WorkflowEvent::ReasonGiven("another reason given".to_string()),
                    ],
                );
                let calls =
                    actions.iter().filter(|a| matches!(a, WorkflowAction::Call(_))).count();
                assert!(calls <= 1);
            }
        }
    }
}
