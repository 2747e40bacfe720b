use collar::notifs::{Delivery, Notif};
use collar::routing::{NotifChannelType, NotifChannels};
use collar::workflow::{SubmitType, VerifyType, Workflow};

fn routing() -> NotifChannels {
    let mut channels = NotifChannels::new();
    channels.set(NotifChannelType::UserSubmit, 11);
    channels.set(NotifChannelType::AdSubmit, 12);
    channels.set(NotifChannelType::UserVerify, 13);
    channels.set(NotifChannelType::AdVerify, 14);
    channels.set(NotifChannelType::General, 15);
    channels.set(NotifChannelType::DmFallback, 16);
    channels
}

#[test]
fn set_embed_replaces_the_content() {
    let mut notif = Notif::new("first".to_string());
    notif.set_embed("second".to_string());
    assert_eq!(
        notif.general(&routing()),
        Delivery::Send { channel: 15, content: "second".to_string() }
    );
}

#[test]
fn general_notification_goes_to_the_general_channel() {
    assert_eq!(Notif::new(7u8).general(&routing()), Delivery::Send { channel: 15, content: 7u8 });
}

#[test]
fn general_notification_without_a_channel_warns() {
    assert_eq!(
        Notif::new(7u8).general(&NotifChannels::new()),
        Delivery::Warn { category: NotifChannelType::General }
    );
}

#[test]
fn verification_goes_to_the_channel_of_its_kind() {
    assert_eq!(
        Notif::new("v").verification(&routing(), VerifyType::User),
        Delivery::Send { channel: 13, content: "v" }
    );
    assert_eq!(
        Notif::new("v").verification(&routing(), VerifyType::Ad),
        Delivery::Send { channel: 14, content: "v" }
    );
    assert_eq!(
        Notif::new("v").verification(&NotifChannels::new(), VerifyType::Ad),
        Delivery::Warn { category: NotifChannelType::AdVerify }
    );
}

#[test]
fn delivered_direct_message_needs_nothing_more() {
    assert_eq!(Notif::new("hello").dm_notif(&routing(), true), None);
    assert_eq!(Notif::new("hello").dm_notif(&NotifChannels::new(), true), None);
}

#[test]
fn failed_direct_message_falls_back_with_the_same_content() {
    assert_eq!(
        Notif::new("hello").dm_notif(&routing(), false),
        Some(Delivery::Send { channel: 16, content: "hello" })
    );
}

#[test]
fn failed_direct_message_without_a_fallback_channel_warns() {
    assert_eq!(
        Notif::new("hello").dm_notif(&NotifChannels::new(), false),
        Some(Delivery::Warn { category: NotifChannelType::DmFallback })
    );
    let mut channels = routing();
    channels.dm_fallback_id = Some(0);
    assert_eq!(
        Notif::new("hello").dm_notif(&channels, false),
        Some(Delivery::Warn { category: NotifChannelType::DmFallback })
    );
}

#[test]
fn submit_starts_the_workflow() {
    let (state, delivery) = Notif::new("summary").submit(&routing(), 42, SubmitType::Ad);
    assert_eq!(state, Workflow::Posting { kind: SubmitType::Ad, submitter: 42 });
    assert_eq!(delivery, Delivery::Send { channel: 12, content: "summary" });
}

#[test]
fn submit_without_a_channel_halts_the_workflow() {
    let (state, delivery) = Notif::new("summary").submit(&NotifChannels::new(), 42, SubmitType::User);
    assert_eq!(state, Workflow::Halted);
    assert_eq!(delivery, Delivery::Warn { category: NotifChannelType::UserSubmit });
}
