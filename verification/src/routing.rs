//! Where notifications go: the categories and the channel set for each.

use vstd::prelude::*;

verus! {

/// The notification categories that a destination channel can be set for.
#[derive(Debug, Clone, Copy, PartialEq, Eq, Structural)]
pub enum NotifChannelType {
    UserSubmit,
    AdSubmit,
    UserVerify,
    AdVerify,
    General,
    DmFallback,
}

/// The categories as a moderator chooses them in the configuration command.
#[derive(Debug, Clone, Copy, PartialEq, Eq, Structural)]
pub enum NotifType {
    UserSubmit,
    AdSubmit,
    UserVerify,
    AdVerify,
    General,
    DmFallback,
}

/// The channel set for each category; any of them may be unset.
#[derive(Debug, Clone, Copy, PartialEq, Eq, Structural)]
pub struct NotifChannels {
    pub user_submit_id: Option<u64>,
    pub ad_submit_id: Option<u64>,
    pub user_verify_id: Option<u64>,
    pub ad_verify_id: Option<u64>,
    pub dm_fallback_id: Option<u64>,
    pub general_id: Option<u64>,
}

impl NotifChannelType {
    /// The key under which the category's channel is stored.
    pub open spec fn key(self) -> Seq<char> {
        match self {
            NotifChannelType::UserSubmit => "notif_channel_ids.user_submit_id"@,
            NotifChannelType::AdSubmit => "notif_channel_ids.ad_submit_id"@,
            NotifChannelType::UserVerify => "notif_channel_ids.user_verify_id"@,
            NotifChannelType::AdVerify => "notif_channel_ids.ad_verify_id"@,
            NotifChannelType::General => "notif_channel_ids.general_id"@,
            NotifChannelType::DmFallback => "notif_channel_ids.dm_fallback_id"@,
        }
    }

    /// The category's storage key as text, for log lines and reports.
    pub fn name(&self) -> (text: &'static str)
        ensures
            text@ == self.key(),
    {
        match self {
            NotifChannelType::UserSubmit => "notif_channel_ids.user_submit_id",
            NotifChannelType::AdSubmit => "notif_channel_ids.ad_submit_id",
            NotifChannelType::UserVerify => "notif_channel_ids.user_verify_id",
            NotifChannelType::AdVerify => "notif_channel_ids.ad_verify_id",
            NotifChannelType::General => "notif_channel_ids.general_id",
            NotifChannelType::DmFallback => "notif_channel_ids.dm_fallback_id",
        }
    }
}

impl NotifChannelType {
    /// The warning given where a message is due and the category has no
    /// channel.
    pub open spec fn warning(self) -> Seq<char> {
        match self {
            NotifChannelType::UserSubmit =>
                "No channel was found for user submit notifications, please set one up using `/set_notification_channel`"@,
            NotifChannelType::AdSubmit =>
                "No channel was found for ad submit notifications, please set one up using `/set_notification_channel`"@,
            NotifChannelType::UserVerify =>
                "No channel was found for user verify notifications, please set one up using `/set_notification_channel`"@,
            NotifChannelType::AdVerify =>
                "No channel was found for ad verify notifications, please set one up using `/set_notification_channel`"@,
            NotifChannelType::General =>
                "No channel was found for general notifications, please set one up using `/set_notification_channel`"@,
            NotifChannelType::DmFallback =>
                "No channel was found for failed dm notifications, please set one up using `/set_notification_channel`"@,
        }
    }

    /// The text of the warning for a category without a channel.
    pub fn missing_channel_warning(&self) -> (text: &'static str)
        ensures
            text@ == self.warning(),
    {
        match self {
            NotifChannelType::UserSubmit =>
                "No channel was found for user submit notifications, please set one up using `/set_notification_channel`",
            NotifChannelType::AdSubmit =>
                "No channel was found for ad submit notifications, please set one up using `/set_notification_channel`",
            NotifChannelType::UserVerify =>
                "No channel was found for user verify notifications, please set one up using `/set_notification_channel`",
            NotifChannelType::AdVerify =>
                "No channel was found for ad verify notifications, please set one up using `/set_notification_channel`",
            NotifChannelType::General =>
                "No channel was found for general notifications, please set one up using `/set_notification_channel`",
            NotifChannelType::DmFallback =>
                "No channel was found for failed dm notifications, please set one up using `/set_notification_channel`",
        }
    }
}

impl NotifType {
    /// The name of the choice as it is shown.
    pub open spec fn shown(self) -> Seq<char> {
        match self {
            NotifType::UserSubmit => "User Submit"@,
            NotifType::AdSubmit => "Ad Submit"@,
            NotifType::UserVerify => "User Verify"@,
            NotifType::AdVerify => "Ad Verify"@,
            NotifType::General => "General"@,
            NotifType::DmFallback => "DM Fallback"@,
        }
    }

    /// The occasion on which the category's channel is written to.
    pub open spec fn occasion(self) -> Seq<char> {
        match self {
            NotifType::UserSubmit => "when someone submits a website"@,
            NotifType::AdSubmit => "when someone submits an ad"@,
            NotifType::UserVerify => "when someone's website gets verified"@,
            NotifType::AdVerify => "when someone's ad gets verified"@,
            NotifType::General => "when someone deletes, edits a website or ad"@,
            NotifType::DmFallback => "when the I fail to dm a user"@,
        }
    }

    /// The name of the choice as text.
    pub fn label(&self) -> (text: &'static str)
        ensures
            text@ == self.shown(),
    {
        match self {
            NotifType::UserSubmit => "User Submit",
            NotifType::AdSubmit => "Ad Submit",
            NotifType::UserVerify => "User Verify",
            NotifType::AdVerify => "Ad Verify",
            NotifType::General => "General",
            NotifType::DmFallback => "DM Fallback",
        }
    }

    /// The occasion of the category as text.
    pub fn description(&self) -> (text: &'static str)
        ensures
            text@ == self.occasion(),
    {
        match self {
            NotifType::UserSubmit => "when someone submits a website",
            NotifType::AdSubmit => "when someone submits an ad",
            NotifType::UserVerify => "when someone's website gets verified",
            NotifType::AdVerify => "when someone's ad gets verified",
            NotifType::General => "when someone deletes, edits a website or ad",
            NotifType::DmFallback => "when the I fail to dm a user",
        }
    }

    /// The storage category that a moderator's choice stands for.
    pub open spec fn category(self) -> NotifChannelType {
        match self {
            NotifType::UserSubmit => NotifChannelType::UserSubmit,
            NotifType::AdSubmit => NotifChannelType::AdSubmit,
            NotifType::UserVerify => NotifChannelType::UserVerify,
            NotifType::AdVerify => NotifChannelType::AdVerify,
            NotifType::General => NotifChannelType::General,
            NotifType::DmFallback => NotifChannelType::DmFallback,
        }
    }

    /// Maps the moderator's choice to its storage category.
    pub fn channel_type(&self) -> (category: NotifChannelType)
        ensures
            category == self.category(),
    {
        match self {
            NotifType::UserSubmit => NotifChannelType::UserSubmit,
            NotifType::AdSubmit => NotifChannelType::AdSubmit,
            NotifType::UserVerify => NotifChannelType::UserVerify,
            NotifType::AdVerify => NotifChannelType::AdVerify,
            NotifType::General => NotifChannelType::General,
            NotifType::DmFallback => NotifChannelType::DmFallback,
        }
    }
}

impl NotifChannels {
    /// No category has a channel.
    pub open spec fn unset() -> NotifChannels {
        NotifChannels {
            user_submit_id: None,
            ad_submit_id: None,
            user_verify_id: None,
            ad_verify_id: None,
            dm_fallback_id: None,
            general_id: None,
        }
    }

    /// The channel stored for a category.
    pub open spec fn lookup(self, category: NotifChannelType) -> Option<u64> {
        match category {
            NotifChannelType::UserSubmit => self.user_submit_id,
            NotifChannelType::AdSubmit => self.ad_submit_id,
            NotifChannelType::UserVerify => self.user_verify_id,
            NotifChannelType::AdVerify => self.ad_verify_id,
            NotifChannelType::General => self.general_id,
            NotifChannelType::DmFallback => self.dm_fallback_id,
        }
    }

    /// The same routing with one category's channel replaced.
    pub open spec fn with(self, category: NotifChannelType, channel_id: u64) -> NotifChannels {
        match category {
            NotifChannelType::UserSubmit => NotifChannels {
                user_submit_id: Some(channel_id),
                ..self
            },
            NotifChannelType::AdSubmit => NotifChannels { ad_submit_id: Some(channel_id), ..self },
            NotifChannelType::UserVerify => NotifChannels {
                user_verify_id: Some(channel_id),
                ..self
            },
            NotifChannelType::AdVerify => NotifChannels { ad_verify_id: Some(channel_id), ..self },
            NotifChannelType::General => NotifChannels { general_id: Some(channel_id), ..self },
            NotifChannelType::DmFallback => NotifChannels {
                dm_fallback_id: Some(channel_id),
                ..self
            },
        }
    }

    /// The channel a message for the category can be sent to: the stored
    /// one, unless it is absent or the identifier zero, which names no
    /// channel.
    pub open spec fn destination(self, category: NotifChannelType) -> Option<u64> {
        match self.lookup(category) {
            Some(channel_id) => if channel_id == 0 {
                None
            } else {
                Some(channel_id)
            },
            None => None,
        }
    }

    /// Routing with every category unset.
    pub fn new() -> (channels: NotifChannels)
        ensures
            channels == NotifChannels::unset(),
    {
        NotifChannels {
            user_submit_id: None,
            ad_submit_id: None,
            user_verify_id: None,
            ad_verify_id: None,
            dm_fallback_id: None,
            general_id: None,
        }
    }

    /// Reads the channel stored for a category.
    pub fn get(&self, category: NotifChannelType) -> (channel: Option<u64>)
        ensures
            channel == self.lookup(category),
    {
        match category {
            NotifChannelType::UserSubmit => self.user_submit_id,
            NotifChannelType::AdSubmit => self.ad_submit_id,
            NotifChannelType::UserVerify => self.user_verify_id,
            NotifChannelType::AdVerify => self.ad_verify_id,
            NotifChannelType::General => self.general_id,
            NotifChannelType::DmFallback => self.dm_fallback_id,
        }
    }

    /// Stores a channel for a category and leaves the others as they were.
    pub fn set(&mut self, category: NotifChannelType, channel_id: u64)
        ensures
            *final(self) == old(self).with(category, channel_id),
    {
        match category {
            NotifChannelType::UserSubmit => self.user_submit_id = Some(channel_id),
            NotifChannelType::AdSubmit => self.ad_submit_id = Some(channel_id),
            NotifChannelType::UserVerify => self.user_verify_id = Some(channel_id),
            NotifChannelType::AdVerify => self.ad_verify_id = Some(channel_id),
            NotifChannelType::General => self.general_id = Some(channel_id),
            NotifChannelType::DmFallback => self.dm_fallback_id = Some(channel_id),
        }
    }

    /// The channel to send to for a category, or `None` where the category
    /// is unset or holds the identifier zero.
    pub fn route(&self, category: NotifChannelType) -> (channel: Option<u64>)
        ensures
            channel == self.destination(category),
            channel matches Some(id) ==> id != 0 && self.lookup(category) == Some(id),
    {
        match self.get(category) {
            Some(channel_id) => if channel_id == 0 {
                None
            } else {
                Some(channel_id)
            },
            None => None,
        }
    }
}

impl NotifChannelType {
    /// What the overview of all channels says of a category whose stored
    /// channel cannot be found on the platform.
    pub open spec fn invalid(self) -> Seq<char> {
        match self {
            NotifChannelType::UserSubmit =>
                "User Submit: Invalid channel id, did a channel get deleted?"@,
            NotifChannelType::AdSubmit => "Ad Submit: Invalid channel id, did a channel get deleted?"@,
            NotifChannelType::UserVerify =>
                "User Verify: Invalid channel id, did a channel get deleted?"@,
            NotifChannelType::AdVerify => "Ad Verify: Invalid channel id, did a channel get deleted?"@,
            NotifChannelType::General => "Invalid channel id, did a channel get deleted?"@,
            NotifChannelType::DmFallback => "Invalid channel id, did a channel get deleted?"@,
        }
    }

    /// What the overview of all channels says of a category: that it is
    /// unset, or the channel as the platform shows it, or, where the stored
    /// channel is not found, that it is invalid.
    pub open spec fn overview(self, stored: Option<u64>, found: Option<String>) -> Seq<char> {
        match stored {
            None => "Unset! Set it using `/set_notification_channel`"@,
            Some(_) => match found {
                Some(shown) => shown@,
                None => self.invalid(),
            },
        }
    }

    /// The line of the overview for a category. `found` is the channel as
    /// the platform shows it, where the stored channel was looked up and
    /// exists.
    pub fn overview_line(&self, stored: Option<u64>, found: Option<String>) -> (line: String)
        ensures
            line@ == self.overview(stored, found),
    {
        match stored {
            None => String::from_str("Unset! Set it using `/set_notification_channel`"),
            Some(_) => match found {
                Some(shown) => shown,
                None => String::from_str(
                    match self {
                        NotifChannelType::UserSubmit =>
                            "User Submit: Invalid channel id, did a channel get deleted?",
                        NotifChannelType::AdSubmit =>
                            "Ad Submit: Invalid channel id, did a channel get deleted?",
                        NotifChannelType::UserVerify =>
                            "User Verify: Invalid channel id, did a channel get deleted?",
                        NotifChannelType::AdVerify =>
                            "Ad Verify: Invalid channel id, did a channel get deleted?",
                        NotifChannelType::General => "Invalid channel id, did a channel get deleted?",
                        NotifChannelType::DmFallback =>
                            "Invalid channel id, did a channel get deleted?",
                    },
                ),
            },
        }
    }
}

/// Setting a category and reading it back gives the channel that was set,
/// and no other category changes.
pub proof fn lemma_set_then_lookup(
    channels: NotifChannels,
    category: NotifChannelType,
    channel_id: u64,
    other: NotifChannelType,
)
    ensures
        channels.with(category, channel_id).lookup(category) == Some(channel_id),
        other != category ==> channels.with(category, channel_id).lookup(other) == channels.lookup(
            other,
        ),
{
}

} // verus!
