//! The records that the commands exchange with the backend, and the rules
//! that the commands apply to them: which call a command makes, when a
//! record may be shown, and how dates and feedback are put into text.

use crate::client::{Call, CallView, Method};
use crate::text::{decimal, decimal_string, join, join3, signed_decimal, signed_decimal_string};
use vstd::prelude::*;

verus! {

/// A member's site in the directory.
#[derive(Debug, PartialEq, Eq)]
pub struct User {
    pub username: String,
    pub discord_id: u64,
    pub url: String,
    pub verified: bool,
    pub created_at: String,
    pub edited_at: String,
    pub verified_at: String,
}

/// A site before and after an edit.
#[derive(Debug, PartialEq, Eq)]
pub struct EditedUser {
    pub old: User,
    pub new: User,
}

/// What a member fills in to add a site.
#[derive(Debug, PartialEq, Eq)]
pub struct AddWebsite {
    pub username: String,
    pub url: String,
    pub reason: Option<String>,
}

/// The body of the call that submits a site.
#[derive(Debug, PartialEq, Eq)]
pub struct UserSubmission {
    pub username: String,
    pub url: String,
    pub discord_id: u64,
}

/// What a member fills in to edit a site.
#[derive(Debug, PartialEq, Eq)]
pub struct EditSubmission {
    pub username: Option<String>,
    pub url: Option<String>,
}

/// The body of the call that edits a site.
#[derive(Debug, PartialEq, Eq)]
pub struct UserEditSubmission {
    pub discord_id: u64,
    pub username: Option<String>,
    pub url: Option<String>,
}

/// What a member fills in to submit an ad.
#[derive(Debug, PartialEq, Eq)]
pub struct AdSubmission {
    pub image_url: String,
}

/// The body of the calls that submit or edit an ad.
#[derive(Debug, PartialEq, Eq)]
pub struct ImageSubmission {
    pub image_url: String,
    pub discord_id: u64,
}

/// A member's ad in the directory.
#[derive(Debug, PartialEq, Eq)]
pub struct Ad {
    pub username: String,
    pub discord_id: u64,
    pub image_url: String,
    pub ad_url: String,
    pub verified: bool,
    pub created_at: String,
    pub edited_at: String,
    pub verified_at: String,
}

/// What a member fills in to edit an ad.
#[derive(Debug, PartialEq, Eq)]
pub struct AdEditSubmission {
    pub image_url: String,
}

/// What feedback is about.
#[derive(Debug, Clone, Copy, PartialEq, Eq, Structural)]
pub enum FeedbackTopicType {
    PetRing,
    PetAds,
    Collar,
}

/// What a member fills in to give feedback.
#[derive(Debug, PartialEq, Eq)]
pub struct FeedbackSubmission {
    pub title: String,
    pub description: String,
}

/// The author line of a feedback post.
#[derive(Debug, PartialEq, Eq)]
pub struct WebhookEmbedAuthor {
    pub name: String,
}

/// The picture of a feedback post.
#[derive(Debug, PartialEq, Eq)]
pub struct WebhookEmbedThumbnail {
    pub url: String,
}

/// The foot line of a feedback post.
#[derive(Debug, PartialEq, Eq)]
pub struct WebhookEmbedFooter {
    pub text: String,
}

/// The card of a feedback post.
#[derive(Debug, PartialEq, Eq)]
pub struct WebhookEmbed {
    pub title: String,
    pub description: String,
    pub color: i64,
    pub footer: WebhookEmbedFooter,
    pub thumbnail: WebhookEmbedThumbnail,
    pub author: WebhookEmbedAuthor,
}

/// A feedback post as the webhook takes it.
#[derive(Debug, PartialEq, Eq)]
pub struct WebhookPost {
    pub username: String,
    pub avatar_url: String,
    pub tts: bool,
    pub embeds: Vec<WebhookEmbed>,
}

/// The colour of a feedback card: plain red.
pub const FEEDBACK_COLOR: i64 = 16711680;

/// The foot line of every card the bot sends.
pub open spec fn footer_text() -> Seq<char> {
    "Collar :3, a Discord bot helper for PetRing and PetAds :3"@
}

/// The foot line of every card the bot sends, as text.
pub fn collar_footer() -> (text: &'static str)
    ensures
        text@ == footer_text(),
{
    "Collar :3, a Discord bot helper for PetRing and PetAds :3"
}

/// Why a record from the backend is not shown or acted on.
#[derive(Debug, Clone, Copy, PartialEq, Eq, Structural)]
pub enum RecordError {
    /// The record belongs to someone else.
    UserNotFound,
    /// The site has not been verified.
    UserNotVerified,
    /// The backend answered a verification with an unverified record.
    FailedToVerify,
    /// The ad belongs to someone else.
    AdNotFound,
    /// The ad has not been verified.
    AdNotVerified,
}

impl RecordError {
    /// The report of the refusal.
    pub open spec fn text(self) -> Seq<char> {
        match self {
            RecordError::UserNotFound => "User not found"@,
            RecordError::UserNotVerified => "User not verified"@,
            RecordError::FailedToVerify => "User failed to verify"@,
            RecordError::AdNotFound => "Ad not found"@,
            RecordError::AdNotVerified => "Ad not verified"@,
        }
    }

    /// The report of the refusal as text.
    pub fn message(&self) -> (text: &'static str)
        ensures
            text@ == self.text(),
    {
        match self {
            RecordError::UserNotFound => "User not found",
            RecordError::UserNotVerified => "User not verified",
            RecordError::FailedToVerify => "User failed to verify",
            RecordError::AdNotFound => "Ad not found",
            RecordError::AdNotVerified => "Ad not verified",
        }
    }
}

/// The rule for showing a record: it must belong to the member asked
/// about, and it must be verified.
pub open spec fn shown(owner: u64, verified: bool, member: u64, missing: RecordError, unverified:
    RecordError) -> Result<(), RecordError> {
    if owner != member {
        Err(missing)
    } else if !verified {
        Err(unverified)
    } else {
        Ok(())
    }
}

/// The rule for a record that comes back from a verification: it must be
/// verified, and it must belong to the member that was verified.
pub open spec fn confirmed(owner: u64, verified: bool, member: u64) -> Result<(), RecordError> {
    if !verified {
        Err(RecordError::FailedToVerify)
    } else if owner != member {
        Err(RecordError::UserNotFound)
    } else {
        Ok(())
    }
}

/// The rule for a record that comes back from a change: it must belong to
/// the member who made the change.
pub open spec fn owned(owner: u64, member: u64, missing: RecordError) -> Result<(), RecordError> {
    if owner != member {
        Err(missing)
    } else {
        Ok(())
    }
}

impl User {
    /// Whether the site may be shown as that of `member`.
    pub fn shown_for(&self, member: u64) -> (outcome: Result<(), RecordError>)
        ensures
            outcome == shown(
                self.discord_id,
                self.verified,
                member,
                RecordError::UserNotFound,
                RecordError::UserNotVerified,
            ),
    {
        if self.discord_id != member {
            Err(RecordError::UserNotFound)
        } else if !self.verified {
            Err(RecordError::UserNotVerified)
        } else {
            Ok(())
        }
    }

    /// Whether the site is the one that `member` submitted or edited.
    pub fn owned_by(&self, member: u64) -> (outcome: Result<(), RecordError>)
        ensures
            outcome == owned(self.discord_id, member, RecordError::UserNotFound),
    {
        if self.discord_id != member {
            Err(RecordError::UserNotFound)
        } else {
            Ok(())
        }
    }

    /// Whether the site is the verified site of `member`, after a
    /// verification.
    pub fn confirmed_for(&self, member: u64) -> (outcome: Result<(), RecordError>)
        ensures
            outcome == confirmed(self.discord_id, self.verified, member),
    {
        if !self.verified {
            Err(RecordError::FailedToVerify)
        } else if self.discord_id != member {
            Err(RecordError::UserNotFound)
        } else {
            Ok(())
        }
    }

    /// The address of the member's page on the public site.
    pub fn page(&self, base_url: &str) -> (url: String)
        ensures
            url@ == base_url@ + "/user/"@ + self.username@,
    {
        join3(base_url, "/user/", self.username.as_str())
    }
}

impl EditedUser {
    /// Whether the edit is that of `member`.
    pub fn owned_by(&self, member: u64) -> (outcome: Result<(), RecordError>)
        ensures
            outcome == owned(self.new.discord_id, member, RecordError::UserNotFound),
    {
        self.new.owned_by(member)
    }

    /// Whether the edit changed the name.
    pub fn renamed(&self) -> (changed: bool)
        ensures
            changed == (self.old.username@ != self.new.username@),
    {
        !(self.old.username == self.new.username)
    }

    /// Whether the edit changed the address.
    pub fn moved(&self) -> (changed: bool)
        ensures
            changed == (self.old.url@ != self.new.url@),
    {
        !(self.old.url == self.new.url)
    }
}

impl Ad {
    /// Whether the ad may be shown as that of `member`.
    pub fn shown_for(&self, member: u64) -> (outcome: Result<(), RecordError>)
        ensures
            outcome == shown(
                self.discord_id,
                self.verified,
                member,
                RecordError::AdNotFound,
                RecordError::AdNotVerified,
            ),
    {
        if self.discord_id != member {
            Err(RecordError::AdNotFound)
        } else if !self.verified {
            Err(RecordError::AdNotVerified)
        } else {
            Ok(())
        }
    }

    /// Whether the ad is the one that `member` submitted or edited.
    pub fn owned_by(&self, member: u64) -> (outcome: Result<(), RecordError>)
        ensures
            outcome == owned(self.discord_id, member, RecordError::UserNotFound),
    {
        if self.discord_id != member {
            Err(RecordError::UserNotFound)
        } else {
            Ok(())
        }
    }

    /// Whether the ad is the verified ad of `member`, after a verification.
    pub fn confirmed_for(&self, member: u64) -> (outcome: Result<(), RecordError>)
        ensures
            outcome == confirmed(self.discord_id, self.verified, member),
    {
        if !self.verified {
            Err(RecordError::FailedToVerify)
        } else if self.discord_id != member {
            Err(RecordError::UserNotFound)
        } else {
            Ok(())
        }
    }

    /// Whether the removed ad was that of `member`.
    pub fn removed_for(&self, member: u64) -> (outcome: Result<(), RecordError>)
        ensures
            outcome == owned(self.discord_id, member, RecordError::AdNotFound),
    {
        if self.discord_id != member {
            Err(RecordError::AdNotFound)
        } else {
            Ok(())
        }
    }

    /// The address of the member's page on the public site.
    pub fn page(&self, base_url: &str) -> (url: String)
        ensures
            url@ == base_url@ + "/user/"@ + self.username@,
    {
        join3(base_url, "/user/", self.username.as_str())
    }
}

impl AddWebsite {
    /// The body to submit for `discord_id`, and the reason given, which
    /// goes to the staff and not to the backend.
    pub fn into_submission(self, discord_id: u64) -> (parts: (UserSubmission, Option<String>))
        ensures
            parts.0.username == self.username,
            parts.0.url == self.url,
            parts.0.discord_id == discord_id,
            parts.1 == self.reason,
    {
        (UserSubmission { username: self.username, url: self.url, discord_id }, self.reason)
    }
}

impl EditSubmission {
    /// The body to submit for `discord_id`.
    pub fn into_submission(self, discord_id: u64) -> (body: UserEditSubmission)
        ensures
            body.username == self.username,
            body.url == self.url,
            body.discord_id == discord_id,
    {
        UserEditSubmission { discord_id, username: self.username, url: self.url }
    }
}

impl AdSubmission {
    /// The body to submit for `discord_id`.
    pub fn into_submission(self, discord_id: u64) -> (body: ImageSubmission)
        ensures
            body.image_url == self.image_url,
            body.discord_id == discord_id,
    {
        ImageSubmission { image_url: self.image_url, discord_id }
    }
}

impl AdEditSubmission {
    /// The body to submit for `discord_id`.
    pub fn into_submission(self, discord_id: u64) -> (body: ImageSubmission)
        ensures
            body.image_url == self.image_url,
            body.discord_id == discord_id,
    {
        ImageSubmission { image_url: self.image_url, discord_id }
    }
}

/// The commands that call the backend.
#[derive(Debug, Clone, Copy, PartialEq, Eq, Structural)]
pub enum Command {
    /// A member's own site, or that of another member.
    GetUser,
    SubmitUser,
    EditUser,
    VerifyUser,
    RemoveUser,
    MyAd,
    SubmitAd,
    EditAd,
    VerifyAd,
    RemoveAd,
}

impl Command {
    /// The call that a command makes for a member: the method, the route,
    /// which ends in the member's identifier where the route names one, and
    /// whether a body goes along.
    pub open spec fn endpoint(self, member: u64) -> CallView {
        let id = decimal(member as nat);
        match self {
            Command::GetUser => CallView {
                method: Method::Get,
                route: "/api/get/user/by-discord/"@ + id,
                with_body: false,
            },
            Command::SubmitUser => CallView {
                method: Method::Post,
                route: "/api/post/user/submit"@,
                with_body: true,
            },
            Command::EditUser => CallView {
                method: Method::Patch,
                route: "/api/patch/user/edit/"@,
                with_body: true,
            },
            Command::VerifyUser => CallView {
                method: Method::Patch,
                route: "/api/patch/user/verify/"@ + id,
                with_body: false,
            },
            Command::RemoveUser => CallView {
                method: Method::Delete,
                route: "/api/delete/user/by-discord/"@ + id,
                with_body: false,
            },
            Command::MyAd => CallView {
                method: Method::Get,
                route: "/get/ad/"@ + id,
                with_body: false,
            },
            Command::SubmitAd => CallView {
                method: Method::Post,
                route: "/post/ad/submit"@,
                with_body: true,
            },
            Command::EditAd => CallView {
                method: Method::Patch,
                route: "/patch/ad/edit/"@,
                with_body: true,
            },
            Command::VerifyAd => CallView {
                method: Method::Patch,
                route: "/patch/ad/verify/"@ + id,
                with_body: false,
            },
            Command::RemoveAd => CallView {
                method: Method::Delete,
                route: "/delete/ad/by-discord/"@ + id,
                with_body: false,
            },
        }
    }

    /// Builds the call that the command makes for a member.
    pub fn call(&self, member: u64) -> (call: Call)
        ensures
            call@ == self.endpoint(member),
    {
        let id = decimal_string(member);
        match self {
            Command::GetUser => Call {
                method: Method::Get,
                route: join("/api/get/user/by-discord/", id.as_str()),
                with_body: false,
            },
            Command::SubmitUser => Call {
                method: Method::Post,
                route: String::from_str("/api/post/user/submit"),
                with_body: true,
            },
            Command::EditUser => Call {
                method: Method::Patch,
                route: String::from_str("/api/patch/user/edit/"),
                with_body: true,
            },
            Command::VerifyUser => Call {
                method: Method::Patch,
                route: join("/api/patch/user/verify/", id.as_str()),
                with_body: false,
            },
            Command::RemoveUser => Call {
                method: Method::Delete,
                route: join("/api/delete/user/by-discord/", id.as_str()),
                with_body: false,
            },
            Command::MyAd => Call {
                method: Method::Get,
                route: join("/get/ad/", id.as_str()),
                with_body: false,
            },
            Command::SubmitAd => Call {
                method: Method::Post,
                route: String::from_str("/post/ad/submit"),
                with_body: true,
            },
            Command::EditAd => Call {
                method: Method::Patch,
                route: String::from_str("/patch/ad/edit/"),
                with_body: true,
            },
            Command::VerifyAd => Call {
                method: Method::Patch,
                route: join("/patch/ad/verify/", id.as_str()),
                with_body: false,
            },
            Command::RemoveAd => Call {
                method: Method::Delete,
                route: join("/delete/ad/by-discord/", id.as_str()),
                with_body: false,
            },
        }
    }
}

/// The ways in which the chat platform can show a moment in time.
#[derive(Debug, Clone, Copy, PartialEq, Eq, Structural)]
pub enum TimestampStyle {
    ShortTime,
    LongTime,
    ShortDate,
    LongDate,
    ShortDateTime,
    LongDateTime,
    RelativeTime,
}

impl TimestampStyle {
    /// The letter that selects the style.
    pub open spec fn letter(self) -> Seq<char> {
        match self {
            TimestampStyle::ShortTime => "t"@,
            TimestampStyle::LongTime => "T"@,
            TimestampStyle::ShortDate => "d"@,
            TimestampStyle::LongDate => "D"@,
            TimestampStyle::ShortDateTime => "f"@,
            TimestampStyle::LongDateTime => "F"@,
            TimestampStyle::RelativeTime => "R"@,
        }
    }

    /// The letter that selects the style, as text.
    pub fn code(&self) -> (text: &'static str)
        ensures
            text@ == self.letter(),
    {
        match self {
            TimestampStyle::ShortTime => "t",
            TimestampStyle::LongTime => "T",
            TimestampStyle::ShortDate => "d",
            TimestampStyle::LongDate => "D",
            TimestampStyle::ShortDateTime => "f",
            TimestampStyle::LongDateTime => "F",
            TimestampStyle::RelativeTime => "R",
        }
    }
}

/// The mark-up with which the chat platform shows a moment, given as Unix
/// seconds, in each reader's own time zone.
pub open spec fn stamp(seconds: int, style: Option<TimestampStyle>) -> Seq<char> {
    match style {
        Some(chosen) => "<t:"@ + signed_decimal(seconds) + ":"@ + chosen.letter() + ">"@,
        None => "<t:"@ + signed_decimal(seconds) + ">"@,
    }
}

/// Writes the mark-up for a moment.
pub fn render_timestamp(seconds: i64, style: Option<TimestampStyle>) -> (text: String)
    ensures
        text@ == stamp(seconds as int, style),
{
    let digits = signed_decimal_string(seconds);
    match style {
        Some(chosen) => {
            let text = String::from_str("<t:").concat(digits.as_str()).concat(":").concat(
                chosen.code(),
            ).concat(">");
            text
        },
        None => join3("<t:", digits.as_str(), ">"),
    }
}

/// The Unix seconds of the moment that a text names in the RFC 3339
/// date-and-time format, or `None` where the text is not in that format.
pub uninterp spec fn rfc3339_seconds(text: Seq<char>) -> Option<i64>;

/// Parses a date and time with `chrono::DateTime::parse_from_rfc3339` and
/// reads its Unix seconds with `chrono::DateTime::timestamp`. The result
/// depends on the text alone; nothing more is claimed of it than that.
#[verifier::external_body]
fn parse_rfc3339(text: &str) -> (seconds: Option<i64>)
    ensures
        seconds == rfc3339_seconds(text@),
{
    match chrono::DateTime::parse_from_rfc3339(text) {
        Ok(moment) => Some(moment.timestamp()),
        Err(_) => None,
    }
}

/// A date from the backend that is not in the RFC 3339 format.
#[derive(Debug, PartialEq, Eq)]
pub struct TimestampError {
    /// The text that could not be read.
    pub text: String,
}

/// What a date from the backend is shown as, given the seconds that were
/// read from it: the mark-up for the moment, or an error that carries the
/// text where no moment could be read.
pub fn show_timestamp(text: &str, seconds: Option<i64>, style: Option<TimestampStyle>) -> (shown:
    Result<String, TimestampError>)
    ensures
        match seconds {
            Some(moment) => shown matches Ok(mark) && mark@ == stamp(moment as int, style),
            None => shown matches Err(error) && error.text@ == text@,
        },
{
    match seconds {
        Some(moment) => Ok(render_timestamp(moment, style)),
        None => Err(TimestampError { text: String::from_str(text) }),
    }
}

/// Shows a date from the backend as the chat platform's mark-up.
pub fn format_timestamp(text: &str, style: Option<TimestampStyle>) -> (shown: Result<
    String,
    TimestampError,
>)
    ensures
        match rfc3339_seconds(text@) {
            Some(moment) => shown matches Ok(mark) && mark@ == stamp(moment as int, style),
            None => shown matches Err(error) && error.text@ == text@,
        },
{
    show_timestamp(text, parse_rfc3339(text), style)
}

/// Shows a date that may be missing: an empty text stands for something
/// that has not happened, and is shown as "Never".
pub fn format_timestamp_or_never(text: &str, style: Option<TimestampStyle>) -> (shown: Result<
    String,
    TimestampError,
>)
    ensures
        text@.len() == 0 ==> (shown matches Ok(mark) && mark@ == "Never"@),
        text@.len() != 0 ==> (match rfc3339_seconds(text@) {
            Some(moment) => shown matches Ok(mark) && mark@ == stamp(moment as int, style),
            None => shown matches Err(error) && error.text@ == text@,
        }),
{
    if text.unicode_len() == 0 {
        Ok(String::from_str("Never"))
    } else {
        format_timestamp(text, style)
    }
}

impl FeedbackTopicType {
    /// The author line for a topic.
    pub open spec fn regarding(self) -> Seq<char> {
        match self {
            FeedbackTopicType::PetRing => "Regarding: PetRing"@,
            FeedbackTopicType::PetAds => "Regarding: PetAds"@,
            FeedbackTopicType::Collar => "Regarding: Collar"@,
        }
    }

    /// The author line for a topic, as text.
    pub fn author(&self) -> (author: WebhookEmbedAuthor)
        ensures
            author.name@ == self.regarding(),
    {
        match self {
            FeedbackTopicType::PetRing => WebhookEmbedAuthor {
                name: String::from_str("Regarding: PetRing"),
            },
            FeedbackTopicType::PetAds => WebhookEmbedAuthor {
                name: String::from_str("Regarding: PetAds"),
            },
            FeedbackTopicType::Collar => WebhookEmbedAuthor {
                name: String::from_str("Regarding: Collar"),
            },
        }
    }
}

impl FeedbackSubmission {
    /// The post that carries the feedback to the webhook: one red card with
    /// the title and description as given, the topic as author and the
    /// member's picture, posted under the member's name.
    pub fn into_post(self, topic: FeedbackTopicType, user_name: String, user_pfp: String) -> (post:
        WebhookPost)
        ensures
            post.username == user_name,
            post.avatar_url@ == user_pfp@,
            !post.tts,
            post.embeds@.len() == 1,
            post.embeds@[0].title == self.title,
            post.embeds@[0].description == self.description,
            post.embeds@[0].color == FEEDBACK_COLOR,
            post.embeds@[0].footer.text@ == footer_text(),
            post.embeds@[0].thumbnail.url@ == user_pfp@,
            post.embeds@[0].author.name@ == topic.regarding(),
    {
        let embed = WebhookEmbed {
            author: topic.author(),
            color: FEEDBACK_COLOR,
            title: self.title,
            description: self.description,
            footer: WebhookEmbedFooter { text: String::from_str(collar_footer()) },
            thumbnail: WebhookEmbedThumbnail { url: user_pfp.clone() },
        };
        let mut embeds: Vec<WebhookEmbed> = Vec::new();
        embeds.push(embed);
        WebhookPost { avatar_url: user_pfp, username: user_name, embeds, tts: false }
    }
}

} // verus!
