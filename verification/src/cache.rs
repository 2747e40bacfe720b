//! The credential store: the token pair, the notification routing and the
//! service addresses, kept together as the one record that is persisted.

use crate::credential::{Secrets, SecretsView};
use crate::routing::{NotifChannelType, NotifChannels};
use crate::text::join;
use vstd::prelude::*;

verus! {

/// The base addresses of the directory service.
#[derive(Debug, PartialEq, Eq)]
pub struct Urls {
    pub api_base_url: String,
    pub web_base_url: String,
}

/// What a [`Urls`] value holds, as mathematical values.
pub struct UrlsView {
    pub api_base_url: Seq<char>,
    pub web_base_url: Seq<char>,
}

impl View for Urls {
    type V = UrlsView;

    open spec fn view(&self) -> UrlsView {
        UrlsView { api_base_url: self.api_base_url@, web_base_url: self.web_base_url@ }
    }
}

impl Clone for Urls {
    fn clone(&self) -> (copy: Self)
        ensures
            copy == *self,
    {
        Urls { api_base_url: self.api_base_url.clone(), web_base_url: self.web_base_url.clone() }
    }
}

/// The store. `generation` counts the credential installs made in this
/// process; it is not part of the persisted record.
#[derive(Debug, PartialEq, Eq)]
pub struct Cache {
    secrets: Secrets,
    notif_channel_ids: NotifChannels,
    feedback_webhook: Option<String>,
    urls: Urls,
    generation: u64,
}

/// What a [`Cache`] holds, as mathematical values.
pub struct CacheView {
    pub secrets: SecretsView,
    pub notif_channel_ids: NotifChannels,
    pub feedback_webhook: Option<Seq<char>>,
    pub urls: UrlsView,
    pub generation: nat,
}

impl View for Cache {
    type V = CacheView;

    closed spec fn view(&self) -> CacheView {
        CacheView {
            secrets: self.secrets@,
            notif_channel_ids: self.notif_channel_ids,
            feedback_webhook: match self.feedback_webhook {
                Some(webhook) => Some(webhook@),
                None => None,
            },
            urls: self.urls@,
            generation: self.generation as nat,
        }
    }
}

impl CacheView {
    /// The store with nothing in it: no credential, no routing, no
    /// addresses.
    pub open spec fn blank() -> CacheView {
        CacheView {
            secrets: SecretsView::empty(),
            notif_channel_ids: NotifChannels::unset(),
            feedback_webhook: None,
            urls: UrlsView { api_base_url: Seq::empty(), web_base_url: Seq::empty() },
            generation: 0,
        }
    }

    /// The blank store with the public addresses of the service filled in.
    pub open spec fn standard() -> CacheView {
        CacheView {
            urls: UrlsView {
                api_base_url: "https://api.webring.pet"@,
                web_base_url: "https://webring.pet"@,
            },
            ..CacheView::blank()
        }
    }

    /// The generation that follows `generation`.
    pub open spec fn next_generation(generation: nat) -> nat {
        if generation >= u64::MAX {
            0
        } else {
            generation + 1
        }
    }

    /// The store after a credential was installed: the pair is replaced and
    /// the generation moves on.
    pub open spec fn installed(self, secrets: SecretsView) -> CacheView {
        CacheView { secrets, generation: Self::next_generation(self.generation), ..self }
    }

    /// The part of the store that is written to durable storage, which is
    /// everything but the generation.
    pub open spec fn record(self) -> CacheView {
        CacheView { generation: 0, ..self }
    }
}

impl Clone for Cache {
    fn clone(&self) -> (copy: Self)
        ensures
            copy@ == self@,
    {
        Cache {
            secrets: self.secrets.clone(),
            notif_channel_ids: self.notif_channel_ids,
            feedback_webhook: match &self.feedback_webhook {
                Some(webhook) => Some(webhook.clone()),
                None => None,
            },
            urls: self.urls.clone(),
            generation: self.generation,
        }
    }
}

impl Cache {
    /// A store with nothing in it.
    pub fn new() -> (cache: Self)
        ensures
            cache@ == CacheView::blank(),
    {
        Self {
            secrets: Secrets::empty(),
            notif_channel_ids: NotifChannels::new(),
            feedback_webhook: None,
            urls: Urls { api_base_url: String::new(), web_base_url: String::new() },
            generation: 0,
        }
    }

    /// A store with no credential and the public addresses of the service.
    pub fn default() -> (cache: Self)
        ensures
            cache@ == CacheView::standard(),
    {
        Self {
            secrets: Secrets::empty(),
            notif_channel_ids: NotifChannels::new(),
            feedback_webhook: None,
            urls: Urls {
                api_base_url: String::from_str("https://api.webring.pet"),
                web_base_url: String::from_str("https://webring.pet"),
            },
            generation: 0,
        }
    }

    /// Rebuilds a store from the parts of a persisted record. The
    /// generation starts again at zero.
    pub fn from_parts(
        secrets: Secrets,
        notif_channel_ids: NotifChannels,
        feedback_webhook: Option<String>,
        urls: Urls,
    ) -> (cache: Self)
        ensures
            cache@ == (CacheView {
                secrets: secrets@,
                notif_channel_ids,
                feedback_webhook: match feedback_webhook {
                    Some(webhook) => Some(webhook@),
                    None => None,
                },
                urls: urls@,
                generation: 0,
            }),
    {
        Self { secrets, notif_channel_ids, feedback_webhook, urls, generation: 0 }
    }

    /// The channel stored for a category.
    pub fn get_notif_channel(&self, notify_type: NotifChannelType) -> (channel: Option<u64>)
        ensures
            channel == self@.notif_channel_ids.lookup(notify_type),
    {
        self.notif_channel_ids.get(notify_type)
    }

    /// The whole routing.
    pub fn get_all_notif_channels(&self) -> (channels: NotifChannels)
        ensures
            channels == self@.notif_channel_ids,
    {
        self.notif_channel_ids
    }

    /// The address that feedback is posted to, if one was set.
    pub fn get_feedback_webhook(&self) -> (webhook: Option<String>)
        ensures
            webhook.is_some() == self@.feedback_webhook.is_some(),
            webhook matches Some(text) ==> self@.feedback_webhook == Some(text@),
    {
        match &self.feedback_webhook {
            Some(webhook) => Some(webhook.clone()),
            None => None,
        }
    }

    /// Both base addresses.
    pub fn get_urls(&self) -> (urls: Urls)
        ensures
            urls@ == self@.urls,
    {
        self.urls.clone()
    }

    /// The base address of the public site.
    pub fn get_web_base_url(&self) -> (url: String)
        ensures
            url@ == self@.urls.web_base_url,
    {
        self.urls.web_base_url.clone()
    }

    /// The base address of the backend.
    pub fn get_api_base_url(&self) -> (url: String)
        ensures
            url@ == self@.urls.api_base_url,
    {
        self.urls.api_base_url.clone()
    }

    /// The current token pair.
    pub fn get_secrets(&self) -> (secrets: Secrets)
        ensures
            secrets@ == self@.secrets,
    {
        self.secrets.clone()
    }

    /// The number of credential installs so far, which names the current
    /// credential generation.
    pub fn generation(&self) -> (generation: u64)
        ensures
            generation as nat == self@.generation,
    {
        self.generation
    }

    /// Stores a channel for a category and leaves everything else as it was.
    pub fn set_notif_channel(&mut self, channel_id: u64, notify_type: NotifChannelType) -> (this:
        &mut Self)
        ensures
            this@ == (CacheView {
                notif_channel_ids: old(self)@.notif_channel_ids.with(notify_type, channel_id),
                ..old(self)@
            }),
            *final(self) == *final(this),
    {
        self.notif_channel_ids.set(notify_type, channel_id);
        self
    }

    /// Stores the address that feedback is posted to.
    pub fn set_feedback_webhook(&mut self, webhook: String) -> (this: &mut Self)
        ensures
            this@ == (CacheView { feedback_webhook: Some(webhook@), ..old(self)@ }),
            *final(self) == *final(this),
    {
        self.feedback_webhook = Some(webhook);
        self
    }

    /// Replaces both base addresses.
    pub fn set_urls(&mut self, urls: Urls) -> (this: &mut Self)
        ensures
            this@ == (CacheView { urls: urls@, ..old(self)@ }),
            *final(self) == *final(this),
    {
        self.urls = urls;
        self
    }

    /// Installs a token pair: the pair is replaced and the generation moves
    /// on, so that a request sent with the earlier pair can tell that the
    /// store has been renewed since.
    pub fn set_secrets(&mut self, secrets: Secrets) -> (this: &mut Self)
        ensures
            this@ == old(self)@.installed(secrets@),
            *final(self) == *final(this),
    {
        self.secrets = secrets;
        self.generation = if self.generation == u64::MAX {
            0
        } else {
            self.generation + 1
        };
        self
    }
}

/// Why the persisted record could not be read or written.
#[derive(Debug, PartialEq, Eq)]
pub enum CacheError {
    /// The file could not be opened.
    Open(String),
    /// The file was opened and could not be read.
    Read(String),
    /// The file's text is not a record.
    Decode(String),
    /// The file could not be created.
    Create(String),
    /// The record could not be put into text.
    Encode(String),
    /// The text could not be written to the file.
    Write(String),
}

impl CacheError {
    /// The report of the failure: a fixed lead followed by the cause, or
    /// the cause alone where the failure is passed on as it came.
    pub open spec fn text(self) -> Seq<char> {
        match self {
            CacheError::Open(cause) => "There was an error opening the cache file: "@ + cause@,
            CacheError::Read(cause) => "There was an error reading the cached secrets file: "@
                + cause@,
            CacheError::Decode(cause) => "Failed to deserialize cache: "@ + cause@,
            CacheError::Create(cause) => cause@,
            CacheError::Encode(cause) => cause@,
            CacheError::Write(cause) => "Could not write to cache file: "@ + cause@,
        }
    }

    /// The report of the failure as text.
    pub fn message(&self) -> (text: String)
        ensures
            text@ == self.text(),
    {
        match self {
            CacheError::Open(cause) => join(
                "There was an error opening the cache file: ",
                cause.as_str(),
            ),
            CacheError::Read(cause) => join(
                "There was an error reading the cached secrets file: ",
                cause.as_str(),
            ),
            CacheError::Decode(cause) => join("Failed to deserialize cache: ", cause.as_str()),
            CacheError::Create(cause) => cause.clone(),
            CacheError::Encode(cause) => cause.clone(),
            CacheError::Write(cause) => join("Could not write to cache file: ", cause.as_str()),
        }
    }
}

/// What an attempt to read the persisted record came to.
#[derive(Debug, PartialEq, Eq)]
pub enum DiskRead {
    /// The file could not be opened; the cause is given.
    OpenFailed(String),
    /// The file could not be read; the cause is given.
    ReadFailed(String),
    /// The text could not be decoded; the cause is given.
    Malformed(String),
    /// The record that the file held.
    Loaded(Cache),
}

/// What an attempt to write the record came to.
#[derive(Debug, PartialEq, Eq)]
pub enum DiskWrite {
    /// The record is on disk.
    Written,
    /// The file could not be created; the cause is given.
    CreateFailed(String),
    /// The record could not be encoded; the cause is given.
    EncodeFailed(String),
    /// The text could not be written; the cause is given.
    WriteFailed(String),
}

impl DiskRead {
    /// The record that a read yields, where it yields one.
    pub open spec fn record(self) -> Option<CacheView> {
        match self {
            DiskRead::Loaded(cache) => Some(cache@),
            _ => None,
        }
    }

    /// The failure that a read stands for, where it failed.
    pub open spec fn failure(self) -> Option<CacheError> {
        match self {
            DiskRead::OpenFailed(cause) => Some(CacheError::Open(cause)),
            DiskRead::ReadFailed(cause) => Some(CacheError::Read(cause)),
            DiskRead::Malformed(cause) => Some(CacheError::Decode(cause)),
            DiskRead::Loaded(_) => None,
        }
    }
}

impl DiskWrite {
    /// The failure that a write stands for, where it failed.
    pub open spec fn failure(self) -> Option<CacheError> {
        match self {
            DiskWrite::Written => None,
            DiskWrite::CreateFailed(cause) => Some(CacheError::Create(cause)),
            DiskWrite::EncodeFailed(cause) => Some(CacheError::Encode(cause)),
            DiskWrite::WriteFailed(cause) => Some(CacheError::Write(cause)),
        }
    }
}

/// The store that a process starts with, given what was found on disk:
/// the record where one was read, the standard store where there was no
/// file or the file could not be used.
pub open spec fn loaded(found: Option<DiskRead>) -> CacheView {
    match found {
        Some(DiskRead::Loaded(cache)) => cache@,
        _ => CacheView::standard(),
    }
}

impl Cache {
    /// The path of the persisted record: the configured one, or
    /// `.cache.json` in the working directory where none is configured.
    pub fn path(configured: Option<String>) -> (path: String)
        ensures
            path@ == match configured {
                Some(chosen) => chosen@,
                None => ".cache.json"@,
            },
    {
        match configured {
            Some(chosen) => chosen,
            None => String::from_str(".cache.json"),
        }
    }

    /// The path that is probed to learn whether a record was ever written.
    pub fn probe_path() -> (path: &'static str)
        ensures
            path@ == "./.cache.json"@,
    {
        "./.cache.json"
    }

    /// Turns what a read of the file came to into the record or the
    /// failure to report.
    pub fn read_from_disk(&self, read: DiskRead) -> (outcome: Result<Self, CacheError>)
        ensures
            match outcome {
                Ok(cache) => read.record() == Some(cache@),
                Err(error) => read.failure() == Some(error),
            },
    {
        match read {
            DiskRead::OpenFailed(cause) => Err(CacheError::Open(cause)),
            DiskRead::ReadFailed(cause) => Err(CacheError::Read(cause)),
            DiskRead::Malformed(cause) => Err(CacheError::Decode(cause)),
            DiskRead::Loaded(cache) => Ok(cache),
        }
    }

    /// Turns what a write of the file came to into success or the failure
    /// to report. A failed write is never swallowed.
    pub fn write_to_disk(&self, write: DiskWrite) -> (outcome: Result<(), CacheError>)
        ensures
            match outcome {
                Ok(_) => write == DiskWrite::Written,
                Err(error) => write.failure() == Some(error),
            },
    {
        match write {
            DiskWrite::Written => Ok(()),
            DiskWrite::CreateFailed(cause) => Err(CacheError::Create(cause)),
            DiskWrite::EncodeFailed(cause) => Err(CacheError::Encode(cause)),
            DiskWrite::WriteFailed(cause) => Err(CacheError::Write(cause)),
        }
    }

    /// The store to start with, given what was found on disk (`None` where
    /// there is no file). Never fails: where the file is missing or cannot
    /// be used the standard store is returned, with the failure to log.
    pub fn load(found: Option<DiskRead>) -> (start: (Self, Option<CacheError>))
        ensures
            start.0@ == loaded(found),
            start.1 == match found {
                Some(read) => read.failure(),
                None => None,
            },
    {
        match found {
            None => (Cache::default(), None),
            Some(DiskRead::OpenFailed(cause)) => (Cache::default(), Some(CacheError::Open(cause))),
            Some(DiskRead::ReadFailed(cause)) => (Cache::default(), Some(CacheError::Read(cause))),
            Some(DiskRead::Malformed(cause)) => (
                Cache::default(),
                Some(CacheError::Decode(cause)),
            ),
            Some(DiskRead::Loaded(cache)) => (cache, None),
        }
    }
}

/// A credential that was installed and persisted is the credential that
/// the next load yields, in all four fields: where storage hands back the
/// record that was written after `set_secrets`, the loaded store holds the
/// pair that was set.
pub proof fn lemma_set_then_load(before: CacheView, secrets: SecretsView, stored: Cache)
    requires
        stored@.record() == before.installed(secrets).record(),
    ensures
        loaded(Some(DiskRead::Loaded(stored))).secrets == secrets,
        loaded(Some(DiskRead::Loaded(stored))).record() == before.installed(secrets).record(),
{
}

} // verus!
