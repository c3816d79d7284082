//! The settings of the process, checked once at startup.

use crate::discord::Discord;
use vstd::prelude::*;

verus! {

/// The settings as they were looked up: `None` where a key is absent or its
/// value has another type than the expected one.
#[derive(Debug, PartialEq, Eq)]
pub struct RawSettings {
    /// The directory of the nightly backups.
    pub backup_path: Option<String>,
    /// The URLs to probe, in order.
    pub healthcheck_urls: Option<Vec<Option<String>>>,
    /// The bot token of the chat service.
    pub discord_token: Option<String>,
    /// The channel that alerts go to.
    pub discord_channel: Option<i64>,
}

/// Why the settings were refused.
#[derive(Clone, Copy, Debug, PartialEq, Eq, Structural)]
pub enum SettingsError {
    MissingBackupPath,
    MissingHealthcheckUrls,
    /// A channel is given without a token.
    MissingDiscordToken,
    /// A token is given without a channel.
    MissingDiscordChannel,
    /// The channel is zero or negative.
    InvalidDiscordChannel,
    /// The URL at this place of the list is no string.
    InvalidHealthcheckUrl { index: usize },
}

/// The settings that the monitors are started from.
#[derive(Debug, PartialEq, Eq)]
pub struct Settings {
    /// The directory of the nightly backups.
    pub backup_path: String,
    /// The URLs to probe, in order.
    pub healthcheck_urls: Vec<String>,
    /// Where alerts go; `None` where no credentials are configured.
    pub discord: Option<Discord>,
}

/// The place of the first URL that is no string, if there is one.
pub open spec fn first_invalid_url(urls: Seq<Option<String>>) -> Option<int> {
    if exists|i: int| 0 <= i < urls.len() && urls[i] is None {
        Some(
            choose|i: int|
                0 <= i < urls.len() && urls[i] is None && forall|j: int|
                    0 <= j < i ==> urls[j] is Some,
        )
    } else {
        None
    }
}

/// The first fault of the settings, in the order in which they are checked:
/// the backup directory, the list of URLs, the chat credentials, and last the
/// URLs one by one.
pub open spec fn fault_of(raw: RawSettings) -> Option<SettingsError> {
    if raw.backup_path is None {
        Some(SettingsError::MissingBackupPath)
    } else if raw.healthcheck_urls is None {
        Some(SettingsError::MissingHealthcheckUrls)
    } else if raw.discord_token is None && raw.discord_channel is Some {
        Some(SettingsError::MissingDiscordToken)
    } else if raw.discord_token is Some && raw.discord_channel is None {
        Some(SettingsError::MissingDiscordChannel)
    } else if raw.discord_channel matches Some(channel) && channel <= 0 {
        Some(SettingsError::InvalidDiscordChannel)
    } else {
        match first_invalid_url(raw.healthcheck_urls->0@) {
            Some(index) => Some(SettingsError::InvalidHealthcheckUrl { index: index as usize }),
            None => None,
        }
    }
}

/// `settings` holds what `raw` holds: the same directory, the same URLs in
/// the same order, and the chat destination where credentials are given.
pub open spec fn agrees_with(settings: Settings, raw: RawSettings) -> bool {
    &&& raw.backup_path matches Some(path) && settings.backup_path@ == path@
    &&& raw.healthcheck_urls matches Some(urls) && settings.healthcheck_urls@.len() == urls@.len()
        && forall|i: int|
        0 <= i < urls@.len() ==> (#[trigger] urls@[i]) is Some && settings.healthcheck_urls@[i]@
            == urls@[i]->0@
    &&& match (raw.discord_token, raw.discord_channel) {
        (Some(token), Some(channel)) => settings.discord matches Some(discord) && discord.secret()
            == token@ && discord.channel() == channel,
        _ => settings.discord is None,
    }
}

impl Settings {
    /// Checks the settings. They are accepted exactly when they have no
    /// fault; a refusal names the first fault.
    #[verifier::loop_isolation(false)]
    pub fn from_raw(raw: &RawSettings) -> (checked: Result<Settings, SettingsError>)
        ensures
            match checked {
                Ok(settings) => fault_of(*raw) is None && agrees_with(settings, *raw),
                Err(error) => fault_of(*raw) == Some(error),
            },
    {
        let backup_path = match &raw.backup_path {
            Some(path) => path.clone(),
            None => {
                return Err(SettingsError::MissingBackupPath);
            },
        };
        let urls = match &raw.healthcheck_urls {
            Some(urls) => urls,
            None => {
                return Err(SettingsError::MissingHealthcheckUrls);
            },
        };
        let discord = match (&raw.discord_token, raw.discord_channel) {
            (None, None) => None,
            (None, Some(_)) => {
                return Err(SettingsError::MissingDiscordToken);
            },
            (Some(_), None) => {
                return Err(SettingsError::MissingDiscordChannel);
            },
            (Some(token), Some(channel)) => {
                if channel <= 0 {
                    return Err(SettingsError::InvalidDiscordChannel);
                }
                Discord::new(token.as_str(), channel as u64)
            },
        };
        let mut healthcheck_urls: Vec<String> = Vec::new();
        let mut i: usize = 0;
        while i < urls.len()
            invariant
                i <= urls.len(),
                healthcheck_urls@.len() == i,
                forall|j: int|
                    0 <= j < i ==> (#[trigger] urls@[j]) is Some && healthcheck_urls@[j]@
                        == urls@[j]->0@,
            decreases urls.len() - i,
        {
            match &urls[i] {
                Some(url) => {
                    healthcheck_urls.push(url.clone());
                },
                None => {
                    assert(first_invalid_url(urls@) == Some(i as int));
                    return Err(SettingsError::InvalidHealthcheckUrl { index: i });
                },
            }
            i += 1;
        }
        assert(first_invalid_url(urls@) is None);
        Ok(Settings { backup_path, healthcheck_urls, discord })
    }
}

} // verus!
