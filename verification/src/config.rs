//! The settings of one run, and how they are checked when it starts.

use crate::text::{parse_i32, read_i32};
use vstd::prelude::*;

verus! {

/// One of the settings that a run needs, in the order in which they are
/// checked.
#[derive(Clone, Copy, Debug, PartialEq, Eq, Structural)]
pub enum Setting {
    GhAuthToken,
    GhOwner,
    GhRepo,
    ThreadId,
    ApiKey,
    ApiUserId,
    BaseUrl,
    Username,
}

/// Why a set of raw settings is no configuration.
#[derive(Clone, Copy, Debug, PartialEq, Eq, Structural)]
pub enum ConfigError {
    /// The setting has no value.
    Missing(Setting),
    /// The thread identifier does not write a 32-bit integer.
    NotAnInteger,
}

/// The name under which `setting` is looked up.
pub open spec fn setting_name(setting: Setting) -> Seq<char> {
    match setting {
        Setting::GhAuthToken => "GH_AUTH_TOKEN"@,
        Setting::GhOwner => "GH_OWNER"@,
        Setting::GhRepo => "GH_REPO"@,
        Setting::ThreadId => "THREAD_ID"@,
        Setting::ApiKey => "API_KEY"@,
        Setting::ApiUserId => "API_USER_ID"@,
        Setting::BaseUrl => "BASE_URL"@,
        Setting::Username => "USERNAME"@,
    }
}

/// The words that tell the operator what is wrong with the settings.
pub open spec fn fault_message(fault: ConfigError) -> Seq<char> {
    match fault {
        ConfigError::Missing(setting) => setting_name(setting) + " must be set"@,
        ConfigError::NotAnInteger => "THREAD_ID must be an integer"@,
    }
}

impl Setting {
    /// The name under which this setting is looked up.
    pub fn name(&self) -> (name: &'static str)
        ensures
            name@ == setting_name(*self),
    {
        match self {
            Setting::GhAuthToken => "GH_AUTH_TOKEN",
            Setting::GhOwner => "GH_OWNER",
            Setting::GhRepo => "GH_REPO",
            Setting::ThreadId => "THREAD_ID",
            Setting::ApiKey => "API_KEY",
            Setting::ApiUserId => "API_USER_ID",
            Setting::BaseUrl => "BASE_URL",
            Setting::Username => "USERNAME",
        }
    }
}

impl ConfigError {
    /// The words that tell the operator what is wrong with the settings.
    pub fn message(&self) -> (text: String)
        ensures
            text@ == fault_message(*self),
    {
        match self {
            ConfigError::Missing(setting) => {
                let mut text = String::from_str(setting.name());
                text.append(" must be set");
                text
            },
            ConfigError::NotAnInteger => String::from_str("THREAD_ID must be an integer"),
        }
    }
}

/// The settings as they were found, each one present or not.
#[derive(Clone, Debug, PartialEq, Eq)]
pub struct Settings {
    pub gh_auth_token: Option<String>,
    pub gh_owner: Option<String>,
    pub gh_repo: Option<String>,
    pub thread_id: Option<String>,
    pub api_key: Option<String>,
    pub api_user_id: Option<String>,
    pub base_url: Option<String>,
    pub username: Option<String>,
}

/// What `Settings` holds, as plain text.
pub struct SettingsView {
    pub gh_auth_token: Option<Seq<char>>,
    pub gh_owner: Option<Seq<char>>,
    pub gh_repo: Option<Seq<char>>,
    pub thread_id: Option<Seq<char>>,
    pub api_key: Option<Seq<char>>,
    pub api_user_id: Option<Seq<char>>,
    pub base_url: Option<Seq<char>>,
    pub username: Option<Seq<char>>,
}

/// The text of an optional string.
pub open spec fn text_of(value: Option<String>) -> Option<Seq<char>> {
    match value {
        Some(s) => Some(s@),
        None => None,
    }
}

impl View for Settings {
    type V = SettingsView;

    open spec fn view(&self) -> SettingsView {
        SettingsView {
            gh_auth_token: text_of(self.gh_auth_token),
            gh_owner: text_of(self.gh_owner),
            gh_repo: text_of(self.gh_repo),
            thread_id: text_of(self.thread_id),
            api_key: text_of(self.api_key),
            api_user_id: text_of(self.api_user_id),
            base_url: text_of(self.base_url),
            username: text_of(self.username),
        }
    }
}

/// The configuration of one run: built once, then only read.
#[derive(Clone, Debug, PartialEq, Eq)]
pub struct Config {
    /// Token that authenticates against the issue tracker.
    pub gh_auth_token: String,
    /// Owner of the tracker repository that receives the issues.
    pub gh_owner: String,
    /// Name of that repository.
    pub gh_repo: String,
    /// Identifier of the forum thread.
    pub thread_id: i32,
    /// Key of the forum's API.
    pub api_key: String,
    /// Forum user on whose behalf the API is called.
    pub api_user_id: String,
    /// Address of the forum's API, without a trailing slash.
    pub base_url: String,
    /// The operator's own forum name; replies under it are never surfaced.
    pub username: String,
}

/// What `Config` holds, as plain text and numbers.
pub struct ConfigView {
    pub gh_auth_token: Seq<char>,
    pub gh_owner: Seq<char>,
    pub gh_repo: Seq<char>,
    pub thread_id: int,
    pub api_key: Seq<char>,
    pub api_user_id: Seq<char>,
    pub base_url: Seq<char>,
    pub username: Seq<char>,
}

impl View for Config {
    type V = ConfigView;

    open spec fn view(&self) -> ConfigView {
        ConfigView {
            gh_auth_token: self.gh_auth_token@,
            gh_owner: self.gh_owner@,
            gh_repo: self.gh_repo@,
            thread_id: self.thread_id as int,
            api_key: self.api_key@,
            api_user_id: self.api_user_id@,
            base_url: self.base_url@,
            username: self.username@,
        }
    }
}

/// The first fault of `s` in checking order, if it has one: a setting
/// without a value, or a thread identifier that is present but no integer.
pub open spec fn first_fault(s: SettingsView) -> Option<ConfigError> {
    if s.gh_auth_token is None {
        Some(ConfigError::Missing(Setting::GhAuthToken))
    } else if s.gh_owner is None {
        Some(ConfigError::Missing(Setting::GhOwner))
    } else if s.gh_repo is None {
        Some(ConfigError::Missing(Setting::GhRepo))
    } else if s.thread_id is None {
        Some(ConfigError::Missing(Setting::ThreadId))
    } else if parse_i32(s.thread_id->0) is None {
        Some(ConfigError::NotAnInteger)
    } else if s.api_key is None {
        Some(ConfigError::Missing(Setting::ApiKey))
    } else if s.api_user_id is None {
        Some(ConfigError::Missing(Setting::ApiUserId))
    } else if s.base_url is None {
        Some(ConfigError::Missing(Setting::BaseUrl))
    } else if s.username is None {
        Some(ConfigError::Missing(Setting::Username))
    } else {
        None
    }
}

/// The configuration that faultless settings `s` describe.
pub open spec fn configured(s: SettingsView) -> ConfigView
    recommends
        first_fault(s) is None,
{
    ConfigView {
        gh_auth_token: s.gh_auth_token->0,
        gh_owner: s.gh_owner->0,
        gh_repo: s.gh_repo->0,
        thread_id: parse_i32(s.thread_id->0)->0 as int,
        api_key: s.api_key->0,
        api_user_id: s.api_user_id->0,
        base_url: s.base_url->0,
        username: s.username->0,
    }
}

impl Config {
    /// Looks for the first setting, in checking order, that is absent or
    /// malformed. A run whose settings have a fault is to end with the
    /// fault's message before a configuration is built.
    pub fn find_fault(settings: &Settings) -> (r: Option<ConfigError>)
        ensures
            r == first_fault(settings@),
    {
        if settings.gh_auth_token.is_none() {
            return Some(ConfigError::Missing(Setting::GhAuthToken));
        }
        if settings.gh_owner.is_none() {
            return Some(ConfigError::Missing(Setting::GhOwner));
        }
        if settings.gh_repo.is_none() {
            return Some(ConfigError::Missing(Setting::GhRepo));
        }
        match &settings.thread_id {
            None => return Some(ConfigError::Missing(Setting::ThreadId)),
            Some(text) => {
                if read_i32(text.as_str()).is_none() {
                    return Some(ConfigError::NotAnInteger);
                }
            },
        }
        if settings.api_key.is_none() {
            return Some(ConfigError::Missing(Setting::ApiKey));
        }
        if settings.api_user_id.is_none() {
            return Some(ConfigError::Missing(Setting::ApiUserId));
        }
        if settings.base_url.is_none() {
            return Some(ConfigError::Missing(Setting::BaseUrl));
        }
        if settings.username.is_none() {
            return Some(ConfigError::Missing(Setting::Username));
        }
        None
    }

    /// Builds the configuration from settings that have no fault: each one
    /// present, and the thread identifier an integer.
    pub fn new(settings: Settings) -> (config: Config)
        requires
            first_fault(settings@) is None,
        ensures
            config@ == configured(settings@),
    {
        let thread_text = settings.thread_id.unwrap();
        let thread_id = read_i32(thread_text.as_str()).unwrap();
        Config {
            gh_auth_token: settings.gh_auth_token.unwrap(),
            gh_owner: settings.gh_owner.unwrap(),
            gh_repo: settings.gh_repo.unwrap(),
            thread_id,
            api_key: settings.api_key.unwrap(),
            api_user_id: settings.api_user_id.unwrap(),
            base_url: settings.base_url.unwrap(),
            username: settings.username.unwrap(),
        }
    }
}

} // verus!
