//! Credential + settings loading.
//!
//! Resolution order:
//!   1. Environment variables `TCL_USERNAME` / `TCL_PASSWORD`
//!   2. Config file `~/.config/tclac/config.toml`
//!   3. Interactive prompt (and offer to save to the config file)
//!
//! Credentials are never hardcoded and never printed back.

use crate::text;
use vstd::prelude::*;

verus! {

pub struct Config {
    pub username: String,
    pub password: String,
    /// Optional: pin a specific device by its cloud id (thingName). If empty,
    /// the first device returned by the account is used.
    pub device_id: Option<String>,
}

pub struct ConfigView {
    pub username: Seq<char>,
    pub password: Seq<char>,
    pub device_id: Option<Seq<char>>,
}

impl View for Config {
    type V = ConfigView;

    open spec fn view(&self) -> ConfigView {
        ConfigView {
            username: self.username@,
            password: self.password@,
            device_id: text::view_option(self.device_id),
        }
    }
}

impl ConfigView {
    /// Whether both a username and a password are there.
    pub open spec fn usable(self) -> bool {
        self.username.len() > 0 && self.password.len() > 0
    }
}

/// The environment variables `TCL_USERNAME`, `TCL_PASSWORD` and `TCL_DEVICE_ID`.
pub struct Environment {
    pub username: Option<String>,
    pub password: Option<String>,
    pub device_id: Option<String>,
}

impl Environment {
    /// The settings that the environment gives: those with a username and a
    /// password. An empty device id counts as none.
    pub open spec fn config(self) -> Option<ConfigView> {
        match self.username {
            Some(u) => match self.password {
                Some(p) => if u@.len() > 0 && p@.len() > 0 {
                    Some(
                        ConfigView {
                            username: u@,
                            password: p@,
                            device_id: match self.device_id {
                                Some(d) => if d@.len() > 0 {
                                    Some(d@)
                                } else {
                                    None
                                },
                                None => None,
                            },
                        },
                    )
                } else {
                    None
                },
                None => None,
            },
            None => None,
        }
    }
}

/// The config file: not read yet, not there, or what it holds.
pub enum ConfigFile {
    Unread,
    Missing,
    Read(Config),
}

/// Where the settings come from.
pub enum Loaded {
    Found(Config),
    /// The environment has none: read the file.
    ReadFile,
    /// Neither has any: ask.
    Ask,
}

pub enum LoadedView {
    Found(ConfigView),
    ReadFile,
    Ask,
}

impl View for Loaded {
    type V = LoadedView;

    open spec fn view(&self) -> LoadedView {
        match self {
            Loaded::Found(c) => LoadedView::Found(c@),
            Loaded::ReadFile => LoadedView::ReadFile,
            Loaded::Ask => LoadedView::Ask,
        }
    }
}

pub open spec fn loaded(env: Environment, file: ConfigFile) -> LoadedView {
    match env.config() {
        Some(c) => LoadedView::Found(c),
        None => match file {
            ConfigFile::Unread => LoadedView::ReadFile,
            ConfigFile::Missing => LoadedView::Ask,
            ConfigFile::Read(c) => if c@.usable() {
                LoadedView::Found(c@)
            } else {
                LoadedView::Ask
            },
        },
    }
}

/// The settings that the answers to the prompts make.
pub open spec fn answered(username: Seq<char>, password: Seq<char>) -> ConfigView {
    ConfigView { username: text::trimmed(username), password, device_id: None }
}

impl Config {
    /// Load credentials from env, then file, then interactive prompt.
    pub fn load(env: Environment, file: ConfigFile) -> (r: Loaded)
        ensures
            r@ == loaded(env, file),
    {
        if let (Some(username), Some(password)) = (env.username, env.password) {
            if !text::is_empty(username.as_str()) && !text::is_empty(password.as_str()) {
                let device_id = match env.device_id {
                    Some(d) => if text::is_empty(d.as_str()) {
                        None
                    } else {
                        Some(d)
                    },
                    None => None,
                };
                return Loaded::Found(Config { username, password, device_id });
            }
        }
        match file {
            ConfigFile::Unread => Loaded::ReadFile,
            ConfigFile::Missing => Loaded::Ask,
            ConfigFile::Read(c) => if !text::is_empty(c.username.as_str()) && !text::is_empty(
                c.password.as_str(),
            ) {
                Loaded::Found(c)
            } else {
                Loaded::Ask
            },
        }
    }

    /// The settings that the answers to the prompts make.
    pub fn prompted(username: &str, password: &str) -> (r: Config)
        ensures
            r@ == answered(username@, password@),
    {
        Config {
            username: text::trim(username),
            password: text::owned(password),
            device_id: None,
        }
    }
}

/// Whether an answer asks for the credentials to be saved.
pub open spec fn asks_to_save(answer: Seq<char>) -> bool {
    text::lower(text::trimmed(answer)) == "y"@
}

pub fn wants_save(answer: &str) -> (r: bool)
    ensures
        r == asks_to_save(answer@),
{
    let t = text::trim(answer);
    let low = text::ascii_lower(t.as_str());
    text::same(low.as_str(), "y")
}

/// A key pressed at the password prompt.
#[derive(Debug, Clone, Copy, PartialEq, Eq, Structural)]
pub enum PasswordKey {
    Enter,
    Backspace,
    Char { c: char, ctrl: bool },
    Other,
}

/// Where a key at the password prompt leads.
#[derive(Debug, Clone, Copy, PartialEq, Eq, Structural)]
pub enum PasswordStep {
    More,
    Done,
    Cancelled,
}

/// What a key makes of the characters typed so far.
pub open spec fn typed(password: Seq<char>, key: PasswordKey) -> (Seq<char>, PasswordStep) {
    match key {
        PasswordKey::Enter => (password, PasswordStep::Done),
        PasswordKey::Backspace => (
            if password.len() > 0 {
                password.drop_last()
            } else {
                password
            },
            PasswordStep::More,
        ),
        PasswordKey::Char { c, ctrl } => if c == 'c' && ctrl {
            (password, PasswordStep::Cancelled)
        } else {
            (password.push(c), PasswordStep::More)
        },
        PasswordKey::Other => (password, PasswordStep::More),
    }
}

pub fn type_password(password: &mut Vec<char>, key: PasswordKey) -> (r: PasswordStep)
    ensures
        (final(password)@, r) == typed(old(password)@, key),
{
    match key {
        PasswordKey::Enter => PasswordStep::Done,
        PasswordKey::Backspace => {
            let _ = password.pop();
            PasswordStep::More
        },
        PasswordKey::Char { c, ctrl } => if c == 'c' && ctrl {
            PasswordStep::Cancelled
        } else {
            password.push(c);
            PasswordStep::More
        },
        PasswordKey::Other => PasswordStep::More,
    }
}

} // verus!
