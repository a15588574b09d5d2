//! The user's stored configuration and its update rules.

use vstd::prelude::*;

verus! {

/// Whether `url::Url::parse` accepts the text as an absolute URL.
///
/// URL parsing follows the WHATWG URL standard and is left to the `url`
/// crate; this names its verdict, which depends on the input text alone.
pub uninterp spec fn url_parses(input: Seq<char>) -> bool;

/// Calls `url::Url::parse` and reports whether it succeeded.
/// Claimed of it: the answer is `url_parses` of the input text, and the call
/// returns (it reports failure as an `Err`, it does not panic).
#[verifier::external_body]
pub(crate) fn parses_as_url(input: &str) -> (ok: bool)
    ensures
        ok == url_parses(input@),
{
    url::Url::parse(input).is_ok()
}

/// The default of the two boolean preferences when the stored file omits them.
pub fn default_true() -> (b: bool)
    ensures
        b,
{
    true
}

/// The view of an optional string.
pub open spec fn opt_view(o: Option<String>) -> Option<Seq<char>> {
    match o {
        Some(s) => Some(s@),
        None => None,
    }
}

/// Clones an optional string, keeping its contents.
pub fn clone_opt(o: &Option<String>) -> (res: Option<String>)
    ensures
        opt_view(res) == opt_view(*o),
{
    match o {
        Some(s) => Some(s.clone()),
        None => None,
    }
}

/// The mathematical content of a [`Config`].
pub struct ConfigView {
    pub url: Option<Seq<char>>,
    pub token: Option<Seq<char>>,
    pub device_name: Option<Seq<char>>,
    pub auto_update: bool,
    pub notifications_enabled: bool,
    pub path: Seq<char>,
}

impl ConfigView {
    /// The stored URL is absent or a URL that parses.
    pub open spec fn url_valid(self) -> bool {
        self.url matches Some(u) ==> url_parses(u)
    }

    /// Both the server URL and the access token are present.
    pub open spec fn is_configured(self) -> bool {
        self.url is Some && self.token is Some
    }

    /// The configuration with the given URL stored.
    pub open spec fn with_url(self, url: Seq<char>) -> ConfigView {
        ConfigView { url: Some(url), ..self }
    }

    /// The configuration with the given access token stored.
    pub open spec fn with_token(self, token: Seq<char>) -> ConfigView {
        ConfigView { token: Some(token), ..self }
    }

    /// The configuration with the three user preferences replaced.
    pub open spec fn with_prefs(
        self,
        device_name: Option<Seq<char>>,
        auto_update: bool,
        notifications_enabled: bool,
    ) -> ConfigView {
        ConfigView { device_name, auto_update, notifications_enabled, ..self }
    }
}

/// Why a configuration update was refused.
#[derive(Debug, PartialEq, Eq, Structural)]
pub enum ConfigError {
    /// The new server URL does not parse as a URL.
    InvalidUrl,
}

impl ConfigError {
    /// The text shown to the user for this error.
    pub fn message(&self) -> (s: String)
        ensures
            s@ == "Invalid URL format"@,
    {
        match self {
            ConfigError::InvalidUrl => String::from_str("Invalid URL format"),
        }
    }
}

/// The user's preferences as the settings window shows them.
pub struct Prefs {
    pub device_name: Option<String>,
    pub auto_update: bool,
    pub notifications_enabled: bool,
}

/// The stored configuration: server URL, access token and preferences,
/// with the path of the file it is kept in.
pub struct Config {
    pub url: Option<String>,
    pub token: Option<String>,
    pub device_name: Option<String>,
    pub auto_update: bool,
    pub notifications_enabled: bool,
    path: String,
}

impl View for Config {
    type V = ConfigView;

    closed spec fn view(&self) -> ConfigView {
        ConfigView {
            url: opt_view(self.url),
            token: opt_view(self.token),
            device_name: opt_view(self.device_name),
            auto_update: self.auto_update,
            notifications_enabled: self.notifications_enabled,
            path: self.path@,
        }
    }
}

impl Config {
    /// Builds the configuration from the fields read out of the stored file
    /// and the file's path. A stored URL that does not parse is dropped.
    pub fn from_stored(
        url: Option<String>,
        token: Option<String>,
        device_name: Option<String>,
        auto_update: bool,
        notifications_enabled: bool,
        path: &str,
    ) -> (c: Config)
        ensures
            c@.url == (match url {
                Some(u) => if url_parses(u@) { Some(u@) } else { None },
                None => None,
            }),
            c@.token == opt_view(token),
            c@.device_name == opt_view(device_name),
            c@.auto_update == auto_update,
            c@.notifications_enabled == notifications_enabled,
            c@.path == path@,
            c@.url_valid(),
    {
        let url = match url {
            Some(u) => {
                if parses_as_url(u.as_str()) {
                    Some(u)
                } else {
                    None
                }
            },
            None => None,
        };
        Config {
            url,
            token,
            device_name,
            auto_update,
            notifications_enabled,
            path: String::from_str(path),
        }
    }

    /// The path of the file the configuration is saved to.
    pub fn path(&self) -> (p: &str)
        ensures
            p@ == self@.path,
    {
        self.path.as_str()
    }

    /// Stores a new server URL. Refused, leaving the configuration unchanged,
    /// when the text does not parse as a URL.
    pub fn update_url(&mut self, new_url: &str) -> (res: Result<(), ConfigError>)
        ensures
            res is Ok <==> url_parses(new_url@),
            res is Ok ==> final(self)@ == old(self)@.with_url(new_url@),
            res is Ok ==> final(self)@.url == Some(new_url@),
            final(self)@.token == old(self)@.token,
            final(self)@.device_name == old(self)@.device_name,
            final(self)@.path == old(self)@.path,
            res is Err ==> final(self)@ == old(self)@,
            res matches Err(e) ==> e == ConfigError::InvalidUrl,
    {
        if !parses_as_url(new_url) {
            return Err(ConfigError::InvalidUrl);
        }
        self.url = Some(String::from_str(new_url));
        Ok(())
    }

    /// Stores a new access token.
    pub fn update_token(&mut self, new_token: &str)
        ensures
            final(self)@ == old(self)@.with_token(new_token@),
            final(self)@.token == Some(new_token@),
            final(self)@.url == old(self)@.url,
    {
        self.token = Some(String::from_str(new_token));
    }

    /// Replaces the device name and the two switches.
    pub fn update_prefs(
        &mut self,
        device_name: Option<String>,
        auto_update: bool,
        notifications_enabled: bool,
    )
        ensures
            final(self)@ == old(self)@.with_prefs(
                opt_view(device_name),
                auto_update,
                notifications_enabled,
            ),
    {
        self.device_name = device_name;
        self.auto_update = auto_update;
        self.notifications_enabled = notifications_enabled;
    }

    /// The stored server URL.
    pub fn url(&self) -> (u: Option<String>)
        ensures
            opt_view(u) == self@.url,
    {
        clone_opt(&self.url)
    }

    /// The stored access token.
    pub fn token(&self) -> (t: Option<String>)
        ensures
            opt_view(t) == self@.token,
    {
        clone_opt(&self.token)
    }

    /// Whether a server URL is stored.
    pub fn has_url(&self) -> (b: bool)
        ensures
            b == self@.url is Some,
    {
        self.url.is_some()
    }

    /// Whether desktop notifications are switched on.
    pub fn notifications_on(&self) -> (b: bool)
        ensures
            b == self@.notifications_enabled,
    {
        self.notifications_enabled
    }

    /// Whether updates are checked for at startup.
    pub fn auto_update_on(&self) -> (b: bool)
        ensures
            b == self@.auto_update,
    {
        self.auto_update
    }

    /// Whether the server URL and the access token are both present.
    pub fn is_configured(&self) -> (b: bool)
        ensures
            b == self@.is_configured(),
    {
        self.url.is_some() && self.token.is_some()
    }

    /// The URL and token to connect with, when both are present.
    pub fn credentials(&self) -> (res: Option<(String, String)>)
        ensures
            res is Some <==> self@.is_configured(),
            res matches Some(p) ==> self@.url == Some(p.0@) && self@.token
                == Some(p.1@),
    {
        match (&self.url, &self.token) {
            (Some(u), Some(t)) => Some((u.clone(), t.clone())),
            _ => None,
        }
    }

    /// The stored URL, when there is one and it parses: the page the main
    /// window is sent to.
    pub fn navigation_url(&self) -> (res: Option<String>)
        ensures
            res is Some <==> (self@.url matches Some(u) && url_parses(u)),
            res matches Some(u) ==> self@.url == Some(u@),
    {
        match &self.url {
            Some(u) => {
                if parses_as_url(u.as_str()) {
                    Some(u.clone())
                } else {
                    None
                }
            },
            None => None,
        }
    }

    /// The preferences as the settings window shows them.
    pub fn prefs(&self) -> (p: Prefs)
        ensures
            opt_view(p.device_name) == self@.device_name,
            p.auto_update == self@.auto_update,
            p.notifications_enabled == self@.notifications_enabled,
    {
        Prefs {
            device_name: clone_opt(&self.device_name),
            auto_update: self.auto_update,
            notifications_enabled: self.notifications_enabled,
        }
    }
}

} // verus!
