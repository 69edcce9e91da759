//! The shape of the stored configuration.

use vstd::prelude::*;
use crate::address::{host_text, parse_url, url_host};
use crate::text::owned;

verus! {

/// The version of the configuration's layout that this library writes.
pub const CONFIG_VERSION: u32 = 1;

/// The stored configuration: the contexts by name, which of them is in use,
/// and how log lines are highlighted. No name occurs twice among the
/// contexts.
#[derive(Debug)]
pub struct Config {
    pub version: u32,
    pub current_context: Option<String>,
    pub contexts: Vec<(String, Context)>,
    pub highlights: HighlightsConfig,
}

/// The layout version of a stored configuration that names none.
pub fn default_version() -> (version: u32)
    ensures
        version == CONFIG_VERSION,
{
    CONFIG_VERSION
}

impl Default for Config {
    /// A configuration without contexts.
    fn default() -> (config: Self)
        ensures
            config.version == CONFIG_VERSION,
            config.current_context is None,
            config.contexts@.len() == 0,
            config.highlights.is_plain(),
    {
        Config {
            version: CONFIG_VERSION,
            current_context: None,
            contexts: Vec::new(),
            highlights: HighlightsConfig::default(),
        }
    }
}

/// One server and what is stored for it. The expiry of the token is kept as
/// the timestamp that the server wrote.
#[derive(Debug)]
pub struct Context {
    pub server_url: String,
    pub timeout_secs: u64,
    pub token: Option<String>,
    pub token_expires_at: Option<String>,
    pub defaults: ContextDefaults,
}

/// The timeout, in seconds, of a stored context that names none.
pub fn default_timeout() -> (secs: u64)
    ensures
        secs == 30,
{
    30
}

impl Context {
    /// A context for `server_url` with the usual timeout, no token and
    /// empty defaults.
    pub fn new(server_url: String) -> (context: Self)
        ensures
            context.server_url == server_url,
            context.timeout_secs == 30,
            context.token is None,
            context.token_expires_at is None,
            context.defaults.is_empty(),
    {
        Context {
            server_url,
            timeout_secs: default_timeout(),
            token: None,
            token_expires_at: None,
            defaults: ContextDefaults::default(),
        }
    }

    /// Whether a token is stored for this context.
    pub fn is_authenticated(&self) -> (yes: bool)
        ensures
            yes == (self.token is Some),
    {
        self.token.is_some()
    }
}

/// What a command falls back on where its arguments leave something open.
#[derive(Debug)]
pub struct ContextDefaults {
    pub team: Option<String>,
    pub source: Option<String>,
    pub limit: u32,
    pub since: String,
    pub timezone: Option<String>,
}

impl ContextDefaults {
    /// Whether nothing is set: no team, source or time zone, a limit of
    /// zero and an empty time range.
    pub open spec fn is_empty(&self) -> bool {
        &&& self.team is None
        &&& self.source is None
        &&& self.limit == 0
        &&& self.since@.len() == 0
        &&& self.timezone is None
    }
}

impl Default for ContextDefaults {
    /// Defaults with nothing set.
    fn default() -> (defaults: Self)
        ensures
            defaults.is_empty(),
    {
        ContextDefaults { team: None, source: None, limit: 0, since: String::new(), timezone: None }
    }
}

/// The row limit of stored defaults that name none.
pub fn default_limit() -> (limit: u32)
    ensures
        limit == 100,
{
    100
}

/// The time range of stored defaults that name none.
pub fn default_since() -> (since: String)
    ensures
        since@ == "15m"@,
{
    owned("15m")
}

/// How log lines are highlighted beyond the built-in rules.
#[derive(Debug)]
pub struct HighlightsConfig {
    pub custom_keywords: Vec<String>,
    pub disable_builtin: bool,
    pub custom_regexes: Vec<RegexHighlight>,
    pub disabled_groups: Vec<String>,
}

impl HighlightsConfig {
    /// Whether nothing is configured: the built-in rules and no others.
    pub open spec fn is_plain(&self) -> bool {
        &&& self.custom_keywords@.len() == 0
        &&& !self.disable_builtin
        &&& self.custom_regexes@.len() == 0
        &&& self.disabled_groups@.len() == 0
    }
}

impl Default for HighlightsConfig {
    /// The built-in rules and no others.
    fn default() -> (highlights: Self)
        ensures
            highlights.is_plain(),
    {
        HighlightsConfig {
            custom_keywords: Vec::new(),
            disable_builtin: false,
            custom_regexes: Vec::new(),
            disabled_groups: Vec::new(),
        }
    }
}

/// One highlighting rule by regular expression.
#[derive(Debug)]
pub struct RegexHighlight {
    pub pattern: String,
    pub color: String,
    pub bold: bool,
    pub italic: bool,
}

/// The colour of a stored rule that names none.
pub fn default_regex_color() -> (color: String)
    ensures
        color@ == "magenta"@,
{
    owned("magenta")
}

/// The name that a context for `url` gets where the user gave none, given
/// the URL's host: the host, or `default` where there is none.
pub open spec fn context_name_for(host: Option<Seq<char>>) -> Seq<char> {
    match host {
        Some(h) => h,
        None => "default"@,
    }
}

/// The name that a context gets from its URL's host.
pub fn context_name_from_host(host: Option<String>) -> (name: String)
    ensures
        name@ == context_name_for(crate::text::opt_view(host)),
{
    match host {
        Some(h) => h,
        None => owned("default"),
    }
}

/// The name that a context for `url` gets where the user gave none: the
/// URL's host, or `default` where it has none.
pub fn context_name_from_url(url: &str) -> (name: String)
    ensures
        name@ == context_name_for(url_host(url@)),
{
    match parse_url(url) {
        Some(parsed) => context_name_from_host(host_text(&parsed)),
        None => context_name_from_host(None),
    }
}

} // verus!
