//! The command that logs in and out.

use vstd::prelude::*;
use crate::address::url_host;
use crate::api::models::MetaData;
use crate::auth::{AuthFlow, AuthResult};
use crate::cli::GlobalArgs;
use crate::config::{context_of, first_for_url};
use crate::config::schema::{
    Config, Context, context_name_for, context_name_from_url, ContextDefaults,
};
use crate::error::Error;
use crate::text::{
    first_index, join3, names_of, opt_view, owned, trim, trim_end, trimmed, trimmed_end,
};

verus! {

/// The arguments of `auth`.
#[derive(Debug)]
pub struct AuthArgs {
    pub logout: bool,
    pub status: bool,
}

/// What `auth` is asked to do.
#[derive(Debug, Clone, Copy, PartialEq, Eq, Structural)]
pub enum AuthAction {
    Logout,
    Status,
    Login,
}

impl AuthArgs {
    /// What `auth` is asked to do: `--logout` goes before `--status`, and
    /// without either it logs in.
    pub fn action(&self) -> (action: AuthAction)
        ensures
            action == (if self.logout {
                AuthAction::Logout
            } else if self.status {
                AuthAction::Status
            } else {
                AuthAction::Login
            }),
    {
        if self.logout {
            AuthAction::Logout
        } else if self.status {
            AuthAction::Status
        } else {
            AuthAction::Login
        }
    }
}

/// The name of the context that a server goes by: that of the first
/// context stored for it, else the one made from its address.
pub open spec fn name_for_server(config: Config, url: Seq<char>) -> Seq<char> {
    match first_for_url(config.contexts@, url) {
        Some(i) => config.contexts@[i].0@,
        None => context_name_for(url_host(url)),
    }
}

/// The name of the context that `auth` works on: the one that `--context`
/// names; else the one that the server of `--server` goes by; else the one
/// in use.
pub open spec fn context_name_is(config: Config, global: GlobalArgs, r: Result<String, Error>)
    -> bool {
    match global.context {
        Some(name) => r matches Ok(n) && n@ == name@,
        None => match global.server {
            Some(url) => r matches Ok(n) && n@ == name_for_server(config, url@),
            None => match config.current_context {
                Some(name) => r matches Ok(n) && n@ == name@,
                None => r matches Err(Error::Other(m)) && m@ == "No current context set"@,
            },
        },
    }
}

fn server_name(config: &Config, url: &str) -> (name: String)
    ensures
        name@ == name_for_server(*config, url@),
{
    match config.find_context_by_url(url) {
        Some(pair) => owned(pair.0),
        None => context_name_from_url(url),
    }
}

/// The name of the context that `auth` works on.
pub fn resolve_context_name(config: &Config, global: &GlobalArgs) -> (r: Result<String, Error>)
    ensures
        context_name_is(*config, *global, r),
{
    match &global.context {
        Some(name) => {
            return Ok(name.clone());
        },
        None => {},
    }
    match &global.server {
        Some(url) => {
            return Ok(server_name(config, url.as_str()));
        },
        None => {},
    }
    match config.current_context_name() {
        Some(name) => Ok(owned(name)),
        None => Err(Error::other("No current context set")),
    }
}

/// Forgets the token of the context named `name`. It says whether there
/// is such a context; without one nothing changes.
pub fn logout(config: &mut Config, name: &str) -> (found: bool)
    ensures
        found == old(config).has(name@),
        final(config).current_context == old(config).current_context,
        final(config).version == old(config).version,
        final(config).highlights == old(config).highlights,
        match first_index(names_of(old(config).contexts@), name@) {
            Some(i) => final(config).contexts@ == old(config).contexts@.update(
                i,
                (
                    old(config).contexts@[i].0,
                    Context { token: None, token_expires_at: None, ..old(config).contexts@[i].1 },
                ),
            ),
            None => final(config).contexts == old(config).contexts,
        },
{
    match config.get_context_mut(name) {
        Some(context) => {
            context.token = None;
            context.token_expires_at = None;
            true
        },
        None => false,
    }
}

/// Where the address of the server to log into comes from.
#[derive(Debug)]
pub enum ServerChoice {
    /// From the arguments or the stored context.
    Known(String),
    /// From the user, who is shown the address of the context in use, if
    /// any, as the one to accept.
    Ask { default: Option<String> },
}

/// Where the address of the server to log into comes from: `--server`;
/// else the context that `--context` names, which must be there; else the
/// user.
pub open spec fn server_choice_is(
    config: Config,
    global: GlobalArgs,
    r: Result<ServerChoice, Error>,
) -> bool {
    match global.server {
        Some(url) => r matches Ok(ServerChoice::Known(u)) && u@ == url@,
        None => match global.context {
            Some(name) => match context_of(config.contexts@, name@) {
                Some(context) => r matches Ok(ServerChoice::Known(u)) && u@ == context.server_url@,
                None => r matches Err(Error::Other(m)) && m@ == "Context '"@ + name@
                    + "' not found"@,
            },
            None => r matches Ok(ServerChoice::Ask { default }) && opt_view(default) == (
            match config.current_context {
                Some(current) => match context_of(config.contexts@, current@) {
                    Some(context) => Some(context.server_url@),
                    None => None,
                },
                None => None,
            }),
        },
    }
}

/// Where the address of the server to log into comes from.
pub fn server_choice(config: &Config, global: &GlobalArgs) -> (r: Result<ServerChoice, Error>)
    ensures
        server_choice_is(*config, *global, r),
{
    match &global.server {
        Some(url) => {
            return Ok(ServerChoice::Known(url.clone()));
        },
        None => {},
    }
    match &global.context {
        Some(name) => {
            return match config.get_context(name.as_str()) {
                Some(context) => Ok(ServerChoice::Known(context.server_url.clone())),
                None => Err(Error::Other(join3("Context '", name.as_str(), "' not found"))),
            };
        },
        None => {},
    }
    let default = match config.current_context() {
        Some(context) => Some(context.server_url.clone()),
        None => None,
    };
    Ok(ServerChoice::Ask { default })
}

/// The address that the user entered: what was typed without the white
/// space round it, which must leave something.
pub fn entered_server(input: &str) -> (r: Result<String, Error>)
    ensures
        match r {
            Ok(url) => trimmed(input@).len() > 0 && url@ == trimmed(input@),
            Err(e) => {
                &&& trimmed(input@).len() == 0
                &&& e matches Error::Other(m)
                &&& m@ == "Server URL is required"@
            },
        },
{
    let url = trim(input);
    if url.as_str().unicode_len() == 0 {
        Err(Error::other("Server URL is required"))
    } else {
        Ok(url)
    }
}

/// The text that says that the server offers no login to command-line
/// clients.
pub open spec fn oidc_missing_text() -> Seq<char> {
    "CLI authentication not configured on this server. Ask your admin to set oidc.cli_client_id in server config."@
}

/// The login against a server, given what the server says about itself:
/// the server's address without the slashes at its end, and the issuer and
/// the client id that the server names. It fails where the server names
/// not both.
pub fn login_flow(server_url: &str, meta: MetaData) -> (r: Result<AuthFlow, Error>)
    ensures
        match r {
            Ok(flow) => {
                &&& meta.oidc_issuer matches Some(issuer)
                &&& meta.cli_client_id matches Some(client)
                &&& flow.server() == trimmed_end(server_url@, '/')
                &&& flow.issuer() == issuer@
                &&& flow.client() == client@
            },
            Err(e) => {
                &&& meta.oidc_issuer is None || meta.cli_client_id is None
                &&& e matches Error::Other(m)
                &&& m@ == oidc_missing_text()
            },
        },
{
    if !meta.oidc_enabled() {
        return Err(
            Error::other(
                "CLI authentication not configured on this server. Ask your admin to set oidc.cli_client_id in server config.",
            ),
        );
    }
    match (meta.oidc_issuer, meta.cli_client_id) {
        (Some(issuer), Some(client)) => Ok(AuthFlow::new(trim_end(server_url, '/'), issuer, client)),
        _ => Err(
            Error::other(
                "CLI authentication not configured on this server. Ask your admin to set oidc.cli_client_id in server config.",
            ),
        ),
    }
}

/// The name of the context that a login is stored under: the one that
/// `--context` names, else the one that the server goes by.
pub fn login_context_name(config: &Config, context: &Option<String>, server_url: &str) -> (name:
    String)
    ensures
        name@ == (match *context {
            Some(given) => given@,
            None => name_for_server(*config, server_url@),
        }),
{
    match context {
        Some(given) => given.clone(),
        None => server_name(config, server_url),
    }
}

/// Stores what a login ended with: the context named `name` is, from now
/// on, the server with the new token, the usual timeout and empty
/// defaults, and it is the context in use.
pub fn store_login(config: &mut Config, name: String, server_url: String, result: AuthResult) -> (
    email: Option<String>)
    ensures
        email == result.user_email,
        final(config).version == old(config).version,
        final(config).highlights == old(config).highlights,
        old(config).wf() ==> final(config).wf(),
        final(config).current_context matches Some(c) && c@ == name@,
        context_of(final(config).contexts@, name@) matches Some(context) && context.server_url
            == server_url && context.timeout_secs == 30 && context.token == Some(result.token)
            && context.token_expires_at == result.expires_at && context.defaults.is_empty(),
{
    let context = Context {
        server_url,
        timeout_secs: 30,
        token: Some(result.token),
        token_expires_at: result.expires_at,
        defaults: ContextDefaults::default(),
    };
    config.add_or_update_context(name, context);
    result.user_email
}

} // verus!
