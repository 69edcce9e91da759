//! The command that manages the stored contexts.

use vstd::prelude::*;
use vstd::utf8::{decode_utf8, encode_utf8, is_char_boundary};
use crate::config::schema::Context;
use crate::error::Error;
use crate::text::{join2, join3, natural_value, owned, parse_natural, text_eq};

verus! {

/// The arguments of `config`.
#[derive(Debug)]
pub struct ConfigArgs {
    pub command: ConfigCommands,
}

/// What `config` is asked to do.
#[derive(Debug)]
pub enum ConfigCommands {
    List,
    Use { name: String },
    Rename { old_name: String, new_name: String },
    Delete { name: String },
    Show,
    Path,
    SetValue { key: String, value: String },
}

/// What a key of `config set` names.
#[derive(Debug, Clone, Copy, PartialEq, Eq, Structural)]
pub enum SettingKey {
    Timeout,
    Team,
    Source,
    Limit,
    Since,
    Timezone,
}

/// What a key of `config set` names, if anything: each setting goes by its
/// short name and by its full one.
pub open spec fn key_named(key: Seq<char>) -> Option<SettingKey> {
    if key == "timeout"@ || key == "timeout_secs"@ {
        Some(SettingKey::Timeout)
    } else if key == "team"@ || key == "defaults.team"@ {
        Some(SettingKey::Team)
    } else if key == "source"@ || key == "defaults.source"@ {
        Some(SettingKey::Source)
    } else if key == "limit"@ || key == "defaults.limit"@ {
        Some(SettingKey::Limit)
    } else if key == "since"@ || key == "defaults.since"@ {
        Some(SettingKey::Since)
    } else if key == "timezone"@ || key == "defaults.timezone"@ {
        Some(SettingKey::Timezone)
    } else {
        None
    }
}

/// What a key of `config set` names.
pub fn setting_key(key: &str) -> (named: Option<SettingKey>)
    ensures
        named == key_named(key@),
{
    if text_eq(key, "timeout") || text_eq(key, "timeout_secs") {
        Some(SettingKey::Timeout)
    } else if text_eq(key, "team") || text_eq(key, "defaults.team") {
        Some(SettingKey::Team)
    } else if text_eq(key, "source") || text_eq(key, "defaults.source") {
        Some(SettingKey::Source)
    } else if text_eq(key, "limit") || text_eq(key, "defaults.limit") {
        Some(SettingKey::Limit)
    } else if text_eq(key, "since") || text_eq(key, "defaults.since") {
        Some(SettingKey::Since)
    } else if text_eq(key, "timezone") || text_eq(key, "defaults.timezone") {
        Some(SettingKey::Timezone)
    } else {
        None
    }
}

/// The text that says that a key names no setting.
pub open spec fn unknown_key_text(key: Seq<char>) -> Seq<char> {
    "Unknown key: '"@ + key + "'. Valid keys: team, source, limit, since, timezone, timeout"@
}

/// Whether `after` is the context `before` with the setting `key` set to
/// `value`, and `r` says how that went: a timeout must be a number of 64
/// bits, a limit one of 32 bits, and the key must name a setting; where
/// not, the context stays as it is.
pub open spec fn setting_applied(
    before: Context,
    key: Seq<char>,
    value: Seq<char>,
    after: Context,
    r: Result<(), Error>,
) -> bool {
    match key_named(key) {
        None => refused(before, after, r, unknown_key_text(key)),
        Some(SettingKey::Timeout) => match natural_value(value) {
            Some(n) => r is Ok && after == (Context { timeout_secs: n, ..before }),
            None => refused(before, after, r, "Invalid timeout value"@),
        },
        Some(SettingKey::Limit) => match natural_value(value) {
            Some(n) if n <= u32::MAX => {
                &&& r is Ok
                &&& after.defaults.limit == n
                &&& after.defaults.team == before.defaults.team
                &&& after.defaults.source == before.defaults.source
                &&& after.defaults.since == before.defaults.since
                &&& after.defaults.timezone == before.defaults.timezone
                &&& same_but_defaults(before, after)
            },
            _ => refused(before, after, r, "Invalid limit value"@),
        },
        Some(SettingKey::Team) => {
            &&& r is Ok
            &&& after.defaults.team matches Some(t)
            &&& t@ == value
            &&& after.defaults.limit == before.defaults.limit
            &&& after.defaults.source == before.defaults.source
            &&& after.defaults.since == before.defaults.since
            &&& after.defaults.timezone == before.defaults.timezone
            &&& same_but_defaults(before, after)
        },
        Some(SettingKey::Source) => {
            &&& r is Ok
            &&& after.defaults.source matches Some(t)
            &&& t@ == value
            &&& after.defaults.limit == before.defaults.limit
            &&& after.defaults.team == before.defaults.team
            &&& after.defaults.since == before.defaults.since
            &&& after.defaults.timezone == before.defaults.timezone
            &&& same_but_defaults(before, after)
        },
        Some(SettingKey::Since) => {
            &&& r is Ok
            &&& after.defaults.since@ == value
            &&& after.defaults.limit == before.defaults.limit
            &&& after.defaults.team == before.defaults.team
            &&& after.defaults.source == before.defaults.source
            &&& after.defaults.timezone == before.defaults.timezone
            &&& same_but_defaults(before, after)
        },
        Some(SettingKey::Timezone) => {
            &&& r is Ok
            &&& after.defaults.timezone matches Some(t)
            &&& t@ == value
            &&& after.defaults.limit == before.defaults.limit
            &&& after.defaults.team == before.defaults.team
            &&& after.defaults.source == before.defaults.source
            &&& after.defaults.since == before.defaults.since
            &&& same_but_defaults(before, after)
        },
    }
}

/// Whether a setting was refused with the text `why`: the context stays
/// as it is.
pub open spec fn refused(before: Context, after: Context, r: Result<(), Error>, why: Seq<char>)
    -> bool {
    &&& after == before
    &&& r matches Err(Error::Other(m))
    &&& m@ == why
}

/// Whether two contexts differ in their defaults at most.
pub open spec fn same_but_defaults(a: Context, b: Context) -> bool {
    &&& a.server_url == b.server_url
    &&& a.timeout_secs == b.timeout_secs
    &&& a.token == b.token
    &&& a.token_expires_at == b.token_expires_at
}

/// Sets the setting `key` of a context to `value`.
pub fn set_value(context: &mut Context, key: &str, value: &str) -> (r: Result<(), Error>)
    ensures
        setting_applied(*old(context), key@, value@, *final(context), r),
{
    match setting_key(key) {
        None => Err(
            Error::Other(
                join3(
                    "Unknown key: '",
                    key,
                    "'. Valid keys: team, source, limit, since, timezone, timeout",
                ),
            ),
        ),
        Some(SettingKey::Timeout) => match parse_natural(value) {
            Some(n) => {
                context.timeout_secs = n;
                Ok(())
            },
            None => Err(Error::other("Invalid timeout value")),
        },
        Some(SettingKey::Limit) => match parse_natural(value) {
            Some(n) => {
                if n <= 0xffff_ffff {
                    context.defaults.limit = n as u32;
                    Ok(())
                } else {
                    Err(Error::other("Invalid limit value"))
                }
            },
            None => Err(Error::other("Invalid limit value")),
        },
        Some(SettingKey::Team) => {
            context.defaults.team = Some(owned(value));
            Ok(())
        },
        Some(SettingKey::Source) => {
            context.defaults.source = Some(owned(value));
            Ok(())
        },
        Some(SettingKey::Since) => {
            context.defaults.since = owned(value);
            Ok(())
        },
        Some(SettingKey::Timezone) => {
            context.defaults.timezone = Some(owned(value));
            Ok(())
        },
    }
}

/// Whether a token can be shown masked: it is short, or its tenth byte
/// ends a character.
pub open spec fn can_mask(token: Seq<char>) -> bool {
    encode_utf8(token).len() > 14 ==> is_char_boundary(encode_utf8(token), 10)
}

/// How a token is shown: its first ten bytes and a row of stars where it
/// has more than fourteen bytes, else stars only.
pub open spec fn masked(token: Seq<char>) -> Seq<char> {
    if encode_utf8(token).len() > 14 {
        decode_utf8(encode_utf8(token).subrange(0, 10)) + "****..."@
    } else {
        "****"@
    }
}

/// How a token is shown. The tenth byte of a long token must end a
/// character.
pub fn mask_token(token: &str) -> (shown: String)
    requires
        can_mask(token@),
    ensures
        shown@ == masked(token@),
{
    broadcast use vstd::utf8::encode_utf8_decode_utf8;

    if token.as_bytes().len() > 14 {
        let parts = token.split_at(10);
        assert(parts.0@ == decode_utf8(encode_utf8(parts.0@)));
        join2(parts.0, "****...")
    } else {
        owned("****")
    }
}

/// How a token is shown; nothing where the tenth byte of a long token
/// falls inside a character.
pub fn try_mask_token(token: &str) -> (shown: Option<String>)
    ensures
        match shown {
            Some(t) => can_mask(token@) && t@ == masked(token@),
            None => !can_mask(token@),
        },
{
    if token.as_bytes().len() > 14 && !token.is_char_boundary(10) {
        None
    } else {
        Some(mask_token(token))
    }
}

} // verus!
