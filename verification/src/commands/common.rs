//! What the commands share: which context a command runs against, whether
//! it may run, how names become ids, and how results are laid out.

use vstd::prelude::*;
use vstd::utf8::{decode_utf8, encode_utf8, is_char_boundary};
use crate::api::Client;
use crate::api::models::{Column, FieldValue, LogEntry, Source, Team};
use crate::cli::GlobalArgs;
use crate::config::{context_of, first_for_url};
use crate::config::schema::{Config, Context};
use crate::error::Error;
use crate::text::{
    chars_of, decimal, eq_ignore_ascii_case, i64_text, join2, join3, opt_view, owned,
    same_ignoring_ascii_case, signed_decimal, split_chars, split_first, split_once, text_of,
    texts_view, trim_chars, trimmed, u64_text,
};

verus! {

/// The context that a command runs against: one that is stored, with its
/// name, or one made up for a server that was given.
#[derive(Debug)]
pub enum ResolvedContext<'a> {
    Saved(&'a Context, String),
    Ephemeral(Context),
}

/// The text that says that no context has the name.
pub open spec fn unknown_context_text(name: Seq<char>) -> Seq<char> {
    "Context '"@ + name + "' not found"@
}

/// The text that says that the context in use is gone.
pub open spec fn lost_context_text(name: Seq<char>) -> Seq<char> {
    "Current context '"@ + name + "' not found"@
}

/// Whether `r` is the context that a command runs against: the one that
/// `--context` names; else the first one stored for the server that
/// `--server` names, or a fresh one for that server; else the one in use.
pub open spec fn resolves_to(config: Config, global: GlobalArgs, r: Result<ResolvedContext, Error>)
    -> bool {
    match global.context {
        Some(name) => match context_of(config.contexts@, name@) {
            Some(context) => r matches Ok(ResolvedContext::Saved(c, n)) && *c == context && n@
                == name@,
            None => r matches Err(Error::Other(m)) && m@ == unknown_context_text(name@),
        },
        None => match global.server {
            Some(url) => match first_for_url(config.contexts@, url@) {
                Some(i) => r matches Ok(ResolvedContext::Saved(c, n)) && *c
                    == config.contexts@[i].1 && n@ == config.contexts@[i].0@,
                None => r matches Ok(ResolvedContext::Ephemeral(c)) && c.server_url@ == url@
                    && c.timeout_secs == 30 && c.token is None && c.token_expires_at is None
                    && c.defaults.is_empty(),
            },
            None => match config.current_context {
                None => r matches Err(Error::Other(m)) && m@
                    == "No context configured. Run 'logchef auth' first."@,
                Some(name) => match context_of(config.contexts@, name@) {
                    Some(context) => r matches Ok(ResolvedContext::Saved(c, n)) && *c == context
                        && n@ == name@,
                    None => r matches Err(Error::Other(m)) && m@ == lost_context_text(name@),
                },
            },
        },
    }
}

/// The context that a command runs against.
pub fn resolve_context<'a>(config: &'a Config, global: &GlobalArgs) -> (r: Result<
    ResolvedContext<'a>,
    Error,
>)
    ensures
        resolves_to(*config, *global, r),
{
    match &global.context {
        Some(name) => {
            return match config.get_context(name.as_str()) {
                Some(context) => Ok(ResolvedContext::Saved(context, name.clone())),
                None => Err(Error::Other(join3("Context '", name.as_str(), "' not found"))),
            };
        },
        None => {},
    }
    match &global.server {
        Some(url) => {
            return match config.find_context_by_url(url.as_str()) {
                Some(pair) => Ok(ResolvedContext::Saved(pair.1, owned(pair.0))),
                None => Ok(ResolvedContext::Ephemeral(Context::new(url.clone()))),
            };
        },
        None => {},
    }
    match config.current_context_name() {
        None => Err(Error::other("No context configured. Run 'logchef auth' first.")),
        Some(name) => match config.get_context(name) {
            Some(context) => Ok(ResolvedContext::Saved(context, owned(name))),
            None => Err(Error::Other(join3("Current context '", name, "' not found"))),
        },
    }
}

impl<'a> ResolvedContext<'a> {
    /// The context.
    pub open spec fn context_of(self) -> Context {
        match self {
            ResolvedContext::Saved(context, _) => *context,
            ResolvedContext::Ephemeral(context) => context,
        }
    }

    /// The name that the context goes by in messages.
    pub open spec fn shown_name(self) -> Seq<char> {
        match self {
            ResolvedContext::Saved(_, name) => name@,
            ResolvedContext::Ephemeral(_) => "(ephemeral)"@,
        }
    }

    /// The context.
    pub fn context(&self) -> (context: &Context)
        ensures
            *context == self.context_of(),
    {
        match self {
            ResolvedContext::Saved(context, _) => context,
            ResolvedContext::Ephemeral(context) => context,
        }
    }

    /// The name that the context goes by in messages.
    pub fn name(&self) -> (name: String)
        ensures
            name@ == self.shown_name(),
    {
        match self {
            ResolvedContext::Saved(_, name) => name.clone(),
            ResolvedContext::Ephemeral(_) => owned("(ephemeral)"),
        }
    }

    /// Whether the context was made up for a server that was given.
    pub fn is_ephemeral(&self) -> (yes: bool)
        ensures
            yes == (self is Ephemeral),
    {
        match self {
            ResolvedContext::Saved(_, _) => false,
            ResolvedContext::Ephemeral(_) => true,
        }
    }
}

/// The text that asks for a token for a server that no context is stored
/// for.
pub open spec fn token_required_text(url: Seq<char>) -> Seq<char> {
    "Token required for server '"@ + url + "'. Use --token or run 'logchef auth --server "@ + url
        + "'."@
}

/// The text that asks for a login into a stored context.
pub open spec fn login_required_text(name: Seq<char>) -> Seq<char> {
    "Not authenticated for context '"@ + name + "'. Run 'logchef auth' first."@
}

/// Whether a command may talk to the server: it may where the context has
/// a token or one was given.
pub open spec fn may_run(
    resolved: ResolvedContext,
    token_given: bool,
    r: Result<(), Error>,
) -> bool {
    if resolved.context_of().token is Some || token_given {
        r is Ok
    } else {
        match resolved {
            ResolvedContext::Ephemeral(context) => r matches Err(Error::Other(m)) && m@
                == token_required_text(context.server_url@),
            ResolvedContext::Saved(_, name) => r matches Err(Error::Other(m)) && m@
                == login_required_text(name@),
        }
    }
}

/// Whether a command may talk to the server, and the error that says what
/// to do where it may not.
pub fn require_auth(resolved: &ResolvedContext, token_given: bool) -> (r: Result<(), Error>)
    ensures
        may_run(*resolved, token_given, r),
{
    if resolved.context().is_authenticated() || token_given {
        return Ok(());
    }
    match resolved {
        ResolvedContext::Ephemeral(context) => {
            let mut m = owned("Token required for server '");
            m.append(context.server_url.as_str());
            m.append("'. Use --token or run 'logchef auth --server ");
            m.append(context.server_url.as_str());
            m.append("'.");
            Err(Error::Other(m))
        },
        ResolvedContext::Saved(_, name) => Err(
            Error::Other(
                join3("Not authenticated for context '", name.as_str(), "'. Run 'logchef auth' first."),
            ),
        ),
    }
}

/// The client for a context: with the token that was given where one was,
/// else with the context's own.
pub fn client_for(context: &Context, token: &Option<String>) -> (r: Result<Client, Error>)
    ensures
        r matches Ok(client) && client.base() == crate::text::trimmed_end(context.server_url@, '/')
            && client.timeout() == context.timeout_secs && client.bearer() == (match *token {
            Some(t) => Some(t@),
            None => opt_view(context.token),
        }),
{
    match Client::from_context(context) {
        Ok(client) => match token {
            Some(t) => Ok(client.with_token(t.clone())),
            None => Ok(client),
        },
        Err(e) => Err(e),
    }
}

/// The first of two optional words.
pub open spec fn first_of(a: Option<String>, b: Option<String>) -> Option<Seq<char>> {
    match a {
        Some(x) => Some(x@),
        None => opt_view(b),
    }
}

/// What a command takes where its argument may be left out: the argument,
/// else the context's default, else the error with the text `missing`.
pub fn argument_or_default(argument: &Option<String>, default: &Option<String>, missing: &str) -> (r:
    Result<String, Error>)
    ensures
        match r {
            Ok(word) => first_of(*argument, *default) == Some(word@),
            Err(e) => {
                &&& first_of(*argument, *default) is None
                &&& e matches Error::Other(m)
                &&& m@ == missing@
            },
        },
{
    match argument {
        Some(word) => Ok(word.clone()),
        None => match default {
            Some(word) => Ok(word.clone()),
            None => Err(Error::other(missing)),
        },
    }
}

/// The place of the first team whose name is `name` but for the case of
/// ASCII letters.
pub open spec fn team_index(teams: Seq<Team>, name: Seq<char>) -> Option<int>
    decreases teams.len(),
{
    if teams.len() == 0 {
        None
    } else if same_ignoring_ascii_case(teams[0].name@, name) {
        Some(0)
    } else {
        match team_index(teams.drop_first(), name) {
            Some(i) => Some(i + 1),
            None => None,
        }
    }
}

/// `team_index` gives the least place whose team has the name, and nothing
/// only where no team has it.
pub proof fn lemma_team_index(teams: Seq<Team>, name: Seq<char>)
    ensures
        match team_index(teams, name) {
            Some(i) => 0 <= i < teams.len() && same_ignoring_ascii_case(teams[i].name@, name)
                && forall|j: int|
                0 <= j < i ==> !same_ignoring_ascii_case((#[trigger] teams[j]).name@, name),
            None => forall|j: int|
                0 <= j < teams.len() ==> !same_ignoring_ascii_case(
                    (#[trigger] teams[j]).name@,
                    name,
                ),
        },
    decreases teams.len(),
{
    if teams.len() > 0 && !same_ignoring_ascii_case(teams[0].name@, name) {
        let rest = teams.drop_first();
        lemma_team_index(rest, name);
        match team_index(rest, name) {
            Some(i) => {
                assert forall|j: int| 0 <= j < i + 1 implies !same_ignoring_ascii_case(
                    (#[trigger] teams[j]).name@,
                    name,
                ) by {
                    if j > 0 {
                        assert(teams[j] == rest[j - 1]);
                    }
                }
            },
            None => {
                assert forall|j: int| 0 <= j < teams.len() implies !same_ignoring_ascii_case(
                    (#[trigger] teams[j]).name@,
                    name,
                ) by {
                    if j > 0 {
                        assert(teams[j] == rest[j - 1]);
                    }
                }
            },
        }
    }
}

/// The text that says that no team has the name.
pub open spec fn team_not_found_text(name: Seq<char>) -> Seq<char> {
    "Team '"@ + name + "' not found"@
}

/// The id of the first team whose name is `name` but for the case of ASCII
/// letters.
pub fn find_team(teams: &[Team], name: &str) -> (r: Result<i64, Error>)
    ensures
        match r {
            Ok(id) => team_index(teams@, name@) matches Some(i) && id == teams@[i].id,
            Err(e) => {
                &&& team_index(teams@, name@) is None
                &&& e matches Error::Other(m)
                &&& m@ == team_not_found_text(name@)
            },
        },
{
    let mut i: usize = 0;
    while i < teams.len()
        invariant
            i <= teams.len(),
            forall|j: int|
                0 <= j < i ==> !same_ignoring_ascii_case((#[trigger] teams@[j]).name@, name@),
        decreases teams.len() - i,
    {
        if eq_ignore_ascii_case(teams[i].name.as_str(), name) {
            proof {
                lemma_team_index(teams@, name@);
            }
            return Ok(teams[i].id);
        }
        i += 1;
    }
    proof {
        lemma_team_index(teams@, name@);
    }
    Err(Error::Other(join3("Team '", name, "' not found")))
}

/// The names and ids of the teams, in order: what the cache is given.
pub open spec fn team_entries(teams: Seq<Team>) -> Seq<(Seq<char>, i64)> {
    Seq::new(teams.len(), |i: int| (teams[i].name@, teams[i].id))
}

/// The names and ids of the teams, in order.
pub fn team_cache_entries(teams: &[Team]) -> (entries: Vec<(String, i64)>)
    ensures
        crate::cache::ids_view(entries@) == team_entries(teams@),
{
    let mut entries: Vec<(String, i64)> = Vec::new();
    let mut i: usize = 0;
    while i < teams.len()
        invariant
            i <= teams.len(),
            crate::cache::ids_view(entries@) == team_entries(teams@).take(i as int),
        decreases teams.len() - i,
    {
        let ghost before = crate::cache::ids_view(entries@);
        let ghost all = team_entries(teams@);
        entries.push((teams[i].name.clone(), teams[i].id));
        assert(crate::cache::ids_view(entries@) =~= before.push(all[i as int]));
        assert(all.take(i + 1) =~= all.take(i as int).push(all[i as int]));
        i += 1;
    }
    assert(team_entries(teams@).take(i as int) == team_entries(teams@));
    entries
}

/// Whether a source goes by `name`, but for the case of ASCII letters: by
/// its own name if `by_table` is false, by its table if it is true.
pub open spec fn source_goes_by(source: Source, name: Seq<char>, by_table: bool) -> bool {
    if by_table {
        source.table_ref_text() matches Some(table) && same_ignoring_ascii_case(table, name)
    } else {
        same_ignoring_ascii_case(source.name@, name)
    }
}

/// The place of the first source that goes by `name`.
pub open spec fn source_index(sources: Seq<Source>, name: Seq<char>, by_table: bool) -> Option<int>
    decreases sources.len(),
{
    if sources.len() == 0 {
        None
    } else if source_goes_by(sources[0], name, by_table) {
        Some(0)
    } else {
        match source_index(sources.drop_first(), name, by_table) {
            Some(i) => Some(i + 1),
            None => None,
        }
    }
}

/// `source_index` gives the least place whose source goes by the name, and
/// nothing only where no source does.
pub proof fn lemma_source_index(sources: Seq<Source>, name: Seq<char>, by_table: bool)
    ensures
        match source_index(sources, name, by_table) {
            Some(i) => 0 <= i < sources.len() && source_goes_by(sources[i], name, by_table)
                && forall|j: int|
                0 <= j < i ==> !source_goes_by(#[trigger] sources[j], name, by_table),
            None => forall|j: int|
                0 <= j < sources.len() ==> !source_goes_by(#[trigger] sources[j], name, by_table),
        },
    decreases sources.len(),
{
    if sources.len() > 0 && !source_goes_by(sources[0], name, by_table) {
        let rest = sources.drop_first();
        lemma_source_index(rest, name, by_table);
        match source_index(rest, name, by_table) {
            Some(i) => {
                assert forall|j: int| 0 <= j < i + 1 implies !source_goes_by(
                    #[trigger] sources[j],
                    name,
                    by_table,
                ) by {
                    if j > 0 {
                        assert(sources[j] == rest[j - 1]);
                    }
                }
            },
            None => {
                assert forall|j: int| 0 <= j < sources.len() implies !source_goes_by(
                    #[trigger] sources[j],
                    name,
                    by_table,
                ) by {
                    if j > 0 {
                        assert(sources[j] == rest[j - 1]);
                    }
                }
            },
        }
    }
}

/// The source that `name` means: the first that has the name, else the
/// first whose table has it.
pub open spec fn named_source(sources: Seq<Source>, name: Seq<char>) -> Option<int> {
    match source_index(sources, name, false) {
        Some(i) => Some(i),
        None => source_index(sources, name, true),
    }
}

fn find_source_by(sources: &[Source], name: &str, by_table: bool) -> (found: Option<usize>)
    ensures
        match found {
            Some(i) => i < sources.len() && source_index(sources@, name@, by_table) == Some(
                i as int,
            ),
            None => source_index(sources@, name@, by_table) is None,
        },
{
    let mut i: usize = 0;
    while i < sources.len()
        invariant
            i <= sources.len(),
            forall|j: int| 0 <= j < i ==> !source_goes_by(#[trigger] sources@[j], name@, by_table),
        decreases sources.len() - i,
    {
        let hit = if by_table {
            match sources[i].table_ref() {
                Some(table) => eq_ignore_ascii_case(table.as_str(), name),
                None => false,
            }
        } else {
            eq_ignore_ascii_case(sources[i].name.as_str(), name)
        };
        if hit {
            proof {
                lemma_source_index(sources@, name@, by_table);
            }
            return Some(i);
        }
        i += 1;
    }
    proof {
        lemma_source_index(sources@, name@, by_table);
    }
    None
}

/// The text that says that no source goes by the name.
pub open spec fn source_not_found_text(name: Seq<char>) -> Seq<char> {
    "Source '"@ + name + "' not found"@
}

/// The id of the source that `name` means.
pub fn find_source(sources: &[Source], name: &str) -> (r: Result<i64, Error>)
    ensures
        match r {
            Ok(id) => named_source(sources@, name@) matches Some(i) && id == sources@[i].id,
            Err(e) => {
                &&& named_source(sources@, name@) is None
                &&& e matches Error::Other(m)
                &&& m@ == source_not_found_text(name@)
            },
        },
{
    match find_source_by(sources, name, false) {
        Some(i) => Ok(sources[i].id),
        None => match find_source_by(sources, name, true) {
            Some(i) => Ok(sources[i].id),
            None => Err(Error::Other(join3("Source '", name, "' not found"))),
        },
    }
}

/// The names of the sources with their ids.
pub open spec fn source_names(sources: Seq<Source>) -> Seq<(Seq<char>, i64)> {
    Seq::new(sources.len(), |i: int| (sources[i].name@, sources[i].id))
}

/// The tables of those sources that have one, with the sources' ids.
pub open spec fn source_tables(sources: Seq<Source>) -> Seq<(Seq<char>, i64)>
    decreases sources.len(),
{
    if sources.len() == 0 {
        Seq::empty()
    } else {
        source_tables(sources.drop_last()) + (match sources.last().table_ref_text() {
            Some(table) => seq![(table, sources.last().id)],
            None => Seq::empty(),
        })
    }
}

/// What the cache is given for the sources of a team: every name with its
/// id, then every table with its source's id.
pub fn source_cache_entries(sources: &[Source]) -> (entries: Vec<(String, i64)>)
    ensures
        crate::cache::ids_view(entries@) == source_names(sources@) + source_tables(sources@),
{
    let mut entries: Vec<(String, i64)> = Vec::new();
    let mut i: usize = 0;
    while i < sources.len()
        invariant
            i <= sources.len(),
            crate::cache::ids_view(entries@) == source_names(sources@).take(i as int),
        decreases sources.len() - i,
    {
        let ghost before = crate::cache::ids_view(entries@);
        let ghost all = source_names(sources@);
        entries.push((sources[i].name.clone(), sources[i].id));
        assert(crate::cache::ids_view(entries@) =~= before.push(all[i as int]));
        assert(all.take(i + 1) =~= all.take(i as int).push(all[i as int]));
        i += 1;
    }
    assert(source_names(sources@).take(i as int) == source_names(sources@));
    let mut k: usize = 0;
    assert(sources@.take(0) == Seq::<Source>::empty());
    while k < sources.len()
        invariant
            k <= sources.len(),
            crate::cache::ids_view(entries@) == source_names(sources@) + source_tables(
                sources@.take(k as int),
            ),
        decreases sources.len() - k,
    {
        assert(sources@.take(k + 1).drop_last() == sources@.take(k as int));
        assert(sources@.take(k + 1).last() == sources@[k as int]);
        let ghost before = crate::cache::ids_view(entries@);
        match sources[k].table_ref() {
            Some(table) => {
                entries.push((table, sources[k].id));
                assert(crate::cache::ids_view(entries@) =~= before.push(
                    (sources@[k as int].table_ref_text().unwrap(), sources@[k as int].id),
                ));
            },
            None => {},
        }
        assert(crate::cache::ids_view(entries@) =~= source_names(sources@) + source_tables(
            sources@.take(k + 1),
        ));
        k += 1;
    }
    assert(sources@.take(k as int) == sources@);
    entries
}

/// Where a text of at most `max_len` bytes ends: three bytes before, for
/// the dots.
pub open spec fn cut_at(max_len: int) -> int {
    if max_len >= 3 {
        max_len - 3
    } else {
        0
    }
}

/// Whether a text can be cut to `max_len` bytes: it is short enough as it
/// is, or the cut does not fall inside a character.
pub open spec fn can_truncate(s: Seq<char>, max_len: int) -> bool {
    encode_utf8(s).len() > max_len ==> is_char_boundary(encode_utf8(s), cut_at(max_len))
}

/// A text cut to `max_len` bytes: the text itself where it is short
/// enough, else its first `max_len - 3` bytes and three dots.
pub open spec fn truncated(s: Seq<char>, max_len: int) -> Seq<char> {
    if encode_utf8(s).len() > max_len {
        decode_utf8(encode_utf8(s).subrange(0, cut_at(max_len))) + "..."@
    } else {
        s
    }
}

/// A text cut to `max_len` bytes. The cut must not fall inside a
/// character.
pub fn truncate_str(s: &str, max_len: usize) -> (out: String)
    requires
        can_truncate(s@, max_len as int),
    ensures
        out@ == truncated(s@, max_len as int),
{
    broadcast use vstd::utf8::encode_utf8_decode_utf8;

    if s.as_bytes().len() > max_len {
        let cut = if max_len >= 3 {
            max_len - 3
        } else {
            0
        };
        let parts = s.split_at(cut);
        assert(parts.0@ == decode_utf8(encode_utf8(parts.0@)));
        join2(parts.0, "...")
    } else {
        owned(s)
    }
}

/// A text cut to `max_len` bytes; nothing where the cut would fall inside
/// a character.
pub fn try_truncate(s: &str, max_len: usize) -> (out: Option<String>)
    ensures
        match out {
            Some(t) => can_truncate(s@, max_len as int) && t@ == truncated(s@, max_len as int),
            None => !can_truncate(s@, max_len as int),
        },
{
    let cut = if max_len >= 3 {
        max_len - 3
    } else {
        0
    };
    if s.as_bytes().len() > max_len && !s.is_char_boundary(cut) {
        None
    } else {
        Some(truncate_str(s, max_len))
    }
}

/// What one argument of `--highlight` asks for: the colour before the
/// first colon, and the words after it, parted at commas and trimmed.
/// Nothing for an argument without a colon.
pub open spec fn highlight_of(arg: Seq<char>) -> Option<(Seq<char>, Seq<Seq<char>>)> {
    match split_first(arg, ':') {
        Some(parts) => Some(
            (parts.0, Seq::new(
                crate::text::split_all(parts.1, ',').len(),
                |i: int| trimmed(crate::text::split_all(parts.1, ',')[i]),
            )),
        ),
        None => None,
    }
}

/// What the arguments of `--highlight` ask for, in order; an argument
/// without a colon is passed over.
pub open spec fn highlights_of(args: Seq<String>) -> Seq<(Seq<char>, Seq<Seq<char>>)>
    decreases args.len(),
{
    if args.len() == 0 {
        Seq::empty()
    } else {
        highlights_of(args.drop_last()) + (match highlight_of(args.last()@) {
            Some(h) => seq![h],
            None => Seq::empty(),
        })
    }
}

/// Colours with their words, as plain values.
pub open spec fn highlights_view(items: Seq<(String, Vec<String>)>) -> Seq<
    (Seq<char>, Seq<Seq<char>>),
> {
    Seq::new(items.len(), |i: int| (items[i].0@, texts_view(items[i].1@)))
}

fn parse_highlight_arg(arg: &str) -> (r: Option<(String, Vec<String>)>)
    ensures
        match r {
            Some(h) => highlight_of(arg@) == Some((h.0@, texts_view(h.1@))),
            None => highlight_of(arg@) is None,
        },
{
    match split_once(arg, ':') {
        Some(parts) => {
            let rest = chars_of(parts.1.as_str());
            let pieces = split_chars(&rest, ',');
            let mut words: Vec<String> = Vec::new();
            let mut i: usize = 0;
            while i < pieces.len()
                invariant
                    i <= pieces.len(),
                    words@.len() == i,
                    forall|j: int| 0 <= j < i ==> (#[trigger] words@[j])@ == trimmed(pieces@[j]@),
                decreases pieces.len() - i,
            {
                let kept = trim_chars(&pieces[i]);
                words.push(text_of(&kept));
                i += 1;
            }
            proof {
                let expected = highlight_of(arg@).unwrap();
                assert(texts_view(words@) =~= expected.1);
            }
            Some((parts.0, words))
        },
        None => None,
    }
}

/// What the arguments of `--highlight` ask for: for each argument of the
/// form `colour:word,word`, the colour and the words.
pub fn parse_highlight_args(args: &[String]) -> (out: Vec<(String, Vec<String>)>)
    ensures
        highlights_view(out@) == highlights_of(args@),
{
    let mut out: Vec<(String, Vec<String>)> = Vec::new();
    let mut i: usize = 0;
    assert(args@.take(0) == Seq::<String>::empty());
    while i < args.len()
        invariant
            i <= args.len(),
            highlights_view(out@) == highlights_of(args@.take(i as int)),
        decreases args.len() - i,
    {
        assert(args@.take(i + 1).drop_last() == args@.take(i as int));
        assert(args@.take(i + 1).last() == args@[i as int]);
        match parse_highlight_arg(args[i].as_str()) {
            Some(h) => {
                out.push(h);
            },
            None => {},
        }
        assert(highlights_view(out@) =~= highlights_of(args@.take(i + 1)));
        i += 1;
    }
    assert(args@.take(i as int) == args@);
    out
}

/// The line under a listing of results: how many, how long it took and
/// how many rows were read.
pub open spec fn stats_text(count: nat, millis: int, rows: int) -> Seq<char> {
    decimal(count) + " logs | "@ + signed_decimal(millis) + "ms | "@ + signed_decimal(rows)
        + " rows read"@
}

/// The line under a listing of results.
pub fn stats_line(count: usize, execution_time_ms: i64, rows_read: i64) -> (line: String)
    ensures
        line@ == stats_text(count as nat, execution_time_ms as int, rows_read as int),
{
    let n = u64_text(count as u64);
    let ms = i64_text(execution_time_ms);
    let rows = i64_text(rows_read);
    let mut line = n;
    line.append(" logs | ");
    line.append(ms.as_str());
    line.append("ms | ");
    line.append(rows.as_str());
    line.append(" rows read");
    line
}

/// Whether a column shows in a table: its name does not start with an
/// underscore, or it is the timestamp.
pub open spec fn shows_in_table(name: Seq<char>) -> bool {
    !(name.len() > 0 && name[0] == '_') || name == "_timestamp"@
}

/// The columns of a table: the first six that show, in order.
pub open spec fn table_columns(columns: Seq<Column>) -> Seq<Column>
    decreases columns.len(),
{
    if columns.len() == 0 {
        Seq::empty()
    } else {
        let before = table_columns(columns.drop_last());
        if before.len() < 6 && shows_in_table(columns.last().name@) {
            before.push(columns.last())
        } else {
            before
        }
    }
}

/// The columns of a table, as places in `columns`.
pub fn display_columns(columns: &[Column]) -> (shown: Vec<usize>)
    ensures
        shown@.len() == table_columns(columns@).len(),
        forall|k: int|
            0 <= k < shown@.len() ==> (#[trigger] shown@[k]) < columns@.len()
                && columns@[shown@[k] as int] == table_columns(columns@)[k],
{
    let mut shown: Vec<usize> = Vec::new();
    let mut i: usize = 0;
    assert(columns@.take(0) == Seq::<Column>::empty());
    while i < columns.len()
        invariant
            i <= columns.len(),
            shown@.len() == table_columns(columns@.take(i as int)).len(),
            forall|k: int|
                0 <= k < shown@.len() ==> (#[trigger] shown@[k]) < columns@.len()
                    && columns@[shown@[k] as int] == table_columns(columns@.take(i as int))[k],
        decreases columns.len() - i,
    {
        assert(columns@.take(i + 1).drop_last() == columns@.take(i as int));
        assert(columns@.take(i + 1).last() == columns@[i as int]);
        let name = chars_of(columns[i].name.as_str());
        let hidden = name.len() > 0 && name[0] == '_';
        let timestamp = crate::text::text_eq(columns[i].name.as_str(), "_timestamp");
        if shown.len() < 6 && (!hidden || timestamp) {
            shown.push(i);
        }
        i += 1;
    }
    assert(columns@.take(i as int) == columns@);
    shown
}

/// What a cell of a table shows for a value: a text as it is, anything else
/// as its JSON text, a missing value as nothing.
pub open spec fn cell_text(value: Option<FieldValue>) -> Seq<char> {
    match value {
        None => Seq::empty(),
        Some(FieldValue::Text(s)) => s@,
        Some(FieldValue::Number(n)) => n@,
        Some(FieldValue::Bool(b)) => if b {
            "true"@
        } else {
            "false"@
        },
        Some(FieldValue::Null) => "null"@,
        Some(FieldValue::Array { shown, json }) => json@,
        Some(FieldValue::Object(json)) => json@,
    }
}

/// What a cell of a table shows for the field `name` of `entry`.
pub fn table_cell(entry: &LogEntry, name: &str) -> (cell: String)
    ensures
        cell@ == cell_text(crate::highlight::field_of(entry.fields@, name@)),
{
    match entry.get(name) {
        None => String::new(),
        Some(FieldValue::Text(s)) => s.clone(),
        Some(FieldValue::Number(n)) => n.clone(),
        Some(FieldValue::Bool(b)) => if *b {
            owned("true")
        } else {
            owned("false")
        },
        Some(FieldValue::Null) => owned("null"),
        Some(FieldValue::Array { shown, json }) => json.clone(),
        Some(FieldValue::Object(json)) => json.clone(),
    }
}

/// The names of the columns of a table.
pub open spec fn column_names(columns: Seq<Column>) -> Seq<Seq<char>> {
    Seq::new(columns.len(), |i: int| columns[i].name@)
}

/// The head of a table: the names of its columns with bars between them.
pub open spec fn table_header_text(columns: Seq<Column>) -> Seq<char> {
    crate::text::joined(column_names(table_columns(columns)), " | "@)
}

/// What the cells of a row show, by column.
pub open spec fn row_cells(entry: LogEntry, columns: Seq<Column>) -> Seq<Seq<char>> {
    Seq::new(
        table_columns(columns).len(),
        |i: int| cell_text(crate::highlight::field_of(entry.fields@, table_columns(columns)[i].name@)),
    )
}

/// A row of a table: what the entry holds for each column, with bars
/// between.
pub open spec fn table_row_text(entry: LogEntry, columns: Seq<Column>) -> Seq<char> {
    crate::text::joined(row_cells(entry, columns), " | "@)
}

/// The head of a table.
pub fn table_header(columns: &[Column]) -> (line: String)
    ensures
        line@ == table_header_text(columns@),
{
    let shown = display_columns(columns);
    let mut names: Vec<String> = Vec::new();
    let mut i: usize = 0;
    while i < shown.len()
        invariant
            i <= shown.len(),
            names@.len() == i,
            shown@.len() == table_columns(columns@).len(),
            forall|k: int|
                0 <= k < shown@.len() ==> (#[trigger] shown@[k]) < columns@.len()
                    && columns@[shown@[k] as int] == table_columns(columns@)[k],
            forall|k: int| 0 <= k < i ==> (#[trigger] names@[k])@ == table_columns(columns@)[k].name@,
        decreases shown.len() - i,
    {
        names.push(columns[shown[i]].name.clone());
        i += 1;
    }
    assert(texts_view(names@) =~= column_names(table_columns(columns@)));
    crate::text::join(&names, " | ")
}

/// A row of a table.
pub fn table_row(entry: &LogEntry, columns: &[Column]) -> (line: String)
    ensures
        line@ == table_row_text(*entry, columns@),
{
    let shown = display_columns(columns);
    let mut cells: Vec<String> = Vec::new();
    let mut i: usize = 0;
    while i < shown.len()
        invariant
            i <= shown.len(),
            cells@.len() == i,
            shown@.len() == table_columns(columns@).len(),
            forall|k: int|
                0 <= k < shown@.len() ==> (#[trigger] shown@[k]) < columns@.len()
                    && columns@[shown@[k] as int] == table_columns(columns@)[k],
            forall|k: int| 0 <= k < i ==> (#[trigger] cells@[k])@ == row_cells(*entry, columns@)[k],
        decreases shown.len() - i,
    {
        cells.push(table_cell(entry, columns[shown[i]].name.as_str()));
        i += 1;
    }
    assert(texts_view(cells@) =~= row_cells(*entry, columns@));
    crate::text::join(&cells, " | ")
}

} // verus!
