//! How the word that a user gives for a team or a source becomes an id:
//! from the word itself, from the cache, or from the server's list.

use vstd::prelude::*;
use crate::api::models::{Collection, Source, Team};
use crate::cache::{Cache, Identifier, parse_identifier, put_sources, put_teams, reads_as_id};
use crate::commands::common::{
    find_source, find_team, named_source, source_cache_entries, source_names, source_not_found_text,
    source_tables, team_cache_entries, team_entries, team_index, team_not_found_text,
};
use crate::error::Error;
use crate::text::{digits_value, has_prefix, i64_text, signed_decimal, starts_with, texts_view};

verus! {

/// What is known of an id after a look at the word and the cache.
#[derive(Debug)]
pub enum Lookup {
    /// The id.
    Known(i64),
    /// The name to look for in the server's list.
    Fetch(String),
}

/// What is known of a team's id at `now`: the word itself where it reads
/// as an id, else what the cache holds for the name, else the list has to
/// be fetched.
pub open spec fn team_lookup_is(input: Seq<char>, cache: Cache, now: u64, r: Lookup) -> bool {
    if reads_as_id(input) {
        r matches Lookup::Known(id) && id == digits_value(input)
    } else {
        match cache.team_id_at(input, now) {
            Some(cached) => r matches Lookup::Known(id) && id == cached,
            None => r matches Lookup::Fetch(name) && name@ == input,
        }
    }
}

/// What is known of a team's id at `now`.
pub fn team_lookup_at(input: &str, cache: &Cache, now: u64) -> (r: Lookup)
    ensures
        team_lookup_is(input@, *cache, now, r),
{
    match parse_identifier(input) {
        Identifier::Id(id) => Lookup::Known(id),
        Identifier::Name(name) => match cache.get_team_id_at(name.as_str(), now) {
            Some(id) => Lookup::Known(id),
            None => Lookup::Fetch(name),
        },
    }
}

/// What is known of a team's id, by the system's clock.
pub fn team_lookup(input: &str, cache: &Cache) -> (r: Lookup)
    ensures
        exists|now: u64| #[trigger] team_lookup_is(input@, *cache, now, r),
{
    let now = crate::clock::now_secs();
    team_lookup_at(input, cache, now)
}

/// What is known of a source's id at `now`: the word itself where it
/// reads as an id, else what the cache holds for the name under the team,
/// else the list has to be fetched.
pub open spec fn source_lookup_is(
    input: Seq<char>,
    team_id: i64,
    cache: Cache,
    now: u64,
    r: Lookup,
) -> bool {
    if reads_as_id(input) {
        r matches Lookup::Known(id) && id == digits_value(input)
    } else {
        match cache.source_id_at(team_id, input, now) {
            Some(cached) => r matches Lookup::Known(id) && id == cached,
            None => r matches Lookup::Fetch(name) && name@ == input,
        }
    }
}

/// What is known of a source's id at `now`.
pub fn source_lookup_at(input: &str, team_id: i64, cache: &Cache, now: u64) -> (r: Lookup)
    ensures
        source_lookup_is(input@, team_id, *cache, now, r),
{
    match parse_identifier(input) {
        Identifier::Id(id) => Lookup::Known(id),
        Identifier::Name(name) => match cache.get_source_id_at(team_id, name.as_str(), now) {
            Some(id) => Lookup::Known(id),
            None => Lookup::Fetch(name),
        },
    }
}

/// What is known of a source's id, by the system's clock.
pub fn source_lookup(input: &str, team_id: i64, cache: &Cache) -> (r: Lookup)
    ensures
        exists|now: u64| #[trigger] source_lookup_is(input@, team_id, *cache, now, r),
{
    let now = crate::clock::now_secs();
    source_lookup_at(input, team_id, cache, now)
}

/// Takes the server's list of teams into the cache and finds the team
/// named `name` in it, whatever the case of ASCII letters.
pub fn team_from_list(cache: &mut Cache, teams: &[Team], name: &str) -> (r: Result<i64, Error>)
    ensures
        final(cache)@ == put_teams(old(cache)@, team_entries(teams@)),
        final(cache).file() == old(cache).file(),
        match r {
            Ok(id) => team_index(teams@, name@) matches Some(i) && id == teams@[i].id,
            Err(e) => {
                &&& team_index(teams@, name@) is None
                &&& e matches Error::Other(m)
                &&& m@ == team_not_found_text(name@)
            },
        },
{
    let entries = team_cache_entries(teams);
    cache.set_teams(entries.as_slice());
    find_team(teams, name)
}

/// Takes the server's list of a team's sources into the cache, under their
/// names and under their tables, and finds the source that `name` means.
pub fn source_from_list(cache: &mut Cache, team_id: i64, sources: &[Source], name: &str) -> (r:
    Result<i64, Error>)
    ensures
        final(cache)@ == put_sources(
            old(cache)@,
            team_id,
            source_names(sources@) + source_tables(sources@),
        ),
        final(cache).file() == old(cache).file(),
        match r {
            Ok(id) => named_source(sources@, name@) matches Some(i) && id == sources@[i].id,
            Err(e) => {
                &&& named_source(sources@, name@) is None
                &&& e matches Error::Other(m)
                &&& m@ == source_not_found_text(name@)
            },
        },
{
    let entries = source_cache_entries(sources);
    cache.set_sources(team_id, entries.as_slice());
    find_source(sources, name)
}

/// How a team shows in a list to pick from.
pub open spec fn team_option_text(team: Team) -> Seq<char> {
    team.name@ + " (ID: "@ + signed_decimal(team.id as int) + ")"@
}

/// How a team shows in a list to pick from.
pub fn team_option(team: &Team) -> (option: String)
    ensures
        option@ == team_option_text(*team),
{
    let id = i64_text(team.id);
    let mut option = team.name.clone();
    option.append(" (ID: ");
    option.append(id.as_str());
    option.append(")");
    option
}

/// How a source shows in a list to pick from.
pub open spec fn source_option_text(source: Source) -> Seq<char> {
    source.name@ + " ("@ + (match source.table_ref_text() {
        Some(table) => table,
        None => Seq::empty(),
    }) + ")"@
}

/// How a source shows in a list to pick from.
pub fn source_option(source: &Source) -> (option: String)
    ensures
        option@ == source_option_text(*source),
{
    let table = match source.table_ref() {
        Some(t) => t,
        None => String::new(),
    };
    let mut option = source.name.clone();
    option.append(" (");
    option.append(table.as_str());
    option.append(")");
    option
}

/// How a saved query shows in a list to pick from.
pub open spec fn collection_option_text(collection: Collection) -> Seq<char> {
    collection.name@ + " ["@ + collection.query_type@ + "]"@
}

/// How a saved query shows in a list to pick from.
pub fn collection_option(collection: &Collection) -> (option: String)
    ensures
        option@ == collection_option_text(*collection),
{
    let mut option = collection.name.clone();
    option.append(" [");
    option.append(collection.query_type.as_str());
    option.append("]");
    option
}

/// The place of the first name that `selection` starts with.
pub open spec fn picked(names: Seq<Seq<char>>, selection: Seq<char>) -> Option<int>
    decreases names.len(),
{
    if names.len() == 0 {
        None
    } else if has_prefix(selection, names[0]) {
        Some(0)
    } else {
        match picked(names.drop_first(), selection) {
            Some(i) => Some(i + 1),
            None => None,
        }
    }
}

/// `picked` gives the least place whose name the selection starts with,
/// and nothing only where it starts with none.
pub proof fn lemma_picked(names: Seq<Seq<char>>, selection: Seq<char>)
    ensures
        match picked(names, selection) {
            Some(i) => 0 <= i < names.len() && has_prefix(selection, names[i]) && forall|j: int|
                0 <= j < i ==> !has_prefix(selection, #[trigger] names[j]),
            None => forall|j: int| 0 <= j < names.len() ==> !has_prefix(
                selection,
                #[trigger] names[j],
            ),
        },
    decreases names.len(),
{
    if names.len() > 0 && !has_prefix(selection, names[0]) {
        let rest = names.drop_first();
        lemma_picked(rest, selection);
        match picked(rest, selection) {
            Some(i) => {
                assert forall|j: int| 0 <= j < i + 1 implies !has_prefix(
                    selection,
                    #[trigger] names[j],
                ) by {
                    if j > 0 {
                        assert(names[j] == rest[j - 1]);
                    }
                }
            },
            None => {
                assert forall|j: int| 0 <= j < names.len() implies !has_prefix(
                    selection,
                    #[trigger] names[j],
                ) by {
                    if j > 0 {
                        assert(names[j] == rest[j - 1]);
                    }
                }
            },
        }
    }
}

/// Which of the things named `names` the user picked, given the option
/// that was selected: the first whose name the option starts with.
pub fn pick(names: &Vec<String>, selection: &str) -> (found: Option<usize>)
    ensures
        match found {
            Some(i) => i < names.len() && picked(texts_view(names@), selection@) == Some(i as int),
            None => picked(texts_view(names@), selection@) is None,
        },
{
    let ghost all = texts_view(names@);
    let mut i: usize = 0;
    while i < names.len()
        invariant
            i <= names.len(),
            all == texts_view(names@),
            forall|j: int| 0 <= j < i ==> !has_prefix(selection@, #[trigger] all[j]),
        decreases names.len() - i,
    {
        if starts_with(selection, names[i].as_str()) {
            proof {
                assert(has_prefix(selection@, all[i as int]));
                lemma_picked(all, selection@);
            }
            return Some(i);
        }
        i += 1;
    }
    proof {
        lemma_picked(all, selection@);
    }
    None
}

} // verus!
