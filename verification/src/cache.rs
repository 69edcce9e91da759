//! The cache that resolves the names of teams and sources to their ids.
//!
//! The cache of one server lives in one file. This module holds what is in
//! it and decides what a lookup finds; reading and writing the file is left
//! to the caller.

use vstd::prelude::*;
use crate::clock::now_secs;
use crate::text::{
    all_digits, chars_of, digits_value, distinct_keys, find_named, first_index, keys_of,
    lemma_first_index, lemma_put, lookup, names_of, owned, parse_digits, put, text_of,
};

verus! {

/// How long a cache is good for after it was last written, in seconds.
pub const CACHE_TTL_SECS: u64 = 600;

/// What is cached of one team: its id and the ids of its sources by name.
#[derive(Debug)]
pub struct TeamCache {
    pub id: i64,
    pub sources: Vec<(String, i64)>,
}

/// The cache of one server: its teams by name and when it was last
/// written, in seconds since the epoch.
#[derive(Debug)]
pub struct Cache {
    file_name: String,
    teams: Vec<(String, TeamCache)>,
    updated_at: u64,
}

/// What is cached of one team, as plain values.
pub struct TeamView {
    pub id: i64,
    pub sources: Seq<(Seq<char>, i64)>,
}

/// A list of named ids, as plain values.
pub open spec fn ids_view(entries: Seq<(String, i64)>) -> Seq<(Seq<char>, i64)> {
    Seq::new(entries.len(), |i: int| (entries[i].0@, entries[i].1))
}

/// A list of cached teams, as plain values.
pub open spec fn teams_view(teams: Seq<(String, TeamCache)>) -> Seq<(Seq<char>, TeamView)> {
    Seq::new(
        teams.len(),
        |i: int| (teams[i].0@, TeamView { id: teams[i].1.id, sources: ids_view(teams[i].1.sources@) }),
    )
}

/// The place of the first team with the id `id`.
pub open spec fn first_with_id(teams: Seq<(Seq<char>, TeamView)>, id: i64) -> Option<int>
    decreases teams.len(),
{
    if teams.len() == 0 {
        None
    } else if teams[0].1.id == id {
        Some(0)
    } else {
        match first_with_id(teams.drop_first(), id) {
            Some(i) => Some(i + 1),
            None => None,
        }
    }
}

/// `first_with_id` gives the least place whose team has the id, and
/// nothing only where no team has it.
pub proof fn lemma_first_with_id(teams: Seq<(Seq<char>, TeamView)>, id: i64)
    ensures
        match first_with_id(teams, id) {
            Some(i) => 0 <= i < teams.len() && teams[i].1.id == id && forall|j: int|
                0 <= j < i ==> (#[trigger] teams[j]).1.id != id,
            None => forall|j: int| 0 <= j < teams.len() ==> (#[trigger] teams[j]).1.id != id,
        },
    decreases teams.len(),
{
    if teams.len() > 0 && teams[0].1.id != id {
        let rest = teams.drop_first();
        lemma_first_with_id(rest, id);
        match first_with_id(rest, id) {
            Some(i) => {
                assert forall|j: int| 0 <= j < i + 1 implies (#[trigger] teams[j]).1.id != id by {
                    if j > 0 {
                        assert(teams[j] == rest[j - 1]);
                    }
                }
            },
            None => {
                assert forall|j: int| 0 <= j < teams.len() implies (#[trigger] teams[j]).1.id
                    != id by {
                    if j > 0 {
                        assert(teams[j] == rest[j - 1]);
                    }
                }
            },
        }
    }
}

/// The teams with the team `name` given the id `id`: a team of that name
/// keeps its sources, a new team has none.
pub open spec fn put_team(teams: Seq<(Seq<char>, TeamView)>, name: Seq<char>, id: i64) -> Seq<
    (Seq<char>, TeamView),
> {
    let sources = match lookup(teams, name) {
        Some(team) => team.sources,
        None => Seq::empty(),
    };
    put(teams, name, TeamView { id, sources })
}

/// The teams after each of `items` was put, in order.
pub open spec fn put_teams(teams: Seq<(Seq<char>, TeamView)>, items: Seq<(Seq<char>, i64)>) -> Seq<
    (Seq<char>, TeamView),
>
    decreases items.len(),
{
    if items.len() == 0 {
        teams
    } else {
        put_team(put_teams(teams, items.drop_last()), items.last().0, items.last().1)
    }
}

/// The named ids after each of `items` was put, in order.
pub open spec fn put_ids(ids: Seq<(Seq<char>, i64)>, items: Seq<(Seq<char>, i64)>) -> Seq<
    (Seq<char>, i64),
>
    decreases items.len(),
{
    if items.len() == 0 {
        ids
    } else {
        put(put_ids(ids, items.drop_last()), items.last().0, items.last().1)
    }
}

/// The teams after the sources `items` were put to the first team with the
/// id `team_id`; the same teams where there is no such team.
pub open spec fn put_sources(
    teams: Seq<(Seq<char>, TeamView)>,
    team_id: i64,
    items: Seq<(Seq<char>, i64)>,
) -> Seq<(Seq<char>, TeamView)> {
    match first_with_id(teams, team_id) {
        Some(i) => teams.update(
            i,
            (teams[i].0, TeamView { id: teams[i].1.id, sources: put_ids(teams[i].1.sources, items) }),
        ),
        None => teams,
    }
}

/// Whether the teams are as a cache holds them: no two teams have the same
/// name, and no two sources of a team have.
pub open spec fn teams_wf(teams: Seq<(Seq<char>, TeamView)>) -> bool {
    &&& distinct_keys(keys_of(teams))
    &&& forall|i: int| 0 <= i < teams.len() ==> distinct_keys(keys_of((#[trigger] teams[i]).1.sources))
}

/// Putting a team keeps the names apart.
pub proof fn lemma_put_team_wf(teams: Seq<(Seq<char>, TeamView)>, name: Seq<char>, id: i64)
    requires
        teams_wf(teams),
    ensures
        teams_wf(put_team(teams, name, id)),
{
    let sources = match lookup(teams, name) {
        Some(team) => team.sources,
        None => Seq::empty(),
    };
    let value = TeamView { id, sources };
    lemma_put(teams, name, value);
    lemma_first_index(keys_of(teams), name);
    let after = put_team(teams, name, id);
    assert forall|i: int| 0 <= i < after.len() implies distinct_keys(
        keys_of((#[trigger] after[i]).1.sources),
    ) by {
        match first_index(keys_of(teams), name) {
            Some(k) => {
                if i == k {
                    assert(after[i].1.sources == teams[k].1.sources);
                } else {
                    assert(after[i] == teams[i]);
                }
            },
            None => {
                if i < teams.len() {
                    assert(after[i] == teams[i]);
                } else {
                    assert(keys_of(after[i].1.sources) =~= Seq::<Seq<char>>::empty());
                }
            },
        }
    }
}

/// Putting teams keeps the names apart.
pub proof fn lemma_put_teams_wf(teams: Seq<(Seq<char>, TeamView)>, items: Seq<(Seq<char>, i64)>)
    requires
        teams_wf(teams),
    ensures
        teams_wf(put_teams(teams, items)),
    decreases items.len(),
{
    if items.len() > 0 {
        lemma_put_teams_wf(teams, items.drop_last());
        lemma_put_team_wf(put_teams(teams, items.drop_last()), items.last().0, items.last().1);
    }
}

/// Putting ids keeps the names apart.
pub proof fn lemma_put_ids_distinct(ids: Seq<(Seq<char>, i64)>, items: Seq<(Seq<char>, i64)>)
    requires
        distinct_keys(keys_of(ids)),
    ensures
        distinct_keys(keys_of(put_ids(ids, items))),
    decreases items.len(),
{
    if items.len() > 0 {
        lemma_put_ids_distinct(ids, items.drop_last());
        lemma_put(put_ids(ids, items.drop_last()), items.last().0, items.last().1);
    }
}

/// Putting sources keeps the names apart.
pub proof fn lemma_put_sources_wf(
    teams: Seq<(Seq<char>, TeamView)>,
    team_id: i64,
    items: Seq<(Seq<char>, i64)>,
)
    requires
        teams_wf(teams),
    ensures
        teams_wf(put_sources(teams, team_id, items)),
{
    lemma_first_with_id(teams, team_id);
    match first_with_id(teams, team_id) {
        Some(k) => {
            let after = put_sources(teams, team_id, items);
            lemma_put_ids_distinct(teams[k].1.sources, items);
            assert(keys_of(after) =~= keys_of(teams));
            assert forall|i: int| 0 <= i < after.len() implies distinct_keys(
                keys_of((#[trigger] after[i]).1.sources),
            ) by {
                if i != k {
                    assert(after[i] == teams[i]);
                }
            }
        },
        None => {},
    }
}

/// The id of the team `name`.
pub open spec fn team_id_in(teams: Seq<(Seq<char>, TeamView)>, name: Seq<char>) -> Option<i64> {
    match lookup(teams, name) {
        Some(team) => Some(team.id),
        None => None,
    }
}

/// The id of the source `name` of the first team with the id `team_id`.
pub open spec fn source_id_in(
    teams: Seq<(Seq<char>, TeamView)>,
    team_id: i64,
    name: Seq<char>,
) -> Option<i64> {
    match first_with_id(teams, team_id) {
        Some(i) => lookup(teams[i].1.sources, name),
        None => None,
    }
}

/// Whether a cache written at `updated_at` is too old at `now`: more than
/// ten minutes have passed. A clock that went backwards counts as no time.
pub open spec fn expired(updated_at: u64, now: u64) -> bool {
    now > updated_at && now - updated_at > CACHE_TTL_SECS
}

/// The address of a server with `://` and each of `/`, `:`, `.` replaced by
/// an underscore.
pub open spec fn safe_name(url: Seq<char>) -> Seq<char>
    decreases url.len(),
{
    if url.len() == 0 {
        Seq::empty()
    } else if url.len() >= 3 && url[0] == ':' && url[1] == '/' && url[2] == '/' {
        seq!['_'] + safe_name(url.skip(3))
    } else if url[0] == '/' || url[0] == ':' || url[0] == '.' {
        seq!['_'] + safe_name(url.skip(1))
    } else {
        seq![url[0]] + safe_name(url.skip(1))
    }
}

/// The name of the file that holds the cache of the server at `url`.
pub open spec fn cache_file_name(url: Seq<char>) -> Seq<char> {
    "resolve_"@ + safe_name(url) + ".json"@
}

fn file_name_for(server_url: &str) -> (name: String)
    ensures
        name@ == cache_file_name(server_url@),
{
    let v = chars_of(server_url);
    let mut out: Vec<char> = Vec::new();
    let mut i: usize = 0;
    assert(v@.skip(0) == v@);
    while i < v.len()
        invariant
            i <= v.len(),
            out@ + safe_name(v@.skip(i as int)) == safe_name(v@),
        decreases v.len() - i,
    {
        let ghost rest = v@.skip(i as int);
        if v.len() - i >= 3 && v[i] == ':' && v[i + 1] == '/' && v[i + 2] == '/' {
            assert(rest.skip(3) == v@.skip(i + 3));
            out.push('_');
            assert(out@ + safe_name(v@.skip(i + 3)) == safe_name(v@));
            i += 3;
        } else {
            assert(rest.skip(1) == v@.skip(i + 1));
            let c = v[i];
            if c == '/' || c == ':' || c == '.' {
                out.push('_');
            } else {
                out.push(c);
            }
            assert(out@ + safe_name(v@.skip(i + 1)) == safe_name(v@));
            i += 1;
        }
    }
    let safe = text_of(&out);
    let mut name = owned("resolve_");
    name.append(safe.as_str());
    name.append(".json");
    name
}

fn put_id(ids: &mut Vec<(String, i64)>, name: &str, id: i64)
    ensures
        ids_view(final(ids)@) == put(ids_view(old(ids)@), name@, id),
{
    assert(names_of(ids@) == keys_of(ids_view(ids@)));
    match find_named(ids, name) {
        Some(i) => {
            ids.set(i, (owned(name), id));
        },
        None => {
            ids.push((owned(name), id));
        },
    }
    assert(ids_view(ids@) == put(ids_view(old(ids)@), name@, id));
}

fn put_one_team(teams: &mut Vec<(String, TeamCache)>, name: &str, id: i64)
    ensures
        teams_view(final(teams)@) == put_team(teams_view(old(teams)@), name@, id),
{
    assert(names_of(teams@) == keys_of(teams_view(teams@)));
    match find_named(teams, name) {
        Some(i) => {
            let old_entry = teams.remove(i);
            teams.insert(i, (owned(name), TeamCache { id, sources: old_entry.1.sources }));
            assert(teams_view(teams@) =~= put_team(teams_view(old(teams)@), name@, id));
        },
        None => {
            let sources: Vec<(String, i64)> = Vec::new();
            assert(ids_view(sources@) =~= Seq::<(Seq<char>, i64)>::empty());
            teams.push((owned(name), TeamCache { id, sources }));
            assert(teams_view(teams@) =~= put_team(teams_view(old(teams)@), name@, id));
        },
    }
}

fn find_id(teams: &Vec<(String, TeamCache)>, id: i64) -> (found: Option<usize>)
    ensures
        match found {
            Some(i) => first_with_id(teams_view(teams@), id) == Some(i as int) && i < teams.len(),
            None => first_with_id(teams_view(teams@), id) is None,
        },
{
    let ghost view = teams_view(teams@);
    let mut i: usize = 0;
    while i < teams.len()
        invariant
            i <= teams.len(),
            view == teams_view(teams@),
            forall|j: int| 0 <= j < i ==> (#[trigger] view[j]).1.id != id,
        decreases teams.len() - i,
    {
        if teams[i].1.id == id {
            proof {
                assert(view[i as int].1.id == id);
                lemma_first_with_id(view, id);
            }
            return Some(i);
        }
        i += 1;
    }
    proof {
        lemma_first_with_id(view, id);
    }
    None
}

impl Cache {
    /// The teams in the cache, as plain values.
    pub closed spec fn view(&self) -> Seq<(Seq<char>, TeamView)> {
        teams_view(self.teams@)
    }

    /// When the cache was last written.
    pub closed spec fn updated(&self) -> u64 {
        self.updated_at
    }

    /// The name of the file that holds the cache.
    pub closed spec fn file(&self) -> Seq<char> {
        self.file_name@
    }

    /// Whether no two teams have the same name, and no two sources of a
    /// team have.
    pub open spec fn wf(&self) -> bool {
        teams_wf(self@)
    }

    /// An empty cache for the server at `server_url`. It was never
    /// written, so it counts as written at the epoch.
    pub fn new(server_url: &str) -> (cache: Self)
        ensures
            cache@.len() == 0,
            cache.wf(),
            cache.updated() == 0,
            cache.file() == cache_file_name(server_url@),
    {
        Cache { file_name: file_name_for(server_url), teams: Vec::new(), updated_at: 0 }
    }

    /// The cache of the server at `server_url` with the teams and the time
    /// that were stored for it.
    pub fn restore(server_url: &str, teams: Vec<(String, TeamCache)>, updated_at: u64) -> (cache:
        Self)
        ensures
            cache@ == teams_view(teams@),
            cache.updated() == updated_at,
            cache.file() == cache_file_name(server_url@),
    {
        Cache { file_name: file_name_for(server_url), teams, updated_at }
    }

    /// The name of the file that holds the cache.
    pub fn file_name(&self) -> (name: &str)
        ensures
            name@ == self.file(),
    {
        self.file_name.as_str()
    }

    /// The teams in the cache.
    pub fn teams(&self) -> (teams: &Vec<(String, TeamCache)>)
        ensures
            teams_view(teams@) == self@,
    {
        &self.teams
    }

    /// When the cache was last written, in seconds since the epoch.
    pub fn updated_at(&self) -> (at: u64)
        ensures
            at == self.updated(),
    {
        self.updated_at
    }

    /// Whether the cache is too old at `now`.
    pub fn is_expired_at(&self, now: u64) -> (old: bool)
        ensures
            old == expired(self.updated(), now),
    {
        now.saturating_sub(self.updated_at) > CACHE_TTL_SECS
    }

    /// Whether the cache is too old by the system's clock.
    pub fn is_expired(&self) -> (old: bool)
        ensures
            exists|now: u64| old == #[trigger] expired(self.updated(), now),
    {
        let now = now_secs();
        self.is_expired_at(now)
    }

    /// Marks the cache as written at `now`.
    pub fn touch_at(&mut self, now: u64)
        ensures
            final(self)@ == old(self)@,
            final(self).file() == old(self).file(),
            final(self).updated() == now,
    {
        self.updated_at = now;
    }

    /// Marks the cache as written now, by the system's clock.
    pub fn touch(&mut self)
        ensures
            final(self)@ == old(self)@,
            final(self).file() == old(self).file(),
    {
        let now = now_secs();
        self.touch_at(now);
    }

    /// What a lookup of the team `name` finds at `now`: nothing in a cache
    /// that is too old, else the id of the team of that name.
    pub open spec fn team_id_at(&self, name: Seq<char>, now: u64) -> Option<i64> {
        if expired(self.updated(), now) {
            None
        } else {
            team_id_in(self@, name)
        }
    }

    /// What a lookup of the source `name` of the team `team_id` finds at
    /// `now`: nothing in a cache that is too old, else the id of the source
    /// of that name in the first team with that id.
    pub open spec fn source_id_at(&self, team_id: i64, name: Seq<char>, now: u64) -> Option<i64> {
        if expired(self.updated(), now) {
            None
        } else {
            source_id_in(self@, team_id, name)
        }
    }

    /// The id of the team `name`, at `now`.
    pub fn get_team_id_at(&self, name: &str, now: u64) -> (id: Option<i64>)
        ensures
            id == self.team_id_at(name@, now),
    {
        if self.is_expired_at(now) {
            return None;
        }
        assert(names_of(self.teams@) == keys_of(teams_view(self.teams@)));
        match find_named(&self.teams, name) {
            Some(i) => Some(self.teams[i].1.id),
            None => None,
        }
    }

    /// The id of the team `name`, by the system's clock.
    pub fn get_team_id(&self, name: &str) -> (id: Option<i64>)
        ensures
            exists|now: u64| id == #[trigger] self.team_id_at(name@, now),
    {
        let now = now_secs();
        self.get_team_id_at(name, now)
    }

    /// The id of the source `source_name` of the team `team_id`, at `now`.
    pub fn get_source_id_at(&self, team_id: i64, source_name: &str, now: u64) -> (id: Option<i64>)
        ensures
            id == self.source_id_at(team_id, source_name@, now),
    {
        if self.is_expired_at(now) {
            return None;
        }
        match find_id(&self.teams, team_id) {
            Some(i) => {
                let sources = &self.teams[i].1.sources;
                assert(names_of(sources@) == keys_of(ids_view(sources@)));
                match find_named(sources, source_name) {
                    Some(j) => Some(sources[j].1),
                    None => None,
                }
            },
            None => None,
        }
    }

    /// The id of the source `source_name` of the team `team_id`, by the
    /// system's clock.
    pub fn get_source_id(&self, team_id: i64, source_name: &str) -> (id: Option<i64>)
        ensures
            exists|now: u64| id == #[trigger] self.source_id_at(team_id, source_name@, now),
    {
        let now = now_secs();
        self.get_source_id_at(team_id, source_name, now)
    }

    /// Puts each of `teams` into the cache, in order, and marks the cache
    /// as written at `now`. A team that is there gets the new id and keeps
    /// its sources.
    pub fn set_teams_at(&mut self, teams: &[(String, i64)], now: u64)
        ensures
            final(self)@ == put_teams(old(self)@, ids_view(teams@)),
            final(self).updated() == now,
            final(self).file() == old(self).file(),
            old(self).wf() ==> final(self).wf(),
    {
        proof {
            if old(self).wf() {
                lemma_put_teams_wf(old(self)@, ids_view(teams@));
            }
        }
        let ghost items = ids_view(teams@);
        let mut k: usize = 0;
        assert(items.take(0) == Seq::<(Seq<char>, i64)>::empty());
        while k < teams.len()
            invariant
                k <= teams.len(),
                items == ids_view(teams@),
                teams_view(self.teams@) == put_teams(old(self)@, items.take(k as int)),
                self.file_name == old(self).file_name,
            decreases teams.len() - k,
        {
            assert(items.take(k + 1).drop_last() == items.take(k as int));
            assert(items.take(k + 1).last() == (teams@[k as int].0@, teams@[k as int].1));
            put_one_team(&mut self.teams, teams[k].0.as_str(), teams[k].1);
            k += 1;
        }
        assert(items.take(k as int) == items);
        self.updated_at = now;
    }

    /// Puts each of `teams` into the cache and marks the cache as written
    /// now, by the system's clock.
    pub fn set_teams(&mut self, teams: &[(String, i64)])
        ensures
            final(self)@ == put_teams(old(self)@, ids_view(teams@)),
            final(self).file() == old(self).file(),
            old(self).wf() ==> final(self).wf(),
    {
        let now = now_secs();
        self.set_teams_at(teams, now);
    }

    /// Puts each of `sources` to the first team with the id `team_id`, in
    /// order, and marks the cache as written at `now`. Without such a team
    /// nothing changes, the time included.
    pub fn set_sources_at(&mut self, team_id: i64, sources: &[(String, i64)], now: u64)
        ensures
            final(self)@ == put_sources(old(self)@, team_id, ids_view(sources@)),
            final(self).updated() == (if first_with_id(old(self)@, team_id) is Some {
                now
            } else {
                old(self).updated()
            }),
            final(self).file() == old(self).file(),
            old(self).wf() ==> final(self).wf(),
    {
        proof {
            if old(self).wf() {
                lemma_put_sources_wf(old(self)@, team_id, ids_view(sources@));
            }
        }
        let found = find_id(&self.teams, team_id);
        match found {
            Some(i) => {
                let entry = self.teams.remove(i);
                let name = entry.0;
                let id = entry.1.id;
                let mut ids = entry.1.sources;
                let ghost before = ids_view(ids@);
                let ghost items = ids_view(sources@);
                let mut k: usize = 0;
                assert(items.take(0) == Seq::<(Seq<char>, i64)>::empty());
                while k < sources.len()
                    invariant
                        k <= sources.len(),
                        items == ids_view(sources@),
                        ids_view(ids@) == put_ids(before, items.take(k as int)),
                    decreases sources.len() - k,
                {
                    assert(items.take(k + 1).drop_last() == items.take(k as int));
                    assert(items.take(k + 1).last() == (sources@[k as int].0@, sources@[k as int].1));
                    put_id(&mut ids, sources[k].0.as_str(), sources[k].1);
                    k += 1;
                }
                assert(items.take(k as int) == items);
                self.teams.insert(i, (name, TeamCache { id, sources: ids }));
                self.updated_at = now;
                assert(teams_view(self.teams@) == put_sources(old(self)@, team_id, items));
            },
            None => {},
        }
    }

    /// Puts each of `sources` to the first team with the id `team_id` and
    /// marks the cache as written now, by the system's clock.
    pub fn set_sources(&mut self, team_id: i64, sources: &[(String, i64)])
        ensures
            final(self)@ == put_sources(old(self)@, team_id, ids_view(sources@)),
            final(self).file() == old(self).file(),
            old(self).wf() ==> final(self).wf(),
    {
        let now = now_secs();
        self.set_sources_at(team_id, sources, now);
    }

    /// Empties the cache; it then counts as written at the epoch.
    pub fn clear(&mut self)
        ensures
            final(self)@.len() == 0,
            final(self).wf(),
            final(self).updated() == 0,
            final(self).file() == old(self).file(),
    {
        self.teams = Vec::new();
        self.updated_at = 0;
    }
}

/// What a user's word for a team or a source is: its id or its name.
#[derive(Debug, Clone)]
pub enum Identifier {
    Id(i64),
    Name(String),
}

/// Whether the word is read as an id: it is one or more digits that spell a
/// number of 64 bits with a sign.
pub open spec fn reads_as_id(input: Seq<char>) -> bool {
    input.len() > 0 && all_digits(input) && digits_value(input) <= i64::MAX
}

/// What a user's word for a team or a source is: an id where the word is
/// all digits and fits, else a name.
pub fn parse_identifier(input: &str) -> (id: Identifier)
    ensures
        match id {
            Identifier::Id(n) => reads_as_id(input@) && n == digits_value(input@),
            Identifier::Name(name) => !reads_as_id(input@) && name@ == input@,
        },
{
    let v = chars_of(input);
    assert(v@.skip(0) == v@);
    match parse_digits(&v, 0) {
        Some(n) => {
            if n <= 0x7fff_ffff_ffff_ffff {
                Identifier::Id(n as i64)
            } else {
                Identifier::Name(owned(input))
            }
        },
        None => Identifier::Name(owned(input)),
    }
}

} // verus!
