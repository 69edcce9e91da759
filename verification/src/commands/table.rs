//! How listings are laid out: columns of fixed width, one row per thing.

use vstd::prelude::*;
use crate::api::models::{Collection, Column, Source, Team};
use crate::commands::common::{can_truncate, truncated, try_truncate};
use crate::config::schema::Context;
use crate::text::{chars_of, decimal, i64_text, owned, signed_decimal, text_of, u64_text};

verus! {

/// `n` times the character `c`.
pub open spec fn repeated(c: char, n: nat) -> Seq<char> {
    Seq::new(n, |i: int| c)
}

/// `n` times the character `c`.
pub fn repeat(c: char, n: usize) -> (out: String)
    ensures
        out@ == repeated(c, n as nat),
{
    let mut v: Vec<char> = Vec::new();
    let mut i: usize = 0;
    while i < n
        invariant
            i <= n,
            v@ == repeated(c, i as nat),
        decreases n - i,
    {
        v.push(c);
        assert(v@ =~= repeated(c, (i + 1) as nat));
        i += 1;
    }
    text_of(&v)
}

/// A text filled up with blanks at its end to `width` characters; a longer
/// text stays as it is.
pub open spec fn padded(s: Seq<char>, width: nat) -> Seq<char> {
    if s.len() >= width {
        s
    } else {
        s + repeated(' ', (width - s.len()) as nat)
    }
}

/// A text filled up with blanks at its end to `width` characters.
pub fn pad_right(s: &str, width: usize) -> (out: String)
    ensures
        out@ == padded(s@, width as nat),
{
    let mut v = chars_of(s);
    if v.len() >= width {
        return text_of(&v);
    }
    let ghost start = v@;
    let missing = width - v.len();
    let mut i: usize = 0;
    assert(start + repeated(' ', 0) =~= start);
    while i < missing
        invariant
            i <= missing,
            v@ == start + repeated(' ', i as nat),
        decreases missing - i,
    {
        v.push(' ');
        assert(v@ =~= start + repeated(' ', (i + 1) as nat));
        i += 1;
    }
    text_of(&v)
}

/// The cells of a row in a line: each but the last filled up to its width
/// and followed by a blank.
pub open spec fn row_text(cells: Seq<(Seq<char>, nat)>, last: Seq<char>) -> Seq<char>
    decreases cells.len(),
{
    if cells.len() == 0 {
        last
    } else {
        padded(cells[0].0, cells[0].1) + " "@ + row_text(cells.drop_first(), last)
    }
}

/// The head of the listing of teams.
pub open spec fn teams_header() -> Seq<char> {
    row_text(seq![("ID"@, 4nat), ("NAME"@, 24nat), ("ROLE"@, 12nat), ("MEMBERS"@, 8nat)], "DESCRIPTION"@)
}

/// The text of an optional word, or `other` where there is none.
pub open spec fn word_or(word: Option<String>, other: Seq<char>) -> Seq<char> {
    match word {
        Some(w) => w@,
        None => other,
    }
}

/// Whether a team can be shown in a row: no cut falls inside a character.
pub open spec fn team_fits(team: Team) -> bool {
    &&& can_truncate(team.name@, 24)
    &&& can_truncate(word_or(team.role, "-"@), 12)
    &&& can_truncate(word_or(team.description, ""@), 38)
}

/// The row of a team: id, name, role, number of members and description,
/// each cut to its column; a dash for a role or a number that is not
/// known.
pub open spec fn team_row_text(team: Team) -> Seq<char> {
    row_text(
        seq![
            (signed_decimal(team.id as int), 4nat),
            (truncated(team.name@, 24), 24nat),
            (truncated(word_or(team.role, "-"@), 12), 12nat),
            (
                match team.member_count {
                    Some(n) => signed_decimal(n as int),
                    None => "-"@,
                },
                8nat,
            ),
        ],
        truncated(word_or(team.description, ""@), 38),
    )
}

/// Cells with their widths, as plain values.
pub open spec fn cells_view(cells: Seq<(String, usize)>) -> Seq<(Seq<char>, nat)> {
    Seq::new(cells.len(), |i: int| (cells[i].0@, cells[i].1 as nat))
}

/// The cells of a row in a line.
pub fn row(cells: &Vec<(String, usize)>, last: &str) -> (line: String)
    ensures
        line@ == row_text(cells_view(cells@), last@),
{
    let ghost all = cells_view(cells@);
    let mut line = String::new();
    let mut i: usize = 0;
    assert(all.skip(0) == all);
    assert(Seq::<char>::empty() + row_text(all, last@) == row_text(all, last@));
    while i < cells.len()
        invariant
            i <= cells.len(),
            all == cells_view(cells@),
            line@ + row_text(all.skip(i as int), last@) == row_text(all, last@),
        decreases cells.len() - i,
    {
        let ghost before = line@;
        let ghost rest = all.skip(i as int);
        let filled = pad_right(cells[i].0.as_str(), cells[i].1);
        line.append(filled.as_str());
        line.append(" ");
        proof {
            assert(rest[0] == all[i as int]);
            assert(rest.drop_first() == all.skip(i + 1));
            assert(line@ + row_text(all.skip(i + 1), last@) == before + row_text(rest, last@));
        }
        i += 1;
    }
    line.append(last);
    line
}

fn cells1(a: &str, wa: usize) -> (cells: Vec<(String, usize)>)
    ensures
        cells_view(cells@) == seq![(a@, wa as nat)],
{
    let mut cells: Vec<(String, usize)> = Vec::new();
    cells.push((owned(a), wa));
    assert(cells_view(cells@) =~= seq![(a@, wa as nat)]);
    cells
}

fn cells3(a: &str, wa: usize, b: &str, wb: usize, c: &str, wc: usize) -> (cells: Vec<
    (String, usize),
>)
    ensures
        cells_view(cells@) == seq![(a@, wa as nat), (b@, wb as nat), (c@, wc as nat)],
{
    let mut cells: Vec<(String, usize)> = Vec::new();
    cells.push((owned(a), wa));
    cells.push((owned(b), wb));
    cells.push((owned(c), wc));
    assert(cells_view(cells@) =~= seq![(a@, wa as nat), (b@, wb as nat), (c@, wc as nat)]);
    cells
}

fn cells4(
    a: &str,
    wa: usize,
    b: &str,
    wb: usize,
    c: &str,
    wc: usize,
    d: &str,
    wd: usize,
) -> (cells: Vec<(String, usize)>)
    ensures
        cells_view(cells@) == seq![
            (a@, wa as nat),
            (b@, wb as nat),
            (c@, wc as nat),
            (d@, wd as nat),
        ],
{
    let mut cells: Vec<(String, usize)> = Vec::new();
    cells.push((owned(a), wa));
    cells.push((owned(b), wb));
    cells.push((owned(c), wc));
    cells.push((owned(d), wd));
    assert(cells_view(cells@) =~= seq![
        (a@, wa as nat),
        (b@, wb as nat),
        (c@, wc as nat),
        (d@, wd as nat),
    ]);
    cells
}

fn word_of<'a>(word: &'a Option<String>, other: &'a str) -> (out: &'a str)
    ensures
        out@ == word_or(*word, other@),
{
    match word {
        Some(w) => w.as_str(),
        None => other,
    }
}

/// The head of the listing of teams.
pub fn teams_head() -> (line: String)
    ensures
        line@ == teams_header(),
{
    let cells = cells4("ID", 4, "NAME", 24, "ROLE", 12, "MEMBERS", 8);
    row(&cells, "DESCRIPTION")
}

/// The row of a team; nothing where a cut would fall inside a character.
pub fn team_row(team: &Team) -> (line: Option<String>)
    ensures
        match line {
            Some(l) => team_fits(*team) && l@ == team_row_text(*team),
            None => !team_fits(*team),
        },
{
    let name = match try_truncate(team.name.as_str(), 24) {
        Some(t) => t,
        None => {
            return None;
        },
    };
    let role = match try_truncate(word_of(&team.role, "-"), 12) {
        Some(t) => t,
        None => {
            return None;
        },
    };
    let description = match try_truncate(word_of(&team.description, ""), 38) {
        Some(t) => t,
        None => {
            return None;
        },
    };
    let id = i64_text(team.id);
    let members = match team.member_count {
        Some(n) => i64_text(n as i64),
        None => owned("-"),
    };
    let cells = cells4(id.as_str(), 4, name.as_str(), 24, role.as_str(), 12, members.as_str(), 8);
    assert(id@ == signed_decimal(team.id as int));
    assert(name@ == truncated(team.name@, 24));
    assert(role@ == truncated(word_or(team.role, "-"@), 12));
    assert(members@ == (match team.member_count {
        Some(n) => signed_decimal(n as int),
        None => "-"@,
    }));
    assert(description@ == truncated(word_or(team.description, ""@), 38));
    assert(cells_view(cells@) =~= seq![
        (signed_decimal(team.id as int), 4nat),
        (truncated(team.name@, 24), 24nat),
        (truncated(word_or(team.role, "-"@), 12), 12nat),
        (
            match team.member_count {
                Some(n) => signed_decimal(n as int),
                None => "-"@,
            },
            8nat,
        ),
    ]);
    Some(row(&cells, description.as_str()))
}

/// The head of the listing of sources.
pub open spec fn sources_header() -> Seq<char> {
    row_text(
        seq![("ID"@, 4nat), ("NAME"@, 24nat), ("TABLE"@, 26nat), ("CONNECTED"@, 10nat)],
        "DESCRIPTION"@,
    )
}

/// The table of a source as a row shows it: a dash where it is not known.
pub open spec fn shown_table(source: Source) -> Seq<char> {
    match source.table_ref_text() {
        Some(table) => table,
        None => "-"@,
    }
}

/// Whether a source can be shown in a row: no cut falls inside a
/// character.
pub open spec fn source_fits(source: Source) -> bool {
    &&& can_truncate(source.name@, 24)
    &&& can_truncate(shown_table(source), 26)
    &&& can_truncate(word_or(source.description, ""@), 32)
}

/// The row of a source: id, name, table, whether it is connected, and
/// description, each cut to its column.
pub open spec fn source_row_text(source: Source) -> Seq<char> {
    row_text(
        seq![
            (signed_decimal(source.id as int), 4nat),
            (truncated(source.name@, 24), 24nat),
            (truncated(shown_table(source), 26), 26nat),
            (
                if source.is_connected {
                    "yes"@
                } else {
                    "no"@
                },
                10nat,
            ),
        ],
        truncated(word_or(source.description, ""@), 32),
    )
}

/// The head of the listing of sources.
pub fn sources_head() -> (line: String)
    ensures
        line@ == sources_header(),
{
    let cells = cells4("ID", 4, "NAME", 24, "TABLE", 26, "CONNECTED", 10);
    row(&cells, "DESCRIPTION")
}

/// The row of a source; nothing where a cut would fall inside a character.
pub fn source_row(source: &Source) -> (line: Option<String>)
    ensures
        match line {
            Some(l) => source_fits(*source) && l@ == source_row_text(*source),
            None => !source_fits(*source),
        },
{
    let name = match try_truncate(source.name.as_str(), 24) {
        Some(t) => t,
        None => {
            return None;
        },
    };
    let table_ref = match source.table_ref() {
        Some(t) => t,
        None => owned("-"),
    };
    let table = match try_truncate(table_ref.as_str(), 26) {
        Some(t) => t,
        None => {
            return None;
        },
    };
    let description = match try_truncate(word_of(&source.description, ""), 32) {
        Some(t) => t,
        None => {
            return None;
        },
    };
    let id = i64_text(source.id);
    let connected = if source.is_connected {
        "yes"
    } else {
        "no"
    };
    let cells = cells4(id.as_str(), 4, name.as_str(), 24, table.as_str(), 26, connected, 10);
    Some(row(&cells, description.as_str()))
}

/// The head of the listing of saved queries.
pub open spec fn collections_header() -> Seq<char> {
    row_text(seq![("ID"@, 4nat), ("NAME"@, 30nat), ("TYPE"@, 12nat)], "DESCRIPTION"@)
}

/// Whether a saved query can be shown in a row: no cut falls inside a
/// character.
pub open spec fn collection_fits(collection: Collection) -> bool {
    &&& can_truncate(collection.name@, 28)
    &&& can_truncate(word_or(collection.description, ""@), 30)
}

/// The row of a saved query: id, name, type and description.
pub open spec fn collection_row_text(collection: Collection) -> Seq<char> {
    row_text(
        seq![
            (signed_decimal(collection.id as int), 4nat),
            (truncated(collection.name@, 28), 30nat),
            (collection.query_type@, 12nat),
        ],
        truncated(word_or(collection.description, ""@), 30),
    )
}

/// The head of the listing of saved queries.
pub fn collections_head() -> (line: String)
    ensures
        line@ == collections_header(),
{
    let cells = cells3("ID", 4, "NAME", 30, "TYPE", 12);
    row(&cells, "DESCRIPTION")
}

/// The row of a saved query; nothing where a cut would fall inside a
/// character.
pub fn collection_row(collection: &Collection) -> (line: Option<String>)
    ensures
        match line {
            Some(l) => collection_fits(*collection) && l@ == collection_row_text(*collection),
            None => !collection_fits(*collection),
        },
{
    let name = match try_truncate(collection.name.as_str(), 28) {
        Some(t) => t,
        None => {
            return None;
        },
    };
    let description = match try_truncate(word_of(&collection.description, ""), 30) {
        Some(t) => t,
        None => {
            return None;
        },
    };
    let id = i64_text(collection.id);
    let cells = cells3(id.as_str(), 4, name.as_str(), 30, collection.query_type.as_str(), 12);
    Some(row(&cells, description.as_str()))
}

/// The head of the listing of contexts.
pub open spec fn contexts_header() -> Seq<char> {
    row_text(seq![(""@, 3nat), ("CONTEXT"@, 20nat), ("SERVER"@, 40nat)], "AUTH"@)
}

/// The row of a context: a star for the one in use, its name, its server
/// cut to 38 bytes, and whether a token is stored.
pub open spec fn context_row_text(name: Seq<char>, context: Context, current: bool) -> Seq<char> {
    row_text(
        seq![
            (
                if current {
                    "*"@
                } else {
                    ""@
                },
                3nat,
            ),
            (name, 20nat),
            (truncated(context.server_url@, 38), 40nat),
        ],
        if context.token is Some {
            "yes"@
        } else {
            "no"@
        },
    )
}

/// The head of the listing of contexts.
pub fn contexts_head() -> (line: String)
    ensures
        line@ == contexts_header(),
{
    let cells = cells3("", 3, "CONTEXT", 20, "SERVER", 40);
    row(&cells, "AUTH")
}

/// The row of a context; nothing where the cut of the server's address
/// would fall inside a character.
pub fn context_row(name: &str, context: &Context, current: bool) -> (line: Option<String>)
    ensures
        match line {
            Some(l) => can_truncate(context.server_url@, 38) && l@ == context_row_text(
                name@,
                *context,
                current,
            ),
            None => !can_truncate(context.server_url@, 38),
        },
{
    let server = match try_truncate(context.server_url.as_str(), 38) {
        Some(t) => t,
        None => {
            return None;
        },
    };
    let mark = if current {
        "*"
    } else {
        ""
    };
    let auth = if context.is_authenticated() {
        "yes"
    } else {
        "no"
    };
    let cells = cells3(mark, 3, name, 20, server.as_str(), 40);
    Some(row(&cells, auth))
}

/// The row of a column of a schema: its name, filled up to thirty
/// characters, and its type.
pub open spec fn schema_row_text(column: Column) -> Seq<char> {
    row_text(seq![(column.name@, 30nat)], column.column_type@)
}

/// The head of a schema.
pub fn schema_head() -> (line: String)
    ensures
        line@ == row_text(seq![("NAME"@, 30nat)], "TYPE"@),
{
    let cells = cells1("NAME", 30);
    row(&cells, "TYPE")
}

/// The row of a column of a schema.
pub fn schema_row(column: &Column) -> (line: String)
    ensures
        line@ == schema_row_text(*column),
{
    let cells = cells1(column.name.as_str(), 30);
    row(&cells, column.column_type.as_str())
}

/// The line under a listing that counts what is listed.
pub fn count_line(count: usize, things: &str) -> (line: String)
    ensures
        line@ == decimal(count as nat) + " "@ + things@,
{
    let mut line = u64_text(count as u64);
    line.append(" ");
    line.append(things);
    line
}

} // verus!
