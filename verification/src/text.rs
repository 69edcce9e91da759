//! Text primitives shared by the rest of the library. Every contract here is
//! stated over `Seq<char>`, the view of `str` and `String`.

use vstd::prelude::*;

verus! {

/// `String::push` appends one character to the end of the string.
pub assume_specification[ String::push ](s: &mut String, ch: char)
    ensures
        final(s)@ == old(s)@.push(ch),
;

/// The characters of `s`, in order.
pub fn chars_of(s: &str) -> (out: Vec<char>)
    ensures
        out@ == s@,
{
    let mut out: Vec<char> = Vec::new();
    for c in it: s.chars()
        invariant
            out@ == it.seq().take(it.index()),
            it.seq() == s@,
    {
        out.push(c);
    }
    out
}

/// The string made of the characters of `v`, in order.
pub fn text_of(v: &Vec<char>) -> (out: String)
    ensures
        out@ == v@,
{
    let mut out = String::new();
    let mut i: usize = 0;
    while i < v.len()
        invariant
            i <= v.len(),
            out@ == v@.take(i as int),
        decreases v.len() - i,
    {
        out.push(v[i]);
        i += 1;
    }
    out
}

/// Whether two character vectors hold the same characters.
pub fn chars_eq(a: &Vec<char>, b: &Vec<char>) -> (r: bool)
    ensures
        r == (a@ == b@),
{
    if a.len() != b.len() {
        return false;
    }
    let mut i: usize = 0;
    while i < a.len()
        invariant
            i <= a.len(),
            a.len() == b.len(),
            a@.take(i as int) == b@.take(i as int),
        decreases a.len() - i,
    {
        if a[i] != b[i] {
            return false;
        }
        assert(a@.take(i + 1) == a@.take(i as int).push(a@[i as int]));
        assert(b@.take(i + 1) == b@.take(i as int).push(b@[i as int]));
        i += 1;
    }
    assert(a@.take(a.len() as int) == a@);
    assert(b@.take(b.len() as int) == b@);
    true
}

/// Whether two strings hold the same characters.
pub fn text_eq(a: &str, b: &str) -> (r: bool)
    ensures
        r == (a@ == b@),
{
    let x = chars_of(a);
    let y = chars_of(b);
    chars_eq(&x, &y)
}

/// An owned copy of `s`.
pub fn owned(s: &str) -> (out: String)
    ensures
        out@ == s@,
{
    s.to_owned()
}

/// `a` followed by `b`.
pub fn join2(a: &str, b: &str) -> (out: String)
    ensures
        out@ == a@ + b@,
{
    let mut out = a.to_owned();
    out.append(b);
    out
}

/// `a`, `b` and `c` in a row.
pub fn join3(a: &str, b: &str, c: &str) -> (out: String)
    ensures
        out@ == a@ + b@ + c@,
{
    let mut out = a.to_owned();
    out.append(b);
    out.append(c);
    out
}

/// The decimal digit for `d`, for `d` below ten.
pub open spec fn digit_char(d: nat) -> char {
    ((48 + d) as u8) as char
}

/// The decimal numeral of `n`, without sign or leading zeros.
pub open spec fn decimal(n: nat) -> Seq<char>
    decreases n,
{
    if n < 10 {
        seq![digit_char(n)]
    } else {
        decimal(n / 10).push(digit_char(n % 10))
    }
}

/// The decimal numeral of a signed number: a minus sign for a negative one.
pub open spec fn signed_decimal(n: int) -> Seq<char> {
    if n < 0 {
        seq!['-'] + decimal((-n) as nat)
    } else {
        decimal(n as nat)
    }
}

fn push_decimal(out: &mut Vec<char>, n: u64)
    ensures
        final(out)@ == old(out)@ + decimal(n as nat),
    decreases n,
{
    if n >= 10 {
        push_decimal(out, n / 10);
    }
    let d: u8 = (n % 10) as u8;
    out.push((48 + d) as char);
    assert(final(out)@ == old(out)@ + decimal(n as nat));
}

/// The decimal numeral of `n`.
pub fn u64_text(n: u64) -> (out: String)
    ensures
        out@ == decimal(n as nat),
{
    let mut v: Vec<char> = Vec::new();
    push_decimal(&mut v, n);
    text_of(&v)
}

/// The decimal numeral of `n`, with a minus sign where it is negative.
pub fn i64_text(n: i64) -> (out: String)
    ensures
        out@ == signed_decimal(n as int),
{
    let mut v: Vec<char> = Vec::new();
    if n < 0 {
        v.push('-');
        let m: u64 = ((-(n + 1)) as u64) + 1;
        push_decimal(&mut v, m);
    } else {
        push_decimal(&mut v, n as u64);
    }
    text_of(&v)
}

/// The text made of the characters of `v` from `from` up to `to`.
pub fn slice_text(v: &Vec<char>, from: usize, to: usize) -> (out: String)
    requires
        from <= to <= v.len(),
    ensures
        out@ == v@.subrange(from as int, to as int),
{
    let mut out = String::new();
    let mut i: usize = from;
    while i < to
        invariant
            from <= i <= to <= v.len(),
            out@ == v@.subrange(from as int, i as int),
        decreases to - i,
    {
        out.push(v[i]);
        assert(v@.subrange(from as int, i + 1) == v@.subrange(from as int, i as int).push(
            v@[i as int],
        ));
        i += 1;
    }
    out
}

/// `s` without the run of `c` at its end.
pub open spec fn trimmed_end(s: Seq<char>, c: char) -> Seq<char>
    decreases s.len(),
{
    if s.len() > 0 && s.last() == c {
        trimmed_end(s.drop_last(), c)
    } else {
        s
    }
}

/// `s` without the run of `c` at its end.
pub fn trim_end(s: &str, c: char) -> (out: String)
    ensures
        out@ == trimmed_end(s@, c),
{
    let v = chars_of(s);
    let mut n: usize = v.len();
    assert(v@.take(n as int) == v@);
    while n > 0 && v[n - 1] == c
        invariant
            n <= v.len(),
            trimmed_end(v@, c) == trimmed_end(v@.take(n as int), c),
        decreases n,
    {
        assert(v@.take(n as int).drop_last() == v@.take(n - 1));
        n -= 1;
    }
    slice_text(&v, 0, n)
}

/// The place of the first of `keys` that equals `key`.
pub open spec fn first_index(keys: Seq<Seq<char>>, key: Seq<char>) -> Option<int>
    decreases keys.len(),
{
    if keys.len() == 0 {
        None
    } else if keys[0] == key {
        Some(0)
    } else {
        match first_index(keys.drop_first(), key) {
            Some(i) => Some(i + 1),
            None => None,
        }
    }
}

/// `first_index` gives the least place that holds `key`, and nothing only
/// where no place does.
pub proof fn lemma_first_index(keys: Seq<Seq<char>>, key: Seq<char>)
    ensures
        match first_index(keys, key) {
            Some(i) => 0 <= i < keys.len() && keys[i] == key && forall|j: int|
                0 <= j < i ==> #[trigger] keys[j] != key,
            None => forall|j: int| 0 <= j < keys.len() ==> #[trigger] keys[j] != key,
        },
    decreases keys.len(),
{
    if keys.len() > 0 && keys[0] != key {
        let rest = keys.drop_first();
        lemma_first_index(rest, key);
        match first_index(rest, key) {
            Some(i) => {
                assert forall|j: int| 0 <= j < i + 1 implies #[trigger] keys[j] != key by {
                    if j > 0 {
                        assert(keys[j] == rest[j - 1]);
                    }
                }
            },
            None => {
                assert forall|j: int| 0 <= j < keys.len() implies #[trigger] keys[j] != key by {
                    if j > 0 {
                        assert(keys[j] == rest[j - 1]);
                    }
                }
            },
        }
    }
}

/// The names of a list of named values, in order.
pub open spec fn names_of<V>(entries: Seq<(String, V)>) -> Seq<Seq<char>> {
    Seq::new(entries.len(), |i: int| entries[i].0@)
}

/// The place of the first entry named `key`.
pub fn find_named<V>(entries: &Vec<(String, V)>, key: &str) -> (found: Option<usize>)
    ensures
        match found {
            Some(i) => i < entries.len() && entries@[i as int].0@ == key@ && first_index(
                names_of(entries@),
                key@,
            ) == Some(i as int),
            None => first_index(names_of(entries@), key@) is None,
        },
{
    let ghost keys = names_of(entries@);
    let mut i: usize = 0;
    while i < entries.len()
        invariant
            i <= entries.len(),
            keys == names_of(entries@),
            forall|j: int| 0 <= j < i ==> #[trigger] keys[j] != key@,
        decreases entries.len() - i,
    {
        if text_eq(entries[i].0.as_str(), key) {
            proof {
                assert(keys[i as int] == key@);
                lemma_first_index(keys, key@);
            }
            return Some(i);
        }
        i += 1;
    }
    proof {
        lemma_first_index(keys, key@);
    }
    None
}

/// Whether a character beyond ASCII is white space to
/// `char::is_whitespace`.
pub uninterp spec fn white_space_beyond_ascii(c: char) -> bool;

/// Whether `c` is white space to `char::is_whitespace`: within ASCII the
/// blank and the characters from tab to carriage return, U+0009 to U+000D;
/// beyond ASCII what Unicode lists.
pub open spec fn is_white_space(c: char) -> bool {
    if (c as u32) < 128 {
        c == ' ' || 9 <= c as u32 <= 13
    } else {
        white_space_beyond_ascii(c)
    }
}

/// `char::is_whitespace`: whether the character has the Unicode property
/// White_Space. Within ASCII the characters with that property are the
/// blank and U+0009 to U+000D.
pub assume_specification[ char::is_whitespace ](c: char) -> (white: bool)
    ensures
        white == (if (c as u32) < 128 {
            c == ' ' || 9 <= c as u32 <= 13
        } else {
            white_space_beyond_ascii(c)
        }),
;

/// Where the run that starts at `from` ends: the first place at or after
/// `from` whose character is white space if `white` is false, or is not
/// white space if `white` is true; the length of `s` where there is none.
pub open spec fn run_end(s: Seq<char>, from: int, white: bool) -> int
    decreases s.len() - from,
{
    if from < 0 || from >= s.len() {
        s.len() as int
    } else if is_white_space(s[from]) != white {
        from
    } else {
        run_end(s, from + 1, white)
    }
}

fn skip_run(v: &Vec<char>, from: usize, white: bool) -> (end: usize)
    requires
        from <= v.len(),
    ensures
        end as int == run_end(v@, from as int, white),
        from <= end <= v.len(),
{
    let mut i: usize = from;
    while i < v.len() && v[i].is_whitespace() == white
        invariant
            from <= i <= v.len(),
            run_end(v@, from as int, white) == run_end(v@, i as int, white),
        decreases v.len() - i,
    {
        i += 1;
    }
    i
}

/// A run ends where its kind of character ends: where every character from
/// `from` up to `to` is of the kind and the one at `to`, if there is one,
/// is not, the run from `from` ends at `to`.
pub proof fn lemma_run_end(s: Seq<char>, from: int, to: int, white: bool)
    requires
        0 <= from <= to <= s.len(),
        forall|k: int| from <= k < to ==> is_white_space(#[trigger] s[k]) == white,
        to < s.len() ==> is_white_space(s[to]) != white,
    ensures
        run_end(s, from, white) == to,
    decreases to - from,
{
    if from < to {
        assert(is_white_space(s[from]) == white);
        lemma_run_end(s, from + 1, to, white);
    }
}

/// Whether no character of `s` is white space.
pub open spec fn no_white_space(s: Seq<char>) -> bool {
    forall|i: int| 0 <= i < s.len() ==> !is_white_space(#[trigger] s[i])
}

/// In a line that is a word, a blank, a second word and then nothing or
/// more white space and whatever follows, the second word is the second
/// word.
pub proof fn lemma_second_word(first: Seq<char>, second: Seq<char>, rest: Seq<char>)
    requires
        first.len() > 0,
        second.len() > 0,
        no_white_space(first),
        no_white_space(second),
        rest.len() > 0 ==> is_white_space(rest[0]),
    ensures
        second_word(first + seq![' '] + second + rest) == Some(second),
{
    let s = first + seq![' '] + second + rest;
    let m = first.len() as int;
    let t = second.len() as int;
    assert(is_white_space(' '));
    assert forall|k: int| 0 <= k < m implies !is_white_space(#[trigger] s[k]) by {
        assert(s[k] == first[k]);
    }
    assert(s[m] == ' ');
    assert forall|k: int| m + 1 <= k < m + 1 + t implies !is_white_space(#[trigger] s[k]) by {
        assert(s[k] == second[k - m - 1]);
    }
    if rest.len() > 0 {
        assert(s[m + 1 + t] == rest[0]);
    }
    assert(s[0] == first[0]);
    lemma_run_end(s, 0, 0, true);
    lemma_run_end(s, 0, m, false);
    lemma_run_end(s, m, m + 1, true);
    lemma_run_end(s, m + 1, m + 1 + t, false);
    assert(s.subrange(m + 1, m + 1 + t) =~= second);
}

/// The second of the words of `s`, where words are the maximal runs of
/// characters that are not white space.
pub open spec fn second_word(s: Seq<char>) -> Option<Seq<char>> {
    let first = run_end(s, 0, true);
    let gap = run_end(s, first, false);
    let start = run_end(s, gap, true);
    let end = run_end(s, start, false);
    if start >= s.len() {
        None
    } else {
        Some(s.subrange(start, end))
    }
}

/// The second of the words of `s`.
pub fn word_after_first(s: &str) -> (word: Option<String>)
    ensures
        match word {
            Some(w) => second_word(s@) == Some(w@),
            None => second_word(s@) is None,
        },
{
    let v = chars_of(s);
    let first = skip_run(&v, 0, true);
    let gap = skip_run(&v, first, false);
    let start = skip_run(&v, gap, true);
    let end = skip_run(&v, start, false);
    if start >= v.len() {
        None
    } else {
        Some(slice_text(&v, start, end))
    }
}

/// The view of an optional text.
pub open spec fn opt_view(o: Option<String>) -> Option<Seq<char>> {
    match o {
        Some(s) => Some(s@),
        None => None,
    }
}

/// Whether `c` is one of the digits `0`..`9`.
pub open spec fn is_digit(c: char) -> bool {
    48 <= c as u32 <= 57
}

/// Whether every character of `s` is a digit.
pub open spec fn all_digits(s: Seq<char>) -> bool {
    forall|i: int| 0 <= i < s.len() ==> is_digit(#[trigger] s[i])
}

/// The number that the digits of `s` spell in base ten.
pub open spec fn digits_value(s: Seq<char>) -> nat
    decreases s.len(),
{
    if s.len() == 0 {
        0
    } else {
        (digits_value(s.drop_last()) * 10 + (s.last() as u32 - 48)) as nat
    }
}

/// A numeral's value is at least that of each of its prefixes.
pub proof fn lemma_digits_value_prefix(s: Seq<char>, n: int)
    requires
        all_digits(s),
        0 <= n <= s.len(),
    ensures
        digits_value(s.take(n)) <= digits_value(s),
    decreases s.len(),
{
    if n == s.len() {
        assert(s.take(n) == s);
    } else {
        assert(s.drop_last().take(n) == s.take(n));
        assert(is_digit(s.last()));
        assert(all_digits(s.drop_last())) by {
            assert forall|i: int| 0 <= i < s.drop_last().len() implies is_digit(
                #[trigger] s.drop_last()[i],
            ) by {
                assert(s.drop_last()[i] == s[i]);
            }
        }
        lemma_digits_value_prefix(s.drop_last(), n);
    }
}

/// What `s` reads as, as an unsigned number: the value of its digits where
/// it is one or more digits and the value fits 64 bits.
pub open spec fn unsigned_value(s: Seq<char>) -> Option<u64> {
    if s.len() > 0 && all_digits(s) && digits_value(s) <= u64::MAX {
        Some(digits_value(s) as u64)
    } else {
        None
    }
}

/// The number that the characters of `v` from `from` on spell, where they
/// are one or more digits and the number fits 64 bits.
pub fn parse_digits(v: &Vec<char>, from: usize) -> (value: Option<u64>)
    requires
        from <= v.len(),
    ensures
        value == unsigned_value(v@.skip(from as int)),
{
    let ghost s = v@.skip(from as int);
    if from == v.len() {
        return None;
    }
    let mut acc: u64 = 0;
    let mut i: usize = from;
    assert(s.take(0) == Seq::<char>::empty());
    while i < v.len()
        invariant
            from <= i <= v.len(),
            s == v@.skip(from as int),
            all_digits(s.take(i - from)),
            acc as nat == digits_value(s.take(i - from)),
        decreases v.len() - i,
    {
        let c = v[i];
        let n = c as u32;
        assert(s[i - from] == c);
        if n < 48 || n > 57 {
            assert(!all_digits(s));
            return None;
        }
        let d: u64 = (n - 48) as u64;
        proof {
            let next = s.take(i - from + 1);
            assert(next.drop_last() == s.take(i - from));
            assert(next.last() == c);
            assert forall|j: int| 0 <= j < next.len() implies is_digit(#[trigger] next[j]) by {
                if j < i - from {
                    assert(next[j] == s.take(i - from)[j]);
                }
            }
        }
        if acc > (u64::MAX - d) / 10 {
            proof {
                // the rest of the text is not known to be digits: either it
                // is not, or the value is too large
                if all_digits(s) {
                    lemma_digits_value_prefix(s, i - from + 1);
                }
            }
            return None;
        }
        acc = acc * 10 + d;
        i += 1;
    }
    assert(s.take(i - from) == s);
    Some(acc)
}

/// What `s` reads as, as a signed number: an optional minus sign, then one
/// or more digits, where the number fits 64 bits.
pub open spec fn signed_value(s: Seq<char>) -> Option<i64> {
    if s.len() > 0 && s[0] == '-' {
        let digits = s.skip(1);
        if digits.len() > 0 && all_digits(digits) && digits_value(digits) <= 0x8000_0000_0000_0000 {
            Some((-digits_value(digits)) as i64)
        } else {
            None
        }
    } else if s.len() > 0 && all_digits(s) && digits_value(s) <= i64::MAX {
        Some(digits_value(s) as i64)
    } else {
        None
    }
}

/// The signed number that `s` spells, where it spells one that fits.
pub fn parse_signed(s: &str) -> (value: Option<i64>)
    ensures
        value == signed_value(s@),
{
    let v = chars_of(s);
    if v.len() > 0 && v[0] == '-' {
        match parse_digits(&v, 1) {
            Some(m) => {
                if m <= 0x7fff_ffff_ffff_ffff {
                    Some(-(m as i64))
                } else if m == 0x8000_0000_0000_0000 {
                    Some(i64::MIN)
                } else {
                    None
                }
            },
            None => None,
        }
    } else {
        assert(v@.skip(0) == v@);
        match parse_digits(&v, 0) {
            Some(m) => {
                if m <= 0x7fff_ffff_ffff_ffff {
                    Some(m as i64)
                } else {
                    None
                }
            },
            None => None,
        }
    }
}

/// The names of a list of named values, in order.
pub open spec fn keys_of<V>(entries: Seq<(Seq<char>, V)>) -> Seq<Seq<char>> {
    Seq::new(entries.len(), |i: int| entries[i].0)
}

/// The value of the first entry named `key`.
pub open spec fn lookup<V>(entries: Seq<(Seq<char>, V)>, key: Seq<char>) -> Option<V> {
    match first_index(keys_of(entries), key) {
        Some(i) => Some(entries[i].1),
        None => None,
    }
}

/// The list with `value` under the name `key`: in the place of the first
/// entry of that name where there is one, else at the end.
pub open spec fn put<V>(entries: Seq<(Seq<char>, V)>, key: Seq<char>, value: V) -> Seq<
    (Seq<char>, V),
> {
    match first_index(keys_of(entries), key) {
        Some(i) => entries.update(i, (key, value)),
        None => entries.push((key, value)),
    }
}

/// Whether no name occurs twice in the list.
pub open spec fn distinct_keys(keys: Seq<Seq<char>>) -> bool {
    forall|i: int, j: int| 0 <= i < j < keys.len() ==> keys[i] != keys[j]
}

/// Putting a value under a name keeps the names distinct, and the value is
/// then found under the name while every other name finds what it did.
pub proof fn lemma_put<V>(entries: Seq<(Seq<char>, V)>, key: Seq<char>, value: V)
    ensures
        distinct_keys(keys_of(entries)) ==> distinct_keys(keys_of(put(entries, key, value))),
        lookup(put(entries, key, value), key) == Some(value),
        forall|other: Seq<char>|
            other != key ==> #[trigger] lookup(put(entries, key, value), other) == lookup(
                entries,
                other,
            ),
{
    let keys = keys_of(entries);
    let after = put(entries, key, value);
    let after_keys = keys_of(after);
    lemma_first_index(keys, key);
    lemma_first_index(after_keys, key);
    match first_index(keys, key) {
        Some(i) => {
            assert(after_keys =~= keys);
        },
        None => {
            assert(after_keys =~= keys.push(key));
            assert(after_keys[keys.len() as int] == key);
        },
    }
    assert forall|other: Seq<char>| other != key implies #[trigger] lookup(after, other) == lookup(
        entries,
        other,
    ) by {
        lemma_first_index(keys, other);
        lemma_first_index(after_keys, other);
        match first_index(keys, other) {
            Some(j) => {
                assert(after_keys[j] == other);
            },
            None => {},
        }
        match first_index(after_keys, other) {
            Some(j) => {
                assert(j < keys.len());
                assert(keys[j] == other);
            },
            None => {},
        }
    }
}

/// The parts in a row, with `sep` between each two.
pub open spec fn joined(parts: Seq<Seq<char>>, sep: Seq<char>) -> Seq<char>
    decreases parts.len(),
{
    if parts.len() == 0 {
        Seq::empty()
    } else if parts.len() == 1 {
        parts[0]
    } else {
        joined(parts.drop_last(), sep) + sep + parts.last()
    }
}

/// The views of a list of texts.
pub open spec fn texts_view(parts: Seq<String>) -> Seq<Seq<char>> {
    Seq::new(parts.len(), |i: int| parts[i]@)
}

/// The parts in a row, with `sep` between each two.
pub fn join(parts: &Vec<String>, sep: &str) -> (out: String)
    ensures
        out@ == joined(texts_view(parts@), sep@),
{
    let ghost all = texts_view(parts@);
    let mut out = String::new();
    let mut i: usize = 0;
    assert(all.take(0) == Seq::<Seq<char>>::empty());
    while i < parts.len()
        invariant
            i <= parts.len(),
            all == texts_view(parts@),
            out@ == joined(all.take(i as int), sep@),
        decreases parts.len() - i,
    {
        assert(all.take(i + 1).drop_last() == all.take(i as int));
        assert(all.take(i + 1).last() == parts@[i as int]@);
        if i > 0 {
            out.append(sep);
        }
        out.append(parts[i].as_str());
        assert(out@ == joined(all.take(i + 1), sep@)) by {
            if i == 0 {
                assert(Seq::<char>::empty() + parts@[0]@ == parts@[0]@);
            }
        }
        i += 1;
    }
    assert(all.take(i as int) == all);
    out
}

/// Whether one of `items` is `word`.
pub fn has_text(items: &Vec<String>, word: &str) -> (found: bool)
    ensures
        found == texts_view(items@).contains(word@),
{
    let ghost all = texts_view(items@);
    let mut i: usize = 0;
    while i < items.len()
        invariant
            i <= items.len(),
            all == texts_view(items@),
            forall|j: int| 0 <= j < i ==> #[trigger] all[j] != word@,
        decreases items.len() - i,
    {
        if text_eq(items[i].as_str(), word) {
            assert(all[i as int] == word@);
            return true;
        }
        i += 1;
    }
    false
}

/// Copies of the texts, in order.
pub fn texts_cloned(items: &Vec<String>) -> (out: Vec<String>)
    ensures
        texts_view(out@) == texts_view(items@),
{
    let mut out: Vec<String> = Vec::new();
    let mut i: usize = 0;
    while i < items.len()
        invariant
            i <= items.len(),
            out@.len() == i,
            forall|j: int| 0 <= j < i ==> (#[trigger] out@[j])@ == items@[j]@,
        decreases items.len() - i,
    {
        out.push(items[i].clone());
        i += 1;
    }
    assert(texts_view(out@) =~= texts_view(items@));
    out
}

/// Where the white space at the end of `s` starts.
pub open spec fn trim_end_index(s: Seq<char>) -> int
    decreases s.len(),
{
    if s.len() > 0 && is_white_space(s.last()) {
        trim_end_index(s.drop_last())
    } else {
        s.len() as int
    }
}

/// `s` without the white space at its start and at its end.
pub open spec fn trimmed(s: Seq<char>) -> Seq<char> {
    let start = run_end(s, 0, true);
    let end = trim_end_index(s);
    if start >= end {
        Seq::empty()
    } else {
        s.subrange(start, end)
    }
}

/// The characters of `v` without the white space at either end.
pub fn trim_chars(v: &Vec<char>) -> (out: Vec<char>)
    ensures
        out@ == trimmed(v@),
{
    let start = skip_run(v, 0, true);
    let mut end: usize = v.len();
    assert(v@.take(end as int) == v@);
    while end > 0 && v[end - 1].is_whitespace()
        invariant
            end <= v.len(),
            trim_end_index(v@) == trim_end_index(v@.take(end as int)),
        decreases end,
    {
        assert(v@.take(end as int).drop_last() == v@.take(end - 1));
        end -= 1;
    }
    let mut out: Vec<char> = Vec::new();
    if start < end {
        let mut i: usize = start;
        while i < end
            invariant
                start <= i <= end <= v.len(),
                out@ == v@.subrange(start as int, i as int),
            decreases end - i,
        {
            out.push(v[i]);
            assert(v@.subrange(start as int, i + 1) == v@.subrange(start as int, i as int).push(
                v@[i as int],
            ));
            i += 1;
        }
    }
    out
}

/// `s` without the white space at its start and at its end.
pub fn trim(s: &str) -> (out: String)
    ensures
        out@ == trimmed(s@),
{
    let v = chars_of(s);
    let kept = trim_chars(&v);
    text_of(&kept)
}

/// The place of the first `c` in `s` at or after `from`; the length of `s`
/// where there is none.
pub open spec fn find_char(s: Seq<char>, c: char, from: int) -> int
    decreases s.len() - from,
{
    if from < 0 || from >= s.len() {
        s.len() as int
    } else if s[from] == c {
        from
    } else {
        find_char(s, c, from + 1)
    }
}

/// The place of the first `c` in `v` at or after `from`.
pub fn position(v: &Vec<char>, c: char, from: usize) -> (at: usize)
    requires
        from <= v.len(),
    ensures
        at as int == find_char(v@, c, from as int),
        from <= at <= v.len(),
        at < v.len() ==> v@[at as int] == c,
{
    let mut i: usize = from;
    while i < v.len() && v[i] != c
        invariant
            from <= i <= v.len(),
            find_char(v@, c, from as int) == find_char(v@, c, i as int),
        decreases v.len() - i,
    {
        i += 1;
    }
    i
}

/// The two parts of `s` round its first `c`; nothing where `s` holds no
/// `c`.
pub open spec fn split_first(s: Seq<char>, c: char) -> Option<(Seq<char>, Seq<char>)> {
    let at = find_char(s, c, 0);
    if at >= s.len() {
        None
    } else {
        Some((s.take(at), s.skip(at + 1)))
    }
}

/// The two parts of `s` round its first `c`.
pub fn split_once(s: &str, c: char) -> (parts: Option<(String, String)>)
    ensures
        match parts {
            Some(p) => split_first(s@, c) == Some((p.0@, p.1@)),
            None => split_first(s@, c) is None,
        },
{
    let v = chars_of(s);
    let at = position(&v, c, 0);
    if at >= v.len() {
        None
    } else {
        let head = slice_text(&v, 0, at);
        let tail = slice_text(&v, at + 1, v.len());
        assert(v@.subrange(0, at as int) == v@.take(at as int));
        assert(v@.subrange(at + 1, v.len() as int) == v@.skip(at + 1));
        Some((head, tail))
    }
}

/// The parts of `s` between each two `c`; a text without `c` is one part.
pub open spec fn split_all(s: Seq<char>, c: char) -> Seq<Seq<char>>
    decreases s.len(),
{
    let at = find_char(s, c, 0);
    if at < 0 || at >= s.len() {
        seq![s]
    } else {
        seq![s.take(at)] + split_all(s.skip(at + 1), c)
    }
}

proof fn lemma_find_char_skip(s: Seq<char>, c: char, base: int, from: int)
    requires
        0 <= base <= from <= s.len(),
    ensures
        find_char(s.skip(base), c, from - base) + base == find_char(s, c, from),
    decreases s.len() - from,
{
    if from < s.len() {
        assert(s.skip(base)[from - base] == s[from]);
        if s[from] != c {
            lemma_find_char_skip(s, c, base, from + 1);
        }
    }
}

/// The parts of the characters of `v` between each two `c`.
pub fn split_chars(v: &Vec<char>, c: char) -> (parts: Vec<Vec<char>>)
    ensures
        parts@.len() == split_all(v@, c).len(),
        forall|i: int| 0 <= i < parts@.len() ==> (#[trigger] parts@[i])@ == split_all(v@, c)[i],
{
    let mut parts: Vec<Vec<char>> = Vec::new();
    let mut from: usize = 0;
    let ghost mut done: Seq<Seq<char>> = Seq::empty();
    assert(v@.skip(0) == v@);
    loop
        invariant_except_break
            done + split_all(v@.skip(from as int), c) == split_all(v@, c),
        invariant
            from <= v.len(),
            parts@.len() == done.len(),
            forall|i: int| 0 <= i < parts@.len() ==> (#[trigger] parts@[i])@ == done[i],
        ensures
            done == split_all(v@, c),
        decreases v.len() - from,
    {
        let at = position(v, c, from);
        let ghost rest = v@.skip(from as int);
        proof {
            lemma_find_char_skip(v@, c, from as int, from as int);
        }
        let mut part: Vec<char> = Vec::new();
        let mut i: usize = from;
        while i < at
            invariant
                from <= i <= at <= v.len(),
                part@ == v@.subrange(from as int, i as int),
            decreases at - i,
        {
            part.push(v[i]);
            assert(v@.subrange(from as int, i + 1) == v@.subrange(from as int, i as int).push(
                v@[i as int],
            ));
            i += 1;
        }
        assert(part@ == rest.take(at - from));
        parts.push(part);
        if at >= v.len() {
            proof {
                assert(rest.take(at - from) == rest);
                done = done.push(rest);
                assert(done =~= split_all(v@, c));
            }
            break ;
        }
        proof {
            assert(rest.skip(at - from + 1) == v@.skip(at + 1));
            assert(done.push(rest.take(at - from)) + split_all(v@.skip(at + 1), c) =~= done
                + split_all(rest, c));
            done = done.push(rest.take(at - from));
        }
        from = at + 1;
    }
    parts
}

/// `s` with each occurrence of `pattern` replaced by `with`, found from
/// left to right without overlap. The pattern is not empty.
pub open spec fn replaced(s: Seq<char>, pattern: Seq<char>, with: Seq<char>) -> Seq<char>
    decreases s.len(),
{
    if pattern.len() == 0 || s.len() < pattern.len() {
        s
    } else if s.take(pattern.len() as int) == pattern {
        with + replaced(s.skip(pattern.len() as int), pattern, with)
    } else {
        seq![s[0]] + replaced(s.skip(1), pattern, with)
    }
}

fn starts_at(v: &Vec<char>, at: usize, pattern: &Vec<char>) -> (yes: bool)
    requires
        at + pattern.len() <= v.len(),
    ensures
        yes == (v@.skip(at as int).take(pattern.len() as int) == pattern@),
{
    let ghost window = v@.skip(at as int).take(pattern.len() as int);
    let mut k: usize = 0;
    while k < pattern.len()
        invariant
            k <= pattern.len(),
            at + pattern.len() <= v.len(),
            window == v@.skip(at as int).take(pattern.len() as int),
            forall|j: int| 0 <= j < k ==> window[j] == pattern@[j],
        decreases pattern.len() - k,
    {
        assert(window[k as int] == v@[at + k]);
        if v[at + k] != pattern[k] {
            return false;
        }
        k += 1;
    }
    assert(window =~= pattern@);
    true
}

/// `s` with each occurrence of `pattern` replaced by `with`. An empty
/// pattern leaves the text as it is.
pub fn replace(s: &str, pattern: &str, with: &str) -> (out: String)
    ensures
        out@ == replaced(s@, pattern@, with@),
{
    let v = chars_of(s);
    let p = chars_of(pattern);
    let w = chars_of(with);
    if p.len() == 0 {
        return owned(s);
    }
    let mut out: Vec<char> = Vec::new();
    let mut i: usize = 0;
    assert(v@.skip(0) == v@);
    while i < v.len()
        invariant
            i <= v.len(),
            p.len() > 0,
            out@ + replaced(v@.skip(i as int), p@, w@) == replaced(v@, p@, w@),
        decreases v.len() - i,
    {
        let ghost rest = v@.skip(i as int);
        if v.len() - i >= p.len() && starts_at(&v, i, &p) {
            let ghost before = out@;
            let mut k: usize = 0;
            while k < w.len()
                invariant
                    k <= w.len(),
                    out@ == before + w@.take(k as int),
                decreases w.len() - k,
            {
                out.push(w[k]);
                assert(w@.take(k + 1) == w@.take(k as int).push(w@[k as int]));
                k += 1;
            }
            assert(w@.take(k as int) == w@);
            assert(rest.skip(p.len() as int) == v@.skip(i + p.len()));
            assert(out@ + replaced(v@.skip(i + p.len()), p@, w@) == before + replaced(
                rest,
                p@,
                w@,
            ));
            i += p.len();
        } else {
            let ghost before = out@;
            out.push(v[i]);
            assert(rest.skip(1) == v@.skip(i + 1));
            proof {
                if rest.len() < p@.len() {
                    // what is left is shorter than the pattern: it stays
                    assert(replaced(rest, p@, w@) == rest);
                    assert(replaced(rest.skip(1), p@, w@) == rest.skip(1));
                    assert(seq![rest[0]] + rest.skip(1) == rest);
                }
                assert(out@ + replaced(v@.skip(i + 1), p@, w@) == before + replaced(rest, p@, w@));
            }
            i += 1;
        }
    }
    assert(v@.skip(i as int) == Seq::<char>::empty());
    assert(out@ + Seq::<char>::empty() == out@);
    text_of(&out)
}

/// The lower-case form of an ASCII letter; any other character as it is.
pub open spec fn ascii_lower(c: char) -> char {
    if 65 <= c as u32 <= 90 {
        ((c as u32 + 32) as u8) as char
    } else {
        c
    }
}

/// Whether two texts are the same but for the case of ASCII letters.
pub open spec fn same_ignoring_ascii_case(a: Seq<char>, b: Seq<char>) -> bool {
    a.len() == b.len() && forall|i: int| 0 <= i < a.len() ==> ascii_lower(#[trigger] a[i])
        == ascii_lower(b[i])
}

fn lower(c: char) -> (out: char)
    ensures
        out == ascii_lower(c),
{
    let n = c as u32;
    if 65 <= n && n <= 90 {
        ((n + 32) as u8) as char
    } else {
        c
    }
}

/// Whether two texts are the same but for the case of ASCII letters.
pub fn eq_ignore_ascii_case(a: &str, b: &str) -> (same: bool)
    ensures
        same == same_ignoring_ascii_case(a@, b@),
{
    let x = chars_of(a);
    let y = chars_of(b);
    if x.len() != y.len() {
        return false;
    }
    let mut i: usize = 0;
    while i < x.len()
        invariant
            i <= x.len(),
            x.len() == y.len(),
            x@ == a@,
            y@ == b@,
            forall|j: int| 0 <= j < i ==> ascii_lower(#[trigger] x@[j]) == ascii_lower(y@[j]),
        decreases x.len() - i,
    {
        if lower(x[i]) != lower(y[i]) {
            assert(ascii_lower(x@[i as int]) != ascii_lower(y@[i as int]));
            return false;
        }
        i += 1;
    }
    true
}

/// Whether `s` starts with `prefix`.
pub open spec fn has_prefix(s: Seq<char>, prefix: Seq<char>) -> bool {
    s.len() >= prefix.len() && s.take(prefix.len() as int) == prefix
}

/// Whether `s` starts with `prefix`.
pub fn starts_with(s: &str, prefix: &str) -> (yes: bool)
    ensures
        yes == has_prefix(s@, prefix@),
{
    let v = chars_of(s);
    let p = chars_of(prefix);
    if v.len() < p.len() {
        return false;
    }
    assert(v@.skip(0) == v@);
    starts_at(&v, 0, &p)
}

/// What `s` reads as in the way of `str::parse` for a signed number of 64
/// bits: an optional sign, plus or minus, then one or more digits, where
/// the number fits.
pub open spec fn integer_value(s: Seq<char>) -> Option<i64> {
    if s.len() > 0 && s[0] == '+' {
        let digits = s.skip(1);
        if digits.len() > 0 && all_digits(digits) && digits_value(digits) <= i64::MAX {
            Some(digits_value(digits) as i64)
        } else {
            None
        }
    } else {
        signed_value(s)
    }
}

/// What `s` reads as in the way of `str::parse` for an unsigned number of
/// 64 bits: an optional plus sign, then one or more digits, where the
/// number fits.
pub open spec fn natural_value(s: Seq<char>) -> Option<u64> {
    if s.len() > 0 && s[0] == '+' {
        unsigned_value(s.skip(1))
    } else {
        unsigned_value(s)
    }
}

/// The signed number that `s` spells in the way of `str::parse`.
pub fn parse_integer(s: &str) -> (value: Option<i64>)
    ensures
        value == integer_value(s@),
{
    let v = chars_of(s);
    if v.len() > 0 && v[0] == '+' {
        match parse_digits(&v, 1) {
            Some(m) => if m <= 0x7fff_ffff_ffff_ffff {
                Some(m as i64)
            } else {
                None
            },
            None => None,
        }
    } else {
        parse_signed(s)
    }
}

/// The unsigned number that `s` spells in the way of `str::parse`.
pub fn parse_natural(s: &str) -> (value: Option<u64>)
    ensures
        value == natural_value(s@),
{
    let v = chars_of(s);
    if v.len() > 0 && v[0] == '+' {
        parse_digits(&v, 1)
    } else {
        assert(v@.skip(0) == v@);
        parse_digits(&v, 0)
    }
}

} // verus!
