//! The saved-credentials line `api_key = "..."`: writing it and reading the
//! key back.

use vstd::prelude::*;
use crate::text::{owned, push_str, text_eq, trim, trim_end, trim_start, trim_text, white_space};

verus! {

/// The index of the first `ch` in `s`, or -1 when `s` holds none.
pub open spec fn first_index_of(s: Seq<char>, ch: char) -> int
    decreases s.len(),
{
    if s.len() == 0 {
        -1
    } else if s[0] == ch {
        0
    } else {
        let k = first_index_of(s.drop_first(), ch);
        if k < 0 {
            -1
        } else {
            k + 1
        }
    }
}

/// `s` without its leading `c`s.
pub open spec fn drop_leading(s: Seq<char>, c: char) -> Seq<char>
    decreases s.len(),
{
    if s.len() > 0 && s[0] == c {
        drop_leading(s.drop_first(), c)
    } else {
        s
    }
}

/// `s` without its trailing `c`s.
pub open spec fn drop_trailing(s: Seq<char>, c: char) -> Seq<char>
    decreases s.len(),
{
    if s.len() > 0 && s.last() == c {
        drop_trailing(s.drop_last(), c)
    } else {
        s
    }
}

/// `s` without the double quotes at either end (`str::trim_matches('"')`).
pub open spec fn unquoted(s: Seq<char>) -> Seq<char> {
    drop_trailing(drop_leading(s, '"'), '"')
}

/// The API key a credentials line gives: the line splits at its first `=`;
/// the part before it, trimmed, must be `api_key`; the part after it,
/// trimmed and stripped of surrounding double quotes, is the key unless it
/// is empty.
pub open spec fn api_key_of_line(line: Seq<char>) -> Option<Seq<char>> {
    let k = first_index_of(line, '=');
    if k < 0 {
        None
    } else {
        let value = unquoted(trim(line.skip(k + 1)));
        if trim(line.take(k)) == "api_key"@ && value.len() > 0 {
            Some(value)
        } else {
            None
        }
    }
}

/// The key given by the first line of `lines` that gives one.
pub open spec fn api_key_of_lines(lines: Seq<Seq<char>>) -> Option<Seq<char>>
    decreases lines.len(),
{
    if lines.len() == 0 {
        None
    } else if api_key_of_line(lines[0]) is Some {
        api_key_of_line(lines[0])
    } else {
        api_key_of_lines(lines.drop_first())
    }
}

/// The line that saves `api_key`.
pub open spec fn key_line(api_key: Seq<char>) -> Seq<char> {
    "api_key = \""@ + api_key + "\""@
}

proof fn lemma_first_index_at(s: Seq<char>, ch: char, i: int)
    requires
        0 <= i <= s.len(),
        forall|m: int| 0 <= m < i ==> s[m] != ch,
        i < s.len() ==> s[i] == ch,
    ensures
        first_index_of(s, ch) == (if i < s.len() { i } else { -1 }),
    decreases i,
{
    if i > 0 {
        let t = s.drop_first();
        assert forall|m: int| 0 <= m < i - 1 implies t[m] != ch by {
            assert(t[m] == s[m + 1]);
        }
        if i < s.len() {
            assert(t[i - 1] == s[i]);
        }
        lemma_first_index_at(t, ch, i - 1);
        assert(s[0] != ch);
    }
}

proof fn lemma_drop_leading_step(s: Seq<char>, c: char, i: int, n: int)
    requires
        0 <= i < n <= s.len(),
        s[i] == c,
    ensures
        drop_leading(s.subrange(i, n), c) == drop_leading(s.subrange(i + 1, n), c),
{
    assert(s.subrange(i, n).drop_first() =~= s.subrange(i + 1, n));
}

proof fn lemma_drop_trailing_step(s: Seq<char>, c: char, i: int, j: int)
    requires
        0 <= i < j <= s.len(),
        s[j - 1] == c,
    ensures
        drop_trailing(s.subrange(i, j), c) == drop_trailing(s.subrange(i, j - 1), c),
{
    assert(s.subrange(i, j).drop_last() =~= s.subrange(i, j - 1));
}

/// `s` without the double quotes at either end.
fn unquote(s: &str) -> (r: String)
    ensures
        r@ == unquoted(s@),
{
    let n = s.unicode_len();
    let mut i: usize = 0;
    assert(s@.subrange(0, n as int) =~= s@);
    while i < n && s.get_char(i) == '"'
        invariant
            n == s@.len(),
            i <= n,
            drop_leading(s@, '"') == drop_leading(s@.subrange(i as int, n as int), '"'),
        decreases n - i,
    {
        proof {
            lemma_drop_leading_step(s@, '"', i as int, n as int);
        }
        i = i + 1;
    }
    assert(drop_leading(s@, '"') == s@.subrange(i as int, n as int));
    let mut j: usize = n;
    while j > i && s.get_char(j - 1) == '"'
        invariant
            n == s@.len(),
            i <= j <= n,
            unquoted(s@) == drop_trailing(s@.subrange(i as int, j as int), '"'),
        decreases j - i,
    {
        proof {
            lemma_drop_trailing_step(s@, '"', i as int, j as int);
        }
        j = j - 1;
    }
    let sub = s.substring_char(i, j);
    sub.to_owned()
}

/// The API key a saved credentials line gives, if any (the line is split at
/// its first `=`, as `str::split_once` does).
pub fn api_key_from_line(line: &str) -> (r: Option<String>)
    ensures
        r.deep_view() == api_key_of_line(line@),
{
    let n = line.unicode_len();
    let mut k: usize = 0;
    while k < n && line.get_char(k) != '='
        invariant
            n == line@.len(),
            k <= n,
            forall|m: int| 0 <= m < k ==> line@[m] != '=',
        decreases n - k,
    {
        k = k + 1;
    }
    proof {
        lemma_first_index_at(line@, '=', k as int);
    }
    if k == n {
        return None;
    }
    let key = trim_text(line.substring_char(0, k));
    let value = trim_text(line.substring_char(k + 1, n));
    let value = unquote(value.as_str());
    proof {
        reveal_strlit("api_key");
        assert(line@.take(k as int) =~= line@.subrange(0, k as int));
        assert(line@.skip(k + 1) =~= line@.subrange(k + 1, n as int));
    }
    if text_eq(key.as_str(), "api_key") && value.unicode_len() > 0 {
        Some(value)
    } else {
        None
    }
}

/// The API key given by the first line of a credentials file that gives one.
pub fn api_key_from_lines(lines: &Vec<String>) -> (r: Option<String>)
    ensures
        r.deep_view() == api_key_of_lines(lines.deep_view()),
{
    let ghost all = lines.deep_view();
    let mut i: usize = 0;
    assert(all.skip(0) =~= all);
    while i < lines.len()
        invariant
            all == lines.deep_view(),
            i <= lines.len(),
            api_key_of_lines(all) == api_key_of_lines(all.skip(i as int)),
        decreases lines.len() - i,
    {
        let found = api_key_from_line(lines[i].as_str());
        let ghost rest = all.skip(i as int);
        assert(rest[0] == all[i as int]);
        assert(rest.drop_first() =~= all.skip(i + 1));
        if found.is_some() {
            return found;
        }
        i = i + 1;
    }
    None
}

/// The contents of a credentials file that saves `api_key`: its line and a
/// newline.
pub fn credentials_text(api_key: &str) -> (r: String)
    ensures
        r@ == key_line(api_key@) + seq!['\n'],
{
    let mut r = owned("api_key = \"");
    push_str(&mut r, api_key);
    push_str(&mut r, "\"\n");
    proof {
        reveal_strlit("\"\n");
        reveal_strlit("\"");
    }
    assert(r@ =~= key_line(api_key@) + seq!['\n']);
    r
}

/// A saved key is read back from its line, provided it is not empty and
/// does not begin or end with a double quote (those would be stripped).
pub proof fn law_saved_key_reads_back(api_key: Seq<char>)
    requires
        api_key.len() > 0,
        api_key[0] != '"',
        api_key.last() != '"',
    ensures
        api_key_of_line(key_line(api_key)) == Some(api_key),
{
    reveal_strlit("api_key = \"");
    reveal_strlit("\"");
    reveal_strlit("api_key");
    let line = key_line(api_key);
    assert(line[8] == '=');
    lemma_first_index_at(line, '=', 8);
    let key = line.take(8);
    assert(key =~= "api_key"@.push(' '));
    assert(white_space(' '));
    assert(trim_start(key) == key);
    assert(key.drop_last() =~= "api_key"@);
    assert(trim_end("api_key"@) == "api_key"@);
    assert(trim(key) == "api_key"@);
    let v = line.skip(9);
    let q = seq!['"'] + api_key + seq!['"'];
    assert(v =~= seq![' '] + q);
    assert(v.drop_first() =~= q);
    assert(trim_start(q) == q);
    assert(trim_start(v) == q);
    assert(trim_end(q) == q);
    assert(trim(v) == q);
    let inner = api_key + seq!['"'];
    assert(q.drop_first() =~= inner);
    assert(drop_leading(inner, '"') == inner);
    assert(drop_leading(q, '"') == inner);
    assert(inner.drop_last() =~= api_key);
    assert(drop_trailing(api_key, '"') == api_key);
    assert(drop_trailing(inner, '"') == api_key);
}

} // verus!
