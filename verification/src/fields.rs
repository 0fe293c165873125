//! Fixed-column field slicing.
//!
//! Report lines carry fields of the form `<tag><value padded to a fixed
//! width>`.  The helpers here strip an expected literal tag from the front
//! of a line, split off a fixed-width value slice, and trim the padding
//! around a value.

use vstd::prelude::*;
use vstd::string::StrSliceExecFns;

verus! {

/// `line` begins with the literal `tag`.
pub open spec fn spec_has_prefix(line: Seq<char>, tag: Seq<char>) -> bool {
    line.len() >= tag.len() && line.subrange(0, tag.len() as int) == tag
}

/// What is left of `line` once a prefix of `tag.len()` characters is gone.
pub open spec fn spec_after_prefix(line: Seq<char>, tag: Seq<char>) -> Seq<char> {
    line.skip(tag.len() as int)
}

/// The fixed-width field at the front of `line`: its first `width`
/// characters, or all of `line` when the line is shorter than that.
pub open spec fn spec_field_at(line: Seq<char>, width: nat) -> Seq<char> {
    if line.len() >= width {
        line.take(width as int)
    } else {
        line
    }
}

/// What is left of `line` once the fixed-width field at its front is gone.
pub open spec fn spec_rest_after(line: Seq<char>, width: nat) -> Seq<char> {
    if line.len() >= width {
        line.skip(width as int)
    } else {
        Seq::empty()
    }
}

/// Whole-string equality, decided character by character.
pub fn str_eq(a: &str, b: &str) -> (r: bool)
    ensures
        r == (a@ == b@),
{
    let alen = a.unicode_len();
    let blen = b.unicode_len();
    if alen != blen {
        return false;
    }
    let mut i: usize = 0;
    while i < alen
        invariant
            i <= alen,
            alen == a@.len(),
            blen == b@.len(),
            alen == blen,
            forall|j: int| 0 <= j < i ==> a@[j] == b@[j],
        decreases alen - i,
    {
        if a.get_char(i) != b.get_char(i) {
            return false;
        }
        i += 1;
    }
    proof {
        assert(a@ =~= b@);
    }
    true
}

/// Strips the literal `expected` tag from the front of `line` and returns
/// the remainder, or `None` when the tag is not there.
pub fn take_expecting<'a>(line: &'a str, expected: &str) -> (res: Option<&'a str>)
    ensures
        match res {
            Some(rest) => spec_has_prefix(line@, expected@) && rest@ == spec_after_prefix(
                line@,
                expected@,
            ),
            None => !spec_has_prefix(line@, expected@),
        },
{
    let n = expected.unicode_len();
    let m = line.unicode_len();
    if m < n {
        return None;
    }
    let mut i: usize = 0;
    while i < n
        invariant
            i <= n,
            n == expected@.len(),
            m == line@.len(),
            m >= n,
            forall|j: int| 0 <= j < i ==> line@[j] == expected@[j],
        decreases n - i,
    {
        if line.get_char(i) != expected.get_char(i) {
            proof {
                assert(line@.subrange(0, n as int)[i as int] != expected@[i as int]);
            }
            return None;
        }
        i += 1;
    }
    proof {
        assert(line@.subrange(0, n as int) =~= expected@);
    }
    Some(line.substring_char(n, m))
}

/// Splits a fixed-width field off the front of `line`.  A line shorter than
/// `width` yields the whole line and an empty remainder.
pub fn take_or_empty<'a>(line: &'a str, width: usize) -> (res: (&'a str, &'a str))
    ensures
        res.0@ == spec_field_at(line@, width as nat),
        res.1@ == spec_rest_after(line@, width as nat),
{
    let m = line.unicode_len();
    if m >= width {
        (line.substring_char(0, width), line.substring_char(width, m))
    } else {
        proof {
            reveal_strlit("");
        }
        (line, "")
    }
}

/// A padding character of the report format.
pub open spec fn spec_is_ws(c: char) -> bool {
    c == ' ' || c == '\t' || c == '\r' || c == '\n'
}

/// `s` without its leading whitespace.
pub open spec fn spec_trim_front(s: Seq<char>) -> Seq<char>
    decreases s.len(),
{
    if s.len() > 0 && spec_is_ws(s.first()) {
        spec_trim_front(s.drop_first())
    } else {
        s
    }
}

/// `s` without its trailing whitespace.
pub open spec fn spec_trim_back(s: Seq<char>) -> Seq<char>
    decreases s.len(),
{
    if s.len() > 0 && spec_is_ws(s.last()) {
        spec_trim_back(s.drop_last())
    } else {
        s
    }
}

/// `s` without leading and trailing whitespace.
pub open spec fn spec_trim(s: Seq<char>) -> Seq<char> {
    spec_trim_back(spec_trim_front(s))
}

proof fn lemma_trim_front_is_skip(s: Seq<char>, i: int)
    requires
        0 <= i <= s.len(),
        forall|j: int| 0 <= j < i ==> spec_is_ws(s[j]),
        i == s.len() || !spec_is_ws(s[i]),
    ensures
        spec_trim_front(s) == s.skip(i),
    decreases i,
{
    if i == 0 {
        assert(s.skip(0) =~= s);
    } else {
        let t = s.drop_first();
        assert(forall|j: int| 0 <= j < i - 1 ==> spec_is_ws(#[trigger] t[j]));
        lemma_trim_front_is_skip(t, i - 1);
        assert(t.skip(i - 1) =~= s.skip(i));
    }
}

proof fn lemma_trim_back_is_take(s: Seq<char>, i: int)
    requires
        0 <= i <= s.len(),
        forall|j: int| i <= j < s.len() ==> spec_is_ws(s[j]),
        i == 0 || !spec_is_ws(s[i - 1]),
    ensures
        spec_trim_back(s) == s.take(i),
    decreases s.len() - i,
{
    if i == s.len() {
        assert(s.take(i) =~= s);
    } else {
        let t = s.drop_last();
        assert(forall|j: int| i <= j < t.len() ==> spec_is_ws(#[trigger] t[j]));
        lemma_trim_back_is_take(t, i);
        assert(t.take(i) =~= s.take(i));
    }
}

fn is_ws(c: char) -> (r: bool)
    ensures
        r == spec_is_ws(c),
{
    c == ' ' || c == '\t' || c == '\r' || c == '\n'
}

/// Removes leading and trailing whitespace from `s`.
pub fn trim<'a>(s: &'a str) -> (res: &'a str)
    ensures
        res@ == spec_trim(s@),
{
    let m = s.unicode_len();
    let mut start: usize = 0;
    while start < m && is_ws(s.get_char(start))
        invariant
            start <= m,
            m == s@.len(),
            forall|j: int| 0 <= j < start ==> spec_is_ws(s@[j]),
        decreases m - start,
    {
        start += 1;
    }
    let mut end: usize = m;
    while end > start && is_ws(s.get_char(end - 1))
        invariant
            start <= end <= m,
            m == s@.len(),
            forall|j: int| end <= j < m ==> spec_is_ws(s@[j]),
        decreases end,
    {
        end -= 1;
    }
    proof {
        lemma_trim_front_is_skip(s@, start as int);
        let t = s@.skip(start as int);
        assert(forall|j: int|
            end - start <= j < t.len() ==> spec_is_ws(#[trigger] t[j]));
        lemma_trim_back_is_take(t, end - start);
        assert(t.take(end - start) =~= s@.subrange(start as int, end as int));
    }
    s.substring_char(start, end)
}

} // verus!
