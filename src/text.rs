//! Character-level helpers over `str` views: trimming runs of one
//! character, whitespace, and ASCII case-insensitive comparison.
use vstd::prelude::*;

verus! {

/// `s` without the run of `c` at its start.
pub open spec fn strip_leading(s: Seq<char>, c: char) -> Seq<char>
    decreases s.len(),
{
    if s.len() > 0 && s[0] == c {
        strip_leading(s.drop_first(), c)
    } else {
        s
    }
}

/// `s` without the run of `c` at its end.
pub open spec fn strip_trailing(s: Seq<char>, c: char) -> Seq<char>
    decreases s.len(),
{
    if s.len() > 0 && s.last() == c {
        strip_trailing(s.drop_last(), c)
    } else {
        s
    }
}

/// The index of the first character of `s` that is not `c`, or its length.
pub fn leading_run(s: &str, c: char) -> (i: usize)
    ensures
        i <= s@.len(),
        strip_leading(s@, c) == s@.subrange(i as int, s@.len() as int),
{
    let n = s.unicode_len();
    let mut i: usize = 0;
    assert(s@.subrange(0, n as int) =~= s@);
    while i < n && s.get_char(i) == c
        invariant
            i <= n,
            n == s@.len(),
            strip_leading(s@, c) == strip_leading(s@.subrange(i as int, n as int), c),
        decreases n - i,
    {
        assert(s@.subrange(i as int, n as int).drop_first() =~= s@.subrange(i + 1, n as int));
        i = i + 1;
    }
    i
}

/// The index just past the last character of `s[from..]` that is not `c`,
/// or `from`.
pub fn trailing_run_start(s: &str, from: usize, c: char) -> (j: usize)
    requires
        from <= s@.len(),
    ensures
        from <= j <= s@.len(),
        strip_trailing(s@.subrange(from as int, s@.len() as int), c) == s@.subrange(
            from as int,
            j as int,
        ),
{
    let n = s.unicode_len();
    let mut j: usize = n;
    while j > from && s.get_char(j - 1) == c
        invariant
            from <= j <= n,
            n == s@.len(),
            strip_trailing(s@.subrange(from as int, n as int), c) == strip_trailing(
                s@.subrange(from as int, j as int),
                c,
            ),
        decreases j,
    {
        assert(s@.subrange(from as int, j as int).drop_last() =~= s@.subrange(
            from as int,
            j - 1,
        ));
        j = j - 1;
    }
    j
}

/// `s` without the run of `c` at its start.
pub fn trim_start_char(s: &str, c: char) -> (r: &str)
    ensures
        r@ == strip_leading(s@, c),
{
    let i = leading_run(s, c);
    s.substring_char(i, s.unicode_len())
}

/// `s` without the run of `c` at its end.
pub fn trim_end_char(s: &str, c: char) -> (r: &str)
    ensures
        r@ == strip_trailing(s@, c),
{
    let j = trailing_run_start(s, 0, c);
    assert(s@.subrange(0, s@.len() as int) =~= s@);
    s.substring_char(0, j)
}

/// `s` without the runs of `c` at either end.
pub fn trim_char(s: &str, c: char) -> (r: &str)
    ensures
        r@ == strip_trailing(strip_leading(s@, c), c),
{
    let i = leading_run(s, c);
    let j = trailing_run_start(s, i, c);
    s.substring_char(i, j)
}

/// Whether the last character of `s` is `c`.
pub fn ends_with_char(s: &str, c: char) -> (r: bool)
    ensures
        r == (s@.len() > 0 && s@.last() == c),
{
    let n = s.unicode_len();
    n > 0 && s.get_char(n - 1) == c
}

/// Whether `s` is exactly the one character `c`.
pub fn is_single_char(s: &str, c: char) -> (r: bool)
    ensures
        r == (s@ == seq![c]),
{
    if s.unicode_len() != 1 {
        assert(s@ != seq![c]);
        return false;
    }
    if s.get_char(0) == c {
        assert(s@ =~= seq![c]);
        true
    } else {
        assert(s@ != seq![c]) by {
            assert(seq![c][0] == c);
        }
        false
    }
}

/// Whether `s` and `t` are the same text.
pub fn str_eq(s: &str, t: &str) -> (r: bool)
    ensures
        r == (s@ == t@),
{
    let n = s.unicode_len();
    if n != t.unicode_len() {
        return false;
    }
    let mut i: usize = 0;
    while i < n
        invariant
            i <= n,
            n == s@.len(),
            n == t@.len(),
            forall|k: int| 0 <= k < i ==> s@[k] == t@[k],
        decreases n - i,
    {
        if s.get_char(i) != t.get_char(i) {
            return false;
        }
        i = i + 1;
    }
    assert(s@ =~= t@);
    true
}

/// The ASCII lower-case form of `c`; any other character is itself.
pub open spec fn ascii_lower(c: char) -> char {
    if 'A' <= c && c <= 'Z' {
        (((c as u8) + 32) as u8) as char
    } else {
        c
    }
}

/// Whether `s` and `t` are equal when ASCII letters are compared without
/// regard to case.
pub open spec fn eq_ignore_ascii_case_spec(s: Seq<char>, t: Seq<char>) -> bool {
    &&& s.len() == t.len()
    &&& forall|k: int| 0 <= k < s.len() ==> ascii_lower(#[trigger] s[k]) == ascii_lower(t[k])
}

fn lower_char(c: char) -> (r: char)
    ensures
        r == ascii_lower(c),
{
    if 'A' <= c && c <= 'Z' {
        let v: u8 = (c as u8) + 32;
        v as char
    } else {
        c
    }
}

/// Compares `s` and `t` without regard to the case of ASCII letters.
pub fn eq_ignore_ascii_case(s: &str, t: &str) -> (r: bool)
    ensures
        r == eq_ignore_ascii_case_spec(s@, t@),
{
    let n = s.unicode_len();
    if n != t.unicode_len() {
        return false;
    }
    let mut i: usize = 0;
    while i < n
        invariant
            i <= n,
            n == s@.len(),
            n == t@.len(),
            forall|k: int| 0 <= k < i ==> ascii_lower(#[trigger] s@[k]) == ascii_lower(t@[k]),
        decreases n - i,
    {
        if lower_char(s.get_char(i)) != lower_char(t.get_char(i)) {
            return false;
        }
        i = i + 1;
    }
    true
}

/// Whether `c` is white space in Unicode's sense (`char::is_whitespace`).
pub open spec fn is_white(c: char) -> bool {
    ||| ('\u{9}' <= c && c <= '\u{d}')
    ||| c == ' '
    ||| c == '\u{85}'
    ||| c == '\u{a0}'
    ||| c == '\u{1680}'
    ||| ('\u{2000}' <= c && c <= '\u{200a}')
    ||| c == '\u{2028}'
    ||| c == '\u{2029}'
    ||| c == '\u{202f}'
    ||| c == '\u{205f}'
    ||| c == '\u{3000}'
}

fn white(c: char) -> (r: bool)
    ensures
        r == is_white(c),
{
    ('\u{9}' <= c && c <= '\u{d}') || c == ' ' || c == '\u{85}' || c == '\u{a0}' || c
        == '\u{1680}' || ('\u{2000}' <= c && c <= '\u{200a}') || c == '\u{2028}' || c
        == '\u{2029}' || c == '\u{202f}' || c == '\u{205f}' || c == '\u{3000}'
}

/// `s` without white space at either end.
pub open spec fn trim_white(s: Seq<char>) -> Seq<char>
    decreases s.len(),
{
    if s.len() > 0 && is_white(s[0]) {
        trim_white(s.drop_first())
    } else if s.len() > 0 && is_white(s.last()) {
        trim_white(s.drop_last())
    } else {
        s
    }
}

/// `s` without white space at either end, as `str::trim` gives it.
pub fn trim_whitespace(s: &str) -> (r: &str)
    ensures
        r@ == trim_white(s@),
{
    let n = s.unicode_len();
    let mut i: usize = 0;
    let mut j: usize = n;
    assert(s@.subrange(0, n as int) =~= s@);
    while i < j && white(s.get_char(i))
        invariant
            i <= j == n,
            n == s@.len(),
            trim_white(s@) == trim_white(s@.subrange(i as int, j as int)),
        decreases j - i,
    {
        assert(s@.subrange(i as int, j as int).drop_first() =~= s@.subrange(i + 1, j as int));
        i = i + 1;
    }
    while i < j && white(s.get_char(j - 1))
        invariant
            i <= j <= n,
            n == s@.len(),
            i < j ==> !is_white(s@[i as int]),
            trim_white(s@) == trim_white(s@.subrange(i as int, j as int)),
        decreases j - i,
    {
        assert(s@.subrange(i as int, j as int).drop_last() =~= s@.subrange(i as int, j - 1));
        j = j - 1;
    }
    s.substring_char(i, j)
}

} // verus!
