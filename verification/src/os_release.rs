//! Reading one field of an os-release file: `KEY=value` lines, with the
//! value's surrounding double quotes removed.

use vstd::prelude::*;

verus! {

/// The end of the line that starts at `i`: the index of the next `\n`, or
/// the end of the text.
pub open spec fn line_end(s: Seq<char>, i: int) -> int
    decreases s.len() - i,
{
    if i >= s.len() {
        s.len() as int
    } else if s[i] == '\n' {
        i
    } else {
        line_end(s, i + 1)
    }
}

/// The first `=` in `[i, end)`, or `end`.
pub open spec fn separator_at(s: Seq<char>, i: int, end: int) -> int
    decreases end - i,
{
    if i >= end {
        end
    } else if s[i] == '=' {
        i
    } else {
        separator_at(s, i + 1, end)
    }
}

/// The first index in `[i, end)` that is not a double quote, or `end`.
pub open spec fn unquoted_start(s: Seq<char>, i: int, end: int) -> int
    decreases end - i,
{
    if i >= end {
        end
    } else if s[i] == '"' {
        unquoted_start(s, i + 1, end)
    } else {
        i
    }
}

/// The end of `[start, end)` once trailing double quotes are dropped.
pub open spec fn unquoted_end(s: Seq<char>, start: int, end: int) -> int
    decreases end - start,
{
    if end <= start {
        start
    } else if s[end - 1] == '"' {
        unquoted_end(s, start, end - 1)
    } else {
        end
    }
}

/// Where the text of the line from `i` to its terminator `n` ends: a `\r`
/// right before the `\n` is part of the terminator.
pub open spec fn content_end(s: Seq<char>, i: int, n: int) -> int {
    if n < s.len() && n > i && s[n - 1] == '\r' {
        n - 1
    } else {
        n
    }
}

proof fn lemma_line_end_bounds(s: Seq<char>, i: int)
    requires
        0 <= i,
    ensures
        i <= s.len() ==> i <= line_end(s, i) <= s.len(),
        i > s.len() ==> line_end(s, i) == s.len(),
    decreases s.len() - i,
{
    if i < s.len() && s[i] != '\n' {
        lemma_line_end_bounds(s, i + 1);
    }
}

/// The value of `field` in the lines from `i` on: the first line whose text
/// before its first `=` is exactly `field` gives the text after that `=`,
/// without leading and trailing double quotes.
pub open spec fn field_value_from(s: Seq<char>, field: Seq<char>, i: int) -> Option<Seq<char>>
    decreases s.len() + 1 - i,
    via field_value_from_decreases
{
    if i < 0 || i >= s.len() {
        None
    } else {
        let n = line_end(s, i);
        let end = content_end(s, i, n);
        let e = separator_at(s, i, end);
        if e < end && s.subrange(i, e) == field {
            let a = unquoted_start(s, e + 1, end);
            Some(s.subrange(a, unquoted_end(s, a, end)))
        } else {
            field_value_from(s, field, n + 1)
        }
    }
}

#[via_fn]
proof fn field_value_from_decreases(s: Seq<char>, field: Seq<char>, i: int) {
    if 0 <= i < s.len() {
        lemma_line_end_bounds(s, i);
    }
}

fn find_line_end(text: &str, len: usize, i: usize) -> (n: usize)
    requires
        len == text@.len(),
        i <= len,
    ensures
        n == line_end(text@, i as int),
        i <= n <= len,
{
    let mut j = i;
    while j < len && text.get_char(j) != '\n'
        invariant
            len == text@.len(),
            i <= j <= len,
            line_end(text@, i as int) == line_end(text@, j as int),
        decreases len - j,
    {
        j = j + 1;
    }
    proof {
        lemma_line_end_bounds(text@, j as int);
    }
    j
}

fn find_separator(text: &str, len: usize, i: usize, end: usize) -> (e: usize)
    requires
        len == text@.len(),
        i <= end <= len,
    ensures
        e == separator_at(text@, i as int, end as int),
        i <= e <= end,
{
    let mut j = i;
    while j < end && text.get_char(j) != '='
        invariant
            len == text@.len(),
            i <= j <= end <= len,
            separator_at(text@, i as int, end as int) == separator_at(text@, j as int, end as int),
        decreases end - j,
    {
        j = j + 1;
    }
    j
}

fn matches_field(text: &str, i: usize, e: usize, field: &str) -> (same: bool)
    requires
        i <= e <= text@.len(),
    ensures
        same == (text@.subrange(i as int, e as int) == field@),
{
    let field_len = field.unicode_len();
    if e - i != field_len {
        proof {
            assert(text@.subrange(i as int, e as int).len() != field@.len());
        }
        return false;
    }
    let mut k: usize = 0;
    while k < field_len
        invariant
            field_len == field@.len(),
            e - i == field_len,
            i <= e <= text@.len(),
            k <= field_len,
            forall|m: int| 0 <= m < k ==> text@[i + m] == field@[m],
        decreases field_len - k,
    {
        if text.get_char(i + k) != field.get_char(k) {
            proof {
                assert(text@.subrange(i as int, e as int)[k as int] != field@[k as int]);
            }
            return false;
        }
        k = k + 1;
    }
    assert(text@.subrange(i as int, e as int) =~= field@);
    true
}

fn trim_quotes(text: &str, start: usize, end: usize) -> (range: (usize, usize))
    requires
        start <= end <= text@.len(),
    ensures
        range.0 == unquoted_start(text@, start as int, end as int),
        range.1 == unquoted_end(text@, range.0 as int, end as int),
        start <= range.0 <= range.1 <= end,
{
    let mut a = start;
    while a < end && text.get_char(a) == '"'
        invariant
            start <= a <= end <= text@.len(),
            unquoted_start(text@, start as int, end as int) == unquoted_start(text@, a as int, end as int),
        decreases end - a,
    {
        a = a + 1;
    }
    let mut b = end;
    while b > a && text.get_char(b - 1) == '"'
        invariant
            start <= a <= b <= end <= text@.len(),
            unquoted_start(text@, start as int, end as int) == a,
            unquoted_end(text@, a as int, end as int) == unquoted_end(text@, a as int, b as int),
        decreases b - a,
    {
        b = b - 1;
    }
    (a, b)
}

/// The value of `field` in os-release text (see `field_value_from`), or
/// `None` when no line names it.
pub fn os_release_field(text: &str, field: &str) -> (value: Option<String>)
    ensures
        value matches Some(v) ==> field_value_from(text@, field@, 0) == Some(v@),
        value is None ==> field_value_from(text@, field@, 0) is None,
{
    let len = text.unicode_len();
    let mut i: usize = 0;
    while i < len
        invariant
            len == text@.len(),
            i <= len,
            field_value_from(text@, field@, 0) == field_value_from(text@, field@, i as int),
        decreases len - i,
    {
        let n = find_line_end(text, len, i);
        let end = if n < len && n > i && text.get_char(n - 1) == '\r' {
            n - 1
        } else {
            n
        };
        let e = find_separator(text, len, i, end);
        if e < end && matches_field(text, i, e, field) {
            let (a, b) = trim_quotes(text, e + 1, end);
            let value = String::from_str(text.substring_char(a, b));
            return Some(value);
        }
        if n >= len {
            proof {
                assert(field_value_from(text@, field@, n + 1) is None);
            }
            return None;
        }
        i = n + 1;
    }
    None
}

} // verus!
