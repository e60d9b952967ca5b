//! Normalisation of channel and movie titles before a metadata search.

use vstd::prelude::*;
use crate::text::{
    chars_of, is_ws, is_ws_char, remove_all, remove_all_str, trim, trim_str,
};

verus! {

pub open spec fn is_upper(c: char) -> bool {
    'A' <= c && c <= 'Z'
}

pub open spec fn is_open_bracket(c: char) -> bool {
    c == '[' || c == '('
}

pub open spec fn is_close_bracket(c: char) -> bool {
    c == ']' || c == ')'
}

/// A character that may separate a region tag from the title.
pub open spec fn is_tag_separator(c: char) -> bool {
    c == ':' || c == '|' || c == '-' || is_ws(c)
}

/// Length of the run of upper-case ASCII letters in `s` starting at `i`.
pub open spec fn upper_run(s: Seq<char>, i: int) -> int
    decreases s.len() - i,
{
    if 0 <= i < s.len() && is_upper(s[i]) {
        1 + upper_run(s, i + 1)
    } else {
        0
    }
}

/// Length of the run of tag separators in `s` starting at `i`.
pub open spec fn separator_run(s: Seq<char>, i: int) -> int
    decreases s.len() - i,
{
    if 0 <= i < s.len() && is_tag_separator(s[i]) {
        1 + separator_run(s, i + 1)
    } else {
        0
    }
}

/// Length of the leading region tag of `s` with its separators ("US| ",
/// "[UK] ", "(FR): "), or 0 where `s` does not start with one. A tag is two or
/// three upper-case letters, optionally in brackets, followed by at least one
/// of `:`, `|`, `-` or whitespace.
pub open spec fn region_tag_len(s: Seq<char>) -> int {
    let o: int = if s.len() > 0 && is_open_bracket(s[0]) {
        1
    } else {
        0
    };
    let l = upper_run(s, o);
    let p = o + l;
    let c: int = if p < s.len() && is_close_bracket(s[p]) {
        1
    } else {
        0
    };
    let k = separator_run(s, p + c);
    if 2 <= l <= 3 && k > 0 {
        p + c + k
    } else {
        0
    }
}

/// The quality tags removed from titles, in the order they are removed.
pub open spec fn without_quality_tags(s: Seq<char>) -> Seq<char> {
    remove_all(
        remove_all(
            remove_all(remove_all(remove_all(s, " HD"@), " SD"@), " 4K"@),
            " UHD"@,
        ),
        " FHD"@,
    )
}

/// The cleaned form of a title: trimmed, quality tags removed, trimmed again,
/// leading region tag removed, trimmed once more.
pub open spec fn clean_title_spec(s: Seq<char>) -> Seq<char> {
    let t = trim(without_quality_tags(trim(s)));
    trim(t.skip(region_tag_len(t)))
}

pub open spec fn is_digit(c: char) -> bool {
    '0' <= c && c <= '9'
}

pub open spec fn digit_value(c: char) -> int {
    c as u32 as int - '0' as u32 as int
}

/// `s` holds a four-digit number in parentheses at position `i`.
pub open spec fn year_at(s: Seq<char>, i: int) -> bool {
    0 <= i && i + 6 <= s.len() && s[i] == '(' && is_digit(s[i + 1]) && is_digit(s[i + 2])
        && is_digit(s[i + 3]) && is_digit(s[i + 4]) && s[i + 5] == ')'
}

/// The four-digit number that starts at position `i` of `s`.
pub open spec fn four_digits(s: Seq<char>, i: int) -> int {
    1000 * digit_value(s[i]) + 100 * digit_value(s[i + 1]) + 10 * digit_value(s[i + 2])
        + digit_value(s[i + 3])
}

/// The year of the first parenthesised four-digit number in `s` at or after `i`.
pub open spec fn find_year(s: Seq<char>, i: int) -> Option<int>
    decreases s.len() - i,
{
    if i < 0 || i + 6 > s.len() {
        None
    } else if year_at(s, i) {
        Some(four_digits(s, i + 1))
    } else {
        find_year(s, i + 1)
    }
}

fn is_upper_char(c: char) -> (r: bool)
    ensures
        r == is_upper(c),
{
    'A' <= c && c <= 'Z'
}

fn is_tag_separator_char(c: char) -> (r: bool)
    ensures
        r == is_tag_separator(c),
{
    c == ':' || c == '|' || c == '-' || is_ws_char(c)
}

fn is_digit_char(c: char) -> (r: bool)
    ensures
        r == is_digit(c),
{
    '0' <= c && c <= '9'
}

proof fn lemma_upper_run(s: Seq<char>, i: int, k: int)
    requires
        0 <= i <= k <= s.len(),
        forall|m: int| i <= m < k ==> is_upper(s[m]),
        !(k < s.len() && is_upper(s[k])),
    ensures
        upper_run(s, i) == k - i,
    decreases k - i,
{
    if i < k {
        lemma_upper_run(s, i + 1, k);
    }
}

proof fn lemma_separator_run(s: Seq<char>, i: int, k: int)
    requires
        0 <= i <= k <= s.len(),
        forall|m: int| i <= m < k ==> is_tag_separator(s[m]),
        !(k < s.len() && is_tag_separator(s[k])),
    ensures
        separator_run(s, i) == k - i,
    decreases k - i,
{
    if i < k {
        lemma_separator_run(s, i + 1, k);
    }
}

fn upper_run_exec(s: &Vec<char>, i: usize) -> (r: usize)
    requires
        i <= s@.len(),
    ensures
        r == upper_run(s@, i as int),
        i + r <= s@.len(),
{
    let mut k: usize = i;
    while k < s.len() && is_upper_char(s[k])
        invariant
            i <= k <= s@.len(),
            forall|m: int| i <= m < k ==> is_upper(s@[m]),
        decreases s@.len() - k,
    {
        k = k + 1;
    }
    proof {
        lemma_upper_run(s@, i as int, k as int);
    }
    k - i
}

fn separator_run_exec(s: &Vec<char>, i: usize) -> (r: usize)
    requires
        i <= s@.len(),
    ensures
        r == separator_run(s@, i as int),
        i + r <= s@.len(),
{
    let mut k: usize = i;
    while k < s.len() && is_tag_separator_char(s[k])
        invariant
            i <= k <= s@.len(),
            forall|m: int| i <= m < k ==> is_tag_separator(s@[m]),
        decreases s@.len() - k,
    {
        k = k + 1;
    }
    proof {
        lemma_separator_run(s@, i as int, k as int);
    }
    k - i
}

/// Length of the leading region tag of `s`, 0 where there is none.
fn region_tag_len_exec(s: &Vec<char>) -> (r: usize)
    ensures
        r == region_tag_len(s@),
        r <= s@.len(),
{
    let o: usize = if s.len() > 0 && (s[0] == '[' || s[0] == '(') {
        1
    } else {
        0
    };
    let l = upper_run_exec(s, o);
    let p = o + l;
    let c: usize = if p < s.len() && (s[p] == ']' || s[p] == ')') {
        1
    } else {
        0
    };
    let k = separator_run_exec(s, p + c);
    if 2 <= l && l <= 3 && k > 0 {
        p + c + k
    } else {
        0
    }
}

/// Clean a channel or movie title for a metadata search: trim it, remove the
/// quality tags " HD", " SD", " 4K", " UHD" and " FHD" wherever they occur
/// (case-sensitive), and remove a leading two- or three-letter region tag
/// with its separators.
pub fn clean_title(title: &str) -> (r: String)
    ensures
        r@ == clean_title_spec(title@),
{
    proof {
        reveal_strlit(" HD");
        reveal_strlit(" SD");
        reveal_strlit(" 4K");
        reveal_strlit(" UHD");
        reveal_strlit(" FHD");
    }
    let t = trim_str(title);
    let t = remove_all_str(t.as_str(), " HD");
    let t = remove_all_str(t.as_str(), " SD");
    let t = remove_all_str(t.as_str(), " 4K");
    let t = remove_all_str(t.as_str(), " UHD");
    let t = remove_all_str(t.as_str(), " FHD");
    let t = trim_str(t.as_str());
    let v = chars_of(t.as_str());
    let k = region_tag_len_exec(&v);
    let rest = t.as_str().substring_char(k, v.len());
    assert(rest@ =~= t@.skip(k as int));
    trim_str(rest)
}

/// The year written as a four-digit number in parentheses in `title`: the
/// first such number wins, and a title without one has no year.
pub fn extract_year(title: &str) -> (r: Option<i32>)
    ensures
        match r {
            Some(y) => find_year(title@, 0) == Some(y as int),
            None => find_year(title@, 0) is None,
        },
{
    let v = chars_of(title);
    let n = v.len();
    let mut i: usize = 0;
    while i < n && n - i >= 6
        invariant
            i <= n,
            v@ == title@,
            n == v@.len(),
            find_year(title@, 0) == find_year(title@, i as int),
        decreases n - i,
    {
        if v[i] == '(' && is_digit_char(v[i + 1]) && is_digit_char(v[i + 2]) && is_digit_char(
            v[i + 3],
        ) && is_digit_char(v[i + 4]) && v[i + 5] == ')' {
            let d1 = (v[i + 1] as u32 - '0' as u32) as i32;
            let d2 = (v[i + 2] as u32 - '0' as u32) as i32;
            let d3 = (v[i + 3] as u32 - '0' as u32) as i32;
            let d4 = (v[i + 4] as u32 - '0' as u32) as i32;
            return Some(1000 * d1 + 100 * d2 + 10 * d3 + d4);
        }
        i = i + 1;
    }
    None
}

} // verus!
