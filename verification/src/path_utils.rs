//! Normalisation of optional values, Linux paths and directory names.

use vstd::prelude::*;

use crate::text::{
    chars_of, opt_str_text, opt_text, push_str, replace_char, replace_char_str, starts_with,
    starts_with_str, trim, trim_end_char, trim_end_char_str, trim_start_char, trim_start_char_str,
    trim_str,
};

verus! {

/// A trimmed copy of `value`, or `None` when it is absent or blank.
pub open spec fn normalized_optional(value: Option<Seq<char>>) -> Option<Seq<char>> {
    match value {
        Some(v) => if trim(v).len() == 0 {
            None
        } else {
            Some(trim(v))
        },
        None => None,
    }
}

/// `path` trimmed, with back slashes turned into forward slashes and a
/// leading `/` added when it is missing.
pub open spec fn linux_path(path: Seq<char>) -> Seq<char> {
    let n = replace_char(trim(path), '\\', '/');
    if starts_with(n, seq!['/']) {
        n
    } else {
        seq!['/'] + n
    }
}

/// `left` and `right` joined by exactly the one `/` that separates them.
pub open spec fn joined_linux_path(left: Seq<char>, right: Seq<char>) -> Seq<char> {
    replace_char(trim_end_char(trim(left), '/'), '\\', '/') + seq!['/'] + replace_char(
        trim_start_char(trim(right), '/'),
        '\\',
        '/',
    )
}

/// Characters that a Windows directory name cannot hold.
pub open spec fn is_invalid_segment_char(c: char) -> bool {
    c == '<' || c == '>' || c == ':' || c == '"' || c == '/' || c == '\\' || c == '|' || c == '?'
        || c == '*'
}

pub open spec fn directory_segment(value: Seq<char>) -> Seq<char> {
    Seq::new(
        value.len(),
        |i: int|
            if is_invalid_segment_char(value[i]) {
                '_'
            } else {
                value[i]
            },
    )
}

/// The borrowed text of an optional string.
pub fn as_opt_str(value: &Option<String>) -> (out: Option<&str>)
    ensures
        opt_str_text(out) == opt_text(*value),
{
    match value {
        Some(v) => Some(v.as_str()),
        None => None,
    }
}

pub fn normalize_optional_value(value: Option<&str>) -> (out: Option<String>)
    ensures
        opt_text(out) == normalized_optional(opt_str_text(value)),
{
    match value {
        Some(v) => {
            let t = trim_str(v);
            if t.as_str().is_empty() {
                None
            } else {
                Some(t)
            }
        },
        None => None,
    }
}

pub fn normalize_linux_path(path: &str) -> (out: String)
    ensures
        out@ == linux_path(path@),
{
    let trimmed = trim_str(path);
    let normalized = replace_char_str(trimmed.as_str(), '\\', '/');
    proof {
        reveal_strlit("/");
        assert("/"@ =~= seq!['/']);
    }
    if starts_with_str(normalized.as_str(), "/") {
        normalized
    } else {
        let mut out = String::new();
        out.push('/');
        push_str(&mut out, normalized.as_str());
        out
    }
}

pub fn combine_linux_path(left: &str, right: &str) -> (out: String)
    ensures
        out@ == joined_linux_path(left@, right@),
{
    let l = trim_str(left);
    let l = trim_end_char_str(l.as_str(), '/');
    let l = replace_char_str(l.as_str(), '\\', '/');
    let r = trim_str(right);
    let r = trim_start_char_str(r.as_str(), '/');
    let r = replace_char_str(r.as_str(), '\\', '/');
    let mut out = l;
    out.push('/');
    push_str(&mut out, r.as_str());
    out
}

pub fn sanitize_directory_segment(value: &str) -> (out: String)
    ensures
        out@ == directory_segment(value@),
{
    let v = chars_of(value);
    let mut out = String::new();
    let mut i: usize = 0;
    while i < v.len()
        invariant
            i <= v.len(),
            v@ == value@,
            out@ == directory_segment(value@).take(i as int),
        decreases v.len() - i,
    {
        let c = v[i];
        let mapped = if c == '<' || c == '>' || c == ':' || c == '"' || c == '/' || c == '\\' || c
            == '|' || c == '?' || c == '*' {
            '_'
        } else {
            c
        };
        out.push(mapped);
        i = i + 1;
        assert(out@ =~= directory_segment(value@).take(i as int));
    }
    assert(directory_segment(value@).take(i as int) =~= directory_segment(value@));
    out
}

} // verus!
