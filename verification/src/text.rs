//! Small operations on strings, stated over their characters.

use vstd::prelude::*;

verus! {

/// `text` without its first `count` characters.
pub open spec fn without_prefix(text: Seq<char>, count: nat) -> Seq<char> {
    text.subrange(count as int, text.len() as int)
}

/// The characters of an optional string.
pub open spec fn text_of(value: Option<String>) -> Option<Seq<char>> {
    match value {
        Some(text) => Some(text@),
        None => None,
    }
}

/// `text` after every leading repetition of `pattern` is taken away.
pub open spec fn trimmed_start(text: Seq<char>, pattern: Seq<char>) -> Seq<char>
    decreases text.len(),
{
    if pattern.len() > 0 && pattern.is_prefix_of(text) {
        trimmed_start(without_prefix(text, pattern.len()), pattern)
    } else {
        text
    }
}

/// Whether two strings hold the same characters.
pub fn str_equals(left: &str, right: &str) -> (same: bool)
    ensures
        same == (left@ == right@),
{
    let len = left.unicode_len();
    if right.unicode_len() != len {
        return false;
    }
    let mut i: usize = 0;
    while i < len
        invariant
            len == left@.len(),
            len == right@.len(),
            i <= len,
            forall|j: int| 0 <= j < i ==> left@[j] == right@[j],
        decreases len - i,
    {
        if left.get_char(i) != right.get_char(i) {
            return false;
        }
        i += 1;
    }
    assert(left@ =~= right@);
    true
}

/// Whether `text` begins with `prefix`.
pub fn starts_with(text: &str, prefix: &str) -> (found: bool)
    ensures
        found == prefix@.is_prefix_of(text@),
{
    let prefix_len = prefix.unicode_len();
    if text.unicode_len() < prefix_len {
        return false;
    }
    let mut i: usize = 0;
    while i < prefix_len
        invariant
            prefix_len == prefix@.len(),
            prefix_len <= text@.len(),
            i <= prefix_len,
            forall|j: int| 0 <= j < i ==> text@[j] == prefix@[j],
        decreases prefix_len - i,
    {
        if text.get_char(i) != prefix.get_char(i) {
            assert(text@.subrange(0, prefix@.len() as int)[i as int] != prefix@[i as int]);
            return false;
        }
        i += 1;
    }
    assert(text@.subrange(0, prefix@.len() as int) =~= prefix@);
    true
}

/// `text` without `prefix`, or `None` where it does not begin with it.
pub fn strip_prefix<'a>(text: &'a str, prefix: &str) -> (rest: Option<&'a str>)
    ensures
        match rest {
            Some(tail) => prefix@.is_prefix_of(text@) && tail@ == without_prefix(
                text@,
                prefix@.len(),
            ),
            None => !prefix@.is_prefix_of(text@),
        },
{
    if starts_with(text, prefix) {
        Some(text.substring_char(prefix.unicode_len(), text.unicode_len()))
    } else {
        None
    }
}

/// `text` after every leading repetition of `pattern` is taken away.
pub fn trim_start_matches<'a>(text: &'a str, pattern: &str) -> (rest: &'a str)
    ensures
        rest@ == trimmed_start(text@, pattern@),
{
    let pattern_len = pattern.unicode_len();
    let mut rest = text;
    if pattern_len == 0 {
        return rest;
    }
    loop
        invariant
            pattern_len == pattern@.len(),
            pattern_len > 0,
            trimmed_start(rest@, pattern@) == trimmed_start(text@, pattern@),
        decreases rest@.len(),
    {
        match strip_prefix(rest, pattern) {
            Some(tail) => {
                rest = tail;
            },
            None => {
                return rest;
            },
        }
    }
}

/// The characters of `text`, one by one.
pub fn to_chars(text: &str) -> (chars: Vec<char>)
    ensures
        chars@ == text@,
{
    let mut chars: Vec<char> = Vec::new();
    for c in it: text.chars()
        invariant
            it.seq() == text@,
            chars@ == it.seq().subrange(0, it.index() as int),
    {
        chars.push(c);
        assert(chars@ =~= it.seq().subrange(0, it.index() + 1));
    }
    assert(chars@ =~= text@);
    chars
}

} // verus!
