//! Small helpers on owned strings.

use vstd::prelude::*;
use vstd::std_specs::iter::IteratorSpec;
use vstd::string::{StrSliceExecFns, StringExecFns};

verus! {

/// Whether `text` reads exactly `wanted`.
pub fn same_text(text: &String, wanted: &str) -> (yes: bool)
    ensures
        yes == (text@ == wanted@),
{
    let other = String::from_str(wanted);
    *text == other
}

/// Whether one of the strings in `list` reads exactly `wanted`.
pub fn holds_text(list: &Vec<String>, wanted: &str) -> (yes: bool)
    ensures
        yes == list.deep_view().contains(wanted@),
{
    let mut i: usize = 0;
    while i < list.len()
        invariant
            i <= list.len(),
            forall|k: int| 0 <= k < i ==> list.deep_view()[k] != wanted@,
        decreases list.len() - i,
    {
        if same_text(&list[i], wanted) {
            assert(list.deep_view()[i as int] == wanted@);
            return true;
        }
        i += 1;
    }
    false
}

/// Whether the last character of `text` is `wanted`.
pub fn ends_with_char(text: &str, wanted: char) -> (yes: bool)
    ensures
        yes == (text@.len() > 0 && text@.last() == wanted),
{
    let n = text.unicode_len();
    n > 0 && text.get_char(n - 1) == wanted
}

/// Whether `wanted` occurs anywhere in `text`.
pub fn holds_char(text: &str, wanted: char) -> (yes: bool)
    ensures
        yes == text@.contains(wanted),
{
    broadcast use vstd::string::group_string_axioms;

    let mut rest = text.chars();
    let ghost mut seen: int = 0;
    loop
        invariant
            0 <= seen <= text@.len(),
            rest.remaining() == text@.skip(seen),
            forall|k: int| 0 <= k < seen ==> text@[k] != wanted,
        decreases text@.len() - seen,
    {
        match rest.next() {
            Some(c) => {
                if c == wanted {
                    assert(text@[seen] == wanted);
                    return true;
                }
                proof {
                    assert(text@.skip(seen).drop_first() =~= text@.skip(seen + 1));
                    seen = seen + 1;
                }
            },
            None => {
                return false;
            },
        }
    }
}

/// Whether `text` begins with the character `first` followed by `second`.
pub fn starts_with_pair(text: &str, first: char, second: char) -> (yes: bool)
    ensures
        yes == (text@.len() >= 2 && text@[0] == first && text@[1] == second),
{
    broadcast use vstd::string::group_string_axioms;

    let mut rest = text.chars();
    assert(rest.remaining() == text@);
    match rest.next() {
        Some(a) => {
            assert(text@.drop_first().len() > 0 ==> text@.drop_first()[0] == text@[1]);
            match rest.next() {
                Some(b) => a == first && b == second,
                None => false,
            }
        },
        None => false,
    }
}

} // verus!
