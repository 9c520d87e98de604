//! How values that the store has no native form for are written and read.
//!
//! An optional text is written as the empty text where it is absent, and an
//! empty or missing column is read as absent.  A flag is written as 1 or 0,
//! and any number but 0 is read as set.

use vstd::prelude::*;

verus! {

/// The characters of an optional text.
pub open spec fn text_of(text: Option<String>) -> Option<Seq<char>> {
    match text {
        Some(t) => Some(t@),
        None => None,
    }
}

/// The characters of an optional borrowed text.
pub open spec fn text_of_str(text: Option<&str>) -> Option<Seq<char>> {
    match text {
        Some(t) => Some(t@),
        None => None,
    }
}

/// What is written for an optional text: the text, or the empty text.
pub open spec fn or_empty(text: Option<Seq<char>>) -> Seq<char> {
    match text {
        Some(t) => t,
        None => Seq::empty(),
    }
}

/// What is read from an optional column: nothing for a missing or empty
/// column, else its text.
pub open spec fn absent_if_empty(column: Option<Seq<char>>) -> Option<Seq<char>> {
    match column {
        Some(t) => if t.len() == 0 {
            None
        } else {
            Some(t)
        },
        None => None,
    }
}

/// What is written for a flag.
pub open spec fn flag_number(flag: bool) -> int {
    if flag {
        1
    } else {
        0
    }
}

/// The text to write for an optional text.
pub fn written_text(text: &Option<String>) -> (written: String)
    ensures
        written@ == or_empty(text_of(*text)),
{
    match text {
        Some(t) => t.clone(),
        None => String::new(),
    }
}

/// The optional text that a column stands for.
pub fn read_text(column: Option<String>) -> (text: Option<String>)
    ensures
        text_of(text) == absent_if_empty(text_of(column)),
{
    match column {
        Some(t) => if t.as_str().is_empty() {
            None
        } else {
            Some(t)
        },
        None => None,
    }
}

/// The number to write for a flag.
pub fn written_flag(flag: bool) -> (number: i64)
    ensures
        number == flag_number(flag),
{
    if flag {
        1
    } else {
        0
    }
}

/// The flag that a number stands for.
pub fn read_flag(number: i32) -> (flag: bool)
    ensures
        flag == (number != 0),
{
    number != 0
}

/// Writing an optional text and reading it back gives the text again,
/// except that a text that is present and empty comes back absent.
pub proof fn text_round_trip(text: Option<Seq<char>>)
    ensures
        absent_if_empty(Some(or_empty(text))) == absent_if_empty(text),
        text != Some(Seq::<char>::empty()) ==> absent_if_empty(Some(or_empty(text))) == text,
{
    match text {
        Some(t) => {
            if t.len() == 0 {
                assert(t =~= Seq::<char>::empty());
            }
        },
        None => {},
    }
}

/// Reading a column twice gives what reading it once gives.
pub proof fn stored_text_is_stable(column: Option<Seq<char>>)
    ensures
        absent_if_empty(absent_if_empty(column)) == absent_if_empty(column),
{
}

/// Writing a flag and reading it back gives the flag again.
pub proof fn flag_round_trip(flag: bool)
    ensures
        (flag_number(flag) != 0) == flag,
{
}

} // verus!
