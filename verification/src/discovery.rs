//! Which entries of the input directory are worth listing: event nodes
//! whose device name marks a keyboard or a pointing device.

use vstd::prelude::*;

verus! {

/// The lowercase equivalent of a text, as `str::to_lowercase` gives it.
pub uninterp spec fn lowercased(text: Seq<char>) -> Seq<char>;

/// Whether `word` occurs in `text` as a run of consecutive characters.
pub open spec fn occurs_in(word: Seq<char>, text: Seq<char>) -> bool {
    exists|at: int|
        0 <= at && at + word.len() <= text.len() && #[trigger] text.subrange(
            at,
            at + word.len(),
        ) == word
}

/// Whether `text` opens with `prefix`.
pub open spec fn begins_with(prefix: Seq<char>, text: Seq<char>) -> bool {
    prefix.len() <= text.len() && text.subrange(0, prefix.len() as int) == prefix
}

/// Whether a device name, already in lowercase, holds one of the words
/// that mark a keyboard or a pointing device.
pub open spec fn marks_input_device(lower: Seq<char>) -> bool {
    occurs_in("keyboard"@, lower) || occurs_in("mouse"@, lower) || occurs_in("trackpad"@, lower)
        || occurs_in("touchpad"@, lower)
}

/// Calls `str::to_lowercase`. What it returns is a function of the text
/// alone, fixed by the Unicode tables of the standard library; that
/// function is given a name and nothing more is claimed of it.
#[verifier::external_body]
fn to_lowercase(text: &str) -> (lower: String)
    ensures
        lower@ == lowercased(text@),
{
    text.to_lowercase()
}

/// Calls `str::contains` with a string pattern, which tells whether the
/// pattern matches a part of the text; taken on trust from its
/// documentation.
#[verifier::external_body]
fn contains(text: &str, word: &str) -> (found: bool)
    ensures
        found == occurs_in(word@, text@),
{
    text.contains(word)
}

/// Calls `str::starts_with` with a string pattern, which tells whether the
/// pattern matches at the start of the text; taken on trust from its
/// documentation.
#[verifier::external_body]
fn starts_with(text: &str, prefix: &str) -> (found: bool)
    ensures
        found == begins_with(prefix@, text@),
{
    text.starts_with(prefix)
}

/// Whether a directory entry is an event node: its file name opens with `event`.
pub fn is_event_node(file_name: &str) -> (event: bool)
    ensures
        event == begins_with("event"@, file_name@),
{
    starts_with(file_name, "event")
}

/// Whether a device name that is already in lowercase marks a keyboard or a
/// pointing device.
pub fn lowercase_name_marks_input(lower: &str) -> (marked: bool)
    ensures
        marked == marks_input_device(lower@),
{
    contains(lower, "keyboard") || contains(lower, "mouse") || contains(lower, "trackpad")
        || contains(lower, "touchpad")
}

/// Whether a device name marks a keyboard or a pointing device, whatever
/// the case of its letters.
pub fn is_input_device_name(name: &str) -> (marked: bool)
    ensures
        marked == marks_input_device(lowercased(name@)),
{
    let lower = to_lowercase(name);
    lowercase_name_marks_input(lower.as_str())
}

} // verus!
