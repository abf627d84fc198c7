//! Choosing the temperature sensor to report for the CPU.

use vstd::prelude::*;

verus! {

/// Whether `needle` occurs in `text` as a run of consecutive characters.
pub open spec fn contains_text(text: Seq<char>, needle: Seq<char>) -> bool {
    exists|i: int| 0 <= i && i + needle.len() <= text.len() && #[trigger] text.subrange(i, i + needle.len()) == needle
}

/// Calls `str::contains` with a string pattern, which tells whether `needle`
/// matches a sub-slice of `text`: a run of consecutive characters of `text`.
#[verifier::external_body]
fn str_contains(text: &str, needle: &str) -> (found: bool)
    ensures
        found == contains_text(text@, needle@),
{
    text.contains(needle)
}

/// The position of the first sensor whose label contains `search_label`, if any.
pub fn find_sensor(labels: &[String], search_label: &str) -> (found: Option<usize>)
    ensures
        found matches Some(i) ==> i < labels@.len() && contains_text(labels@[i as int]@, search_label@)
            && forall|j: int| 0 <= j < i ==> !contains_text(#[trigger] labels@[j]@, search_label@),
        found is None ==> forall|j: int|
            0 <= j < labels@.len() ==> !contains_text(#[trigger] labels@[j]@, search_label@),
{
    let mut i: usize = 0;
    while i < labels.len()
        invariant
            i <= labels@.len(),
            forall|j: int| 0 <= j < i ==> !contains_text(#[trigger] labels@[j]@, search_label@),
        decreases labels@.len() - i,
    {
        if str_contains(labels[i].as_str(), search_label) {
            return Some(i);
        }
        i = i + 1;
    }
    None
}

} // verus!
