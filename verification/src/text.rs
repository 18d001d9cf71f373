//! The mathematical values of optional texts and of sequences of texts.

use vstd::prelude::*;

verus! {

/// The view of an optional text.
pub open spec fn optional_text(value: Option<String>) -> Option<Seq<char>> {
    match value {
        Some(text) => Some(text@),
        None => None,
    }
}

/// The views of a sequence of texts.
pub open spec fn texts(items: Seq<String>) -> Seq<Seq<char>> {
    items.map_values(|text: String| text@)
}

} // verus!
