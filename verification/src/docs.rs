//! Markdown helpers for the route documentation that the surrounding service
//! renders; only the category heading is part of this library.

use vstd::prelude::*;

verus! {

/// Begin a new doc category: a level-two markdown heading followed by a blank
/// line.
pub fn doc_category(name: &str) -> (r: String)
    ensures
        r@ == "## "@ + name@ + "\n\n"@,
{
    String::from_str("## ").concat(name).concat("\n\n")
}

} // verus!
