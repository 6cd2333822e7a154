//! The detail of an error, as the crate it comes from writes it.

use vstd::prelude::*;

verus! {

/// A value as its `Debug` form writes it. Calls `format!` with `{:?}`;
/// nothing is said of the text.
#[verifier::external_body]
pub(crate) fn debug_text<T: std::fmt::Debug>(value: &T) -> (text: String) {
    format!("{:?}", value)
}

} // verus!
