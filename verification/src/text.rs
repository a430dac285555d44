//! Values written out as text.

use std::fmt::Display;
use vstd::prelude::*;
use vstd::string::to_string_from_display_ensures;

verus! {

/// Whether `text` is what `value` shows itself as: what `to_string` may
/// return for it.
pub open spec fn shows<T: Display>(value: T, text: Seq<char>) -> bool {
    exists|shown: String| #[trigger] shown@ == text && to_string_from_display_ensures(&value, shown)
}

} // verus!
