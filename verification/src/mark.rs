//! Shape-related data shared with the drawing layer.

use vstd::prelude::*;

verus! {

/// Where a piece of text is anchored relative to its position.
#[derive(Debug, Clone)]
pub enum TextAlign {
    Start,
    Center,
    End,
}

} // verus!
