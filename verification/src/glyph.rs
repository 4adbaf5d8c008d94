//! The trait that every drawable shape implements.

use vstd::prelude::*;

verus! {

/// A drawable shape: something that can render itself into a drawing
/// context, such as a vector-image document under construction.
pub trait Glyph {
    /// The drawing context the shape renders into.
    type Context;

    /// Renders the shape into the context.
    fn draw(&self, ctx: &mut Self::Context);
}

} // verus!
