//! How the marks along a slider look and where they sit.
//!
//! The library draws nothing: what a mark looks like and how it is placed
//! are the renderer's own types, and a style only pairs the two.

use vstd::prelude::*;

verus! {

/// Style of the tick marks of a slider: what they look like, of type `S`,
/// and where they sit relative to the slider, of type `P`.
#[derive(Clone, Debug)]
pub struct TickMarksStyle<S, P> {
    /// The style of the tick marks
    pub style: S,
    /// The placement of the tick marks
    pub placement: P,
}

/// Style of the text marks of a slider: what they look like, of type `S`,
/// and where they sit relative to the slider, of type `P`.
#[derive(Clone, Debug)]
pub struct TextMarksStyle<S, P> {
    /// The style of the text marks
    pub style: S,
    /// The placement of the text marks
    pub placement: P,
}

} // verus!
