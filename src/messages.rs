//! Commands that reconfigure a running layout.
use vstd::prelude::*;

verus! {

/// A command routed to the active layout. A layout acts on the kinds it
/// knows and leaves its state as it was for any other.
#[derive(Debug, Clone)]
pub enum Message {
    /// Give the main area a larger share of the screen.
    ExpandMain,
    /// Give the main area a smaller share of the screen.
    ShrinkMain,
    /// Change the number of clients in the main area by the given amount.
    IncMain(i32),
    /// Swap the sides that the main and secondary areas take.
    Mirror,
    /// Turn a side-by-side split into a stacked one, and back.
    Rotate,
    /// A command defined outside this crate, known by its name.
    Custom(String),
}

} // verus!
