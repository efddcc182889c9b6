//! The fatal error kind for invariant violations in widget composition.

use vstd::prelude::*;

verus! {

/// A violation of one of the engine's composition invariants: overflowing or
/// underflowing one of the bounded stacks, pushing a layout rectangle that
/// escapes its parent, or asking the current layout for more room than it has
/// left.  These indicate a bug in the calling widget tree, not a runtime
/// condition to recover from; they are returned as values so that a harness
/// can observe them deterministically instead of crashing the process.
#[derive(Clone, Copy, PartialEq, Eq, Structural, Debug)]
pub enum FatalUiError {
    /// `push_layout` on a full layout stack.
    LayoutStackOverflow,
    /// `pop_layout` or an allocation on an empty layout stack.
    LayoutStackUnderflow,
    /// A pushed layout rectangle does not overlap the current top.
    LayoutOutOfParent,
    /// The current layout has less room than the requested rectangle.
    LayoutTooSmall,
    /// `push_active` on a full active stack.
    ActiveStackOverflow,
    /// `pop_active` on an empty active stack.
    ActiveStackUnderflow,
    /// Saving the cursor position with a full save stack.
    CursorSaveOverflow,
    /// Restoring the cursor position with an empty save stack.
    CursorSaveUnderflow,
}

} // verus!
