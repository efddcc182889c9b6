//! An immediate-mode terminal user-interface engine.
//!
//! The engine keeps a pair of cell grids (`front` and `back`): widgets paint
//! into the back grid, and presenting diffs the two grids so that only the
//! cells that changed since the previous frame are ever emitted to the
//! terminal.  Widgets obtain their rectangles from a bounded layout stack
//! with a directional flow policy, and report interaction through a
//! hot/active widget-identity registry.  All terminal input and output stays
//! outside this crate: callers hand in plain input events and viewport sizes
//! and emit the presentation operations that come back.

pub mod cursor;
pub mod error;
pub mod frame;
pub mod input;
pub mod input_box;
pub mod layout;
pub mod present;
pub mod registry;
pub mod screen;
pub mod token;
pub mod widgets;

use vstd::prelude::*;

use crate::cursor::Cursor;
use crate::layout::LayoutStack;
use crate::present::PresentOp;
use crate::registry::{ActiveStack, UiId};
use crate::screen::{TerminalScreen, MAX_SCREEN_DIM};

verus! {

/// The whole engine state for one terminal: the two display grids, the
/// layout stack, the hot/active widget registry, and the pointer cursor.
/// Every widget call takes it by exclusive reference; nothing here is
/// process-wide.
pub struct UiContext {
    pub front: TerminalScreen,
    pub back: TerminalScreen,
    pub layout: LayoutStack,
    pub active: ActiveStack,
    pub hot: UiId,
    pub cursor: Cursor,
}

impl UiContext {
    /// Both grids are well formed with matching dimensions, and the stacks
    /// and cursor respect their bounds.
    pub open spec fn wf(self) -> bool {
        self.front.wf() && self.back.wf() && self.front@.width == self.back@.width
            && self.front@.height == self.back@.height && self.layout.wf() && self.active.wf()
            && self.cursor.wf()
    }
}

/// A fresh engine state: both grids blank at the given dimensions, empty
/// stacks, no hot widget, cursor at the origin.
pub fn new_ui_context(width: usize, height: usize) -> (ctx: UiContext)
    requires
        width <= MAX_SCREEN_DIM,
        height <= MAX_SCREEN_DIM,
    ensures
        ctx.wf(),
        ctx.front.width == width,
        ctx.front.height == height,
        ctx.back.width == width,
        ctx.back.height == height,
        ctx.front@.all_blank(),
        ctx.back@.all_blank(),
        ctx.layout.depth() == 0,
        ctx.active.depth() == 0,
        ctx.hot == crate::registry::no_widget_id(),
        ctx.cursor.x == 0,
        ctx.cursor.y == 0,
        ctx.cursor.save_stack@.len() == 0,
{
    UiContext {
        front: crate::screen::new_terminal_screen(width, height),
        back: crate::screen::new_terminal_screen(width, height),
        layout: crate::layout::new_layout_stack(),
        active: crate::registry::new_active_stack(),
        hot: crate::registry::new_hot_id(),
        cursor: crate::cursor::new_cursor(),
    }
}

/// Presents the back grid: copies every changed cell into the front grid
/// and returns exactly one cursor-move-and-write operation per changed
/// cell, in row-major order.  The pointer position, the stacks and the hot
/// slot are untouched, so presentation never perturbs hit-testing.
pub fn present_back_terminal_buffer(ctx: &mut UiContext) -> (ops: Vec<PresentOp>)
    requires
        old(ctx).wf(),
    ensures
        final(ctx).wf(),
        final(ctx).front@.cells == old(ctx).back@.cells,
        final(ctx).front.width == old(ctx).front.width,
        final(ctx).front.height == old(ctx).front.height,
        final(ctx).back == old(ctx).back,
        final(ctx).layout == old(ctx).layout,
        final(ctx).active == old(ctx).active,
        final(ctx).hot == old(ctx).hot,
        final(ctx).cursor == old(ctx).cursor,
        ops@ == crate::present::diff_ops(
            old(ctx).front@,
            old(ctx).back@,
            old(ctx).back@.cells.len() as int,
        ),
        ops@.len() == crate::present::diff_count(
            old(ctx).front@.cells,
            old(ctx).back@.cells,
            old(ctx).back@.cells.len() as int,
        ),
{
    crate::present::present_buffers(&mut ctx.front, &ctx.back)
}

} // verus!
