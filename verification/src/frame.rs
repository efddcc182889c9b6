//! The per-frame driver logic that stays pure: re-deriving the grid size
//! from the platform viewport, and the cursor movement that applies when no
//! widget is capturing input.  The caller performs the blocking read, the
//! viewport query, and the emission of the returned operations.

use vstd::prelude::*;
use crate::cursor::clamped;
use crate::input::{Input, VK_DOWN, VK_LEFT, VK_RIGHT, VK_UP};
use crate::screen::MAX_SCREEN_DIM;
use crate::UiContext;

verus! {

/// Adopts a freshly reported viewport size: when it differs from the
/// grids' current size, both grids are reallocated at the new size with
/// every cell blank, and the caller must clear the physical terminal once;
/// an unchanged size leaves everything untouched.
pub fn update_screen_size(ctx: &mut UiContext, new_width: usize, new_height: usize) -> (resized:
    bool)
    requires
        old(ctx).wf(),
        new_width <= MAX_SCREEN_DIM,
        new_height <= MAX_SCREEN_DIM,
    ensures
        final(ctx).wf(),
        resized == (old(ctx).back.width != new_width || old(ctx).back.height != new_height),
        !resized ==> *final(ctx) == *old(ctx),
        resized ==> final(ctx).front.width == new_width && final(ctx).front.height == new_height
            && final(ctx).back.width == new_width && final(ctx).back.height == new_height
            && final(ctx).front@.all_blank() && final(ctx).back@.all_blank(),
        final(ctx).layout == old(ctx).layout,
        final(ctx).active == old(ctx).active,
        final(ctx).hot == old(ctx).hot,
        final(ctx).cursor == old(ctx).cursor,
{
    if ctx.back.width != new_width || ctx.back.height != new_height {
        ctx.front = crate::screen::new_terminal_screen(new_width, new_height);
        ctx.back = crate::screen::new_terminal_screen(new_width, new_height);
        true
    } else {
        false
    }
}

/// How far an arrow key moves the cursor horizontally.
pub open spec fn arrow_dx(key: u16) -> int {
    if key == VK_LEFT {
        -1
    } else if key == VK_RIGHT {
        1
    } else {
        0
    }
}

/// How far an arrow key moves the cursor vertically.
pub open spec fn arrow_dy(key: u16) -> int {
    if key == VK_UP {
        -1
    } else if key == VK_DOWN {
        1
    } else {
        0
    }
}

/// Moves the pointer cursor by one cell for an arrow key, but only while
/// no widget is capturing input; coordinates clamp at the edges.
pub fn move_cursor_with_arrows(ctx: &mut UiContext, inputs: &Input)
    requires
        old(ctx).wf(),
    ensures
        final(ctx).wf(),
        old(ctx).active.depth() == 0 ==> final(ctx).cursor.x == clamped(
            old(ctx).cursor.x + arrow_dx(inputs.key_val),
        ) && final(ctx).cursor.y == clamped(old(ctx).cursor.y + arrow_dy(inputs.key_val)),
        old(ctx).active.depth() > 0 ==> final(ctx).cursor == old(ctx).cursor,
        final(ctx).cursor.save_stack@ == old(ctx).cursor.save_stack@,
        final(ctx).front == old(ctx).front,
        final(ctx).back == old(ctx).back,
        final(ctx).layout == old(ctx).layout,
        final(ctx).active == old(ctx).active,
        final(ctx).hot == old(ctx).hot,
{
    if ctx.active.stack.len() == 0 {
        if inputs.key_val == VK_UP {
            crate::cursor::move_cursor(&mut ctx.cursor, 0, -1);
        } else if inputs.key_val == VK_LEFT {
            crate::cursor::move_cursor(&mut ctx.cursor, -1, 0);
        } else if inputs.key_val == VK_DOWN {
            crate::cursor::move_cursor(&mut ctx.cursor, 0, 1);
        } else if inputs.key_val == VK_RIGHT {
            crate::cursor::move_cursor(&mut ctx.cursor, 1, 0);
        }
    }
}

} // verus!
