//! The stateless widgets: the output text box, which paints a string in
//! its allocated rectangle, and the plain box, which shrinks a layout by
//! one cell on each side.  Both claim the hot slot when the pointer is
//! inside their rectangle.

use vstd::prelude::*;
use crate::error::FatalUiError;
use crate::layout::{carve_pos, shrink_matches, UiLayout};
use crate::registry::{cursor_inside, hot_after_draw, UiId, UiKind};
use crate::UiContext;

verus! {

/// The fixed height of an output text box.
pub const OUTPUT_STR_HEIGHT: usize = 1;

/// Paints a read-only string into a `max_len`-by-one rectangle allocated
/// from the current layout, in white, and claims the hot slot when the
/// pointer is inside that rectangle.  Allocation failures are fatal
/// composition errors and change nothing.
pub fn output_string_box(
    ctx: &mut UiContext,
    unique_id: usize,
    str_buffer: &[char],
    max_len: usize,
) -> (r: Result<(), FatalUiError>)
    requires
        old(ctx).wf(),
        max_len <= 0x7fff,
        old(ctx).layout.depth() > 0 ==> old(ctx).layout.top().fits_i16(),
    ensures
        final(ctx).wf(),
        old(ctx).layout.depth() == 0 ==> r == Err::<(), FatalUiError>(
            FatalUiError::LayoutStackUnderflow,
        ) && *final(ctx) == *old(ctx),
        old(ctx).layout.depth() > 0 && (old(ctx).layout.top().w < max_len || old(
            ctx,
        ).layout.top().h < OUTPUT_STR_HEIGHT) ==> r == Err::<(), FatalUiError>(
            FatalUiError::LayoutTooSmall,
        ) && *final(ctx) == *old(ctx),
        old(ctx).layout.depth() > 0 && old(ctx).layout.top().w >= max_len && old(
            ctx,
        ).layout.top().h >= OUTPUT_STR_HEIGHT ==> {
            let pos = carve_pos(old(ctx).layout.top(), max_len as int, OUTPUT_STR_HEIGHT as int);
            &&& r == Ok::<(), FatalUiError>(())
            &&& final(ctx).layout.depth() == old(ctx).layout.depth()
            &&& final(ctx).layout.stack@.drop_last() == old(ctx).layout.stack@.drop_last()
            &&& shrink_matches(
                old(ctx).layout.top(),
                max_len as int,
                OUTPUT_STR_HEIGHT as int,
                final(ctx).layout.top(),
            )
            &&& final(ctx).hot == hot_after_draw(
                old(ctx).hot,
                cursor_inside(old(ctx).cursor, pos.0, pos.1, max_len as int, OUTPUT_STR_HEIGHT as int),
                UiKind::OutputText,
                unique_id,
            )
            &&& final(ctx).back@ == old(ctx).back@.write_string(
                str_buffer@,
                255,
                255,
                255,
                pos.0,
                pos.1,
            )
            &&& final(ctx).front == old(ctx).front
            &&& final(ctx).active == old(ctx).active
            &&& final(ctx).cursor == old(ctx).cursor
        },
{
    let xy: (usize, usize) = match crate::layout::get_xy_with_current_layout(
        &mut ctx.layout,
        max_len,
        OUTPUT_STR_HEIGHT,
    ) {
        Ok(xy) => xy,
        Err(e) => {
            return Err(e);
        },
    };
    let x: usize = xy.0;
    let y: usize = xy.1;
    if crate::registry::inside(&ctx.cursor, x, y, max_len, OUTPUT_STR_HEIGHT) {
        ctx.hot = UiId { owner: ctx.hot.index, item: UiKind::OutputText, index: unique_id };
    }
    crate::screen::write_string_at_pos(&mut ctx.back, str_buffer, 255, 255, 255, x as i16, y as i16);
    Ok(())
}

/// A plain box: claims the hot slot when the pointer is inside the given
/// rectangle, then shrinks that rectangle by one cell from the left and
/// the top.
pub fn ui_box(ctx: &mut UiContext, unique_id: usize, layout: &mut UiLayout, inputs:
    &crate::input::Input)
    requires
        old(ctx).wf(),
        old(layout).wf(),
        old(layout).w >= 1,
        old(layout).h >= 1,
    ensures
        final(ctx).wf(),
        final(layout).x == old(layout).x + 1,
        final(layout).y == old(layout).y + 1,
        final(layout).w == old(layout).w - 1,
        final(layout).h == old(layout).h - 1,
        final(layout).flow == old(layout).flow,
        final(layout).wf(),
        final(ctx).hot == hot_after_draw(
            old(ctx).hot,
            cursor_inside(
                old(ctx).cursor,
                old(layout).x as int,
                old(layout).y as int,
                old(layout).w as int,
                old(layout).h as int,
            ),
            UiKind::BoxWidget,
            unique_id,
        ),
        final(ctx).front == old(ctx).front,
        final(ctx).back == old(ctx).back,
        final(ctx).layout == old(ctx).layout,
        final(ctx).active == old(ctx).active,
        final(ctx).cursor == old(ctx).cursor,
{
    let _ = inputs;
    if crate::registry::inside(&ctx.cursor, layout.x, layout.y, layout.w, layout.h) {
        ctx.hot = UiId { owner: ctx.hot.index, item: UiKind::BoxWidget, index: unique_id };
    }
    layout.x = layout.x + 1;
    layout.y = layout.y + 1;
    layout.w = layout.w - 1;
    layout.h = layout.h - 1;
}

} // verus!
