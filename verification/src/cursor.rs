//! The cursor: the terminal's real cursor doubles as the pointer device,
//! so widgets hit-test against its position.  It carries a bounded save
//! stack so that presentation can restore the pointer position it found.

use vstd::prelude::*;
use crate::error::FatalUiError;

verus! {

/// How many cursor positions can be saved at once.
pub const CURSOR_SAVE_CAPACITY: usize = 8;

/// The largest cursor coordinate; coordinates saturate here instead of
/// overflowing.
pub const CURSOR_MAX: i16 = 0x7fff;

/// The cursor position and its bounded save stack.  Coordinates are
/// clamped to be non-negative on every move.
pub struct Cursor {
    pub x: i16,
    pub y: i16,
    pub save_stack: Vec<(i16, i16)>,
}

impl Cursor {
    pub open spec fn wf(self) -> bool {
        self.x >= 0 && self.y >= 0 && self.save_stack@.len() <= CURSOR_SAVE_CAPACITY && (
        forall|i: int|
            0 <= i < self.save_stack@.len() ==> (#[trigger] self.save_stack@[i]).0 >= 0
                && self.save_stack@[i].1 >= 0)
    }
}

/// The value a coordinate ends up with after clamping into `[0, CURSOR_MAX]`.
pub open spec fn clamped(v: int) -> int {
    if v < 0 {
        0
    } else if v > CURSOR_MAX {
        CURSOR_MAX as int
    } else {
        v
    }
}

/// A cursor at the origin with nothing saved.
pub fn new_cursor() -> (cursor: Cursor)
    ensures
        cursor.wf(),
        cursor.x == 0,
        cursor.y == 0,
        cursor.save_stack@.len() == 0,
{
    Cursor { x: 0, y: 0, save_stack: Vec::new() }
}

/// Moves the cursor to `(x, y)`, clamping negative coordinates to zero.
pub fn set_cursor_to(cursor: &mut Cursor, x: i16, y: i16)
    requires
        old(cursor).wf(),
    ensures
        final(cursor).wf(),
        final(cursor).x == if x < 0 {
            0
        } else {
            x as int
        },
        final(cursor).y == if y < 0 {
            0
        } else {
            y as int
        },
        final(cursor).save_stack@ == old(cursor).save_stack@,
{
    cursor.x = if x < 0 {
        0
    } else {
        x
    };
    cursor.y = if y < 0 {
        0
    } else {
        y
    };
}

/// Moves the cursor by `(dx, dy)`, clamping each coordinate into
/// `[0, CURSOR_MAX]`.
pub fn move_cursor(cursor: &mut Cursor, dx: i16, dy: i16)
    requires
        old(cursor).wf(),
    ensures
        final(cursor).wf(),
        final(cursor).x == clamped(old(cursor).x + dx),
        final(cursor).y == clamped(old(cursor).y + dy),
        final(cursor).save_stack@ == old(cursor).save_stack@,
{
    let nx: i32 = cursor.x as i32 + dx as i32;
    let ny: i32 = cursor.y as i32 + dy as i32;
    cursor.x = if nx < 0 {
        0
    } else if nx > CURSOR_MAX as i32 {
        CURSOR_MAX
    } else {
        nx as i16
    };
    cursor.y = if ny < 0 {
        0
    } else if ny > CURSOR_MAX as i32 {
        CURSOR_MAX
    } else {
        ny as i16
    };
}

/// The cursor's current position.
pub fn get_cursor_position(cursor: &Cursor) -> (r: (i16, i16))
    ensures
        r.0 == cursor.x,
        r.1 == cursor.y,
{
    (cursor.x, cursor.y)
}

/// Saves the current position on the save stack; saving past the stack's
/// capacity is a fatal composition error.
pub fn save_cursor_position(cursor: &mut Cursor) -> (r: Result<(), FatalUiError>)
    requires
        old(cursor).wf(),
    ensures
        final(cursor).wf(),
        old(cursor).save_stack@.len() >= CURSOR_SAVE_CAPACITY ==> r == Err::<(), FatalUiError>(
            FatalUiError::CursorSaveOverflow,
        ) && *final(cursor) == *old(cursor),
        old(cursor).save_stack@.len() < CURSOR_SAVE_CAPACITY ==> r == Ok::<(), FatalUiError>(())
            && final(cursor).save_stack@ == old(cursor).save_stack@.push(
            (old(cursor).x, old(cursor).y),
        ) && final(cursor).x == old(cursor).x && final(cursor).y == old(cursor).y,
{
    if cursor.save_stack.len() >= CURSOR_SAVE_CAPACITY {
        return Err(FatalUiError::CursorSaveOverflow);
    }
    let pos: (i16, i16) = (cursor.x, cursor.y);
    cursor.save_stack.push(pos);
    Ok(())
}

/// Pops the most recently saved position and moves the cursor back to it;
/// restoring with nothing saved is a fatal composition error.
pub fn restore_cursor_position(cursor: &mut Cursor) -> (r: Result<(), FatalUiError>)
    requires
        old(cursor).wf(),
    ensures
        final(cursor).wf(),
        old(cursor).save_stack@.len() == 0 ==> r == Err::<(), FatalUiError>(
            FatalUiError::CursorSaveUnderflow,
        ) && *final(cursor) == *old(cursor),
        old(cursor).save_stack@.len() > 0 ==> r == Ok::<(), FatalUiError>(()) && final(cursor).save_stack@ == old(cursor).save_stack@.drop_last() && final(cursor).x == old(cursor).save_stack@.last().0 && final(cursor).y == old(cursor).save_stack@.last().1,
{
    if cursor.save_stack.len() == 0 {
        return Err(FatalUiError::CursorSaveUnderflow);
    }
    match cursor.save_stack.pop() {
        Some(saved) => {
            cursor.x = saved.0;
            cursor.y = saved.1;
            Ok(())
        },
        None => Err(FatalUiError::CursorSaveUnderflow),
    }
}

} // verus!
