//! The input box widget: a stateful single-line text editor over a
//! fixed-capacity character buffer.  The buffer holds a NUL-terminated
//! string by convention; its logical length is the index of the first NUL,
//! or the full capacity when none occurs.
//!
//! The widget is a three-state machine: idle (neither hot nor active), hot
//! (pointer over the box) and active (capturing input).  While active,
//! arrow keys move the cursor within the text, backspace removes the
//! character left of the cursor, a printable key inserts at the cursor, and
//! the confirm or cancel key pops the widget off the active stack and
//! reports the leave to the caller.

use vstd::prelude::*;
use crate::error::FatalUiError;
use crate::cursor::clamped;
use crate::input::{Input, ENTER_EDIT_KEY, VK_BACK, VK_ESCAPE, VK_LEFT, VK_RETURN, VK_RIGHT};
use crate::layout::{carve_pos, shrink_matches};
use crate::registry::{hot_after_draw, UiId, UiKind, ACTIVE_STACK_CAPACITY};
use crate::screen::{GridView, TerminalScreen};
use crate::UiContext;

verus! {

/// The fixed height of an input box: two border rows around one content
/// row.
pub const INPUT_STR_HEIGHT: usize = 3;

/// What an input box reports to its caller each frame: nothing, or that
/// the user left the box by confirming or by cancelling.
#[derive(Clone, Copy, PartialEq, Eq, Structural, Debug)]
pub enum InputBoxAction {
    NoAction,
    LeaveWithEnter,
    LeaveWithEscape,
}

/// The index of the first NUL at or after position `i` (but below
/// `max_len`), or `max_len` when there is none.
pub open spec fn buffer_len_from(s: Seq<char>, i: int, max_len: int) -> int
    decreases max_len - i,
{
    if i >= max_len {
        max_len
    } else if s[i] == '\0' {
        i
    } else {
        buffer_len_from(s, i + 1, max_len)
    }
}

/// The logical length of a NUL-terminated buffer: the index of its first
/// NUL, or `max_len` when every slot is in use.
pub open spec fn buffer_len_spec(s: Seq<char>, max_len: int) -> int {
    buffer_len_from(s, 0, max_len)
}

/// `buffer_len_from` stays between its start index and `max_len`, every
/// character before the reported length is not NUL, and the character at a
/// reported length short of `max_len` is NUL.
pub proof fn lemma_buffer_len_from_props(s: Seq<char>, i: int, max_len: int)
    requires
        0 <= i <= max_len,
    ensures
        i <= buffer_len_from(s, i, max_len) <= max_len,
        forall|j: int| i <= j < buffer_len_from(s, i, max_len) ==> s[j] != '\0',
        buffer_len_from(s, i, max_len) < max_len ==> s[buffer_len_from(s, i, max_len)] == '\0',
    decreases max_len - i,
{
    if i < max_len && s[i] != '\0' {
        lemma_buffer_len_from_props(s, i + 1, max_len);
    }
}

/// The logical length lies in `[0, max_len]`, no NUL occurs before it, and
/// when it is short of `max_len` a NUL sits exactly there.
pub proof fn lemma_buffer_len_spec_props(s: Seq<char>, max_len: int)
    requires
        0 <= max_len,
    ensures
        0 <= buffer_len_spec(s, max_len) <= max_len,
        forall|j: int| 0 <= j < buffer_len_spec(s, max_len) ==> s[j] != '\0',
        buffer_len_spec(s, max_len) < max_len ==> s[buffer_len_spec(s, max_len)] == '\0',
{
    lemma_buffer_len_from_props(s, 0, max_len);
}

/// Returns the logical length of the buffer: the index of the first NUL
/// among the first `max_len` slots, or `max_len` when none occurs.
pub fn str_buffer_len(str_buffer: &[char], max_len: usize) -> (r: usize)
    requires
        str_buffer@.len() >= max_len,
    ensures
        r == buffer_len_spec(str_buffer@, max_len as int),
{
    let mut i: usize = 0;
    while i < max_len
        invariant
            i <= max_len,
            max_len <= str_buffer@.len(),
            buffer_len_spec(str_buffer@, max_len as int) == buffer_len_from(
                str_buffer@,
                i as int,
                max_len as int,
            ),
            forall|j: int| 0 <= j < i ==> str_buffer@[j] != '\0',
        decreases max_len - i,
    {
        if str_buffer[i] == '\0' {
            return i;
        }
        i = i + 1;
    }
    max_len
}

/// The buffer after inserting `c` at logical position `p` of a string of
/// logical length `len`: the characters at and after `p` move one slot
/// right (the last mover lands on slot `len`), `c` lands on slot `p`, and
/// everything else stays.
pub open spec fn insert_at(s: Seq<char>, len: int, p: int, c: char) -> Seq<char> {
    Seq::new(
        s.len(),
        |j: int|
            if j < p {
                s[j]
            } else if j == p {
                c
            } else if j <= len {
                s[j - 1]
            } else {
                s[j]
            },
    )
}

/// The buffer after removing the character at logical position `p - 1` of
/// a string of logical length `len`: the characters from `p` on move one
/// slot left, slot `len - 1` is cleared to NUL, and everything else stays.
pub open spec fn remove_at(s: Seq<char>, len: int, p: int) -> Seq<char> {
    Seq::new(
        s.len(),
        |j: int|
            if p - 1 <= j < len - 1 {
                s[j + 1]
            } else if j == len - 1 {
                '\0'
            } else {
                s[j]
            },
    )
}

/// Whether a 16-bit code unit is a Unicode scalar value (not a surrogate).
pub open spec fn is_unicode_scalar_u16(u: u16) -> bool {
    u < 0xd800 || u >= 0xe000
}

/// The character with the given 16-bit scalar value.
pub open spec fn char_of(u: u16) -> char {
    choose|c: char| (#[trigger] (c as u32)) == u as u32
}

/// Two characters with the same scalar value are the same character.
proof fn lemma_char_cast_injective(a: char, b: char)
    requires
        a as u32 == b as u32,
    ensures
        a == b,
{
}

/// Relies on `char::from_u32` of core: it returns `Some` exactly for
/// Unicode scalar values (everything except surrogates and values above
/// the Unicode range), and the returned character has the given scalar
/// value.
#[verifier::external_body]
fn char_from_u16(u: u16) -> (r: Option<char>)
    ensures
        r is Some <==> is_unicode_scalar_u16(u),
        r matches Some(c) ==> c as u32 == u as u32,
{
    char::from_u32(u as u32)
}

/// The cursor's logical editing position inside the content row: its
/// offset from the box's left edge, clamped into `[0, len]`.
pub open spec fn edit_pos(cx: int, x: int, len: int) -> int {
    if cx < x {
        0
    } else if cx - x > len {
        len
    } else {
        cx - x
    }
}

/// The buffer after one input event reaches the active box: backspace
/// removes the character left of the editing position, a printable
/// character is inserted there when the buffer has room, and every other
/// event leaves the buffer alone.  A full buffer drops the keystroke, and
/// an empty backspace does nothing.
pub open spec fn edit_buffer_step(s: Seq<char>, max_len: int, inputs: Input, p: int, len: int) -> Seq<char> {
    if inputs.key_val == VK_LEFT || inputs.key_val == VK_RIGHT || inputs.key_val == VK_ESCAPE
        || inputs.key_val == VK_RETURN {
        s
    } else if inputs.key_val == VK_BACK {
        if p == 0 {
            s
        } else {
            remove_at(s, len, p)
        }
    } else if inputs.unicode_char != 0 {
        if len == max_len {
            s
        } else if is_unicode_scalar_u16(inputs.unicode_char) {
            insert_at(s, len, p, char_of(inputs.unicode_char))
        } else {
            s
        }
    } else {
        s
    }
}

/// The cursor column after one input event reaches the active box: the
/// arrows move within `[x, x + len]`, a removal or insertion drags the
/// cursor with it, and everything else leaves it alone.
pub open spec fn edit_cursor_x_step(
    cx: int,
    x: int,
    len: int,
    max_len: int,
    inputs: Input,
    p: int,
) -> int {
    if inputs.key_val == VK_LEFT {
        if cx > x {
            clamped(cx - 1)
        } else {
            cx
        }
    } else if inputs.key_val == VK_RIGHT {
        if cx < x + len {
            clamped(cx + 1)
        } else {
            cx
        }
    } else if inputs.key_val == VK_ESCAPE || inputs.key_val == VK_RETURN {
        cx
    } else if inputs.key_val == VK_BACK {
        if p == 0 {
            cx
        } else {
            clamped(cx - 1)
        }
    } else if inputs.unicode_char != 0 {
        if len == max_len {
            cx
        } else if is_unicode_scalar_u16(inputs.unicode_char) {
            clamped(cx + 1)
        } else {
            cx
        }
    } else {
        cx
    }
}

/// What the active box reports for one input event: the cancel key leaves
/// with escape, the confirm key leaves with enter, everything else stays.
pub open spec fn edit_action_step(inputs: Input) -> InputBoxAction {
    if inputs.key_val == VK_LEFT || inputs.key_val == VK_RIGHT {
        InputBoxAction::NoAction
    } else if inputs.key_val == VK_ESCAPE {
        InputBoxAction::LeaveWithEscape
    } else if inputs.key_val == VK_RETURN {
        InputBoxAction::LeaveWithEnter
    } else {
        InputBoxAction::NoAction
    }
}

/// A horizontal rule: `n` cells of `-` painted left to right from `(x, y)`.
pub open spec fn hrule(g: GridView, x: int, y: int, n: int, r: u8, gg: u8, b: u8) -> GridView
    decreases n,
{
    if n <= 0 {
        g
    } else {
        hrule(g, x, y, n - 1, r, gg, b).write_char('-', r, gg, b, x + n - 1, y)
    }
}

/// The box's full fixed-width frame: a border rule above and below, and
/// the buffer's characters in white on the content row between them.
pub open spec fn input_box_painted(
    g: GridView,
    content: Seq<char>,
    x: int,
    y: int,
    width: int,
    r: u8,
    gg: u8,
    b: u8,
) -> GridView {
    hrule(hrule(g, x, y, width, r, gg, b), x, y + 2, width, r, gg, b).write_string(
        content,
        255,
        255,
        255,
        x,
        y + 1,
    )
}

/// Shifts the characters in `[index - 1, len)` one slot right (so slot
/// `index - 1` is duplicated into slot `index` and the last character
/// lands on slot `len`), provided the string has room to grow; a full
/// buffer is left untouched.
fn shift_string_right_from_index(buffer: &mut Vec<char>, max_len: usize, index: usize)
    requires
        1 <= index < max_len,
        old(buffer)@.len() >= max_len,
    ensures
        final(buffer)@.len() == old(buffer)@.len(),
        ({
            let len = buffer_len_spec(old(buffer)@, max_len as int);
            if len < max_len {
                (forall|j: int| index <= j <= len ==> final(buffer)@[j] == old(buffer)@[j - 1])
                    && (forall|j: int|
                    0 <= j < old(buffer)@.len() && !(index <= j <= len) ==> final(buffer)@[j]
                        == old(buffer)@[j])
            } else {
                final(buffer)@ == old(buffer)@
            }
        }),
{
    let str_len: usize = str_buffer_len(buffer.as_slice(), max_len);
    proof {
        lemma_buffer_len_spec_props(buffer@, max_len as int);
    }
    if str_len < max_len && index <= str_len {
        let mut i: usize = str_len + 1;
        while i > index
            invariant
                index <= i <= str_len + 1,
                1 <= index,
                str_len < max_len,
                max_len <= buffer@.len(),
                buffer@.len() == old(buffer)@.len(),
                forall|j: int| i <= j <= str_len ==> buffer@[j] == old(buffer)@[j - 1],
                forall|j: int|
                    0 <= j < buffer@.len() && !(i <= j <= str_len) ==> buffer@[j] == old(
                        buffer,
                    )@[j],
            decreases i,
        {
            i = i - 1;
            let moved: char = buffer[i - 1];
            buffer[i] = moved;
        }
    }
}

/// Shifts the characters in `(index, len)` one slot left (overwriting slot
/// `index` onward) and clears slot `len - 1` to NUL.
fn shift_string_left_from_index(buffer: &mut Vec<char>, max_len: usize, index: usize)
    requires
        index < max_len,
        old(buffer)@.len() >= max_len,
        buffer_len_spec(old(buffer)@, max_len as int) > 0,
    ensures
        final(buffer)@.len() == old(buffer)@.len(),
        ({
            let len = buffer_len_spec(old(buffer)@, max_len as int);
            (forall|j: int| index <= j < len - 1 ==> final(buffer)@[j] == old(buffer)@[j + 1])
                && final(buffer)@[len - 1] == '\0' && (forall|j: int|
                0 <= j < old(buffer)@.len() && !(index <= j < len - 1) && j != len - 1
                    ==> final(buffer)@[j] == old(buffer)@[j])
        }),
{
    let str_len: usize = str_buffer_len(buffer.as_slice(), max_len);
    proof {
        lemma_buffer_len_spec_props(buffer@, max_len as int);
    }
    let mut i: usize = index;
    while i + 1 < str_len
        invariant
            index <= i,
            index < max_len,
            i < str_len || i == index,
            str_len == buffer_len_spec(old(buffer)@, max_len as int),
            0 < str_len <= max_len,
            max_len <= buffer@.len(),
            buffer@.len() == old(buffer)@.len(),
            forall|j: int| index <= j < i ==> buffer@[j] == old(buffer)@[j + 1],
            forall|j: int|
                0 <= j < buffer@.len() && !(index <= j < i) ==> buffer@[j] == old(buffer)@[j],
        decreases str_len - i,
    {
        let moved: char = buffer[i + 1];
        buffer[i] = moved;
        i = i + 1;
    }
    buffer[str_len - 1] = '\0';
}

/// A horizontal rule leaves a well-formed grid well formed, with its
/// dimensions and cell count unchanged.
pub proof fn lemma_hrule_dims(g: GridView, x: int, y: int, n: int, r: u8, gg: u8, b: u8)
    requires
        g.wf(),
    ensures
        hrule(g, x, y, n, r, gg, b).wf(),
        hrule(g, x, y, n, r, gg, b).width == g.width,
        hrule(g, x, y, n, r, gg, b).height == g.height,
        hrule(g, x, y, n, r, gg, b).cells.len() == g.cells.len(),
    decreases n,
{
    if n > 0 {
        lemma_hrule_dims(g, x, y, n - 1, r, gg, b);
        let prev = hrule(g, x, y, n - 1, r, gg, b);
        if prev.in_bounds(x + n - 1, y) {
            crate::screen::lemma_row_major_index(
                x + n - 1,
                y,
                prev.width as int,
                prev.height as int,
            );
        }
    }
}

/// Painting a whole input box frame leaves the grid's dimensions and cell
/// count alone.
pub proof fn lemma_input_box_painted_dims(
    g: GridView,
    content: Seq<char>,
    x: int,
    y: int,
    width: int,
    r: u8,
    gg: u8,
    b: u8,
)
    requires
        g.wf(),
    ensures
        input_box_painted(g, content, x, y, width, r, gg, b).wf(),
        input_box_painted(g, content, x, y, width, r, gg, b).width == g.width,
        input_box_painted(g, content, x, y, width, r, gg, b).height == g.height,
        input_box_painted(g, content, x, y, width, r, gg, b).cells.len() == g.cells.len(),
{
    lemma_hrule_dims(g, x, y, width, r, gg, b);
    lemma_hrule_dims(hrule(g, x, y, width, r, gg, b), x, y + 2, width, r, gg, b);
}

/// Paints the box's fixed-width frame into the back grid: the two border
/// rules in the given color, then the buffer's characters in white on the
/// row between them.
fn paint_input_box(
    back: &mut TerminalScreen,
    content: &Vec<char>,
    x: usize,
    y: usize,
    width: usize,
    r: u8,
    g: u8,
    b: u8,
)
    requires
        old(back).wf(),
        x + width <= 0x7fff,
        y + 2 <= 0x7fff,
    ensures
        final(back).wf(),
        final(back).width == old(back).width,
        final(back).height == old(back).height,
        final(back)@ == input_box_painted(
            old(back)@,
            content@,
            x as int,
            y as int,
            width as int,
            r,
            g,
            b,
        ),
{
    let mut i: usize = 0;
    while i < width
        invariant
            old(back).wf(),
            x + width <= 0x7fff,
            y + 2 <= 0x7fff,
            i <= width,
            back.wf(),
            back@ == hrule(old(back)@, x as int, y as int, i as int, r, g, b),
        decreases width - i,
    {
        crate::screen::write_char_at_pos(back, '-', r, g, b, (x + i) as i16, y as i16);
        i = i + 1;
    }
    let mut k: usize = 0;
    while k < width
        invariant
            old(back).wf(),
            x + width <= 0x7fff,
            y + 2 <= 0x7fff,
            k <= width,
            back.wf(),
            back@ == hrule(
                hrule(old(back)@, x as int, y as int, width as int, r, g, b),
                x as int,
                (y + 2) as int,
                k as int,
                r,
                g,
                b,
            ),
        decreases width - k,
    {
        crate::screen::write_char_at_pos(back, '-', r, g, b, (x + k) as i16, (y + 2) as i16);
        k = k + 1;
    }
    crate::screen::write_string_at_pos(
        back,
        content.as_slice(),
        255,
        255,
        255,
        x as i16,
        (y + 1) as i16,
    );
    proof {
        lemma_input_box_painted_dims(
            old(back)@,
            content@,
            x as int,
            y as int,
            width as int,
            r,
            g,
            b,
        );
    }
}

/// Runs the input box for one frame: allocates its rectangle from the
/// current layout, lets the active box edit its buffer and move the
/// cursor, activates a hot box on the enter-edit key, claims the hot slot
/// when the pointer ends up inside the rectangle, and repaints the box's
/// whole frame (relying on presentation's diffing to avoid redundant
/// terminal writes).  Reports a leave exactly when the confirm or cancel
/// key pops this box off the active stack.  Allocation failures and an
/// overfull active stack are fatal composition errors.
pub fn input_string_box(
    ctx: &mut UiContext,
    unique_id: usize,
    str_buffer: &mut Vec<char>,
    max_len: usize,
    inputs: &Input,
) -> (r: Result<InputBoxAction, FatalUiError>)
    requires
        old(ctx).wf(),
        old(str_buffer)@.len() >= max_len,
        max_len <= 0x7fff,
        old(ctx).layout.depth() > 0 ==> old(ctx).layout.top().fits_i16(),
    ensures
        final(ctx).wf(),
        final(str_buffer)@.len() == old(str_buffer)@.len(),
        // Active-stack balance: a reported leave happens only for the
        // confirm or cancel key while this widget tops the active stack —
        // put there by the one push that activated it — and pops exactly
        // that entry, leaving the stack one shorter.
        r == Ok::<InputBoxAction, FatalUiError>(InputBoxAction::LeaveWithEnter) || r == Ok::<
            InputBoxAction,
            FatalUiError,
        >(InputBoxAction::LeaveWithEscape) ==> old(ctx).active.is_active_spec(unique_id) && (
        inputs.key_val == VK_ESCAPE || inputs.key_val == VK_RETURN) && final(ctx).active.stack@
            == old(ctx).active.stack@.drop_last() && final(ctx).active.depth() == old(
            ctx,
        ).active.depth() - 1,
        r == Ok::<InputBoxAction, FatalUiError>(InputBoxAction::LeaveWithEnter)
            ==> inputs.key_val == VK_RETURN,
        r == Ok::<InputBoxAction, FatalUiError>(InputBoxAction::LeaveWithEscape)
            ==> inputs.key_val == VK_ESCAPE,
        old(ctx).layout.depth() == 0 ==> r == Err::<InputBoxAction, FatalUiError>(
            FatalUiError::LayoutStackUnderflow,
        ) && *final(ctx) == *old(ctx) && *final(str_buffer) == *old(str_buffer),
        old(ctx).layout.depth() > 0 && (old(ctx).layout.top().w < max_len || old(
            ctx,
        ).layout.top().h < INPUT_STR_HEIGHT) ==> r == Err::<InputBoxAction, FatalUiError>(
            FatalUiError::LayoutTooSmall,
        ) && *final(ctx) == *old(ctx) && *final(str_buffer) == *old(str_buffer),
        old(ctx).layout.depth() > 0 && old(ctx).layout.top().w >= max_len && old(
            ctx,
        ).layout.top().h >= INPUT_STR_HEIGHT ==> ({
            let top = old(ctx).layout.top();
            let pos = carve_pos(top, max_len as int, INPUT_STR_HEIGHT as int);
            let x = pos.0;
            let y = pos.1;
            let s0 = old(str_buffer)@;
            let len = buffer_len_spec(s0, max_len as int);
            let active0 = old(ctx).active.is_active_spec(unique_id);
            let hot0 = old(ctx).hot.index == unique_id;
            let cx0 = old(ctx).cursor.x as int;
            let cy0 = old(ctx).cursor.y as int;
            let p = edit_pos(cx0, x, len);
            let activation = !active0 && hot0 && inputs.key_val == ENTER_EDIT_KEY;
            &&& final(ctx).layout.depth() == old(ctx).layout.depth()
            &&& final(ctx).layout.stack@.drop_last() == old(ctx).layout.stack@.drop_last()
            &&& shrink_matches(top, max_len as int, INPUT_STR_HEIGHT as int, final(ctx).layout.top())
            &&& final(ctx).front == old(ctx).front
            &&& if activation && old(ctx).active.depth() >= ACTIVE_STACK_CAPACITY {
                &&& r == Err::<InputBoxAction, FatalUiError>(FatalUiError::ActiveStackOverflow)
                &&& *final(str_buffer) == *old(str_buffer)
                &&& final(ctx).cursor == old(ctx).cursor
                &&& final(ctx).active == old(ctx).active
                &&& final(ctx).hot == old(ctx).hot
                &&& final(ctx).back == old(ctx).back
            } else {
                let s1 = if active0 {
                    edit_buffer_step(s0, max_len as int, *inputs, p, len)
                } else {
                    s0
                };
                let cx1 = if active0 {
                    edit_cursor_x_step(cx0, x, len, max_len as int, *inputs, p)
                } else if activation {
                    x + len
                } else {
                    cx0
                };
                let cy1 = if activation {
                    y + 1
                } else {
                    cy0
                };
                let action = if active0 {
                    edit_action_step(*inputs)
                } else {
                    InputBoxAction::NoAction
                };
                let leave = active0 && (inputs.key_val == VK_ESCAPE || inputs.key_val
                    == VK_RETURN);
                let hit = x <= cx1 < x + max_len && y <= cy1 < y + INPUT_STR_HEIGHT;
                let border = if active0 {
                    (154u8, 205u8, 50u8)
                } else if hot0 {
                    (255u8, 255u8, 0u8)
                } else {
                    (255u8, 255u8, 255u8)
                };
                &&& r == Ok::<InputBoxAction, FatalUiError>(action)
                &&& final(str_buffer)@ == s1
                &&& final(ctx).cursor.x == cx1
                &&& final(ctx).cursor.y == cy1
                &&& final(ctx).cursor.save_stack@ == old(ctx).cursor.save_stack@
                &&& final(ctx).active.stack@ == (if leave {
                    old(ctx).active.stack@.drop_last()
                } else if activation {
                    old(ctx).active.stack@.push(old(ctx).hot)
                } else {
                    old(ctx).active.stack@
                })
                &&& final(ctx).hot == hot_after_draw(old(ctx).hot, hit, UiKind::InputText, unique_id)
                &&& final(ctx).back@ == input_box_painted(
                    old(ctx).back@,
                    s1,
                    x,
                    y,
                    max_len as int,
                    border.0,
                    border.1,
                    border.2,
                )
            }
        }),
{
    let xy: (usize, usize) = match crate::layout::get_xy_with_current_layout(
        &mut ctx.layout,
        max_len,
        INPUT_STR_HEIGHT,
    ) {
        Ok(xy) => xy,
        Err(e) => {
            return Err(e);
        },
    };
    let x: usize = xy.0;
    let y: usize = xy.1;
    proof {
        assert(x + max_len <= 0x7fff);
        assert(y + INPUT_STR_HEIGHT <= 0x7fff);
    }
    let mut border_r: u8 = 255;
    let mut border_g: u8 = 255;
    let mut border_b: u8 = 255;
    let mut result: InputBoxAction = InputBoxAction::NoAction;
    let str_len: usize = str_buffer_len(str_buffer.as_slice(), max_len);
    proof {
        lemma_buffer_len_spec_props(str_buffer@, max_len as int);
    }
    let is_act: bool = crate::registry::is_active(&ctx.active, unique_id);
    let is_hot_w: bool = crate::registry::is_hot(&ctx.hot, unique_id);
    if is_act {
        border_r = 154;
        border_g = 205;
        border_b = 50;
        if inputs.key_val == VK_LEFT {
            if ctx.cursor.x as usize > x {
                crate::cursor::move_cursor(&mut ctx.cursor, -1, 0);
            }
        } else if inputs.key_val == VK_RIGHT {
            if (ctx.cursor.x as usize) < x + str_len {
                crate::cursor::move_cursor(&mut ctx.cursor, 1, 0);
            }
        } else if inputs.key_val == VK_ESCAPE {
            let _popped = crate::registry::pop_active(&mut ctx.active);
            result = InputBoxAction::LeaveWithEscape;
        } else if inputs.key_val == VK_RETURN {
            let _popped = crate::registry::pop_active(&mut ctx.active);
            result = InputBoxAction::LeaveWithEnter;
        } else if inputs.key_val == VK_BACK {
            let cx: usize = ctx.cursor.x as usize;
            let p: usize = if cx < x {
                0
            } else if cx - x > str_len {
                str_len
            } else {
                cx - x
            };
            if p > 0 {
                shift_string_left_from_index(str_buffer, max_len, p - 1);
                crate::cursor::move_cursor(&mut ctx.cursor, -1, 0);
                proof {
                    assert(str_buffer@ =~= remove_at(
                        old(str_buffer)@,
                        str_len as int,
                        p as int,
                    ));
                }
            }
        } else if inputs.unicode_char != 0 {
            if str_len < max_len {
                match char_from_u16(inputs.unicode_char) {
                    Some(c) => {
                        let cx: usize = ctx.cursor.x as usize;
                        let p: usize = if cx < x {
                            0
                        } else if cx - x > str_len {
                            str_len
                        } else {
                            cx - x
                        };
                        if p == 0 {
                            if max_len > 1 {
                                shift_string_right_from_index(str_buffer, max_len, 1);
                            }
                        } else {
                            shift_string_right_from_index(str_buffer, max_len, p);
                        }
                        str_buffer[p] = c;
                        crate::cursor::move_cursor(&mut ctx.cursor, 1, 0);
                        proof {
                            assert(char_of(inputs.unicode_char) as u32 == inputs.unicode_char
                                as u32) by {
                                assert(exists|c2: char|
                                    (#[trigger] (c2 as u32)) == inputs.unicode_char as u32) by {
                                    assert((c as u32) == inputs.unicode_char as u32);
                                }
                            }
                            lemma_char_cast_injective(c, char_of(inputs.unicode_char));
                            assert(c == char_of(inputs.unicode_char));
                            assert(str_buffer@ =~= insert_at(
                                old(str_buffer)@,
                                str_len as int,
                                p as int,
                                c,
                            ));
                        }
                    },
                    None => {
                    },
                }
            }
        }
    } else if is_hot_w {
        if inputs.key_val == ENTER_EDIT_KEY {
            let hot_id: UiId = ctx.hot;
            match crate::registry::push_active(&mut ctx.active, hot_id) {
                Ok(_) => {},
                Err(e) => {
                    return Err(e);
                },
            }
            crate::cursor::set_cursor_to(&mut ctx.cursor, (x + str_len) as i16, (y + 1) as i16);
        }
        border_r = 255;
        border_g = 255;
        border_b = 0;
    }
    if crate::registry::inside(&ctx.cursor, x, y, max_len, INPUT_STR_HEIGHT) {
        ctx.hot = UiId { owner: ctx.hot.index, item: UiKind::InputText, index: unique_id };
    }
    paint_input_box(&mut ctx.back, str_buffer, x, y, max_len, border_r, border_g, border_b);
    Ok(result)
}

} // verus!
