//! One keyboard input event, as the platform driver hands it over, and the
//! key codes the engine reacts to.

use vstd::prelude::*;

verus! {

/// The BACKSPACE key.
pub const VK_BACK: u16 = 0x08;

/// The ENTER key, which commits an input box's text.
pub const VK_RETURN: u16 = 0x0d;

/// The ESC key, which cancels editing.
pub const VK_ESCAPE: u16 = 0x1b;

/// The LEFT ARROW key.
pub const VK_LEFT: u16 = 0x25;

/// The UP ARROW key.
pub const VK_UP: u16 = 0x26;

/// The RIGHT ARROW key.
pub const VK_RIGHT: u16 = 0x27;

/// The DOWN ARROW key.
pub const VK_DOWN: u16 = 0x28;

/// The key that activates editing on the hot input box.
pub const ENTER_EDIT_KEY: u16 = 0x41;

/// The key that, together with the left ALT modifier, quits the frame loop.
pub const QUIT_KEY_ALT: u16 = 0x51;

/// The key that, together with the left CTRL modifier, quits the frame loop.
pub const QUIT_KEY_CTRL: u16 = 0x43;

/// One input event: the pressed key's code, the character it produced (zero
/// when none), and the modifier state.
#[derive(Clone, Copy, PartialEq, Eq, Structural, Debug)]
pub struct Input {
    pub unicode_char: u16,
    pub key_val: u16,
    pub caps_lock_on: bool,
    pub enhanced_key: bool,
    pub left_alt_pressed: bool,
    pub left_ctrl_pressed: bool,
    pub num_lock_on: bool,
    pub right_alt_pressed: bool,
    pub right_ctrl_pressed: bool,
    pub scroll_lock_on: bool,
    pub shift_pressed: bool,
}

impl Input {
    /// An event reporting no key and no character.
    pub open spec fn empty_spec() -> Input {
        Input {
            unicode_char: 0,
            key_val: 0,
            caps_lock_on: false,
            enhanced_key: false,
            left_alt_pressed: false,
            left_ctrl_pressed: false,
            num_lock_on: false,
            right_alt_pressed: false,
            right_ctrl_pressed: false,
            scroll_lock_on: false,
            shift_pressed: false,
        }
    }

    /// An event reporting no key and no character.
    pub fn empty() -> (r: Input)
        ensures
            r == Input::empty_spec(),
    {
        Input {
            unicode_char: 0,
            key_val: 0,
            caps_lock_on: false,
            enhanced_key: false,
            left_alt_pressed: false,
            left_ctrl_pressed: false,
            num_lock_on: false,
            right_alt_pressed: false,
            right_ctrl_pressed: false,
            scroll_lock_on: false,
            shift_pressed: false,
        }
    }
}

/// The event class of a platform input record that carries a keystroke.
pub const KEY_EVENT: u16 = 0x0001;

pub const CAPSLOCK_ON: u32 = 0x0080;

pub const ENHANCED_KEY: u32 = 0x0100;

pub const LEFT_ALT_PRESSED: u32 = 0x0002;

pub const LEFT_CTRL_PRESSED: u32 = 0x0008;

pub const NUMLOCK_ON: u32 = 0x0020;

pub const RIGHT_ALT_PRESSED: u32 = 0x0001;

pub const RIGHT_CTRL_PRESSED: u32 = 0x0004;

pub const SCROLLLOCK_ON: u32 = 0x0040;

pub const SHIFT_PRESSED: u32 = 0x0010;

/// The input event a raw platform record decodes to: a key-down keystroke
/// record carries its character, key code and modifier state (a
/// control-state word equal to exactly one modifier constant marks that
/// modifier); every other record — key releases, focus, menu, mouse and
/// window events — decodes to the empty event.
pub open spec fn decoded_key_event(
    event_type: u16,
    key_down: bool,
    key_code: u16,
    unicode_char: u16,
    control_state: u32,
) -> Input {
    if event_type == KEY_EVENT && key_down {
        Input {
            unicode_char,
            key_val: key_code,
            caps_lock_on: control_state == CAPSLOCK_ON,
            enhanced_key: control_state == ENHANCED_KEY,
            left_alt_pressed: control_state == LEFT_ALT_PRESSED,
            left_ctrl_pressed: control_state == LEFT_CTRL_PRESSED,
            num_lock_on: control_state == NUMLOCK_ON,
            right_alt_pressed: control_state == RIGHT_ALT_PRESSED,
            right_ctrl_pressed: control_state == RIGHT_CTRL_PRESSED,
            scroll_lock_on: control_state == SCROLLLOCK_ON,
            shift_pressed: control_state == SHIFT_PRESSED,
        }
    } else {
        Input::empty_spec()
    }
}

/// Decodes one raw platform input record into the engine's input event.
pub fn decode_key_event(
    event_type: u16,
    key_down: bool,
    key_code: u16,
    unicode_char: u16,
    control_state: u32,
) -> (r: Input)
    ensures
        r == decoded_key_event(event_type, key_down, key_code, unicode_char, control_state),
{
    if event_type == KEY_EVENT && key_down {
        Input {
            unicode_char,
            key_val: key_code,
            caps_lock_on: control_state == CAPSLOCK_ON,
            enhanced_key: control_state == ENHANCED_KEY,
            left_alt_pressed: control_state == LEFT_ALT_PRESSED,
            left_ctrl_pressed: control_state == LEFT_CTRL_PRESSED,
            num_lock_on: control_state == NUMLOCK_ON,
            right_alt_pressed: control_state == RIGHT_ALT_PRESSED,
            right_ctrl_pressed: control_state == RIGHT_CTRL_PRESSED,
            scroll_lock_on: control_state == SCROLLLOCK_ON,
            shift_pressed: control_state == SHIFT_PRESSED,
        }
    } else {
        Input::empty()
    }
}

/// Whether this event is the designated quit chord.
pub open spec fn quit_requested(inputs: Input) -> bool {
    (inputs.key_val == QUIT_KEY_ALT && inputs.left_alt_pressed) || (inputs.key_val == QUIT_KEY_CTRL
        && inputs.left_ctrl_pressed)
}

/// Tests for the quit chord; the frame loop checks this before widget
/// dispatch so quitting always takes priority.
pub fn should_quit(inputs: &Input) -> (r: bool)
    ensures
        r == quit_requested(*inputs),
{
    if inputs.key_val == QUIT_KEY_ALT && inputs.left_alt_pressed {
        return true;
    }
    if inputs.key_val == QUIT_KEY_CTRL && inputs.left_ctrl_pressed {
        return true;
    }
    false
}

} // verus!
