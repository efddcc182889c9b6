use para::error::FatalUiError;
use para::input::{
    decode_key_event, should_quit, Input, ENTER_EDIT_KEY, KEY_EVENT, LEFT_ALT_PRESSED, VK_BACK,
    VK_DOWN, VK_ESCAPE, VK_LEFT, VK_RETURN, VK_RIGHT, VK_UP,
};
use para::input_box::{input_string_box, str_buffer_len, InputBoxAction};
use para::layout::{push_layout, Flow, UiLayout};
use para::registry::{is_active, is_hot, pop_active, push_active, UiId, UiKind};
use para::cursor::{
    get_cursor_position, move_cursor, restore_cursor_position, save_cursor_position, set_cursor_to,
};
use para::frame::move_cursor_with_arrows;
use para::widgets::{output_string_box, ui_box};
use para::{new_ui_context, UiContext};

fn no_input() -> Input {
    Input {
        unicode_char: 0,
        key_val: 0,
        caps_lock_on: false,
        enhanced_key: false,
        left_alt_pressed: false,
        left_ctrl_pressed: false,
        num_lock_on: false,
        right_alt_pressed: false,
        right_ctrl_pressed: false,
        scroll_lock_on: false,
        shift_pressed: false,
    }
}

fn key(k: u16) -> Input {
    Input { key_val: k, ..no_input() }
}

fn typed(c: char) -> Input {
    Input { unicode_char: c as u16, ..no_input() }
}

fn id(index: usize) -> UiId {
    UiId { owner: 0, item: UiKind::InputText, index }
}

fn fresh_ctx() -> UiContext {
    let mut ctx = new_ui_context(40, 12);
    push_layout(
        &mut ctx.layout,
        UiLayout { x: 0, y: 0, w: 40, h: 12, flow: Flow::UpperLeftFlowDown },
    )
    .unwrap();
    ctx
}

fn cell_char(ctx: &UiContext, x: usize, y: usize) -> char {
    ctx.back.buffer[x + y * ctx.back.width].character
}

#[test]
fn str_buffer_len_finds_first_nul() {
    let buffer: Vec<char> = vec!['a', 'b', '\0', '\0', '\0'];
    assert_eq!(str_buffer_len(&buffer, 5), 2);
    let full: Vec<char> = vec!['a', 'b', 'c', 'd', 'e'];
    assert_eq!(str_buffer_len(&full, 5), 5);
    let empty: Vec<char> = vec!['\0', '\0'];
    assert_eq!(str_buffer_len(&empty, 2), 0);
}

#[test]
fn typing_inserts_at_cursor() {
    // Buffer "ab", cursor at logical position 2: typing 'c' appends it and
    // advances the cursor.
    let mut ctx = fresh_ctx();
    push_active(&mut ctx.active, id(7)).unwrap();
    set_cursor_to(&mut ctx.cursor, 2, 1);
    let mut buffer: Vec<char> = vec!['a', 'b', '\0', '\0', '\0'];
    let r = input_string_box(&mut ctx, 7, &mut buffer, 5, &typed('c'));
    assert_eq!(r, Ok(InputBoxAction::NoAction));
    assert_eq!(buffer, vec!['a', 'b', 'c', '\0', '\0']);
    assert_eq!(get_cursor_position(&ctx.cursor).0, 3);
}

#[test]
fn typing_in_the_middle_shifts_right() {
    let mut ctx = fresh_ctx();
    push_active(&mut ctx.active, id(7)).unwrap();
    set_cursor_to(&mut ctx.cursor, 1, 1);
    let mut buffer: Vec<char> = vec!['a', 'b', '\0', '\0', '\0'];
    let r = input_string_box(&mut ctx, 7, &mut buffer, 5, &typed('x'));
    assert_eq!(r, Ok(InputBoxAction::NoAction));
    assert_eq!(buffer, vec!['a', 'x', 'b', '\0', '\0']);
    assert_eq!(get_cursor_position(&ctx.cursor).0, 2);
}

#[test]
fn backspace_removes_left_of_cursor() {
    let mut ctx = fresh_ctx();
    push_active(&mut ctx.active, id(7)).unwrap();
    set_cursor_to(&mut ctx.cursor, 3, 1);
    let mut buffer: Vec<char> = vec!['a', 'b', 'c', '\0', '\0'];
    let r = input_string_box(&mut ctx, 7, &mut buffer, 5, &key(VK_BACK));
    assert_eq!(r, Ok(InputBoxAction::NoAction));
    assert_eq!(buffer, vec!['a', 'b', '\0', '\0', '\0']);
    assert_eq!(get_cursor_position(&ctx.cursor).0, 2);
}

#[test]
fn backspace_at_start_does_nothing() {
    let mut ctx = fresh_ctx();
    push_active(&mut ctx.active, id(7)).unwrap();
    set_cursor_to(&mut ctx.cursor, 0, 1);
    let mut buffer: Vec<char> = vec!['a', 'b', '\0', '\0', '\0'];
    let r = input_string_box(&mut ctx, 7, &mut buffer, 5, &key(VK_BACK));
    assert_eq!(r, Ok(InputBoxAction::NoAction));
    assert_eq!(buffer, vec!['a', 'b', '\0', '\0', '\0']);
    assert_eq!(get_cursor_position(&ctx.cursor).0, 0);
}

#[test]
fn typing_at_full_buffer_is_dropped() {
    let mut ctx = fresh_ctx();
    push_active(&mut ctx.active, id(7)).unwrap();
    set_cursor_to(&mut ctx.cursor, 5, 1);
    let mut buffer: Vec<char> = vec!['a', 'b', 'c', 'd', 'e'];
    let r = input_string_box(&mut ctx, 7, &mut buffer, 5, &typed('x'));
    assert_eq!(r, Ok(InputBoxAction::NoAction));
    assert_eq!(buffer, vec!['a', 'b', 'c', 'd', 'e']);
    assert_eq!(get_cursor_position(&ctx.cursor).0, 5);
}

#[test]
fn arrows_stay_within_text_bounds() {
    let mut ctx = fresh_ctx();
    push_active(&mut ctx.active, id(7)).unwrap();
    set_cursor_to(&mut ctx.cursor, 0, 1);
    let mut buffer: Vec<char> = vec!['a', 'b', '\0', '\0', '\0'];
    let _ = input_string_box(&mut ctx, 7, &mut buffer, 5, &key(VK_LEFT));
    assert_eq!(get_cursor_position(&ctx.cursor).0, 0);
    let _ = input_string_box(&mut ctx, 7, &mut buffer, 5, &key(VK_RIGHT));
    assert_eq!(get_cursor_position(&ctx.cursor).0, 1);
    let _ = input_string_box(&mut ctx, 7, &mut buffer, 5, &key(VK_RIGHT));
    let _ = input_string_box(&mut ctx, 7, &mut buffer, 5, &key(VK_RIGHT));
    // The cursor cannot pass the end of the two-character text.
    assert_eq!(get_cursor_position(&ctx.cursor).0, 2);
}

#[test]
fn enter_pops_active_and_reports_leave() {
    // Leaving with the confirm key is preceded by exactly the one push
    // that activated the box; the pop leaves the stack one shorter.
    let mut ctx = fresh_ctx();
    push_active(&mut ctx.active, id(7)).unwrap();
    assert_eq!(ctx.active.stack.len(), 1);
    let mut buffer: Vec<char> = vec!['a', '\0', '\0', '\0', '\0'];
    let r = input_string_box(&mut ctx, 7, &mut buffer, 5, &key(VK_RETURN));
    assert_eq!(r, Ok(InputBoxAction::LeaveWithEnter));
    assert_eq!(ctx.active.stack.len(), 0);
    // The committed text survives.
    assert_eq!(buffer, vec!['a', '\0', '\0', '\0', '\0']);
}

#[test]
fn escape_pops_active_and_reports_leave() {
    let mut ctx = fresh_ctx();
    push_active(&mut ctx.active, id(7)).unwrap();
    let mut buffer: Vec<char> = vec!['a', '\0', '\0', '\0', '\0'];
    let r = input_string_box(&mut ctx, 7, &mut buffer, 5, &key(VK_ESCAPE));
    assert_eq!(r, Ok(InputBoxAction::LeaveWithEscape));
    assert_eq!(ctx.active.stack.len(), 0);
}

#[test]
fn enter_edit_key_activates_hot_box() {
    let mut ctx = fresh_ctx();
    // The pointer sits inside the box's rectangle; a previous frame made
    // the box hot.
    set_cursor_to(&mut ctx.cursor, 1, 1);
    ctx.hot = UiId { owner: 0, item: UiKind::InputText, index: 7 };
    let mut buffer: Vec<char> = vec!['a', 'b', '\0', '\0', '\0'];
    let r = input_string_box(&mut ctx, 7, &mut buffer, 5, &key(ENTER_EDIT_KEY));
    assert_eq!(r, Ok(InputBoxAction::NoAction));
    assert!(is_active(&ctx.active, 7));
    // The cursor jumped to the end of the text on the content row.
    assert_eq!(get_cursor_position(&ctx.cursor), (2, 1));
}

#[test]
fn activation_overflow_is_fatal() {
    let mut ctx = fresh_ctx();
    for i in 0..8 {
        push_active(&mut ctx.active, id(100 + i)).unwrap();
    }
    set_cursor_to(&mut ctx.cursor, 1, 1);
    ctx.hot = UiId { owner: 0, item: UiKind::InputText, index: 7 };
    let mut buffer: Vec<char> = vec!['\0'; 5];
    let r = input_string_box(&mut ctx, 7, &mut buffer, 5, &key(ENTER_EDIT_KEY));
    assert_eq!(r, Err(FatalUiError::ActiveStackOverflow));
}

#[test]
fn input_box_paints_frame_and_text() {
    let mut ctx = fresh_ctx();
    let mut buffer: Vec<char> = vec!['h', 'i', '\0', '\0', '\0'];
    let r = input_string_box(&mut ctx, 7, &mut buffer, 5, &no_input());
    assert_eq!(r, Ok(InputBoxAction::NoAction));
    for i in 0..5 {
        assert_eq!(cell_char(&ctx, i, 0), '-');
        assert_eq!(cell_char(&ctx, i, 2), '-');
    }
    assert_eq!(cell_char(&ctx, 0, 1), 'h');
    assert_eq!(cell_char(&ctx, 1, 1), 'i');
    assert_eq!(cell_char(&ctx, 2, 1), '\0');
}

#[test]
fn active_box_paints_green_border() {
    let mut ctx = fresh_ctx();
    push_active(&mut ctx.active, id(7)).unwrap();
    let mut buffer: Vec<char> = vec!['\0'; 5];
    let _ = input_string_box(&mut ctx, 7, &mut buffer, 5, &no_input());
    let border = ctx.back.buffer[0];
    assert_eq!(border.character, '-');
    assert_eq!((border.r, border.g, border.b), (154, 205, 50));
}

#[test]
fn input_box_without_layout_is_fatal() {
    let mut ctx = new_ui_context(40, 12);
    let mut buffer: Vec<char> = vec!['\0'; 5];
    let r = input_string_box(&mut ctx, 7, &mut buffer, 5, &no_input());
    assert_eq!(r, Err(FatalUiError::LayoutStackUnderflow));
}

#[test]
fn last_drawn_widget_under_pointer_wins_hot() {
    let mut ctx = fresh_ctx();
    set_cursor_to(&mut ctx.cursor, 0, 0);
    let text: Vec<char> = vec!['\0'; 4];
    // Both widgets' rectangles contain the pointer: the root layout flows
    // downward, but the pointer row 0 lies only in the first rectangle, so
    // park the pointer where both land by drawing at the same rect.
    output_string_box(&mut ctx, 21, &text, 4).unwrap();
    assert!(is_hot(&ctx.hot, 21));
    assert_eq!(ctx.hot.item, UiKind::OutputText);
    // A box drawn later over the same cell overwrites the hot slot and
    // records the previous occupant as owner.
    let mut rect = UiLayout { x: 0, y: 0, w: 4, h: 2, flow: Flow::UpperLeftFlowRight };
    ui_box(&mut ctx, 22, &mut rect, &no_input());
    assert!(is_hot(&ctx.hot, 22));
    assert_eq!(ctx.hot.item, UiKind::BoxWidget);
    assert_eq!(ctx.hot.owner, 21);
    assert_eq!((rect.x, rect.y, rect.w, rect.h), (1, 1, 3, 1));
}

#[test]
fn hot_assignment_is_deterministic() {
    // Re-running the same frame twice from the same state yields the same
    // hot id.
    let run = || {
        let mut ctx = fresh_ctx();
        set_cursor_to(&mut ctx.cursor, 2, 0);
        let text: Vec<char> = vec!['\0'; 6];
        output_string_box(&mut ctx, 31, &text, 6).unwrap();
        let mut buffer: Vec<char> = vec!['\0'; 6];
        input_string_box(&mut ctx, 32, &mut buffer, 6, &no_input()).unwrap();
        ctx.hot
    };
    let first = run();
    let second = run();
    assert_eq!(first, second);
    // Only the output box's row contains the pointer, so it is hot.
    assert_eq!(first.index, 31);
}

#[test]
fn output_box_paints_and_claims_hot() {
    let mut ctx = fresh_ctx();
    set_cursor_to(&mut ctx.cursor, 1, 0);
    let text: Vec<char> = vec!['o', 'k', '\0'];
    output_string_box(&mut ctx, 9, &text, 3).unwrap();
    assert_eq!(cell_char(&ctx, 0, 0), 'o');
    assert_eq!(cell_char(&ctx, 1, 0), 'k');
    assert!(is_hot(&ctx.hot, 9));
}

#[test]
fn pointer_outside_leaves_hot_alone() {
    let mut ctx = fresh_ctx();
    set_cursor_to(&mut ctx.cursor, 30, 11);
    let text: Vec<char> = vec!['o', 'k', '\0'];
    output_string_box(&mut ctx, 9, &text, 3).unwrap();
    assert!(!is_hot(&ctx.hot, 9));
    assert_eq!(ctx.hot.item, UiKind::NoWidget);
}

#[test]
fn active_stack_is_lifo_with_fatal_bounds() {
    let mut ctx = new_ui_context(10, 5);
    assert_eq!(pop_active(&mut ctx.active), Err(FatalUiError::ActiveStackUnderflow));
    for i in 0..8 {
        push_active(&mut ctx.active, id(i)).unwrap();
    }
    assert_eq!(push_active(&mut ctx.active, id(99)), Err(FatalUiError::ActiveStackOverflow));
    assert_eq!(pop_active(&mut ctx.active).map(|p| p.index), Ok(7));
    assert_eq!(pop_active(&mut ctx.active).map(|p| p.index), Ok(6));
}

#[test]
fn cursor_save_restore_round_trip() {
    let mut ctx = new_ui_context(10, 5);
    assert_eq!(
        restore_cursor_position(&mut ctx.cursor),
        Err(FatalUiError::CursorSaveUnderflow)
    );
    set_cursor_to(&mut ctx.cursor, 4, 2);
    save_cursor_position(&mut ctx.cursor).unwrap();
    move_cursor(&mut ctx.cursor, 3, -1);
    assert_eq!(get_cursor_position(&ctx.cursor), (7, 1));
    restore_cursor_position(&mut ctx.cursor).unwrap();
    assert_eq!(get_cursor_position(&ctx.cursor), (4, 2));
    for _ in 0..8 {
        save_cursor_position(&mut ctx.cursor).unwrap();
    }
    assert_eq!(save_cursor_position(&mut ctx.cursor), Err(FatalUiError::CursorSaveOverflow));
}

#[test]
fn cursor_clamps_at_origin() {
    let mut ctx = new_ui_context(10, 5);
    move_cursor(&mut ctx.cursor, -4, -4);
    assert_eq!(get_cursor_position(&ctx.cursor), (0, 0));
    set_cursor_to(&mut ctx.cursor, -3, 2);
    assert_eq!(get_cursor_position(&ctx.cursor), (0, 2));
}

#[test]
fn arrow_keys_move_pointer_only_when_nothing_is_active() {
    let mut ctx = new_ui_context(10, 5);
    set_cursor_to(&mut ctx.cursor, 2, 2);
    move_cursor_with_arrows(&mut ctx, &key(VK_RIGHT));
    move_cursor_with_arrows(&mut ctx, &key(VK_DOWN));
    assert_eq!(get_cursor_position(&ctx.cursor), (3, 3));
    move_cursor_with_arrows(&mut ctx, &key(VK_UP));
    move_cursor_with_arrows(&mut ctx, &key(VK_LEFT));
    assert_eq!(get_cursor_position(&ctx.cursor), (2, 2));
    push_active(&mut ctx.active, id(1)).unwrap();
    move_cursor_with_arrows(&mut ctx, &key(VK_RIGHT));
    assert_eq!(get_cursor_position(&ctx.cursor), (2, 2));
}

#[test]
fn edit_session_walks_the_state_machine() {
    // One widget over several frames: idle, then hot under the pointer,
    // then activated, edited, and committed.
    let mut ctx = new_ui_context(40, 12);
    let mut buffer: Vec<char> = vec!['\0'; 5];
    set_cursor_to(&mut ctx.cursor, 1, 1);
    let mut frame = |ctx: &mut UiContext, buffer: &mut Vec<char>, event: Input| {
        push_layout(
            &mut ctx.layout,
            UiLayout { x: 0, y: 0, w: 40, h: 12, flow: Flow::UpperLeftFlowDown },
        )
        .unwrap();
        let r = input_string_box(ctx, 7, buffer, 5, &event).unwrap();
        para::layout::pop_layout(&mut ctx.layout).unwrap();
        r
    };
    // Drawing with the pointer inside makes the box hot.
    assert_eq!(frame(&mut ctx, &mut buffer, no_input()), InputBoxAction::NoAction);
    assert!(is_hot(&ctx.hot, 7));
    assert!(!is_active(&ctx.active, 7));
    // The enter-edit keypress activates it without inserting its letter.
    let activate = Input { unicode_char: 'a' as u16, ..key(ENTER_EDIT_KEY) };
    assert_eq!(frame(&mut ctx, &mut buffer, activate), InputBoxAction::NoAction);
    assert!(is_active(&ctx.active, 7));
    assert_eq!(buffer, vec!['\0'; 5]);
    assert_eq!(get_cursor_position(&ctx.cursor), (0, 1));
    // Two keystrokes land in the buffer.
    assert_eq!(frame(&mut ctx, &mut buffer, typed('h')), InputBoxAction::NoAction);
    assert_eq!(frame(&mut ctx, &mut buffer, typed('i')), InputBoxAction::NoAction);
    assert_eq!(buffer, vec!['h', 'i', '\0', '\0', '\0']);
    assert_eq!(get_cursor_position(&ctx.cursor).0, 2);
    // Confirming reports the leave exactly once and deactivates the box.
    assert_eq!(frame(&mut ctx, &mut buffer, key(VK_RETURN)), InputBoxAction::LeaveWithEnter);
    assert!(!is_active(&ctx.active, 7));
    assert_eq!(buffer, vec!['h', 'i', '\0', '\0', '\0']);
}

#[test]
fn widget_id_blocks_never_collide() {
    let mut ids = para::registry::new_widget_id_allocator();
    let first = para::registry::allocate_widget_ids(&mut ids, 5);
    let second = para::registry::allocate_widget_ids(&mut ids, 5);
    assert_eq!(first, 0);
    assert_eq!(second, 5);
    // Every id of the first call site's block differs from every id of
    // the second's, and offsets within a block stay distinct.
    for i in 0..5 {
        for j in 0..5 {
            assert_ne!(first + i, second + j);
            if i != j {
                assert_ne!(first + i, first + j);
            }
        }
    }
}

#[test]
fn key_records_decode_to_events() {
    let press = decode_key_event(KEY_EVENT, true, 0x51, 'q' as u16, LEFT_ALT_PRESSED);
    assert_eq!(press.key_val, 0x51);
    assert_eq!(press.unicode_char, 'q' as u16);
    assert!(press.left_alt_pressed);
    assert!(!press.left_ctrl_pressed);
    assert!(should_quit(&press));
    // A key release carries nothing.
    let release = decode_key_event(KEY_EVENT, false, 0x51, 'q' as u16, 0);
    assert_eq!(release, no_input());
    // A mouse record decodes to the empty event.
    let mouse = decode_key_event(0x0002, true, 0, 0, 0);
    assert_eq!(mouse, no_input());
}

#[test]
fn quit_chord_takes_modifiers() {
    assert!(!should_quit(&key(0x51)));
    assert!(should_quit(&Input { key_val: 0x51, left_alt_pressed: true, ..no_input() }));
    assert!(should_quit(&Input { key_val: 0x43, left_ctrl_pressed: true, ..no_input() }));
    assert!(!should_quit(&Input { key_val: 0x43, left_alt_pressed: true, ..no_input() }));
}
