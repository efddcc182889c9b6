use para::new_ui_context;
use para::present_back_terminal_buffer;
use para::screen::{new_terminal_screen, write_char_at_pos, write_string_at_pos, ScreenElement};
use para::frame::update_screen_size;

fn cell_at(screen: &para::screen::TerminalScreen, x: usize, y: usize) -> ScreenElement {
    screen.buffer[x + y * screen.width]
}

#[test]
fn write_char_lands_in_cell() {
    let mut screen = new_terminal_screen(10, 4);
    write_char_at_pos(&mut screen, 'q', 1, 2, 3, 7, 2);
    let cell = cell_at(&screen, 7, 2);
    assert_eq!(cell.character, 'q');
    assert_eq!((cell.r, cell.g, cell.b), (1, 2, 3));
}

#[test]
fn write_char_clips_outside() {
    let mut screen = new_terminal_screen(10, 4);
    write_char_at_pos(&mut screen, 'q', 9, 9, 9, -1, 0);
    write_char_at_pos(&mut screen, 'q', 9, 9, 9, 0, -2);
    write_char_at_pos(&mut screen, 'q', 9, 9, 9, 10, 0);
    write_char_at_pos(&mut screen, 'q', 9, 9, 9, 0, 4);
    for cell in screen.buffer.iter() {
        assert_eq!(cell.character, '\0');
    }
}

#[test]
fn write_string_fits_within_row() {
    let mut screen = new_terminal_screen(10, 4);
    let text: Vec<char> = vec!['h', 'e', 'y'];
    write_string_at_pos(&mut screen, &text, 255, 255, 255, 2, 1);
    assert_eq!(cell_at(&screen, 2, 1).character, 'h');
    assert_eq!(cell_at(&screen, 3, 1).character, 'e');
    assert_eq!(cell_at(&screen, 4, 1).character, 'y');
    assert_eq!(cell_at(&screen, 5, 1).character, '\0');
}

#[test]
fn write_string_truncates_at_row_end() {
    // A string that would pass the row's end is truncated to the remaining
    // row width and never wraps: from column 5 of a 10-wide grid exactly 5
    // characters land, and the next row stays untouched.
    let mut screen = new_terminal_screen(10, 4);
    let text: Vec<char> = vec!['a', 'b', 'c', 'd', 'e', 'f', 'g', 'h'];
    write_string_at_pos(&mut screen, &text, 255, 255, 255, 5, 0);
    assert_eq!(cell_at(&screen, 5, 0).character, 'a');
    assert_eq!(cell_at(&screen, 6, 0).character, 'b');
    assert_eq!(cell_at(&screen, 7, 0).character, 'c');
    assert_eq!(cell_at(&screen, 8, 0).character, 'd');
    assert_eq!(cell_at(&screen, 9, 0).character, 'e');
    assert_eq!(cell_at(&screen, 0, 1).character, '\0');
}

#[test]
fn present_emits_nothing_for_equal_grids() {
    let mut ctx = new_ui_context(20, 5);
    let ops = present_back_terminal_buffer(&mut ctx);
    assert_eq!(ops.len(), 0);
}

#[test]
fn present_emits_exactly_the_changed_cells() {
    let mut ctx = new_ui_context(20, 5);
    write_char_at_pos(&mut ctx.back, 'a', 255, 0, 0, 1, 0);
    write_char_at_pos(&mut ctx.back, 'b', 0, 255, 0, 5, 2);
    write_char_at_pos(&mut ctx.back, 'c', 0, 0, 255, 19, 4);
    let ops = present_back_terminal_buffer(&mut ctx);
    assert_eq!(ops.len(), 3);
    assert_eq!((ops[0].x, ops[0].y, ops[0].character), (1, 0, 'a'));
    assert_eq!((ops[0].r, ops[0].g, ops[0].b), (255, 0, 0));
    assert_eq!((ops[1].x, ops[1].y, ops[1].character), (5, 2, 'b'));
    assert_eq!((ops[2].x, ops[2].y, ops[2].character), (19, 4, 'c'));
    // The same frame again has nothing left to emit.
    let ops_again = present_back_terminal_buffer(&mut ctx);
    assert_eq!(ops_again.len(), 0);
}

#[test]
fn present_counts_rewritten_cell_once() {
    let mut ctx = new_ui_context(8, 3);
    write_char_at_pos(&mut ctx.back, 'a', 255, 255, 255, 2, 1);
    write_char_at_pos(&mut ctx.back, 'z', 255, 255, 255, 2, 1);
    let ops = present_back_terminal_buffer(&mut ctx);
    assert_eq!(ops.len(), 1);
    assert_eq!(ops[0].character, 'z');
}

#[test]
fn present_renders_empty_sentinel_as_space() {
    let mut ctx = new_ui_context(8, 3);
    // Only the color differs from the blank front cell, so the emitted
    // character is the sentinel, rendered as a literal space.
    write_char_at_pos(&mut ctx.back, '\0', 9, 9, 9, 4, 1);
    let ops = present_back_terminal_buffer(&mut ctx);
    assert_eq!(ops.len(), 1);
    assert_eq!(ops[0].character, ' ');
}

#[test]
fn present_copies_back_into_front() {
    let mut ctx = new_ui_context(6, 2);
    write_char_at_pos(&mut ctx.back, 'k', 1, 2, 3, 3, 1);
    let _ = present_back_terminal_buffer(&mut ctx);
    assert_eq!(ctx.front.buffer[3 + ctx.front.width].character, 'k');
}

#[test]
fn resize_reallocates_and_clears_both_grids() {
    // Two consecutive viewport reports: first the starting size, then a
    // larger one; after the second both grids have the new dimensions and
    // every cell is the blank sentinel.
    let mut ctx = new_ui_context(80, 24);
    write_char_at_pos(&mut ctx.back, 'x', 255, 255, 255, 0, 0);
    let first = update_screen_size(&mut ctx, 80, 24);
    assert!(!first);
    assert_eq!(ctx.back.buffer[0].character, 'x');
    let second = update_screen_size(&mut ctx, 100, 30);
    assert!(second);
    assert_eq!(ctx.front.width, 100);
    assert_eq!(ctx.front.height, 30);
    assert_eq!(ctx.back.width, 100);
    assert_eq!(ctx.back.height, 30);
    assert_eq!(ctx.front.buffer.len(), 3000);
    assert_eq!(ctx.back.buffer.len(), 3000);
    for cell in ctx.front.buffer.iter().chain(ctx.back.buffer.iter()) {
        assert_eq!(cell.character, '\0');
        assert_eq!((cell.r, cell.g, cell.b), (0, 0, 0));
    }
}
