use capchan::screen::{Screen, DEFAULT_COLOR, SCREEN_CELLS, SCREEN_HEIGHT, SCREEN_WIDTH};

fn glyph(ch: char) -> u16 {
    DEFAULT_COLOR * 256 + ((ch as u32) % 256) as u16
}

fn blank_screen() -> Screen {
    Screen::new(vec![0u16; SCREEN_CELLS])
}

#[test]
fn new_takes_page_as_it_is() {
    let mut page = vec![0u16; SCREEN_CELLS];
    page[5] = 0x1234;
    let s = Screen::new(page);
    assert_eq!(s.cell_at(5, 0), 0x1234);
    assert_eq!(s.cursor(), (0, 0));
}

#[test]
fn print_draws_glyphs_and_advances() {
    let mut s = blank_screen();
    s.print_str("AB");
    assert_eq!(s.cell_at(0, 0), 0x0f41);
    assert_eq!(s.cell_at(1, 0), 0x0f42);
    assert_eq!(s.cell_at(2, 0), 0);
    assert_eq!(s.cursor(), (2, 0));
}

#[test]
fn newline_moves_to_next_row_and_draws_its_glyph() {
    let mut s = blank_screen();
    s.print_str("A\nB");
    assert_eq!(s.cell_at(0, 0), glyph('A'));
    // the console draws the newline character too, at the fresh row's start
    assert_eq!(s.cell_at(0, 1), glyph('\n'));
    assert_eq!(s.cell_at(1, 1), glyph('B'));
    assert_eq!(s.cursor(), (2, 1));
}

#[test]
fn long_line_wraps_at_last_column() {
    let mut s = blank_screen();
    let line: String = std::iter::repeat('x').take(SCREEN_WIDTH + 1).collect();
    s.print_str(&line);
    for x in 0..SCREEN_WIDTH {
        assert_eq!(s.cell_at(x, 0), glyph('x'));
    }
    assert_eq!(s.cell_at(0, 1), glyph('x'));
    assert_eq!(s.cursor(), (1, 1));
}

#[test]
fn scroll_shifts_rows_up_and_clears_last_row() {
    let mut s = blank_screen();
    // fill the first two rows distinctly, then push the cursor off the bottom
    s.print_str("A\nB");
    let newlines: String = std::iter::repeat('\n').take(SCREEN_HEIGHT - 1).collect();
    s.print_str(&newlines);
    assert_eq!(s.cursor(), (1, SCREEN_HEIGHT - 1));
    // one scroll happened: row 0 now holds what row 1 held
    assert_eq!(s.cell_at(0, 0), glyph('\n'));
    assert_eq!(s.cell_at(1, 0), glyph('B'));
    // the freed last row holds only the newly drawn newline glyph
    assert_eq!(s.cell_at(0, SCREEN_HEIGHT - 1), glyph('\n'));
    for x in 1..SCREEN_WIDTH {
        assert_eq!(s.cell_at(x, SCREEN_HEIGHT - 1), 0);
    }
}

#[test]
fn clear_zeroes_cells_and_keeps_cursor() {
    let mut s = blank_screen();
    s.print_str("hello\nworld");
    let cursor_before = s.cursor();
    s.clear();
    for y in 0..SCREEN_HEIGHT {
        for x in 0..SCREEN_WIDTH {
            assert_eq!(s.cell_at(x, y), 0);
        }
    }
    assert_eq!(s.cursor(), cursor_before);
}

#[test]
fn update_cursor_leaves_text_state_alone() {
    let mut s = blank_screen();
    s.print_str("Z");
    s.update_cursor();
    assert_eq!(s.cell_at(0, 0), glyph('Z'));
    assert_eq!(s.cursor(), (1, 0));
}
