//! The text screen of the console server: a client of the channel API.
//!
//! The screen page is a shared buffer of character cells obtained from the
//! kernel server over a channel; this module owns the text state drawn into
//! it — glyph placement, line wrap, and scrolling — and proves the drawing
//! follows the spec transition [`draw_char_spec`] cell for cell.

use vstd::prelude::*;
use vstd::string::StrSliceExecFns;

verus! {

/// Character cells per row.
pub const SCREEN_WIDTH: usize = 80;

/// Rows on the screen.
pub const SCREEN_HEIGHT: usize = 25;

/// Cells on the whole screen.
pub const SCREEN_CELLS: usize = SCREEN_WIDTH * SCREEN_HEIGHT;

/// The attribute drawn with every glyph: white on black.
pub const DEFAULT_COLOR: u16 = 0x0f;

/// The text state as contracts see it: the cells of the shared page and the
/// cursor position.
#[verifier::ext_equal]
pub struct ScreenView {
    pub cells: Seq<u16>,
    pub cursor_x: int,
    pub cursor_y: int,
}

/// The cell value a character draws: the attribute in the high byte, the
/// low byte of the character in the low byte.
pub open spec fn glyph(ch: char) -> u16 {
    (DEFAULT_COLOR * 256 + ((ch as u32) % 256)) as u16
}

/// The cells after scrolling up by one row: every row takes the one below
/// it, and the last row is cleared.
pub open spec fn scrolled(cells: Seq<u16>) -> Seq<u16> {
    Seq::new(
        cells.len(),
        |i: int|
            if i < (SCREEN_HEIGHT - 1) * SCREEN_WIDTH {
                cells[i + SCREEN_WIDTH]
            } else {
                0u16
            },
    )
}

/// Line handling before a character is placed: a newline, or a cursor past
/// the last column, moves the cursor to the start of the next row.
pub open spec fn wrapped(s: ScreenView, ch: char) -> ScreenView {
    if ch == '\n' || s.cursor_x >= SCREEN_WIDTH {
        ScreenView { cursor_x: 0, cursor_y: s.cursor_y + 1, ..s }
    } else {
        s
    }
}

/// A cursor pushed past the last row scrolls the screen one row and stays
/// on the last row.
pub open spec fn scrolled_view(s: ScreenView) -> ScreenView {
    if s.cursor_y >= SCREEN_HEIGHT {
        ScreenView { cells: scrolled(s.cells), cursor_y: SCREEN_HEIGHT - 1, ..s }
    } else {
        s
    }
}

/// Drawing one character: wrap, scroll, place the glyph at the cursor, and
/// advance the cursor one column. A newline too leaves its glyph at the
/// start of the fresh row, as the console has always drawn it.
pub open spec fn draw_char_spec(s: ScreenView, ch: char) -> ScreenView {
    let s2 = scrolled_view(wrapped(s, ch));
    ScreenView {
        cells: s2.cells.update(s2.cursor_y * SCREEN_WIDTH + s2.cursor_x, glyph(ch)),
        cursor_x: s2.cursor_x + 1,
        ..s2
    }
}

/// Drawing a sequence of characters, left to right.
pub open spec fn draw_str_spec(s: ScreenView, chars: Seq<char>) -> ScreenView
    decreases chars.len(),
{
    if chars.len() == 0 {
        s
    } else {
        draw_str_spec(draw_char_spec(s, chars[0]), chars.drop_first())
    }
}

/// Drawing character by character is drawing the prefix, then the last one.
pub proof fn lemma_draw_str_snoc(s: ScreenView, t: Seq<char>, c: char)
    ensures
        draw_str_spec(s, t.push(c)) == draw_char_spec(draw_str_spec(s, t), c),
    decreases t.len(),
{
    if t.len() == 0 {
        assert(t.push(c)[0] == c);
        assert(t.push(c).drop_first() =~= Seq::<char>::empty());
        assert(draw_str_spec(s, t) == s);
        assert(draw_str_spec(s, t.push(c)) == draw_str_spec(
            draw_char_spec(s, c),
            t.push(c).drop_first(),
        ));
        assert(draw_str_spec(draw_char_spec(s, c), Seq::<char>::empty()) == draw_char_spec(s, c));
    } else {
        assert(t.push(c)[0] == t[0]);
        assert(t.push(c).drop_first() =~= t.drop_first().push(c));
        lemma_draw_str_snoc(draw_char_spec(s, t[0]), t.drop_first(), c);
    }
}

/// The console's text screen: the shared page of character cells and the
/// cursor.
pub struct Screen {
    cells: Vec<u16>,
    cursor_x: usize,
    cursor_y: usize,
}

impl View for Screen {
    type V = ScreenView;

    closed spec fn view(&self) -> ScreenView {
        ScreenView {
            cells: self.cells@,
            cursor_x: self.cursor_x as int,
            cursor_y: self.cursor_y as int,
        }
    }
}

impl Screen {
    /// The page spans the whole screen and the cursor is on it.
    pub open spec fn wf(&self) -> bool {
        &&& self@.cells.len() == SCREEN_CELLS
        &&& 0 <= self@.cursor_x <= SCREEN_WIDTH
        &&& 0 <= self@.cursor_y < SCREEN_HEIGHT
    }

    /// Wraps the screen page obtained from the kernel server, with the
    /// cursor at the top left. The page's cells are taken as they are.
    pub fn new(page: Vec<u16>) -> (s: Screen)
        requires
            page@.len() == SCREEN_CELLS,
        ensures
            s.wf(),
            s@ == (ScreenView { cells: page@, cursor_x: 0, cursor_y: 0 }),
    {
        Screen { cells: page, cursor_x: 0, cursor_y: 0 }
    }

    /// Clears every cell; the cursor stays where it was.
    pub fn clear(&mut self)
        requires
            old(self).wf(),
        ensures
            final(self).wf(),
            final(self)@ == (ScreenView {
                cells: Seq::new(SCREEN_CELLS as nat, |i: int| 0u16),
                ..old(self)@
            }),
    {
        let mut i: usize = 0;
        while i < SCREEN_CELLS
            invariant
                i <= SCREEN_CELLS,
                self@.cells.len() == SCREEN_CELLS,
                self@.cursor_x == old(self)@.cursor_x,
                self@.cursor_y == old(self)@.cursor_y,
                forall|j: int| 0 <= j < i ==> self@.cells[j] == 0u16,
            decreases SCREEN_CELLS - i,
        {
            self.cells[i] = 0;
            i = i + 1;
        }
        proof {
            assert(self@ =~~= (ScreenView {
                cells: Seq::new(SCREEN_CELLS as nat, |j: int| 0u16),
                ..old(self)@
            }));
        }
    }

    /// Draws one character at the cursor, per [`draw_char_spec`]: wrap at
    /// the last column or on a newline, scroll one row when the cursor
    /// leaves the bottom, place the glyph, advance the cursor.
    fn draw_char(&mut self, ch: char)
        requires
            old(self).wf(),
        ensures
            final(self).wf(),
            final(self)@ == draw_char_spec(old(self)@, ch),
    {
        if ch == '\n' || self.cursor_x >= SCREEN_WIDTH {
            self.cursor_y = self.cursor_y + 1;
            self.cursor_x = 0;
        }
        proof {
            assert(self@ =~~= wrapped(old(self)@, ch));
        }
        let ghost before_scroll = self@;
        if self.cursor_y >= SCREEN_HEIGHT {
            // Scroll by one row.
            let mut i: usize = 0;
            while i < (SCREEN_HEIGHT - 1) * SCREEN_WIDTH
                invariant
                    i <= (SCREEN_HEIGHT - 1) * SCREEN_WIDTH,
                    self@.cells.len() == SCREEN_CELLS,
                    self@.cursor_x == before_scroll.cursor_x,
                    self@.cursor_y == before_scroll.cursor_y,
                    forall|j: int| 0 <= j < i ==> self@.cells[j] == before_scroll.cells[j
                        + SCREEN_WIDTH],
                    forall|j: int| i <= j < SCREEN_CELLS ==> self@.cells[j]
                        == before_scroll.cells[j],
                decreases (SCREEN_HEIGHT - 1) * SCREEN_WIDTH - i,
            {
                let v = self.cells[i + SCREEN_WIDTH];
                self.cells[i] = v;
                i = i + 1;
            }
            // Clear the freed last row.
            while i < SCREEN_CELLS
                invariant
                    (SCREEN_HEIGHT - 1) * SCREEN_WIDTH <= i <= SCREEN_CELLS,
                    self@.cells.len() == SCREEN_CELLS,
                    self@.cursor_x == before_scroll.cursor_x,
                    self@.cursor_y == before_scroll.cursor_y,
                    forall|j: int|
                        0 <= j < (SCREEN_HEIGHT - 1) * SCREEN_WIDTH ==> self@.cells[j]
                            == before_scroll.cells[j + SCREEN_WIDTH],
                    forall|j: int| (SCREEN_HEIGHT - 1) * SCREEN_WIDTH <= j < i ==> self@.cells[j]
                        == 0u16,
                decreases SCREEN_CELLS - i,
            {
                self.cells[i] = 0;
                i = i + 1;
            }
            self.cursor_y = SCREEN_HEIGHT - 1;
            proof {
                assert(self@.cells =~= scrolled(before_scroll.cells));
                assert(self@ =~~= scrolled_view(before_scroll));
            }
        }
        let code: u32 = ch as u32;
        let cell: u16 = DEFAULT_COLOR * 256 + (code % 256) as u16;
        let pos: usize = self.cursor_y * SCREEN_WIDTH + self.cursor_x;
        self.cells[pos] = cell;
        self.cursor_x = self.cursor_x + 1;
        proof {
            assert(self@ =~~= draw_char_spec(old(self)@, ch));
        }
    }

    /// Draws the characters of `string` in order, per [`draw_str_spec`].
    pub fn print_str(&mut self, string: &str)
        requires
            old(self).wf(),
        ensures
            final(self).wf(),
            final(self)@ == draw_str_spec(old(self)@, string@),
    {
        let n = string.unicode_len();
        let mut i: usize = 0;
        while i < n
            invariant
                i <= n,
                n == string@.len(),
                self.wf(),
                self@ == draw_str_spec(old(self)@, string@.subrange(0, i as int)),
            decreases n - i,
        {
            let ch = string.get_char(i);
            self.draw_char(ch);
            proof {
                lemma_draw_str_snoc(old(self)@, string@.subrange(0, i as int), ch);
                assert(string@.subrange(0, i + 1) =~= string@.subrange(0, i as int).push(ch));
            }
            i = i + 1;
        }
        proof {
            assert(string@.subrange(0, n as int) =~= string@);
        }
        self.update_cursor();
    }

    /// Publishes the cursor position to the display device. The device path
    /// belongs to the hardware driver below this server, which reads the
    /// cursor from this handle; the text state itself is untouched.
    pub fn update_cursor(&self) {
    }

    /// The cell drawn at column `x` of row `y`.
    pub fn cell_at(&self, x: usize, y: usize) -> (v: u16)
        requires
            self.wf(),
            x < SCREEN_WIDTH,
            y < SCREEN_HEIGHT,
        ensures
            v == self@.cells[y * SCREEN_WIDTH + x],
    {
        self.cells[y * SCREEN_WIDTH + x]
    }

    /// The cursor position: column, then row.
    pub fn cursor(&self) -> (p: (usize, usize))
        ensures
            p.0 as int == self@.cursor_x,
            p.1 as int == self@.cursor_y,
    {
        (self.cursor_x, self.cursor_y)
    }
}

} // verus!
