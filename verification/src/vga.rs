//! The VGA text console: a cursor over a shadow of the text buffer.

use vstd::prelude::*;
use crate::failure::Failure;
use crate::traits::Write;

verus! {

/// Default address of the text buffer.
pub const DEF_BUF_ADDR: usize = 0xb8000;

/// Default number of columns.
pub const DEF_NUM_COLS: usize = 80;

/// Default number of rows.
pub const DEF_NUM_ROWS: usize = 25;

/// Default attribute word: light grey on black.
pub const DEF_ATTR: u16 = 0x0700;

/// Number of pages.
pub const MAX_PAGE: usize = 1;

/// The space character.
pub const CHR_SPACE: u16 = 0x0020;

/// The widest shadow buffer.
pub const MAX_SHADOW_COLS: usize = 160;

/// The tallest shadow buffer.
pub const MAX_SHADOW_ROWS: usize = 50;

/// What the console shows: its geometry, its cursor, its attribute and the
/// cells of the shadow buffer, row by row.
pub struct Screen {
    pub cols: nat,
    pub rows: nat,
    pub x: nat,
    pub y: nat,
    pub attr: u16,
    pub cells: Seq<u16>,
}

/// The geometry fits the shadow buffer and the cursor is on the screen.
pub open spec fn geometry_ok(s: Screen) -> bool {
    &&& 1 <= s.cols <= MAX_SHADOW_COLS
    &&& 1 <= s.rows <= MAX_SHADOW_ROWS
    &&& s.x < s.cols
    &&& s.y < s.rows
}

/// The geometry is in order and there is one cell for each position.
pub open spec fn screen_wf(s: Screen) -> bool {
    geometry_ok(s) && s.cells.len() == s.cols * s.rows
}

/// A cell that shows nothing, in the attribute of the screen.
pub open spec fn blank_cell(s: Screen) -> u16 {
    s.attr | CHR_SPACE
}

/// The number of lines that a scroll by `n` really moves: at most all but
/// one.
pub open spec fn scroll_lines(s: Screen, n: nat) -> nat {
    if n < s.rows - 1 {
        n
    } else {
        (s.rows - 1) as nat
    }
}

/// The screen scrolled up: every line moves up, what was first stays
/// first, and blank lines come in at the bottom.
pub open spec fn scrolled(s: Screen, n: nat) -> Screen {
    let shift = scroll_lines(s, n) * s.cols;
    Screen {
        cells: Seq::new(
            s.cells.len(),
            |i: int|
                if i + shift < s.cells.len() {
                    s.cells[i + shift]
                } else {
                    blank_cell(s)
                },
        ),
        ..s
    }
}

/// The screen after a line break: the cursor goes to the start of the next
/// line, and the screen scrolls when there is none.
pub open spec fn line_broken(s: Screen) -> Screen {
    if s.y < s.rows - 1 {
        Screen { x: 0, y: s.y + 1, ..s }
    } else {
        Screen { x: 0, ..scrolled(s, 1) }
    }
}

/// The screen after one character: a line feed breaks the line, a carriage
/// return goes to the start of the line, anything else is shown at the
/// cursor, which then moves on and breaks the line at the right edge.
pub open spec fn put(s: Screen, chr: u8) -> Screen {
    if chr == 0x0a {
        line_broken(s)
    } else if chr == 0x0d {
        Screen { x: 0, ..s }
    } else {
        let shown = Screen {
            x: s.x + 1,
            cells: s.cells.update((s.y * s.cols + s.x) as int, s.attr | (chr as u16)),
            ..s
        };
        if shown.x >= shown.cols {
            line_broken(shown)
        } else {
            shown
        }
    }
}

/// The screen after a run of characters, first to last.
pub open spec fn put_all(s: Screen, bytes: Seq<u8>) -> Screen
    decreases bytes.len(),
{
    if bytes.len() == 0 {
        s
    } else {
        put(put_all(s, bytes.drop_last()), bytes.last())
    }
}

/// The part of a buffer that a write shows: with truncation, only as many
/// of the last bytes as the screen has cells.
pub open spec fn write_window(bytes: Seq<u8>, capacity: nat, trunc: bool) -> Seq<u8> {
    if trunc && bytes.len() > capacity {
        bytes.subrange(bytes.len() - capacity, bytes.len() as int)
    } else {
        bytes
    }
}

/// The position of a cell in the shadow buffer lies inside it.
pub proof fn lemma_cell_in_screen(cols: int, rows: int, x: int, y: int)
    requires
        0 <= x < cols,
        0 <= y < rows,
    ensures
        0 <= y * cols + x < cols * rows,
{
    assert(y * cols + x < cols * rows) by (nonlinear_arith)
        requires
            0 <= x < cols,
            0 <= y < rows,
    ;
    assert(0 <= y * cols) by (nonlinear_arith)
        requires
            0 <= y,
            0 <= cols,
    ;
}

/// A screen that fits the shadow buffer has at most 8000 cells.
pub proof fn lemma_screen_size(cols: int, rows: int)
    requires
        0 <= cols <= MAX_SHADOW_COLS,
        0 <= rows <= MAX_SHADOW_ROWS,
    ensures
        0 <= cols * rows <= 8000,
{
    assert(0 <= cols * rows <= 8000) by (nonlinear_arith)
        requires
            0 <= cols <= 160,
            0 <= rows <= 50,
    ;
}

/// The VGA text console. Characters go to a shadow of the text buffer;
/// `commit` copies the shadow to the buffer itself.
pub struct VgaConsole {
    addr: usize,
    cols: usize,
    rows: usize,
    page: usize,
    x: usize,
    y: usize,
    attr: u16,
    trunc: bool,
    shadow: Option<Vec<u16>>,
}

impl View for VgaConsole {
    type V = Screen;

    closed spec fn view(&self) -> Screen {
        Screen {
            cols: self.cols as nat,
            rows: self.rows as nat,
            x: self.x as nat,
            y: self.y as nat,
            attr: self.attr,
            cells: match self.shadow {
                Some(cells) => cells@,
                None => Seq::empty(),
            },
        }
    }
}

impl VgaConsole {
    /// The address of the text buffer.
    pub closed spec fn buffer_address(&self) -> usize {
        self.addr
    }

    /// The page of the text buffer that is shown.
    pub closed spec fn page(&self) -> usize {
        self.page
    }

    /// Whether a write shows only what fits the screen.
    pub closed spec fn truncates(&self) -> bool {
        self.trunc
    }

    /// Whether the shadow buffer exists.
    pub closed spec fn initialized(&self) -> bool {
        self.shadow is Some
    }

    /// The geometry is in order, the first page is shown, and an existing
    /// shadow buffer has one cell for each position.
    pub open spec fn wf(&self) -> bool {
        &&& geometry_ok(self@)
        &&& self.page() < MAX_PAGE
        &&& self.initialized() ==> screen_wf(self@)
    }

    /// The console is well formed and has its shadow buffer.
    pub open spec fn ready(&self) -> bool {
        self.wf() && self.initialized()
    }

    /// Everything but the screen is as it was.
    pub open spec fn same_setup(&self, pre: &Self) -> bool {
        &&& self.buffer_address() == pre.buffer_address()
        &&& self.page() == pre.page()
        &&& self.truncates() == pre.truncates()
        &&& self.initialized() == pre.initialized()
    }

    /// Creates a console over the text buffer at `addr`. The cursor starts
    /// at the left of the last line, the first page is shown, writes
    /// truncate, and there is no shadow buffer yet.
    pub fn new(addr: usize, cols: usize, rows: usize) -> (console: Self)
        requires
            rows >= 1,
        ensures
            console.buffer_address() == addr,
            console.page() == 0,
            console.truncates(),
            !console.initialized(),
            console@ == (Screen {
                cols: cols as nat,
                rows: rows as nat,
                x: 0,
                y: (rows - 1) as nat,
                attr: DEF_ATTR,
                cells: Seq::empty(),
            }),
            console.wf() <==> 1 <= cols <= MAX_SHADOW_COLS && rows <= MAX_SHADOW_ROWS,
    {
        VgaConsole {
            addr,
            cols,
            rows,
            page: 0,
            x: 0,
            y: rows - 1,
            attr: DEF_ATTR,
            trunc: true,
            shadow: None,
        }
    }

    /// Returns the number of columns and of rows.
    pub fn dimensions(&self) -> (dims: (usize, usize))
        ensures
            dims.0 == self@.cols,
            dims.1 == self@.rows,
    {
        (self.cols, self.rows)
    }

    /// Returns the column and the row of the cursor.
    pub fn cursor(&self) -> (pos: (usize, usize))
        ensures
            pos.0 == self@.x,
            pos.1 == self@.y,
    {
        (self.x, self.y)
    }

    /// Returns the address of the text buffer.
    pub fn text_address(&self) -> (addr: usize)
        ensures
            addr == self.buffer_address(),
    {
        self.addr
    }

    /// Says whether the console is well formed and has its shadow buffer.
    pub fn is_ready(&self) -> (b: bool)
        ensures
            b == self.ready(),
    {
        let geometry: bool = 1 <= self.cols && self.cols <= MAX_SHADOW_COLS && 1 <= self.rows
            && self.rows <= MAX_SHADOW_ROWS && self.x < self.cols && self.y < self.rows
            && self.page < MAX_PAGE;
        if !geometry {
            return false;
        }
        proof {
            lemma_screen_size(self.cols as int, self.rows as int);
        }
        match &self.shadow {
            Some(cells) => cells.len() == self.cols * self.rows,
            None => false,
        }
    }

    /// Creates a console with the default address and geometry.
    pub fn defaults() -> (console: Self)
        ensures
            console.wf(),
            console.buffer_address() == DEF_BUF_ADDR,
            console.page() == 0,
            console.truncates(),
            !console.initialized(),
            console@ == (Screen {
                cols: DEF_NUM_COLS as nat,
                rows: DEF_NUM_ROWS as nat,
                x: 0,
                y: (DEF_NUM_ROWS - 1) as nat,
                attr: DEF_ATTR,
                cells: Seq::empty(),
            }),
    {
        Self::new(DEF_BUF_ADDR, DEF_NUM_COLS, DEF_NUM_ROWS)
    }

    /// Creates the shadow buffer, every cell zero.
    pub fn init(&mut self)
        requires
            old(self).wf(),
        ensures
            final(self).ready(),
            final(self).buffer_address() == old(self).buffer_address(),
            final(self).page() == old(self).page(),
            final(self).truncates() == old(self).truncates(),
            final(self)@ == (Screen {
                cells: Seq::new(old(self)@.cols * old(self)@.rows, |i: int| 0u16),
                ..old(self)@
            }),
    {
        proof {
            lemma_screen_size(self.cols as int, self.rows as int);
        }
        let total: usize = self.cols * self.rows;
        let mut cells: Vec<u16> = Vec::new();
        let mut i: usize = 0;
        while i < total
            invariant
                i <= total,
                cells@ == Seq::new(i as nat, |j: int| 0u16),
            decreases total - i,
        {
            cells.push(0);
            i = i + 1;
            assert(cells@ =~= Seq::new(i as nat, |j: int| 0u16));
        }
        self.shadow = Some(cells);
    }

    /// Scrolls the screen up by `n` lines, at most by all but one.
    pub fn scroll_page(&mut self, n: usize)
        requires
            old(self).ready(),
        ensures
            final(self).ready(),
            final(self).same_setup(old(self)),
            final(self)@ == scrolled(old(self)@, n as nat),
    {
        proof {
            lemma_screen_size(self.cols as int, self.rows as int);
            lemma_screen_size(self.cols as int, self.rows as int - 1);
        }
        let m: usize = if n < self.rows - 1 {
            n
        } else {
            self.rows - 1
        };
        assert(m * self.cols <= self.cols * (self.rows - 1)) by (nonlinear_arith)
            requires
                0 <= m <= self.rows - 1,
                0 <= self.cols,
        ;
        let shift: usize = m * self.cols;
        let total: usize = self.cols * self.rows;
        let blank: u16 = self.attr | CHR_SPACE;
        let ghost before = self@;
        let mut cells: Vec<u16> = self.shadow.take().unwrap();
        let mut i: usize = 0;
        while i < total
            invariant
                i <= total,
                total == before.cells.len(),
                cells.len() == total,
                total <= 8000,
                shift <= 8000,
                forall|j: int| 0 <= j < i ==> cells[j] == scrolled(before, n as nat).cells[j],
                forall|j: int| i <= j < total ==> cells[j] == before.cells[j],
                shift == scroll_lines(before, n as nat) * before.cols,
                blank == blank_cell(before),
            decreases total - i,
        {
            let cell: u16 = if i + shift < total {
                cells[i + shift]
            } else {
                blank
            };
            cells.set(i, cell);
            i = i + 1;
        }
        assert(cells@ =~= scrolled(before, n as nat).cells);
        self.shadow = Some(cells);
    }

    /// Starts a new line, and scrolls by one line at the bottom.
    pub fn new_line(&mut self)
        requires
            old(self).ready(),
        ensures
            final(self).ready(),
            final(self).same_setup(old(self)),
            final(self)@ == line_broken(old(self)@),
    {
        if self.y < self.rows - 1 {
            self.y = self.y + 1;
        } else {
            self.scroll_page(1);
        }
        self.x = 0;
    }

    /// Shows one character at the cursor, or obeys it if it is a line feed
    /// or a carriage return.
    pub fn write_char(&mut self, chr: u8)
        requires
            old(self).ready(),
        ensures
            final(self).ready(),
            final(self).same_setup(old(self)),
            final(self)@ == put(old(self)@, chr),
    {
        if chr == 0x0a {
            self.new_line();
            return ;
        }
        if chr == 0x0d {
            self.x = 0;
            return ;
        }
        proof {
            lemma_screen_size(self.cols as int, self.rows as int);
            lemma_cell_in_screen(self.cols as int, self.rows as int, self.x as int, self.y as int);
        }
        let index: usize = self.y * self.cols + self.x;
        let cell: u16 = self.attr | (chr as u16);
        let mut cells: Vec<u16> = self.shadow.take().unwrap();
        cells.set(index, cell);
        self.shadow = Some(cells);
        self.x = self.x + 1;
        if self.x >= self.cols {
            self.x = self.cols - 1;
            proof {
                assert(line_broken(self@) == line_broken(
                    Screen { x: self@.x + 1, ..self@ },
                ));
            }
            self.new_line();
        }
    }

    /// Copies the shadow buffer to the shown page of the text buffer.
    pub fn commit(&self, text: &mut Vec<u16>)
        requires
            self.ready(),
            old(text).len() >= self@.cells.len(),
        ensures
            final(text)@.len() == old(text)@.len(),
            final(text)@.subrange(0, self@.cells.len() as int) == self@.cells,
            final(text)@.subrange(self@.cells.len() as int, old(text)@.len() as int) == old(
                text,
            )@.subrange(self@.cells.len() as int, old(text)@.len() as int),
    {
        proof {
            lemma_screen_size(self.cols as int, self.rows as int);
        }
        let total: usize = self.cols * self.rows;
        let ghost before = text@;
        let mut i: usize = 0;
        while i < total
            invariant
                i <= total,
                self.ready(),
                total == self@.cells.len(),
                text.len() == before.len(),
                total <= text.len(),
                forall|j: int| 0 <= j < i ==> text[j] == self@.cells[j],
                forall|j: int| i <= j < text.len() ==> text[j] == before[j],
            decreases total - i,
        {
            let cell: u16 = match &self.shadow {
                Some(cells) => cells[i],
                None => 0,
            };
            text.set(i, cell);
            i = i + 1;
        }
        assert(text@.subrange(0, total as int) =~= self@.cells);
        assert(text@.subrange(total as int, text.len() as int) =~= before.subrange(
            total as int,
            before.len() as int,
        ));
    }

    /// Moves the cursor, clamped to the screen.
    pub fn set_cursor_pos(&mut self, x: usize, y: usize)
        requires
            old(self).wf(),
        ensures
            final(self).wf(),
            final(self).same_setup(old(self)),
            final(self)@ == (Screen {
                x: if x < old(self)@.cols {
                    x as nat
                } else {
                    (old(self)@.cols - 1) as nat
                },
                y: if y < old(self)@.rows {
                    y as nat
                } else {
                    (old(self)@.rows - 1) as nat
                },
                ..old(self)@
            }),
    {
        self.x = if x < self.cols {
            x
        } else {
            self.cols - 1
        };
        self.y = if y < self.rows {
            y
        } else {
            self.rows - 1
        };
    }

    /// Returns whether a write shows only what fits the screen.
    pub fn get_trunc(&self) -> (t: bool)
        ensures
            t == self.truncates(),
    {
        self.trunc
    }

    /// Sets whether a write shows only what fits the screen.
    pub fn set_trunc(&mut self, t: bool)
        ensures
            final(self).truncates() == t,
            final(self)@ == old(self)@,
            final(self).buffer_address() == old(self).buffer_address(),
            final(self).page() == old(self).page(),
            final(self).initialized() == old(self).initialized(),
    {
        self.trunc = t;
    }

    /// Clears the screen and leaves the cursor where it is: scrolls by all
    /// lines but one, then by one more.
    pub fn clear(&mut self)
        requires
            old(self).ready(),
        ensures
            final(self).ready(),
            final(self).same_setup(old(self)),
            final(self)@ == scrolled(
                scrolled(old(self)@, (old(self)@.rows - 1) as nat),
                1,
            ),
            old(self)@.rows >= 2 ==> final(self)@ == (Screen {
                cells: Seq::new(old(self)@.cells.len(), |i: int| blank_cell(old(self)@)),
                ..old(self)@
            }),
            old(self)@.rows == 1 ==> final(self)@ == old(self)@,
    {
        proof {
            lemma_clear_blanks(self@);
        }
        self.scroll_page(self.rows - 1);
        self.scroll_page(1);
    }
}

/// Clearing a screen of two lines or more leaves every cell blank; a
/// screen of one line cannot scroll and stays as it is.
proof fn lemma_clear_blanks(s: Screen)
    requires
        screen_wf(s),
    ensures
        s.rows >= 2 ==> scrolled(scrolled(s, (s.rows - 1) as nat), 1).cells == Seq::new(
            s.cells.len(),
            |i: int| blank_cell(s),
        ),
        s.rows == 1 ==> scrolled(scrolled(s, (s.rows - 1) as nat), 1) == s,
{
    let once = scrolled(s, (s.rows - 1) as nat);
    let twice = scrolled(once, 1);
    if s.rows >= 2 {
        assert((s.rows - 1) * s.cols + s.cols == s.cols * s.rows) by (nonlinear_arith);
        assert(scroll_lines(once, 1) * once.cols == s.cols) by (nonlinear_arith)
            requires
                scroll_lines(once, 1) == 1,
                once.cols == s.cols,
        ;
        assert(twice.cells =~= Seq::new(s.cells.len(), |i: int| blank_cell(s)));
    } else {
        assert(scroll_lines(s, 0) * s.cols == 0) by (nonlinear_arith)
            requires
                scroll_lines(s, 0) == 0,
        ;
        assert(once.cells =~= s.cells);
        assert(scroll_lines(once, 1) * once.cols == 0) by (nonlinear_arith)
            requires
                scroll_lines(once, 1) == 0,
        ;
        assert(twice.cells =~= once.cells);
    }
}

impl Write for VgaConsole {
    type WriteError = Failure;

    open spec fn writable(&self) -> bool {
        self.ready()
    }

    open spec fn written(&self, pre: &Self, buf: Seq<u8>, res: Result<usize, Failure>) -> bool {
        let window = write_window(buf, pre@.cols * pre@.rows, pre.truncates());
        &&& self.ready()
        &&& self.same_setup(pre)
        &&& self@ == put_all(pre@, window)
        &&& res == Ok::<usize, Failure>(window.len() as usize)
    }

    /// Shows the bytes of `buf`, with truncation only as many of the last
    /// ones as the screen has cells, and returns how many were shown.
    fn write(&mut self, buf: &[u8]) -> (res: Result<usize, Failure>)
        ensures
            final(self).ready(),
            final(self).same_setup(old(self)),
            final(self)@ == put_all(
                old(self)@,
                write_window(buf@, old(self)@.cols * old(self)@.rows, old(self).truncates()),
            ),
            res == Ok::<usize, Failure>(
                write_window(
                    buf@,
                    old(self)@.cols * old(self)@.rows,
                    old(self).truncates(),
                ).len() as usize,
            ),
    {
        proof {
            lemma_screen_size(self.cols as int, self.rows as int);
        }
        let n: usize = buf.len();
        let capacity: usize = self.cols * self.rows;
        let start: usize = if self.trunc && n > capacity {
            n - capacity
        } else {
            0
        };
        let ghost before = *self;
        let ghost window = write_window(buf@, capacity as nat, self.trunc);
        assert(window =~= buf@.subrange(start as int, n as int));
        let mut i: usize = start;
        assert(window.take(0) =~= Seq::<u8>::empty());
        while i < n
            invariant
                start <= i <= n,
                n == buf@.len(),
                window == buf@.subrange(start as int, n as int),
                self.ready(),
                self.same_setup(&before),
                self@ == put_all(before@, window.take(i - start)),
            decreases n - i,
        {
            let chr: u8 = buf[i];
            proof {
                let next = window.take(i - start + 1);
                assert(next.drop_last() =~= window.take(i - start));
                assert(next.last() == chr);
            }
            self.write_char(chr);
            i = i + 1;
        }
        assert(window.take(n - start) =~= window);
        Ok(n - start)
    }
}

} // verus!
