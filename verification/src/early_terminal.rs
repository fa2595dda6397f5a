//! A terminal for the VGA text mode at boot: a buffer of 25 lines of 80
//! characters, a cursor, and a text color. The screen itself is drawn by
//! the caller, from the updates the terminal returns.
use vstd::prelude::*;

verus! {

/// Classic height of default VGA screen
pub const HEIGHT: usize = 25;
/// Classic width of default VGA screen
pub const WIDTH: usize = 80;
/// The number of characters of the screen.
pub const CELLS: usize = 2000;

/// The cursor: its line, its column, and the size of the screen.
#[derive(Debug, Copy, Clone, PartialEq, Eq, Structural)]
pub struct Cursor {
    pub y: usize,
    pub x: usize,
    pub lines: usize,
    pub columns: usize,
}

/// What the screen needs after a write: one character drawn, or all of
/// them drawn again from the buffer (a blank where it holds nothing)
/// after a scroll.
#[derive(Debug, Copy, Clone, PartialEq, Eq)]
pub enum ScreenUpdate<C> {
    Draw { c: u8, line: usize, column: usize, color: C },
    Redraw,
}

/// The terminal: its cursor, its text color and what it shows, line by
/// line, each character with its color.
pub struct EarlyTerminal<C> {
    pub cursor: Cursor,
    pub text_color: C,
    pub buf: Vec<Option<(u8, C)>>,
}

/// The state of a terminal that writes change: column, line, buffer.
pub type TermState<C> = (usize, usize, Seq<Option<(u8, C)>>);

/// The buffer scrolled one line up: each line takes the one below, and
/// the last one is cleared.
pub open spec fn scrolled<C>(buf: Seq<Option<(u8, C)>>) -> Seq<Option<(u8, C)>> {
    Seq::new(
        CELLS as nat,
        |i: int|
            if i < CELLS - WIDTH {
                buf[i + WIDTH]
            } else {
                None
            },
    )
}

/// A new line: to the start of the next line, or of the last one after a
/// scroll when the cursor is on the last line.
pub open spec fn carriage_return<C>(st: TermState<C>) -> TermState<C> {
    if st.1 + 1 == HEIGHT {
        (0, st.1, scrolled(st.2))
    } else {
        (0, (st.1 + 1) as usize, st.2)
    }
}

/// Writing the byte `c` in `color`: a new line for '\n', else the
/// character put under the cursor, which moves on, to a new line past the
/// last column.
pub open spec fn put_byte<C>(st: TermState<C>, c: u8, color: C) -> TermState<C> {
    if c == 0x0a {
        carriage_return(st)
    } else {
        let buf = st.2.update(st.1 * WIDTH + st.0, Some((c, color)));
        if st.0 + 1 == WIDTH {
            carriage_return(((st.0 + 1) as usize, st.1, buf))
        } else {
            ((st.0 + 1) as usize, st.1, buf)
        }
    }
}

/// What the screen needs after `put_byte`: the character drawn where the
/// cursor was, and a full redraw after a scroll.
pub open spec fn put_byte_updates<C>(st: TermState<C>, c: u8, color: C) -> Seq<ScreenUpdate<C>> {
    let scrolls = st.1 + 1 == HEIGHT;
    if c == 0x0a {
        if scrolls {
            seq![ScreenUpdate::Redraw]
        } else {
            Seq::empty()
        }
    } else {
        seq![ScreenUpdate::Draw { c, line: st.1, column: st.0, color }] + if st.0 + 1 == WIDTH
            && scrolls {
            seq![ScreenUpdate::<C>::Redraw]
        } else {
            Seq::empty()
        }
    }
}

/// The state after writing the bytes `s` in `color` from `st`.
pub open spec fn put_bytes<C>(st: TermState<C>, s: Seq<u8>, color: C) -> TermState<C>
    decreases s.len(),
{
    if s.len() == 0 {
        st
    } else {
        put_byte(put_bytes(st, s.drop_last(), color), s.last(), color)
    }
}

/// What the screen needs after writing the bytes `s` in `color` from `st`.
pub open spec fn put_bytes_updates<C>(st: TermState<C>, s: Seq<u8>, color: C) -> Seq<
    ScreenUpdate<C>,
>
    decreases s.len(),
{
    if s.len() == 0 {
        Seq::empty()
    } else {
        put_bytes_updates(st, s.drop_last(), color) + put_byte_updates(
            put_bytes(st, s.drop_last(), color),
            s.last(),
            color,
        )
    }
}

/// Scrolling keeps the text: every cell above the last line takes what the
/// cell one line below held, and only the last line is cleared.
pub proof fn lemma_scroll_keeps_text<C>(buf: Seq<Option<(u8, C)>>)
    requires
        buf.len() == CELLS,
    ensures
        scrolled(buf).len() == CELLS,
        forall|i: int| 0 <= i < CELLS - WIDTH ==> #[trigger] scrolled(buf)[i] == buf[i + WIDTH],
        forall|i: int| CELLS - WIDTH <= i < CELLS ==> #[trigger] scrolled(buf)[i] is None,
{
}

/// A new line on the last line scrolls the screen one line up and keeps
/// the cursor at the start of the last line; on another line it moves the
/// cursor to the start of the next one and keeps the text.
pub proof fn lemma_newline<C>(st: TermState<C>, color: C)
    requires
        state_ok(st),
    ensures
        ({
            let after = put_byte(st, 0x0a, color);
            &&& after.0 == 0
            &&& after.2.len() == CELLS
            &&& st.1 + 1 < HEIGHT ==> after.1 == st.1 + 1 && after.2 == st.2
            &&& st.1 + 1 == HEIGHT ==> after.1 == st.1 && (forall|i: int|
                0 <= i < CELLS - WIDTH ==> #[trigger] after.2[i] == st.2[i + WIDTH]) && (forall|i: int|
                CELLS - WIDTH <= i < CELLS ==> #[trigger] after.2[i] is None)
        }),
{
}

/// Writing a character other than a new line puts it, in its color, in
/// the cell under the cursor and nowhere else; the cursor moves one column
/// on, or to the start of the next line past the last column (the screen
/// scrolling up from the last line).
pub proof fn lemma_put_char<C>(st: TermState<C>, c: u8, color: C)
    requires
        state_ok(st),
        c != 0x0a,
    ensures
        ({
            let after = put_byte(st, c, color);
            let written = st.2.update(st.1 * WIDTH + st.0, Some((c, color)));
            &&& state_ok(after)
            &&& written[st.1 * WIDTH + st.0] == Some((c, color))
            &&& forall|i: int| 0 <= i < CELLS && i != st.1 * WIDTH + st.0 ==> #[trigger] written[i] == st.2[i]
            &&& st.0 + 1 < WIDTH ==> after == ((st.0 + 1) as usize, st.1, written)
            &&& st.0 + 1 == WIDTH && st.1 + 1 < HEIGHT ==> after == (0usize, (st.1 + 1) as usize, written)
            &&& st.0 + 1 == WIDTH && st.1 + 1 == HEIGHT ==> after.0 == 0 && after.1 == st.1 && (forall|i: int|
                0 <= i < CELLS - WIDTH ==> #[trigger] after.2[i] == written[i + WIDTH])
        }),
{
    assert(st.1 * WIDTH + st.0 < CELLS) by (nonlinear_arith)
        requires
            st.0 < WIDTH,
            st.1 < HEIGHT,
    ;
}

/// The cursor on the screen and a buffer of its size.
pub open spec fn state_ok<C>(st: TermState<C>) -> bool {
    st.0 < WIDTH && st.1 < HEIGHT && st.2.len() == CELLS
}

/// Writing a byte keeps the cursor on the screen and the buffer whole.
pub proof fn lemma_put_byte_ok<C>(st: TermState<C>, c: u8, color: C)
    requires
        state_ok(st),
    ensures
        state_ok(put_byte(st, c, color)),
{
}

/// Writing bytes keeps the cursor on the screen and the buffer whole.
pub proof fn lemma_put_bytes_ok<C>(st: TermState<C>, s: Seq<u8>, color: C)
    requires
        state_ok(st),
    ensures
        state_ok(put_bytes(st, s, color)),
    decreases s.len(),
{
    if s.len() > 0 {
        lemma_put_bytes_ok(st, s.drop_last(), color);
        lemma_put_byte_ok(put_bytes(st, s.drop_last(), color), s.last(), color);
    }
}

/// Writing `a` then `b` is writing `a + b`: the same state, and the
/// screen updates of `a` followed by those of `b`.
pub proof fn lemma_put_bytes_append<C>(st: TermState<C>, a: Seq<u8>, b: Seq<u8>, color: C)
    ensures
        put_bytes(put_bytes(st, a, color), b, color) == put_bytes(st, a + b, color),
        put_bytes_updates(st, a, color) + put_bytes_updates(put_bytes(st, a, color), b, color)
            == put_bytes_updates(st, a + b, color),
    decreases b.len(),
{
    if b.len() == 0 {
        assert(a + b =~= a);
        assert(put_bytes_updates(st, a, color) + Seq::<ScreenUpdate<C>>::empty() =~= put_bytes_updates(
            st,
            a,
            color,
        ));
    } else {
        lemma_put_bytes_append(st, a, b.drop_last(), color);
        assert((a + b).drop_last() =~= a + b.drop_last());
        assert((a + b).last() == b.last());
        let mid = put_bytes(st, a, color);
        assert(put_bytes_updates(st, a, color) + (put_bytes_updates(mid, b.drop_last(), color)
            + put_byte_updates(put_bytes(mid, b.drop_last(), color), b.last(), color))
            =~= (put_bytes_updates(st, a, color) + put_bytes_updates(mid, b.drop_last(), color))
            + put_byte_updates(put_bytes(mid, b.drop_last(), color), b.last(), color));
    }
}

impl<C: Copy> EarlyTerminal<C> {
    /// The state of the terminal that writes change.
    pub open spec fn state(&self) -> TermState<C> {
        (self.cursor.x, self.cursor.y, self.buf@)
    }

    /// A screen of 25 lines of 80 characters, the cursor on it.
    pub open spec fn wf(&self) -> bool {
        &&& self.cursor.lines == HEIGHT
        &&& self.cursor.columns == WIDTH
        &&& state_ok(self.state())
    }

    /// An empty screen, the cursor at the top left, writing in `color`.
    pub fn new(color: C) -> (r: Self)
        ensures
            r.wf(),
            r.cursor.x == 0 && r.cursor.y == 0,
            r.text_color == color,
            forall|i: int| 0 <= i < CELLS ==> #[trigger] r.buf@[i] is None,
    {
        let mut buf: Vec<Option<(u8, C)>> = Vec::new();
        let mut i: usize = 0;
        while i < CELLS
            invariant
                i <= CELLS,
                buf@.len() == i,
                forall|k: int| 0 <= k < i ==> #[trigger] buf@[k] is None,
            decreases CELLS - i,
        {
            buf.push(None);
            i = i + 1;
        }
        EarlyTerminal {
            cursor: Cursor { y: 0, x: 0, lines: HEIGHT, columns: WIDTH },
            text_color: color,
            buf,
        }
    }

    /// Sets the color of the text written next.
    pub fn set_text_color(&mut self, color: C)
        ensures
            final(self).text_color == color,
            final(self).cursor == old(self).cursor,
            final(self).buf@ == old(self).buf@,
    {
        self.text_color = color;
    }

    /// Scrolls the buffer one line up.
    fn scroll_vga_screen(&mut self)
        requires
            old(self).wf(),
        ensures
            final(self).wf(),
            final(self).cursor == old(self).cursor,
            final(self).text_color == old(self).text_color,
            final(self).buf@ == scrolled(old(self).buf@),
    {
        let m = WIDTH * (HEIGHT - 1);
        let mut i: usize = 0;
        while i < CELLS
            invariant
                m == CELLS - WIDTH,
                i <= CELLS,
                self.buf@.len() == CELLS,
                self.cursor == old(self).cursor,
                self.text_color == old(self).text_color,
                forall|k: int| 0 <= k < i ==> #[trigger] self.buf@[k] == scrolled(old(self).buf@)[k],
                forall|k: int| i <= k < CELLS ==> #[trigger] self.buf@[k] == old(self).buf@[k],
            decreases CELLS - i,
        {
            let v = if i < m {
                self.buf[i + WIDTH]
            } else {
                None
            };
            self.buf.set(i, v);
            i = i + 1;
        }
        proof {
            assert(self.buf@ =~= scrolled(old(self).buf@));
        }
    }

    /// A new line; returns whether the screen scrolled.
    fn cursor_cariage_return(&mut self) -> (scrolled: bool)
        requires
            old(self).cursor.lines == HEIGHT,
            old(self).cursor.columns == WIDTH,
            old(self).cursor.x <= WIDTH,
            old(self).cursor.y < HEIGHT,
            old(self).buf@.len() == CELLS,
        ensures
            final(self).wf(),
            final(self).state() == carriage_return(old(self).state()),
            final(self).text_color == old(self).text_color,
            scrolled == (old(self).cursor.y + 1 == HEIGHT),
    {
        let scrolled = self.cursor.y + 1 == self.cursor.lines;
        if scrolled {
            self.cursor.x = 0;
            self.scroll_vga_screen();
        } else {
            self.cursor.y = self.cursor.y + 1;
        }
        self.cursor.x = 0;
        scrolled
    }

    /// Moves the cursor one column on, to a new line past the last column;
    /// returns whether the screen scrolled.
    fn cursor_forward(&mut self) -> (scrolled: bool)
        requires
            old(self).wf(),
        ensures
            final(self).wf(),
            final(self).state() == (if old(self).cursor.x + 1 == WIDTH {
                carriage_return(((old(self).cursor.x + 1) as usize, old(self).cursor.y, old(self).buf@))
            } else {
                ((old(self).cursor.x + 1) as usize, old(self).cursor.y, old(self).buf@)
            }),
            final(self).text_color == old(self).text_color,
            scrolled == (old(self).cursor.x + 1 == WIDTH && old(self).cursor.y + 1 == HEIGHT),
    {
        self.cursor.x = self.cursor.x + 1;
        if self.cursor.x == self.cursor.columns {
            self.cursor_cariage_return()
        } else {
            false
        }
    }

    /// Writes the byte `c`: a new line for '\n', else the character in the
    /// text color under the cursor, which moves on. Returns what the
    /// screen needs.
    fn write_byte(&mut self, c: u8) -> (updates: Vec<ScreenUpdate<C>>)
        requires
            old(self).wf(),
        ensures
            final(self).wf(),
            final(self).state() == put_byte(old(self).state(), c, old(self).text_color),
            final(self).text_color == old(self).text_color,
            updates@ == put_byte_updates(old(self).state(), c, old(self).text_color),
    {
        let mut updates: Vec<ScreenUpdate<C>> = Vec::new();
        if c == 0x0a {
            if self.cursor_cariage_return() {
                updates.push(ScreenUpdate::Redraw);
            }
            proof {
                assert(updates@ =~= put_byte_updates(old(self).state(), c, old(self).text_color));
            }
        } else {
            let (line, column) = (self.cursor.y, self.cursor.x);
            self.buf.set(line * WIDTH + column, Some((c, self.text_color)));
            updates.push(ScreenUpdate::Draw { c, line, column, color: self.text_color });
            if self.cursor_forward() {
                updates.push(ScreenUpdate::Redraw);
            }
            proof {
                assert(updates@ =~= put_byte_updates(old(self).state(), c, old(self).text_color));
            }
        }
        updates
    }

    /// Writes the bytes `s` (see `put_bytes`), and returns what the screen
    /// needs, in order.
    pub fn write_str(&mut self, s: &[u8]) -> (updates: Vec<ScreenUpdate<C>>)
        requires
            old(self).wf(),
        ensures
            final(self).wf(),
            final(self).state() == put_bytes(old(self).state(), s@, old(self).text_color),
            final(self).text_color == old(self).text_color,
            updates@ == put_bytes_updates(old(self).state(), s@, old(self).text_color),
    {
        let mut updates: Vec<ScreenUpdate<C>> = Vec::new();
        let mut i: usize = 0;
        while i < s.len()
            invariant
                i <= s@.len(),
                self.wf(),
                self.text_color == old(self).text_color,
                self.state() == put_bytes(old(self).state(), s@.take(i as int), old(self).text_color),
                updates@ == put_bytes_updates(
                    old(self).state(),
                    s@.take(i as int),
                    old(self).text_color,
                ),
            decreases s@.len() - i,
        {
            let more = self.write_byte(s[i]);
            let mut k: usize = 0;
            let ghost before = updates@;
            while k < more.len()
                invariant
                    k <= more@.len(),
                    updates@ == before + more@.take(k as int),
                decreases more@.len() - k,
            {
                updates.push(more[k]);
                proof {
                    assert(updates@ =~= before + more@.take(k as int + 1));
                }
                k = k + 1;
            }
            proof {
                assert(more@.take(more@.len() as int) =~= more@);
                assert(s@.take(i as int + 1).drop_last() =~= s@.take(i as int));
            }
            i = i + 1;
        }
        proof {
            assert(s@.take(s@.len() as int) =~= s@);
        }
        updates
    }
}

} // verus!
