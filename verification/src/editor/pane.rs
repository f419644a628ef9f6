//! The editing pane: a modal text-editing widget over the external
//! text store, with the ghost-column cursor model. Every edit and move
//! is specified against the navigation model in `text`.

use vstd::prelude::*;

use crate::buffer::Buffer;
use crate::buffer::Cell;
use crate::editor::event::InsertModeEvent;
use crate::editor::event::NormalModeEvent;
use crate::editor::keymaps::spec_insert_mode;
use crate::editor::keymaps::spec_normal_mode;
use crate::editor::EditorState;
use crate::event::dup_event;
use crate::event::Event;
use crate::nav::end_at;
use crate::nav::home_at;
use crate::nav::horizontal_at;
use crate::nav::line_len_at;
use crate::nav::pos_to_xy_at;
use crate::nav::vertical_at;
use crate::rope::rope_chars;
use crate::rope::rope_insert;
use crate::rope::rope_insert_char;
use crate::rope::rope_len_chars;
use crate::rope::rope_len_lines;
use crate::rope::rope_new;
use crate::rope::rope_to_vec;
use crate::rope::rope_try_remove;
use crate::text::lemma_line_extent;
use crate::text::line_count;
use crate::text::line_of;
use crate::text::line_start;
use crate::text::nav_line_len;
use crate::text::raw_line_len;
use crate::text::spec_end_move;
use crate::text::spec_home_move;
use crate::text::spec_horizontal_move;
use crate::text::spec_vertical_move;
use crate::ui::ControlFlow;
use crate::ui::Widget;

verus! {

/// The pane's input mode: navigation, or literal insertion.
#[derive(Debug, Clone, Copy, PartialEq, Eq, Structural)]
pub enum Mode {
    Normal,
    Insert,
}

/// A screen coordinate pair: column, then line.
#[derive(Debug, Clone, Copy, PartialEq, Eq, Structural)]
pub struct Pos {
    pub x: usize,
    pub y: usize,
}

/// A modal editing pane: the text, the cursor's absolute position, the
/// remembered ghost column (as an absolute position), and the mode.
pub struct Pane {
    pub rope: ropey::Rope,
    pub cursor_pos: usize,
    pub cursor_ghost_pos: usize,
    pub mode: Mode,
}

/// How a normal-mode event transforms the pane: the text never
/// changes; `i` enters insert mode; everything else moves the cursor
/// as the navigation model says.
pub open spec fn normal_event_applied(o: Pane, n: Pane, e: NormalModeEvent) -> bool {
    let s = rope_chars(o.rope);
    rope_chars(n.rope) == s && match e {
        NormalModeEvent::InsertMode => n.mode == Mode::Insert && n.cursor_pos == o.cursor_pos
            && n.cursor_ghost_pos == o.cursor_ghost_pos,
        NormalModeEvent::MoveUp => n.mode == o.mode && (n.cursor_pos as int, n.cursor_ghost_pos as int)
            == spec_vertical_move(s, o.cursor_pos as int, o.cursor_ghost_pos as int, -1),
        NormalModeEvent::MoveDown => n.mode == o.mode && (n.cursor_pos as int, n.cursor_ghost_pos as int)
            == spec_vertical_move(s, o.cursor_pos as int, o.cursor_ghost_pos as int, 1),
        NormalModeEvent::MoveLeft => n.mode == o.mode && n.cursor_pos == spec_horizontal_move(
            s,
            o.cursor_pos as int,
            -1,
        ) && n.cursor_ghost_pos == n.cursor_pos,
        NormalModeEvent::MoveRight => n.mode == o.mode && n.cursor_pos == spec_horizontal_move(
            s,
            o.cursor_pos as int,
            1,
        ) && n.cursor_ghost_pos == n.cursor_pos,
        NormalModeEvent::MoveHome => n.mode == o.mode && n.cursor_pos == spec_home_move(
            s,
            o.cursor_pos as int,
        ) && n.cursor_ghost_pos == n.cursor_pos,
        NormalModeEvent::MoveEnd => n.mode == o.mode && n.cursor_pos == spec_end_move(
            s,
            o.cursor_pos as int,
        ) && n.cursor_ghost_pos == n.cursor_pos,
    }
}

/// How an insert-mode event transforms the pane: characters and
/// injected text insert at the cursor and advance it; Delete removes
/// the character under the cursor; Backspace removes the one before
/// it; moves follow the navigation model; Escape returns to normal
/// mode.
pub open spec fn insert_event_applied(o: Pane, n: Pane, e: InsertModeEvent) -> bool {
    let s = rope_chars(o.rope);
    match e {
        InsertModeEvent::InsertChar(c) => n.mode == o.mode && rope_chars(n.rope) == s.insert(
            o.cursor_pos as int,
            c,
        ) && n.cursor_pos == o.cursor_pos + 1 && n.cursor_ghost_pos == n.cursor_pos,
        InsertModeEvent::InsertString(st) => n.mode == o.mode && rope_chars(n.rope) == s.take(
            o.cursor_pos as int,
        ) + st@ + s.skip(o.cursor_pos as int) && n.cursor_pos == o.cursor_pos + st@.len()
            && n.cursor_ghost_pos == n.cursor_pos,
        InsertModeEvent::Delete => n.mode == o.mode && n.cursor_pos == o.cursor_pos && (
        if o.cursor_pos < s.len() {
            rope_chars(n.rope) == s.take(o.cursor_pos as int) + s.skip(o.cursor_pos + 1)
                && n.cursor_ghost_pos == (if o.cursor_ghost_pos <= s.len() - 1 {
                o.cursor_ghost_pos as int
            } else {
                s.len() - 1
            })
        } else {
            rope_chars(n.rope) == s && n.cursor_ghost_pos == o.cursor_ghost_pos
        }),
        InsertModeEvent::Backspace => n.mode == o.mode && (if o.cursor_pos > 0 {
            rope_chars(n.rope) == s.take(o.cursor_pos - 1) + s.skip(o.cursor_pos as int)
                && n.cursor_pos == o.cursor_pos - 1
        } else {
            rope_chars(n.rope) == s && n.cursor_pos == 0
        }) && n.cursor_ghost_pos == n.cursor_pos,
        InsertModeEvent::MoveUp => n.mode == o.mode && rope_chars(n.rope) == s && (
        n.cursor_pos as int,
        n.cursor_ghost_pos as int,
        ) == spec_vertical_move(s, o.cursor_pos as int, o.cursor_ghost_pos as int, -1),
        InsertModeEvent::MoveDown => n.mode == o.mode && rope_chars(n.rope) == s && (
        n.cursor_pos as int,
        n.cursor_ghost_pos as int,
        ) == spec_vertical_move(s, o.cursor_pos as int, o.cursor_ghost_pos as int, 1),
        InsertModeEvent::MoveLeft => n.mode == o.mode && rope_chars(n.rope) == s && n.cursor_pos
            == spec_horizontal_move(s, o.cursor_pos as int, -1) && n.cursor_ghost_pos
            == n.cursor_pos,
        InsertModeEvent::MoveRight => n.mode == o.mode && rope_chars(n.rope) == s && n.cursor_pos
            == spec_horizontal_move(s, o.cursor_pos as int, 1) && n.cursor_ghost_pos
            == n.cursor_pos,
        InsertModeEvent::MoveHome => n.mode == o.mode && rope_chars(n.rope) == s && n.cursor_pos
            == spec_home_move(s, o.cursor_pos as int) && n.cursor_ghost_pos == n.cursor_pos,
        InsertModeEvent::MoveEnd => n.mode == o.mode && rope_chars(n.rope) == s && n.cursor_pos
            == spec_end_move(s, o.cursor_pos as int) && n.cursor_ghost_pos == n.cursor_pos,
        InsertModeEvent::Escape => n.mode == Mode::Normal && rope_chars(n.rope) == s
            && n.cursor_pos == o.cursor_pos && n.cursor_ghost_pos == o.cursor_ghost_pos,
    }
}

/// Whether the pane consumes a raw event in its current mode.
pub open spec fn pane_accepts(p: Pane, event: Event) -> bool {
    match p.mode {
        Mode::Normal => spec_normal_mode(event) is Some,
        Mode::Insert => spec_insert_mode(event) is Some,
    }
}

/// How one raw event transforms the pane: dispatched through the
/// current mode's table, applied as that mode's semantics say; an
/// event the mode does not understand leaves the pane unchanged.
pub open spec fn pane_step(o: Pane, n: Pane, event: Event) -> bool {
    match o.mode {
        Mode::Normal => match spec_normal_mode(event) {
            Some(ne) => normal_event_applied(o, n, ne),
            None => n == o,
        },
        Mode::Insert => match spec_insert_mode(event) {
            Some(ie) => insert_event_applied(o, n, ie),
            None => n == o,
        },
    }
}

impl Pane {
    /// The pane's text.
    pub open spec fn text(self) -> Seq<char> {
        rope_chars(self.rope)
    }

    /// The cursor and its ghost always lie within the text.
    pub open spec fn wf(self) -> bool {
        self.cursor_pos <= self.text().len() && self.cursor_ghost_pos <= self.text().len()
    }

    /// The pane's screen coordinates for an absolute position.
    pub fn pos_to_xy(&self, pos: usize) -> (r: Option<Pos>)
        requires
            self.wf(),
            pos <= self.text().len(),
        ensures
            r == Some(
                Pos {
                    x: (pos - line_start(
                        self.text(),
                        line_of(self.text(), pos as int) as int,
                    )) as usize,
                    y: line_of(self.text(), pos as int) as usize,
                },
            ),
    {
        let (x, y) = pos_to_xy_at(&self.rope, pos);
        Some(Pos { x, y })
    }

    /// The navigable length of a line, or `None` past the last line.
    pub fn line_len(&self, line_y: usize) -> (r: Option<usize>)
        requires
            self.wf(),
        ensures
            line_y < line_count(self.text()) ==> r == Some(
                nav_line_len(self.text(), line_y as int) as usize,
            ),
            line_y >= line_count(self.text()) ==> r is None,
    {
        let nlines = rope_len_lines(&self.rope);
        if line_y < nlines {
            Some(line_len_at(&self.rope, line_y))
        } else {
            None
        }
    }

    /// Moves the cursor horizontally by `offset`, clamped to the text;
    /// the ghost column follows the cursor.
    pub fn move_cursor(&mut self, offset: isize)
        requires
            old(self).wf(),
        ensures
            final(self).wf(),
            final(self).text() == old(self).text(),
            final(self).mode == old(self).mode,
            final(self).cursor_pos == spec_horizontal_move(
                old(self).text(),
                old(self).cursor_pos as int,
                offset as int,
            ),
            final(self).cursor_ghost_pos == final(self).cursor_pos,
    {
        let new_pos = horizontal_at(&self.rope, self.cursor_pos, offset);
        self.cursor_pos = new_pos;
        self.cursor_ghost_pos = new_pos;
    }

    /// Moves the cursor vertically by `offset` lines, snapping to the
    /// text's boundaries and carrying the ghost column across lines of
    /// different lengths; the ghost itself does not move.
    pub fn move_cursor_vertical(&mut self, offset: isize)
        requires
            old(self).wf(),
        ensures
            final(self).wf(),
            final(self).text() == old(self).text(),
            final(self).mode == old(self).mode,
            (final(self).cursor_pos as int, final(self).cursor_ghost_pos as int)
                == spec_vertical_move(
                old(self).text(),
                old(self).cursor_pos as int,
                old(self).cursor_ghost_pos as int,
                offset as int,
            ),
    {
        let (p, g) = vertical_at(&self.rope, self.cursor_pos, self.cursor_ghost_pos, offset);
        self.cursor_pos = p;
        self.cursor_ghost_pos = g;
    }

    /// Moves to the start of the current line; the ghost follows.
    pub fn move_cursor_home(&mut self)
        requires
            old(self).wf(),
        ensures
            final(self).wf(),
            final(self).text() == old(self).text(),
            final(self).mode == old(self).mode,
            final(self).cursor_pos == spec_home_move(old(self).text(), old(self).cursor_pos as int),
            final(self).cursor_ghost_pos == final(self).cursor_pos,
    {
        let p = home_at(&self.rope, self.cursor_pos);
        self.cursor_pos = p;
        self.cursor_ghost_pos = p;
    }

    /// Moves to the navigable end of the current line; the ghost
    /// follows.
    pub fn move_cursor_end(&mut self)
        requires
            old(self).wf(),
        ensures
            final(self).wf(),
            final(self).text() == old(self).text(),
            final(self).mode == old(self).mode,
            final(self).cursor_pos == spec_end_move(old(self).text(), old(self).cursor_pos as int),
            final(self).cursor_ghost_pos == final(self).cursor_pos,
    {
        let p = end_at(&self.rope, self.cursor_pos);
        self.cursor_pos = p;
        self.cursor_ghost_pos = p;
    }

    /// Applies one normal-mode event.
    pub fn handle_normal_mode_event(&mut self, event: NormalModeEvent)
        requires
            old(self).wf(),
        ensures
            final(self).wf(),
            normal_event_applied(*old(self), *final(self), event),
    {
        match event {
            NormalModeEvent::InsertMode => {
                self.mode = Mode::Insert;
            },
            NormalModeEvent::MoveUp => self.move_cursor_vertical(-1),
            NormalModeEvent::MoveDown => self.move_cursor_vertical(1),
            NormalModeEvent::MoveLeft => self.move_cursor(-1),
            NormalModeEvent::MoveRight => self.move_cursor(1),
            NormalModeEvent::MoveHome => self.move_cursor_home(),
            NormalModeEvent::MoveEnd => self.move_cursor_end(),
        }
    }

    /// Applies one insert-mode event.
    pub fn handle_insert_mode_event(&mut self, event: InsertModeEvent)
        requires
            old(self).wf(),
        ensures
            final(self).wf(),
            insert_event_applied(*old(self), *final(self), event),
    {
        match event {
            InsertModeEvent::InsertChar(c) => {
                rope_insert_char(&mut self.rope, self.cursor_pos, c);
                let newlen = rope_len_chars(&self.rope);
                assert(self.cursor_pos + 1 <= newlen);
                self.cursor_pos = self.cursor_pos + 1;
                self.cursor_ghost_pos = self.cursor_pos;
            },
            InsertModeEvent::InsertString(s) => {
                let ghost oldtext = rope_chars(self.rope);
                rope_insert(&mut self.rope, self.cursor_pos, s.as_str());
                let added = s.as_str().unicode_len();
                let newlen = rope_len_chars(&self.rope);
                proof {
                    assert(rope_chars(self.rope).len() == oldtext.len() + s@.len());
                }
                assert(self.cursor_pos + added <= newlen);
                self.cursor_pos = self.cursor_pos + added;
                self.cursor_ghost_pos = self.cursor_pos;
            },
            InsertModeEvent::Delete => {
                let len = rope_len_chars(&self.rope);
                if self.cursor_pos < len {
                    let removed = rope_try_remove(
                        &mut self.rope,
                        self.cursor_pos,
                        self.cursor_pos + 1,
                    );
                    proof {
                        assert(removed);
                    }
                    let newlen = rope_len_chars(&self.rope);
                    if self.cursor_ghost_pos > newlen {
                        self.cursor_ghost_pos = newlen;
                    }
                }
            },
            InsertModeEvent::Backspace => {
                if self.cursor_pos > 0 {
                    let removed = rope_try_remove(
                        &mut self.rope,
                        self.cursor_pos - 1,
                        self.cursor_pos,
                    );
                    proof {
                        assert(removed);
                    }
                    self.cursor_pos = self.cursor_pos - 1;
                }
                self.cursor_ghost_pos = self.cursor_pos;
            },
            InsertModeEvent::MoveUp => self.move_cursor_vertical(-1),
            InsertModeEvent::MoveDown => self.move_cursor_vertical(1),
            InsertModeEvent::MoveLeft => self.move_cursor(-1),
            InsertModeEvent::MoveRight => self.move_cursor(1),
            InsertModeEvent::MoveHome => self.move_cursor_home(),
            InsertModeEvent::MoveEnd => self.move_cursor_end(),
            InsertModeEvent::Escape => {
                self.mode = Mode::Normal;
            },
        }
    }
}

impl Default for Pane {
    /// An empty pane in normal mode.
    fn default() -> (r: Pane)
        ensures
            r.wf(),
            r.text() == Seq::<char>::empty(),
            r.cursor_pos == 0,
            r.cursor_ghost_pos == 0,
            r.mode == Mode::Normal,
    {
        Pane { rope: rope_new(), cursor_pos: 0, cursor_ghost_pos: 0, mode: Mode::Normal }
    }
}

impl Widget<EditorState> for Pane {
    open spec fn state_ok(state: EditorState) -> bool {
        state.wf()
    }

    open spec fn inv(&self) -> bool {
        self.wf()
    }

    fn handle_event(&mut self, state: &mut EditorState, event: &Event) -> (r: Option<ControlFlow>)
        ensures
            r == (if pane_accepts(*old(self), *event) {
                Some(ControlFlow::Continue)
            } else {
                Option::<ControlFlow>::None
            }),
            pane_step(*old(self), *final(self), *event),
    {
        match self.mode {
            Mode::Normal => {
                match state.key_maps.normal_mode(dup_event(event)) {
                    Ok(ne) => {
                        self.handle_normal_mode_event(ne);
                        Some(ControlFlow::Continue)
                    },
                    Err(_) => None,
                }
            },
            Mode::Insert => {
                match state.key_maps.insert_mode(dup_event(event)) {
                    Ok(ie) => {
                        self.handle_insert_mode_event(ie);
                        Some(ControlFlow::Continue)
                    },
                    Err(_) => None,
                }
            },
        }
    }

    fn update(&mut self, state: &mut EditorState) -> (r: ControlFlow)
        ensures
            r == ControlFlow::Continue,
            *final(self) == *old(self),
            *final(state) == *old(state),
    {
        ControlFlow::Continue
    }

    fn render(&mut self, buf: &mut Buffer)
        ensures
            *final(self) == *old(self),
            forall|x: int, y: int|
                0 <= x < old(buf).spec_width() && 0 <= y < old(buf).spec_height()
                    ==> #[trigger] final(buf).spec_cell(x, y) == spec_rendered_cell(
                    old(self).text(),
                    *old(buf),
                    x,
                    y,
                ),
            final(buf).spec_cursor() == spec_render_cursor(
                old(self).text(),
                old(self).cursor_pos as int,
                *old(buf),
            ),
    {
        render_with_cursor(&self.rope, self.cursor_pos, buf);
    }
}

/// How many cells of row `j` the text paints: the row's raw line
/// length (trailing newline included), clipped to the buffer width.
pub open spec fn spec_row_cols(s: Seq<char>, w: int, j: int) -> int {
    if raw_line_len(s, j) < w {
        raw_line_len(s, j)
    } else {
        w
    }
}

/// What one buffer cell holds after the text is drawn over it: within
/// a line's painted extent, the line's character with the cell's
/// former style; everywhere else, the former cell.
pub open spec fn spec_rendered_cell(s: Seq<char>, prev: Buffer, x: int, y: int) -> Cell {
    if y < line_count(s) && x < spec_row_cols(s, prev.spec_width() as int, y) {
        Cell { c: s[line_start(s, y) + x], style: prev.spec_cell(x, y).style }
    } else {
        prev.spec_cell(x, y)
    }
}

/// Draws a text into a buffer: for each of the first `height` lines,
/// its first `width` characters (including a trailing newline, which
/// the encoder later strips) overwrite the row's cell characters,
/// keeping each cell's style; cells past a line's end and rows past
/// the last line keep their contents.
pub fn render_text(rope: &ropey::Rope, buf: &mut Buffer)
    requires
        old(buf).wf(),
    ensures
        final(buf).wf(),
        final(buf).spec_width() == old(buf).spec_width(),
        final(buf).spec_height() == old(buf).spec_height(),
        final(buf).spec_cursor() == old(buf).spec_cursor(),
        forall|x: int, y: int|
            0 <= x < old(buf).spec_width() && 0 <= y < old(buf).spec_height()
                ==> #[trigger] final(buf).spec_cell(x, y) == spec_rendered_cell(
                rope_chars(*rope),
                *old(buf),
                x,
                y,
            ),
{
    let ghost snap = *old(buf);
    let ghost txt = rope_chars(*rope);
    let chars = rope_to_vec(rope);
    let clen = chars.len();
    let nlines = rope_len_lines(rope);
    let h = buf.height();
    let w = buf.width();

    let rows = if nlines < h {
        nlines
    } else {
        h
    };

    let mut y: usize = 0;
    while y < rows
        invariant
            buf.wf(),
            buf.spec_width() == snap.spec_width(),
            buf.spec_height() == snap.spec_height(),
            buf.spec_cursor() == snap.spec_cursor(),
            snap.wf(),
            w == buf.spec_width(),
            h == buf.spec_height(),
            rows <= h,
            rows <= line_count(txt),
            txt == rope_chars(*rope),
            chars@ == txt,
            clen == chars@.len(),
            forall|i: int, j: int|
                0 <= i < w && 0 <= j < h ==> #[trigger] buf.spec_cell(i, j) == (if j < y && j
                    < line_count(txt) && i < spec_row_cols(txt, w as int, j) {
                    Cell { c: txt[line_start(txt, j) + i], style: snap.spec_cell(i, j).style }
                } else {
                    snap.spec_cell(i, j)
                }),
        decreases rows - y,
    {
        let start = crate::nav::line_start_of(rope, y);
        let raw = raw_line_len_of(rope, y);
        let cols = if raw < w {
            raw
        } else {
            w
        };
        proof {
            assert(cols == spec_row_cols(txt, w as int, y as int));
        }

        let ghost mid = *buf;
        paint_row(&chars, buf, y, start, cols);
        proof {
            assert forall|i: int, j: int|
                0 <= i < w && 0 <= j < h implies #[trigger] buf.spec_cell(i, j) == (if j < y + 1
                    && j < line_count(txt) && i < spec_row_cols(txt, w as int, j) {
                    Cell { c: txt[line_start(txt, j) + i], style: snap.spec_cell(i, j).style }
                } else {
                    snap.spec_cell(i, j)
                }) by {
                assert(mid.spec_cell(i, j) == (if j < y && j < line_count(txt) && i
                    < spec_row_cols(txt, w as int, j) {
                    Cell { c: txt[line_start(txt, j) + i], style: snap.spec_cell(i, j).style }
                } else {
                    snap.spec_cell(i, j)
                }));
            }
        }
        y = y + 1;
    }

    proof {
        assert forall|x: int, y: int|
            0 <= x < snap.spec_width() && 0 <= y < snap.spec_height()
                implies #[trigger] buf.spec_cell(x, y) == spec_rendered_cell(txt, snap, x, y) by {
            assert(buf.spec_cell(x, y) == (if y < rows && y < line_count(txt) && x < spec_row_cols(
                txt,
                w as int,
                y,
            ) {
                Cell { c: txt[line_start(txt, y) + x], style: snap.spec_cell(x, y).style }
            } else {
                snap.spec_cell(x, y)
            }));
        }
    }
}

/// Where the rendered cursor lands: the cursor's screen coordinates
/// when they fit the buffer, otherwise the buffer's previous cursor.
pub open spec fn spec_render_cursor(s: Seq<char>, pos: int, prev: Buffer) -> Option<
    (usize, usize),
> {
    let cy = line_of(s, pos) as int;
    let cx = pos - line_start(s, cy);
    if cx < prev.spec_width() && cy < prev.spec_height() {
        Some(((cx as usize), (cy as usize)))
    } else {
        prev.spec_cursor()
    }
}

/// Renders a text and its cursor into a buffer: the cells as
/// `spec_rendered_cell` says, and the cursor position when it fits on
/// screen.
pub fn render_with_cursor(rope: &ropey::Rope, pos: usize, buf: &mut Buffer)
    requires
        old(buf).wf(),
        pos <= rope_chars(*rope).len(),
    ensures
        final(buf).wf(),
        final(buf).spec_width() == old(buf).spec_width(),
        final(buf).spec_height() == old(buf).spec_height(),
        forall|x: int, y: int|
            0 <= x < old(buf).spec_width() && 0 <= y < old(buf).spec_height()
                ==> #[trigger] final(buf).spec_cell(x, y) == spec_rendered_cell(
                rope_chars(*rope),
                *old(buf),
                x,
                y,
            ),
        final(buf).spec_cursor() == spec_render_cursor(
            rope_chars(*rope),
            pos as int,
            *old(buf),
        ),
{
    let ghost snap = *old(buf);
    let ghost txt = rope_chars(*rope);
    render_text(rope, buf);

    let (cx, cy) = pos_to_xy_at(rope, pos);
    let ghost mid = *buf;
    if cx < buf.width() && cy < buf.height() {
        buf.set_cursor(Some((cx, cy)));
    }
    proof {
        assert forall|x: int, y: int|
            0 <= x < snap.spec_width() && 0 <= y < snap.spec_height()
                implies #[trigger] buf.spec_cell(x, y) == spec_rendered_cell(txt, snap, x, y) by {
            assert(mid.spec_cell(x, y) == spec_rendered_cell(txt, snap, x, y));
            assert(buf.spec_cell(x, y) == mid.spec_cell(x, y));
        }
    }
}

/// Paints `cols` characters of one text row over row `y` of the
/// buffer, starting at `start` in the character array; each painted
/// cell keeps its style.
pub(crate) fn paint_row(chars: &Vec<char>, buf: &mut Buffer, y: usize, start: usize, cols: usize)
    requires
        old(buf).wf(),
        y < old(buf).spec_height(),
        cols <= old(buf).spec_width(),
        start + cols <= chars@.len(),
    ensures
        final(buf).wf(),
        final(buf).spec_width() == old(buf).spec_width(),
        final(buf).spec_height() == old(buf).spec_height(),
        final(buf).spec_cursor() == old(buf).spec_cursor(),
        forall|i: int, j: int|
            0 <= i < old(buf).spec_width() && 0 <= j < old(buf).spec_height()
                ==> #[trigger] final(buf).spec_cell(i, j) == (if j == y && i < cols {
                Cell { c: chars@[start + i], style: old(buf).spec_cell(i, j).style }
            } else {
                old(buf).spec_cell(i, j)
            }),
{
    let ghost snap = *old(buf);
    let w = buf.width();
    let h = buf.height();
    let clen = chars.len();
    let mut x: usize = 0;
    while x < cols
        invariant
            buf.wf(),
            buf.spec_width() == snap.spec_width(),
            buf.spec_height() == snap.spec_height(),
            buf.spec_cursor() == snap.spec_cursor(),
            w == buf.spec_width(),
            h == buf.spec_height(),
            y < h,
            cols <= w,
            clen == chars@.len(),
            start + cols <= clen,
            x <= cols,
            forall|i: int, j: int|
                0 <= i < w && 0 <= j < h ==> #[trigger] buf.spec_cell(i, j) == (if j == y && i < x {
                    Cell { c: chars@[start + i], style: snap.spec_cell(i, j).style }
                } else {
                    snap.spec_cell(i, j)
                }),
        decreases cols - x,
    {
        let c = chars[start + x];
        let ghost mid = *buf;
        buf.set_char(x, y, c);
        proof {
            assert forall|i: int, j: int|
                0 <= i < w && 0 <= j < h implies #[trigger] buf.spec_cell(i, j) == (if j == y && i
                    < x + 1 {
                    Cell { c: chars@[start + i], style: snap.spec_cell(i, j).style }
                } else {
                    snap.spec_cell(i, j)
                }) by {
                assert(mid.spec_cell(i, j) == (if j == y && i < x {
                    Cell { c: chars@[start + i], style: snap.spec_cell(i, j).style }
                } else {
                    snap.spec_cell(i, j)
                }));
            }
        }
        x = x + 1;
    }
}

/// The raw length of line `line`, trailing newline included.
fn raw_line_len_of(rope: &ropey::Rope, line: usize) -> (r: usize)
    requires
        line < line_count(rope_chars(*rope)),
    ensures
        r == raw_line_len(rope_chars(*rope), line as int),
        line_start(rope_chars(*rope), line as int) + r <= rope_chars(*rope).len(),
{
    let ghost s = rope_chars(*rope);
    let start = crate::nav::line_start_of(rope, line);
    let nlines = rope_len_lines(rope);
    let next = if line + 1 == nlines {
        rope_len_chars(rope)
    } else {
        crate::nav::line_start_of(rope, line + 1)
    };
    proof {
        lemma_line_extent(s, line as int);
        assert(next == line_start(s, line + 1));
    }
    next - start
}

} // verus!
