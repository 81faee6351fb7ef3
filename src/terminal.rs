//! The terminal engine: screen buffer, cursor, viewport size, dirty flag,
//! tokenizer and the queue of replies for the shell, as one owned value.
use vstd::prelude::*;
use crate::event::Event;
use crate::model::{
    MAX_LINES, ScreenModel, EventModel, print_spec, execute_spec, csi_spec, apply_event, apply_all,
    extend_rows, move_to, move_col, make_row, evict_for_row, MAX_ROW, translate_key, count_param, status_reply, erase_display, erase_line,
    head, tail, line_at, pad_to, put_char, spaces, write_spec, text_of, visible, join_lines,
    resize_spec, LINE_FEED, CARRIAGE_RETURN, BACKSPACE, DELETE,
};
use crate::protocol::{
    chars_from, string_from_chars, params_view, param_at, has_no_params, cursor_report_bytes,
};
use crate::tokenizer::{Tokenizer, fresh_events, event_views};
use crate::utf8::{Utf8Carry, frame};

verus! {

/// Viewport size in character cells.
#[derive(Clone, Copy, PartialEq, Eq, Structural)]
pub struct Size {
    pub cols: u16,
    pub rows: u16,
}

pub struct TerminalInner {
    lines: Vec<Vec<char>>,
    cursor_x: usize,
    cursor_y: usize,
    size: Option<Size>,
    dirty: bool,
    tokenizer: Tokenizer,
    carry: Utf8Carry,
    outbound: Vec<Vec<u8>>,
}

pub open spec fn line_views(ls: Seq<Vec<char>>) -> Seq<Seq<char>> {
    ls.map_values(|l: Vec<char>| l@)
}

pub open spec fn initial_model() -> ScreenModel {
    ScreenModel {
        lines: Seq::empty(),
        cx: 0,
        cy: 0,
        size: None,
        dirty: false,
        out: Seq::empty(),
    }
}

impl TerminalInner {
    pub closed spec fn model(&self) -> ScreenModel {
        ScreenModel {
            lines: line_views(self.lines@),
            cx: self.cursor_x as nat,
            cy: self.cursor_y as nat,
            size: match self.size {
                Some(s) => Some((s.cols, s.rows)),
                None => None,
            },
            dirty: self.dirty,
            out: self.outbound@.map_values(|v: Vec<u8>| v@),
        }
    }

    /// The input so far: the chunks handed to the tokenizer, one per feed,
    /// and the bytes held back because they do not yet form a character.
    pub closed spec fn history(&self) -> (Seq<Seq<u8>>, Seq<u8>) {
        (self.tokenizer.chunks(), self.carry.pending())
    }

    /// The buffer never holds more than `MAX_LINES` lines, and the cursor
    /// row stays within what a control sequence can address.
    pub closed spec fn wf(&self) -> bool {
        &&& self.lines@.len() <= MAX_LINES
        &&& self.cursor_y <= MAX_ROW
    }

    pub fn new() -> (r: Self)
        ensures
            r.wf(),
            r.model() == initial_model(),
            r.history() == (Seq::<Seq<u8>>::empty(), Seq::<u8>::empty()),
    {
        let r = TerminalInner {
            lines: Vec::new(),
            cursor_x: 0,
            cursor_y: 0,
            size: None,
            dirty: false,
            tokenizer: Tokenizer::new(),
            carry: Utf8Carry::new(),
            outbound: Vec::new(),
        };
        assert(r.model().lines =~= Seq::<Seq<char>>::empty());
        assert(r.model().out =~= Seq::<Seq<u8>>::empty());
        r
    }

    /// Makes the cursor row exist, evicting the oldest lines where the row
    /// lies past the cap and adding empty lines up to it.
    fn make_row(&mut self)
        requires
            old(self).lines@.len() <= MAX_LINES,
            old(self).cursor_y <= MAX_ROW + 1,
        ensures
            final(self).wf(),
            final(self).history() == old(self).history(),
            final(self).model() == make_row(old(self).model()),
            final(self).cursor_y < final(self).lines@.len(),
    {
        let ghost m0 = self.model();
        if self.cursor_y >= MAX_LINES {
            let d = self.cursor_y + 1 - MAX_LINES;
            if d < self.lines.len() {
                let kept = self.lines.split_off(d);
                self.lines = kept;
                assert(line_views(self.lines@) =~= m0.lines.skip(d as int));
            } else {
                self.lines.clear();
                assert(line_views(self.lines@) =~= Seq::<Seq<char>>::empty());
            }
            self.cursor_y = MAX_LINES - 1;
        }
        let ghost m = self.model();
        assert(m.lines == evict_for_row(m0.lines, m0.cy));
        let y = self.cursor_y;
        while self.lines.len() <= y
            invariant
                y == self.cursor_y,
                y < MAX_LINES,
                self.lines@.len() <= y + 1 || self.lines@.len() == m.lines.len(),
                self.lines@.len() >= m.lines.len(),
                self.lines@.len() <= MAX_LINES,
                self.cursor_x == m.cx,
                self.size == old(self).size,
                self.dirty == old(self).dirty,
                self.outbound == old(self).outbound,
                self.tokenizer == old(self).tokenizer,
                self.carry == old(self).carry,
                m.lines.len() <= MAX_LINES,
                forall|i: int| 0 <= i < m.lines.len() ==> #[trigger] self.lines@[i]@ == m.lines[i],
                forall|i: int| m.lines.len() <= i < self.lines@.len() ==> #[trigger] self.lines@[i]@ == Seq::<char>::empty(),
            decreases y + 1 - self.lines@.len(),
        {
            self.lines.push(Vec::new());
            assert(self.lines@.last()@ =~= Seq::<char>::empty());
        }
        assert(line_views(self.lines@) =~= extend_rows(m.lines, y as nat));
    }

    /// Places `c` at the cursor, growing the buffer and the line as needed,
    /// and advances the cursor by one column.
    pub fn print(&mut self, c: char)
        requires
            old(self).wf(),
        ensures
            final(self).wf(),
            final(self).history() == old(self).history(),
            final(self).model() == print_spec(old(self).model(), c),
    {
        self.make_row();
        let ghost m = self.model();
        let y = self.cursor_y;
        let ghost ext = m.lines;
        let mut line: Vec<char> = Vec::new();
        self.lines.set_and_swap(y, &mut line);
        let x = self.cursor_x;
        let ghost l0 = line@;
        while line.len() < x
            invariant
                l0.len() <= line@.len() <= x || line@.len() == l0.len(),
                line@ =~= l0 + spaces((line@.len() - l0.len()) as nat),
            decreases x - line@.len(),
        {
            line.push(' ');
        }
        assert(line@ =~= pad_to(l0, x as nat));
        if x == line.len() {
            line.push(c);
        } else {
            line.set(x, c);
        }
        assert(line@ =~= put_char(l0, x as nat, c));
        let width = line.len();
        assert(x < width);
        self.lines.set_and_swap(y, &mut line);
        self.cursor_x = x + 1;
        self.dirty = true;
        assert(line_views(self.lines@) =~= ext.update(y as int, put_char(ext[y as int], x as nat, c)));
    }

    /// Control bytes: line feed moves to the start of the next row, evicting
    /// the oldest line at the cap; carriage return and backspace move the
    /// column; any other byte only marks the buffer dirty.
    pub fn execute(&mut self, byte: u8)
        requires
            old(self).wf(),
        ensures
            final(self).wf(),
            final(self).history() == old(self).history(),
            final(self).model() == execute_spec(old(self).model(), byte),
    {
        let ghost m = self.model();
        if byte == LINE_FEED {
            self.cursor_x = 0;
            self.cursor_y = self.cursor_y + 1;
            self.dirty = true;
            self.make_row();
        } else if byte == CARRIAGE_RETURN {
            self.cursor_x = 0;
        } else if byte == BACKSPACE {
            if self.cursor_x > 0 {
                self.cursor_x = self.cursor_x - 1;
            }
        }
        self.dirty = true;
    }

    /// Moves the cursor to `(x, y)`, clamping the row into the buffer and
    /// then the column into that row's line.
    pub fn move_cursor(&mut self, x: usize, y: usize)
        requires
            old(self).wf(),
        ensures
            final(self).wf(),
            final(self).history() == old(self).history(),
            final(self).model() == move_to(old(self).model(), x as nat, y as nat),
    {
        let len = self.lines.len();
        let y2 = if y < len {
            y
        } else if len > 0 {
            len - 1
        } else {
            0
        };
        let w = if y2 < len {
            self.lines[y2].len()
        } else {
            0
        };
        self.cursor_y = y2;
        self.cursor_x = if x <= w {
            x
        } else {
            w
        };
    }

    /// Moves the cursor to column `x` of its row, clamped into that row's line.
    pub fn move_column(&mut self, x: usize)
        requires
            old(self).wf(),
        ensures
            final(self).wf(),
            final(self).history() == old(self).history(),
            final(self).model() == move_col(old(self).model(), x as nat),
    {
        let w = if self.cursor_y < self.lines.len() {
            self.lines[self.cursor_y].len()
        } else {
            0
        };
        self.cursor_x = if x <= w {
            x
        } else {
            w
        };
    }

    /// Takes the cursor row's line out of the buffer, leaving an empty line in its place.
    fn take_cursor_line(&mut self) -> (r: Vec<char>)
        requires
            old(self).wf(),
            old(self).cursor_y < old(self).lines@.len(),
        ensures
            r@ == old(self).model().lines[old(self).cursor_y as int],
            final(self).lines@.len() == old(self).lines@.len(),
            final(self).cursor_x == old(self).cursor_x,
            final(self).cursor_y == old(self).cursor_y,
            final(self).size == old(self).size,
            final(self).dirty == old(self).dirty,
            final(self).outbound == old(self).outbound,
            final(self).tokenizer == old(self).tokenizer,
            final(self).carry == old(self).carry,
            forall|i: int| 0 <= i < final(self).lines@.len() && i != old(self).cursor_y
                ==> #[trigger] final(self).lines@[i] == old(self).lines@[i],
    {
        let mut line: Vec<char> = Vec::new();
        self.lines.set_and_swap(self.cursor_y, &mut line);
        line
    }

    /// Erase in display: `0` clears from the cursor to the end, `1` from the
    /// start to the cursor, `2` and `3` the whole buffer.
    fn erase_in_display(&mut self, mode: usize)
        requires
            old(self).wf(),
        ensures
            final(self).wf(),
            final(self).history() == old(self).history(),
            final(self).model() == erase_display(old(self).model(), mode as nat),
    {
        let ghost m = self.model();
        let y = self.cursor_y;
        let x = self.cursor_x;
        if mode == 0 {
            if y < self.lines.len() {
                self.lines.truncate(y + 1);
                let mut line = self.take_cursor_line();
                line.truncate(x);
                self.lines.set(y, line);
                let ghost kept = m.lines.take(y + 1 as int);
                assert(line_views(self.lines@) =~= kept.update(y as int, head(kept[y as int], x as nat)));
            }
        } else if mode == 1 {
            let len = self.lines.len();
            let mut i: usize = 0;
            while i < y && i < len
                invariant
                    self.wf(),
                    self.lines@.len() == len,
                    len == m.lines.len(),
                    y == self.cursor_y,
                    m.cy == y as nat,
                    i <= len,
                    i <= y,
                    x == self.cursor_x,
                    self.history() == old(self).history(),
                    self.size == old(self).size,
                    self.dirty == old(self).dirty,
                    self.outbound == old(self).outbound,
                    m == old(self).model(),
                    forall|j: int| 0 <= j < len ==> #[trigger] self.lines@[j]@ == if j < i {
                        Seq::<char>::empty()
                    } else {
                        m.lines[j]
                    },
                decreases len - i,
            {
                self.lines.set(i, Vec::new());
                i = i + 1;
                assert(self.lines@[i - 1]@ =~= Seq::<char>::empty());
            }
            let ghost cleared = Seq::new(m.lines.len(), |j: int|
                if j < m.cy { Seq::<char>::empty() } else { m.lines[j] });
            assert forall|j: int| 0 <= j < len implies #[trigger] line_views(self.lines@)[j] == cleared[j] by {
                assert(self.lines@[j]@ == line_views(self.lines@)[j]);
                if j < i {
                    assert(j < m.cy);
                    assert(self.lines@[j]@ == Seq::<char>::empty());
                } else {
                    assert(!(j < m.cy));
                    assert(self.lines@[j]@ == m.lines[j]);
                }
            }
            assert(line_views(self.lines@) =~= cleared);
            if y < len {
                let line = self.take_cursor_line();
                let rest = chars_from(&line, x);
                self.lines.set(y, rest);
                assert(line_views(self.lines@) =~= cleared.update(y as int, tail(line_at(m.lines, y as nat), x as nat)));
            }
        } else if mode == 2 || mode == 3 {
            self.lines.clear();
            self.cursor_x = 0;
            self.cursor_y = 0;
            assert(line_views(self.lines@) =~= Seq::<Seq<char>>::empty());
        }
    }

    /// Erase in line: `0` after the cursor, `1` before it, `2` the whole line.
    fn erase_in_line(&mut self, mode: usize)
        requires
            old(self).wf(),
        ensures
            final(self).wf(),
            final(self).history() == old(self).history(),
            final(self).model() == erase_line(old(self).model(), mode as nat),
    {
        let ghost m = self.model();
        let y = self.cursor_y;
        let x = self.cursor_x;
        if y < self.lines.len() && mode <= 2 {
            let line = self.take_cursor_line();
            let ghost l = line@;
            let new_line = if mode == 0 {
                let mut t = line;
                t.truncate(x);
                t
            } else if mode == 1 {
                chars_from(&line, x)
            } else {
                Vec::new()
            };
            let ghost nl = new_line@;
            self.lines.set(y, new_line);
            assert(line_views(self.lines@) =~= m.lines.update(y as int, nl));
            assert(mode == 2 ==> nl =~= Seq::<char>::empty());
        }
    }

    /// Applies a control sequence with parameters `params` and final character `c`.
    pub fn csi_dispatch(&mut self, params: &Vec<Vec<u16>>, c: char)
        requires
            old(self).wf(),
        ensures
            final(self).wf(),
            final(self).history() == old(self).history(),
            final(self).model() == csi_spec(old(self).model(), params_view(params@), c),
    {
        let ghost m = self.model();
        let ghost p = params_view(params@);
        if c == 'H' || c == 'f' {
            let row = param_at(params, 0, 1);
            let col = param_at(params, 1, 1);
            self.cursor_y = if row > 0 { row - 1 } else { 0 };
            self.cursor_x = if col > 0 { col - 1 } else { 0 };
        } else if c == 'J' {
            let mode = param_at(params, 0, 0);
            self.erase_in_display(mode);
        } else if c == 'K' {
            let mode = param_at(params, 0, 0);
            self.erase_in_line(mode);
        } else if c == 'A' || c == 'B' || c == 'C' || c == 'D' {
            let n = param_at(params, 0, 1);
            let count = if n > 1 { n } else { 1 };
            assert(count as nat == count_param(p));
            let x = self.cursor_x;
            let y = self.cursor_y;
            if c == 'A' {
                self.move_cursor(x, if y >= count { y - count } else { 0 });
            } else if c == 'B' {
                self.move_cursor(x, y + count);
            } else if c == 'C' {
                if x <= usize::MAX - count {
                    self.move_column(x + count);
                } else {
                    proof {
                        if y < m.lines.len() {
                            assert(m.lines[y as int] == self.lines@[y as int]@);
                            assert(self.lines@[y as int].len() <= usize::MAX);
                        }
                    }
                    self.move_column(usize::MAX);
                }
            } else {
                self.move_column(if x >= count { x - count } else { 0 });
            }
        } else if c == 'n' {
            let reply = if has_no_params(params) {
                cursor_report_bytes(self.cursor_y as u128 + 1, self.cursor_x as u128 + 1)
            } else {
                let row = param_at(params, 0, 1);
                let col = param_at(params, 1, 1);
                cursor_report_bytes(row as u128, col as u128)
            };
            self.outbound.push(reply);
            assert(self.model().out =~= m.out.push(status_reply(m, p)));
        }
        self.dirty = true;
    }

    /// Applies one event to the buffer.
    pub fn apply(&mut self, e: &Event)
        requires
            old(self).wf(),
        ensures
            final(self).wf(),
            final(self).history() == old(self).history(),
            final(self).model() == apply_event(old(self).model(), e@),
    {
        match e {
            Event::Print(c) => self.print(*c),
            Event::Execute(b) => self.execute(*b),
            Event::Csi(p, c) => self.csi_dispatch(p, *c),
            Event::Osc => {},
        }
    }

    /// Applies `events` in order.
    pub fn apply_events(&mut self, events: &Vec<Event>)
        requires
            old(self).wf(),
        ensures
            final(self).wf(),
            final(self).history() == old(self).history(),
            final(self).model() == apply_all(old(self).model(), event_views(events@)),
    {
        let ghost m = self.model();
        let ghost es = event_views(events@);
        let mut i: usize = 0;
        assert(es.take(0) =~= Seq::<EventModel>::empty());
        while i < events.len()
            invariant
                self.wf(),
                i <= events@.len(),
                es == event_views(events@),
                self.history() == old(self).history(),
                self.model() == apply_all(m, es.take(i as int)),
            decreases events@.len() - i,
        {
            self.apply(&events[i]);
            assert(es.take(i + 1 as int).drop_last() =~= es.take(i as int));
            i = i + 1;
        }
        assert(es.take(i as int) =~= es);
    }

    /// Feeds shell output. Bytes that do not yet form a complete character
    /// are held back until a later call completes them, so the tokenizer is
    /// only ever handed whole characters; invalid sequences are skipped. The
    /// tokenizer keeps an unfinished escape sequence across calls.
    pub fn feed_bytes(&mut self, bytes: &[u8])
        requires
            old(self).wf(),
        ensures
            final(self).wf(),
            final(self).history() == (
                old(self).history().0.push(frame(old(self).history().1 + bytes@).0),
                frame(old(self).history().1 + bytes@).1,
            ),
            final(self).model() == apply_all(
                old(self).model(),
                fresh_events(old(self).history().0, frame(old(self).history().1 + bytes@).0),
            ),
    {
        let text = self.carry.push(bytes);
        let events = self.tokenizer.advance(text.as_slice());
        self.apply_events(&events);
    }

    /// Queues a keystroke payload for the shell; a lone backspace is sent as
    /// DEL and an empty payload is dropped.
    pub fn write(&mut self, data: &[u8])
        ensures
            final(self).wf() == old(self).wf(),
            final(self).history() == old(self).history(),
            final(self).model() == write_spec(old(self).model(), data@),
    {
        let ghost m = self.model();
        if data.len() == 0 {
            return;
        }
        let mut command: Vec<u8> = Vec::new();
        if data.len() == 1 && data[0] == BACKSPACE {
            command.push(DELETE);
            assert(data@ =~= seq![BACKSPACE]);
        } else {
            let mut i: usize = 0;
            while i < data.len()
                invariant
                    i <= data@.len(),
                    command@ == data@.take(i as int),
                decreases data@.len() - i,
            {
                command.push(data[i]);
                i = i + 1;
                assert(command@ =~= data@.take(i as int));
            }
            assert(command@ =~= data@);
            assert(!(data@ =~= seq![BACKSPACE]));
        }
        assert(command@ =~= translate_key(data@));
        self.outbound.push(command);
        assert(self.model().out =~= m.out.push(translate_key(data@)));
    }

    /// Hands over the queued payloads for the shell, oldest first, and
    /// empties the queue.
    pub fn take_outbound(&mut self) -> (r: Vec<Vec<u8>>)
        ensures
            final(self).wf() == old(self).wf(),
            final(self).history() == old(self).history(),
            r@.map_values(|v: Vec<u8>| v@) == old(self).model().out,
            final(self).model() == (ScreenModel { out: Seq::empty(), ..old(self).model() }),
    {
        let mut r: Vec<Vec<u8>> = Vec::new();
        std::mem::swap(&mut r, &mut self.outbound);
        assert(self.model().out =~= Seq::<Seq<u8>>::empty());
        r
    }

    /// Records the viewport size.
    pub fn resize(&mut self, cols: u16, rows: u16)
        ensures
            final(self).wf() == old(self).wf(),
            final(self).history() == old(self).history(),
            final(self).model() == resize_spec(old(self).model(), cols, rows),
    {
        self.size = Some(Size { cols, rows });
    }

    pub fn is_dirty(&self) -> (r: bool)
        ensures
            r == self.model().dirty,
    {
        self.dirty
    }

    pub fn clear_dirty(&mut self)
        ensures
            final(self).wf() == old(self).wf(),
            final(self).history() == old(self).history(),
            final(self).model() == (ScreenModel { dirty: false, ..old(self).model() }),
    {
        self.dirty = false;
    }

    /// The cursor as `(column, row)`, zero-based.
    pub fn cursor(&self) -> (r: (usize, usize))
        ensures
            r.0 as nat == self.model().cx,
            r.1 as nat == self.model().cy,
    {
        (self.cursor_x, self.cursor_y)
    }

    pub fn line_count(&self) -> (r: usize)
        ensures
            r as nat == self.model().lines.len(),
    {
        self.lines.len()
    }

    /// The visible lines joined by newlines: the last `rows` lines of the
    /// buffer, or all of them when no viewport size is set.
    pub fn as_text(&self) -> (r: String)
        ensures
            r@ == text_of(self.model()),
    {
        let ghost m = self.model();
        let len = self.lines.len();
        let start: usize = match self.size {
            Some(s) => if (s.rows as usize) < len { len - s.rows as usize } else { 0 },
            None => 0,
        };
        let ghost vis = m.lines.subrange(start as int, len as int);
        assert(vis =~= visible(m));
        let mut text: Vec<char> = Vec::new();
        let mut i: usize = start;
        assert(vis.take(0) =~= Seq::<Seq<char>>::empty());
        while i < len
            invariant
                start <= i <= len,
                len == self.lines@.len(),
                m == self.model(),
                vis == m.lines.subrange(start as int, len as int),
                text@ == join_lines(vis.take(i - start)),
            decreases len - i,
        {
            let ghost before = text@;
            if i > start {
                text.push('\n');
            }
            let line = &self.lines[i];
            let mut j: usize = 0;
            let ghost mid = text@;
            while j < line.len()
                invariant
                    j <= line@.len(),
                    text@ == mid + line@.take(j as int),
                decreases line@.len() - j,
            {
                text.push(line[j]);
                j = j + 1;
                assert(text@ =~= mid + line@.take(j as int));
            }
            proof {
                let s = vis.take(i + 1 - start);
                assert(s.drop_last() =~= vis.take(i - start));
                assert(line@.take(j as int) =~= line@);
                assert(s.last() == m.lines[i as int]);
                assert(m.lines[i as int] == line@);
                if i > start {
                    assert(text@ =~= before + seq!['\n'] + line@);
                } else {
                    assert(vis.take(i - start) =~= Seq::<Seq<char>>::empty());
                    assert(text@ =~= line@);
                }
            }
            i = i + 1;
        }
        assert(vis.take(i - start) =~= vis);
        string_from_chars(&text)
    }
}

} // verus!
