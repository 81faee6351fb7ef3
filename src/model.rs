//! Mathematical model of the screen state and of the effect of each parsed event.
use vstd::prelude::*;

verus! {

/// Number of lines the screen buffer retains; older lines are evicted first.
pub const MAX_LINES: usize = 1000;

/// The largest row a cursor-position sequence can address, zero-based.
pub const MAX_ROW: usize = 0xfffe;

pub const LINE_FEED: u8 = 0x0a;

pub const CARRIAGE_RETURN: u8 = 0x0d;

pub const BACKSPACE: u8 = 0x08;

pub const DELETE: u8 = 0x7f;

pub const ESCAPE: u8 = 0x1b;

/// A parsed event, as a mathematical value.
pub enum EventModel {
    Print(char),
    Execute(u8),
    Csi(Seq<Seq<u16>>, char),
    Osc,
}

/// The whole observable state of the engine.
pub struct ScreenModel {
    pub lines: Seq<Seq<char>>,
    pub cx: nat,
    pub cy: nat,
    pub size: Option<(u16, u16)>,
    pub dirty: bool,
    /// Byte payloads queued for the shell, oldest first.
    pub out: Seq<Seq<u8>>,
}

/// The line at row `y`, or an empty line where the buffer does not reach.
pub open spec fn line_at(lines: Seq<Seq<char>>, y: nat) -> Seq<char> {
    if y < lines.len() {
        lines[y as int]
    } else {
        Seq::empty()
    }
}

pub open spec fn spaces(n: nat) -> Seq<char> {
    Seq::new(n, |i: int| ' ')
}

/// `l` padded with spaces up to at least `n` characters.
pub open spec fn pad_to(l: Seq<char>, n: nat) -> Seq<char> {
    if l.len() >= n {
        l
    } else {
        l + spaces((n - l.len()) as nat)
    }
}

/// Writes `c` at column `x`, padding first; appends when `x` is the end.
pub open spec fn put_char(l: Seq<char>, x: nat, c: char) -> Seq<char> {
    let p = pad_to(l, x);
    if x == p.len() {
        p.push(c)
    } else {
        p.update(x as int, c)
    }
}

/// The buffer grown with empty lines so that row `y` exists.
pub open spec fn extend_rows(lines: Seq<Seq<char>>, y: nat) -> Seq<Seq<char>> {
    if y < lines.len() {
        lines
    } else {
        lines + Seq::new((y + 1 - lines.len()) as nat, |i: int| Seq::<char>::empty())
    }
}

/// The buffer with its oldest lines evicted so that row `y` fits under the cap.
pub open spec fn evict_for_row(lines: Seq<Seq<char>>, y: nat) -> Seq<Seq<char>> {
    if y >= MAX_LINES {
        let d = (y + 1 - MAX_LINES) as nat;
        if d < lines.len() {
            lines.skip(d as int)
        } else {
            Seq::empty()
        }
    } else {
        lines
    }
}

/// The cursor row once the buffer has been made to hold it.
pub open spec fn row_under_cap(y: nat) -> nat {
    if y >= MAX_LINES {
        (MAX_LINES - 1) as nat
    } else {
        y
    }
}

/// Makes the cursor row exist: the oldest lines are evicted where the row
/// lies past the cap (the row moving up with them), then empty lines are
/// added up to the row.
pub open spec fn make_row(m: ScreenModel) -> ScreenModel {
    let y = row_under_cap(m.cy);
    ScreenModel { lines: extend_rows(evict_for_row(m.lines, m.cy), y), cy: y, ..m }
}

pub open spec fn print_spec(m: ScreenModel, c: char) -> ScreenModel {
    let g = make_row(m);
    ScreenModel {
        lines: g.lines.update(g.cy as int, put_char(g.lines[g.cy as int], g.cx, c)),
        cx: g.cx + 1,
        dirty: true,
        ..g
    }
}

pub open spec fn execute_spec(m: ScreenModel, b: u8) -> ScreenModel {
    if b == LINE_FEED {
        make_row(ScreenModel { cx: 0, cy: m.cy + 1, dirty: true, ..m })
    } else if b == CARRIAGE_RETURN {
        ScreenModel { cx: 0, dirty: true, ..m }
    } else if b == BACKSPACE {
        ScreenModel { cx: if m.cx > 0 { (m.cx - 1) as nat } else { 0 }, dirty: true, ..m }
    } else {
        ScreenModel { dirty: true, ..m }
    }
}

/// The first value of parameter `i`, or `default` where it is absent.
pub open spec fn param(p: Seq<Seq<u16>>, i: nat, default: nat) -> nat {
    if i < p.len() && p[i as int].len() > 0 {
        p[i as int][0] as nat
    } else {
        default
    }
}

pub open spec fn minus_one(n: nat) -> nat {
    if n > 0 {
        (n - 1) as nat
    } else {
        0
    }
}

pub open spec fn count_param(p: Seq<Seq<u16>>) -> nat {
    let n = param(p, 0, 1);
    if n > 1 {
        n
    } else {
        1
    }
}

/// Cursor moved to row `y`, clamped into the buffer, with the column then
/// clamped into that row's line.
pub open spec fn move_to(m: ScreenModel, x: nat, y: nat) -> ScreenModel {
    let y2: nat = if y < m.lines.len() {
        y
    } else {
        minus_one(m.lines.len())
    };
    let w = line_at(m.lines, y2).len();
    ScreenModel { cx: if x <= w { x } else { w }, cy: y2, ..m }
}

/// Cursor moved to column `x` of its own row, clamped into that row's line.
pub open spec fn move_col(m: ScreenModel, x: nat) -> ScreenModel {
    let w = line_at(m.lines, m.cy).len();
    ScreenModel { cx: if x <= w { x } else { w }, ..m }
}

pub open spec fn set_line(m: ScreenModel, l: Seq<char>) -> ScreenModel {
    if m.cy < m.lines.len() {
        ScreenModel { lines: m.lines.update(m.cy as int, l), ..m }
    } else {
        m
    }
}

pub open spec fn head(l: Seq<char>, n: nat) -> Seq<char> {
    if n <= l.len() {
        l.take(n as int)
    } else {
        l
    }
}

pub open spec fn tail(l: Seq<char>, n: nat) -> Seq<char> {
    if n <= l.len() {
        l.skip(n as int)
    } else {
        Seq::empty()
    }
}

pub open spec fn erase_display(m: ScreenModel, mode: nat) -> ScreenModel {
    if mode == 0 {
        if m.cy < m.lines.len() {
            let kept = m.lines.take(m.cy + 1 as int);
            ScreenModel {
                lines: kept.update(m.cy as int, head(kept[m.cy as int], m.cx)),
                ..m
            }
        } else {
            m
        }
    } else if mode == 1 {
        let cleared = Seq::new(m.lines.len(), |i: int|
            if i < m.cy { Seq::<char>::empty() } else { m.lines[i] });
        set_line(ScreenModel { lines: cleared, ..m }, tail(line_at(m.lines, m.cy), m.cx))
    } else if mode == 2 || mode == 3 {
        ScreenModel { lines: Seq::empty(), cx: 0, cy: 0, ..m }
    } else {
        m
    }
}

pub open spec fn erase_line(m: ScreenModel, mode: nat) -> ScreenModel {
    let l = line_at(m.lines, m.cy);
    if mode == 0 {
        set_line(m, head(l, m.cx))
    } else if mode == 1 {
        set_line(m, tail(l, m.cx))
    } else if mode == 2 {
        set_line(m, Seq::empty())
    } else {
        m
    }
}

/// Decimal digits of `n`, most significant first, in ASCII.
pub open spec fn decimal(n: nat) -> Seq<u8>
    decreases n,
{
    if n < 10 {
        seq![(48 + n) as u8]
    } else {
        decimal(n / 10).push((48 + n % 10) as u8)
    }
}

/// The cursor-position report `ESC [ row ; col R`.
pub open spec fn cursor_report(row: nat, col: nat) -> Seq<u8> {
    seq![ESCAPE, 0x5bu8] + decimal(row) + seq![0x3bu8] + decimal(col) + seq![0x52u8]
}

/// A status query whose parameter list is absent (an omitted parameter reads as 0).
pub open spec fn no_params(p: Seq<Seq<u16>>) -> bool {
    p.len() == 0 || p[0].len() == 0 || (p.len() == 1 && p[0] =~= seq![0u16])
}

pub open spec fn status_reply(m: ScreenModel, p: Seq<Seq<u16>>) -> Seq<u8> {
    if no_params(p) {
        cursor_report(m.cy + 1, m.cx + 1)
    } else {
        cursor_report(param(p, 0, 1), param(p, 1, 1))
    }
}

pub open spec fn csi_effect(m: ScreenModel, p: Seq<Seq<u16>>, c: char) -> ScreenModel {
    if c == 'H' || c == 'f' {
        ScreenModel { cy: minus_one(param(p, 0, 1)), cx: minus_one(param(p, 1, 1)), ..m }
    } else if c == 'J' {
        erase_display(m, param(p, 0, 0))
    } else if c == 'K' {
        erase_line(m, param(p, 0, 0))
    } else if c == 'A' {
        move_to(m, m.cx, if m.cy >= count_param(p) { (m.cy - count_param(p)) as nat } else { 0 })
    } else if c == 'B' {
        move_to(m, m.cx, m.cy + count_param(p))
    } else if c == 'C' {
        move_col(m, m.cx + count_param(p))
    } else if c == 'D' {
        move_col(m, if m.cx >= count_param(p) { (m.cx - count_param(p)) as nat } else { 0 })
    } else if c == 'n' {
        ScreenModel { out: m.out.push(status_reply(m, p)), ..m }
    } else {
        m
    }
}

pub open spec fn csi_spec(m: ScreenModel, p: Seq<Seq<u16>>, c: char) -> ScreenModel {
    ScreenModel { dirty: true, ..csi_effect(m, p, c) }
}

pub open spec fn apply_event(m: ScreenModel, e: EventModel) -> ScreenModel {
    match e {
        EventModel::Print(c) => print_spec(m, c),
        EventModel::Execute(b) => execute_spec(m, b),
        EventModel::Csi(p, c) => csi_spec(m, p, c),
        EventModel::Osc => m,
    }
}

/// The state after applying `es` in order.
pub open spec fn apply_all(m: ScreenModel, es: Seq<EventModel>) -> ScreenModel
    decreases es.len(),
{
    if es.len() == 0 {
        m
    } else {
        apply_event(apply_all(m, es.drop_last()), es.last())
    }
}

/// What a keystroke payload becomes on its way to the shell: backspace is sent as DEL.
pub open spec fn translate_key(d: Seq<u8>) -> Seq<u8> {
    if d =~= seq![BACKSPACE] {
        seq![DELETE]
    } else {
        d
    }
}

pub open spec fn write_spec(m: ScreenModel, d: Seq<u8>) -> ScreenModel {
    if d.len() == 0 {
        m
    } else {
        ScreenModel { out: m.out.push(translate_key(d)), ..m }
    }
}

/// The lines a snapshot shows: the last `rows` lines, or all without a viewport size.
pub open spec fn visible(m: ScreenModel) -> Seq<Seq<char>> {
    match m.size {
        None => m.lines,
        Some((cols, rows)) => if (rows as nat) < m.lines.len() {
            m.lines.skip(m.lines.len() - rows)
        } else {
            m.lines
        },
    }
}

/// Lines joined by newline characters.
pub open spec fn join_lines(ls: Seq<Seq<char>>) -> Seq<char>
    decreases ls.len(),
{
    if ls.len() == 0 {
        Seq::empty()
    } else if ls.len() == 1 {
        ls[0]
    } else {
        join_lines(ls.drop_last()) + seq!['\n'] + ls.last()
    }
}

pub open spec fn text_of(m: ScreenModel) -> Seq<char> {
    join_lines(visible(m))
}

pub open spec fn resize_spec(m: ScreenModel, cols: u16, rows: u16) -> ScreenModel {
    ScreenModel { size: Some((cols, rows)), ..m }
}

} // verus!
