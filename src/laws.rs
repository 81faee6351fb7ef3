//! Properties that relate several operations of the engine.
use vstd::prelude::*;
use crate::model::{
    ScreenModel, EventModel, MAX_LINES, LINE_FEED, apply_all, apply_event, execute_spec, csi_spec,
    cursor_report, resize_spec, visible, text_of, row_under_cap, evict_for_row, extend_rows,
};

verus! {

/// Applying two event sequences one after the other is applying their concatenation.
pub proof fn lemma_apply_all_concat(m: ScreenModel, a: Seq<EventModel>, b: Seq<EventModel>)
    ensures
        apply_all(apply_all(m, a), b) == apply_all(m, a + b),
    decreases b.len(),
{
    if b.len() == 0 {
        assert(a + b =~= a);
    } else {
        lemma_apply_all_concat(m, a, b.drop_last());
        assert((a + b).drop_last() =~= a + b.drop_last());
        assert((a + b).last() == b.last());
    }
}

/// Resizing twice to the same size is resizing once, and afterwards a
/// snapshot shows at most `rows` lines.
pub proof fn resize_is_idempotent(m: ScreenModel, cols: u16, rows: u16)
    ensures
        resize_spec(resize_spec(m, cols, rows), cols, rows) == resize_spec(m, cols, rows),
        text_of(resize_spec(resize_spec(m, cols, rows), cols, rows)) == text_of(resize_spec(m, cols, rows)),
        visible(resize_spec(m, cols, rows)).len() <= rows,
{
}

/// A status query without parameters queues the report of the cursor
/// position, one-based, as it stands when the query is handled.
pub proof fn status_query_reports_cursor(m: ScreenModel)
    ensures
        csi_spec(m, Seq::empty(), 'n').out == m.out.push(cursor_report(m.cy + 1, m.cx + 1)),
        csi_spec(m, seq![seq![0u16]], 'n').out == m.out.push(cursor_report(m.cy + 1, m.cx + 1)),
        csi_spec(m, seq![seq![0u16]], 'n').lines == m.lines,
        csi_spec(m, seq![seq![0u16]], 'n').cx == m.cx,
        csi_spec(m, seq![seq![0u16]], 'n').cy == m.cy,
{
    assert(seq![seq![0u16]][0] =~= seq![0u16]);
}

/// Erasing the whole display empties the buffer and homes the cursor.
pub proof fn erase_display_clears(m: ScreenModel)
    ensures
        csi_spec(m, seq![seq![2u16]], 'J').lines.len() == 0,
        csi_spec(m, seq![seq![2u16]], 'J').cx == 0,
        csi_spec(m, seq![seq![2u16]], 'J').cy == 0,
{
}

/// Cursor addressing is one-based on the wire and zero-based in the model.
pub proof fn cursor_position_is_one_based(m: ScreenModel, row: u16, col: u16)
    requires
        1 <= row,
        1 <= col,
    ensures
        csi_spec(m, seq![seq![row], seq![col]], 'H').cy == row - 1,
        csi_spec(m, seq![seq![row], seq![col]], 'H').cx == col - 1,
{
}

/// `n` line feeds in a row.
pub open spec fn line_feeds(n: nat) -> Seq<EventModel> {
    Seq::new(n, |i: int| EventModel::Execute(LINE_FEED))
}

/// One line feed: the column returns to 0, the row moves down (staying
/// under the cap), that row exists afterwards, and the cap holds.
pub proof fn line_feed_makes_the_row(m: ScreenModel)
    requires
        m.lines.len() <= MAX_LINES,
    ensures
        execute_spec(m, LINE_FEED).cx == 0,
        execute_spec(m, LINE_FEED).cy == row_under_cap(m.cy + 1),
        execute_spec(m, LINE_FEED).cy < execute_spec(m, LINE_FEED).lines.len(),
        execute_spec(m, LINE_FEED).lines.len() <= MAX_LINES,
{
    let q = ScreenModel { cx: 0, cy: m.cy + 1, dirty: true, ..m };
    let kept = evict_for_row(q.lines, q.cy);
    assert(kept.len() <= MAX_LINES);
}

/// A line feed on the last row of a full buffer evicts the oldest line and
/// adds an empty one: first in, first out, with the line count kept at
/// `MAX_LINES`.
pub proof fn line_feed_at_the_cap_evicts_oldest(m: ScreenModel)
    requires
        m.lines.len() == MAX_LINES,
        m.cy == MAX_LINES - 1,
    ensures
        execute_spec(m, LINE_FEED).lines == m.lines.drop_first().push(Seq::<char>::empty()),
        execute_spec(m, LINE_FEED).cy == MAX_LINES - 1,
{
    assert(m.lines.skip(1) =~= m.lines.drop_first());
    assert(extend_rows(m.lines.skip(1), (MAX_LINES - 1) as nat) =~= m.lines.drop_first().push(Seq::<char>::empty()));
}

/// After `n >= 1` line feeds the cursor is at column 0 of row
/// `min(row + n, MAX_LINES - 1)`, that row exists, the buffer holds at most
/// `MAX_LINES` lines, and exactly `MAX_LINES` once the last row is reached.
pub proof fn line_feeds_keep_the_cap(m: ScreenModel, n: nat)
    requires
        m.lines.len() <= MAX_LINES,
        n >= 1,
    ensures
        apply_all(m, line_feeds(n)).cx == 0,
        apply_all(m, line_feeds(n)).cy == row_under_cap(m.cy + n),
        apply_all(m, line_feeds(n)).cy < apply_all(m, line_feeds(n)).lines.len(),
        apply_all(m, line_feeds(n)).lines.len() <= MAX_LINES,
        m.cy + n >= MAX_LINES - 1 ==> apply_all(m, line_feeds(n)).lines.len() == MAX_LINES,
    decreases n,
{
    let k = (n - 1) as nat;
    assert(line_feeds(n).drop_last() =~= line_feeds(k));
    assert(line_feeds(n).last() == EventModel::Execute(LINE_FEED));
    if n == 1 {
        assert(line_feeds(0) =~= Seq::<EventModel>::empty());
        line_feed_makes_the_row(m);
    } else {
        line_feeds_keep_the_cap(m, k);
        let p = apply_all(m, line_feeds(k));
        line_feed_makes_the_row(p);
    }
}

/// A status query with two parameters echoes them back as the report.
pub proof fn status_query_echoes_parameters(m: ScreenModel, row: u16, col: u16)
    ensures
        csi_spec(m, seq![seq![row], seq![col]], 'n').out == m.out.push(cursor_report(row as nat, col as nat)),
{
}

/// No event changes the viewport size.
pub proof fn events_keep_the_size(m: ScreenModel, es: Seq<EventModel>)
    ensures
        apply_all(m, es).size == m.size,
    decreases es.len(),
{
    if es.len() > 0 {
        events_keep_the_size(m, es.drop_last());
    }
}

/// After a resize to `rows` rows, whatever events follow, a snapshot is
/// made of at most `rows` lines.
pub proof fn snapshot_fits_the_rows(m: ScreenModel, cols: u16, rows: u16, es: Seq<EventModel>)
    ensures
        visible(apply_all(resize_spec(m, cols, rows), es)).len() <= rows,
{
    events_keep_the_size(resize_spec(m, cols, rows), es);
}

} // verus!
