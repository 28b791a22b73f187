//! The visible screen buffer, its lines and cells, the bounded scrollback
//! history, and per-line dirty tracking.

use vstd::prelude::*;
use std::collections::VecDeque;
use crate::sash::theme::Color;
use crate::text::{lower_char, str_chars, to_lower_char};
use crate::pane::errors::{PaneError, PaneResult};
use crate::pane::cursor::Cursor;

verus! {

/// Kind of underline applied to a cell.
#[derive(Debug, Clone, Copy, PartialEq, Eq, Structural)]
pub enum UnderlineType {
    NoUnderline,
    Single,
    Double,
    Curly,
    Dotted,
    Dashed,
}

/// Kind of blinking applied to a cell.
#[derive(Debug, Clone, Copy, PartialEq, Eq, Structural)]
pub enum BlinkType {
    NoBlink,
    Slow,
    Fast,
}

/// Cell attributes for text formatting.
#[derive(Debug, Clone, Copy, PartialEq, Eq, Structural)]
pub struct CellAttributes {
    pub bold: bool,
    pub dim: bool,
    pub italic: bool,
    pub underline: UnderlineType,
    pub strikethrough: bool,
    pub reverse: bool,
    pub blink: BlinkType,
    pub invisible: bool,
}

/// The attribute set with nothing applied.
pub open spec fn spec_default_attributes() -> CellAttributes {
    CellAttributes {
        bold: false,
        dim: false,
        italic: false,
        underline: UnderlineType::NoUnderline,
        strikethrough: false,
        reverse: false,
        blink: BlinkType::NoBlink,
        invisible: false,
    }
}

impl Default for CellAttributes {
    /// Default attributes: everything off.
    fn default() -> (c: Self)
        ensures
            c == spec_default_attributes(),
    {
        CellAttributes {
            bold: false,
            dim: false,
            italic: false,
            underline: UnderlineType::NoUnderline,
            strikethrough: false,
            reverse: false,
            blink: BlinkType::NoBlink,
            invisible: false,
        }
    }
}

/// A single character cell of the grid.
#[derive(Debug, Clone, Copy, PartialEq, Eq, Structural)]
pub struct Cell {
    pub character: char,
    pub attributes: CellAttributes,
    pub foreground: Color,
    pub background: Color,
}

/// The untouched cell: a space with default attributes, white on black.
pub open spec fn spec_default_cell() -> Cell {
    Cell {
        character: ' ',
        attributes: spec_default_attributes(),
        foreground: Color { r: 255, g: 255, b: 255, a: 255 },
        background: Color { r: 0, g: 0, b: 0, a: 255 },
    }
}

impl Default for Cell {
    /// The default cell: a space with default attributes, white on black.
    fn default() -> (c: Self)
        ensures
            c == spec_default_cell(),
    {
        Cell {
            character: ' ',
            attributes: CellAttributes::default(),
            foreground: Color::from_rgb(255, 255, 255),
            background: Color::from_rgb(0, 0, 0),
        }
    }
}

impl Cell {
    /// Whether this cell equals the default cell.
    pub fn is_default(&self) -> (r: bool)
        ensures
            r == (*self == spec_default_cell()),
    {
        *self == Cell::default()
    }

    /// Replace the stock foreground and background colors by the theme's
    /// colors; cells colored otherwise keep their colors.
    pub fn apply_theme(&mut self, theme: &crate::sash::theme::Theme)
        ensures
            final(self).character == old(self).character,
            final(self).attributes == old(self).attributes,
            final(self).foreground == if old(self).foreground == (Color {
                r: 255u8,
                g: 255u8,
                b: 255u8,
                a: 255u8,
            }) {
                theme.colors.foreground
            } else {
                old(self).foreground
            },
            final(self).background == if old(self).background == (Color {
                r: 0u8,
                g: 0u8,
                b: 0u8,
                a: 255u8,
            }) {
                theme.colors.background
            } else {
                old(self).background
            },
    {
        if self.foreground == Color::from_rgb(255, 255, 255) {
            self.foreground = theme.colors.foreground;
        }
        if self.background == Color::from_rgb(0, 0, 0) {
            self.background = theme.colors.background;
        }
    }
}

/// A sequence of `width` default cells.
pub open spec fn blank_cells(width: nat) -> Seq<Cell> {
    Seq::new(width, |i: int| spec_default_cell())
}

/// The characters a sequence of cells shows.
pub open spec fn cells_chars(cells: Seq<Cell>) -> Seq<char> {
    cells.map_values(|c: Cell| c.character)
}

/// A single line of terminal content.
#[verifier::ext_equal]
#[derive(Debug, Clone)]
pub struct Line {
    pub cells: Vec<Cell>,
    pub wrapped: bool,
    pub dirty: bool,
}

impl Line {
    /// The characters this line shows.
    pub open spec fn chars(self) -> Seq<char> {
        cells_chars(self.cells@)
    }

    /// A new blank line of the given width, marked dirty.
    pub fn new(width: u16) -> (l: Self)
        ensures
            l.cells@ =~= blank_cells(width as nat),
            !l.wrapped,
            l.dirty,
    {
        let mut cells: Vec<Cell> = Vec::new();
        let mut i: usize = 0;
        while i < width as usize
            invariant
                i <= width as usize,
                cells@ =~= blank_cells(i as nat),
            decreases width as usize - i,
        {
            cells.push(Cell::default());
            assert(cells@ =~= blank_cells((i + 1) as nat));
            i = i + 1;
        }
        Line { cells, wrapped: false, dirty: true }
    }

    /// Resize the line: cells on the left are kept, new columns are filled
    /// with default cells.  A size change marks the line dirty.
    pub fn resize(&mut self, new_width: u16)
        ensures
            final(self).cells@.len() == new_width as int,
            forall|j: int|
                0 <= j < new_width as int && j < old(self).cells@.len() ==> final(self).cells@[j]
                    == old(self).cells@[j],
            forall|j: int|
                old(self).cells@.len() <= j < new_width as int ==> final(self).cells@[j]
                    == spec_default_cell(),
            final(self).wrapped == old(self).wrapped,
            final(self).dirty == (old(self).dirty || new_width as int != old(self).cells@.len()),
    {
        let old_len = self.cells.len();
        if (new_width as usize) < old_len {
            self.cells.truncate(new_width as usize);
        } else {
            while self.cells.len() < new_width as usize
                invariant
                    old_len <= self.cells@.len() <= new_width as int,
                    self.cells@.subrange(0, old_len as int) =~= old(self).cells@,
                    forall|j: int|
                        old_len <= j < self.cells@.len() ==> self.cells@[j]
                            == spec_default_cell(),
                    self.wrapped == old(self).wrapped,
                    self.dirty == old(self).dirty,
                decreases new_width as int - self.cells@.len(),
            {
                self.cells.push(Cell::default());
                assert(self.cells@.subrange(0, old_len as int) =~= old(self).cells@);
            }
        }
        if new_width as usize != old_len {
            self.dirty = true;
        }
        assert forall|j: int|
            0 <= j < new_width as int && j < old(self).cells@.len() implies self.cells@[j] == old(self).cells@[j] by {
            if (new_width as usize) < old_len {
            } else {
                assert(self.cells@.subrange(0, old_len as int)[j] == old(self).cells@[j]);
            }
        }
    }

    /// Write a character with the given attributes at a column; out of range
    /// columns are ignored.  The cell's colors are untouched.
    pub fn write_char(&mut self, col: u16, ch: char, attrs: CellAttributes)
        ensures
            final(self).wrapped == old(self).wrapped,
            (col as int) < old(self).cells@.len() ==> {
                &&& final(self).cells@ == old(self).cells@.update(
                    col as int,
                    Cell {
                        character: ch,
                        attributes: attrs,
                        foreground: old(self).cells@[col as int].foreground,
                        background: old(self).cells@[col as int].background,
                    },
                )
                &&& final(self).dirty
            },
            (col as int) >= old(self).cells@.len() ==> *final(self) == *old(self),
    {
        if (col as usize) < self.cells.len() {
            let cell = &mut self.cells[col as usize];
            cell.character = ch;
            cell.attributes = attrs;
            self.dirty = true;
        }
    }

    /// Clear the entire line to default cells and mark it dirty.
    pub fn clear(&mut self)
        ensures
            final(self).cells@ =~= blank_cells(old(self).cells@.len() as nat),
            final(self).wrapped == old(self).wrapped,
            final(self).dirty,
    {
        let n = self.cells.len();
        let mut i: usize = 0;
        while i < n
            invariant
                i <= n,
                n == self.cells@.len(),
                forall|j: int| 0 <= j < i ==> self.cells@[j] == spec_default_cell(),
                forall|j: int| i <= j < n ==> self.cells@[j] == old(self).cells@[j],
                self.wrapped == old(self).wrapped,
            decreases n - i,
        {
            self.cells.set(i, Cell::default());
            i = i + 1;
        }
        self.dirty = true;
    }

    /// Clear from the given column (inclusive) to the end of the line; a
    /// column past the end leaves the line unchanged except for the dirty
    /// flag, which is set whenever the range is not empty.
    pub fn clear_from(&mut self, from_col: u16)
        ensures
            final(self).cells@.len() == old(self).cells@.len(),
            forall|j: int|
                0 <= j < from_col as int && j < old(self).cells@.len() ==> final(self).cells@[j]
                    == old(self).cells@[j],
            forall|j: int|
                from_col as int <= j < old(self).cells@.len() ==> final(self).cells@[j]
                    == spec_default_cell(),
            final(self).wrapped == old(self).wrapped,
            final(self).dirty == (old(self).dirty || from_col as int <= old(self).cells@.len()),
    {
        let n = self.cells.len();
        if (from_col as usize) <= n {
            let mut i: usize = from_col as usize;
            while i < n
                invariant
                    from_col as usize <= i <= n,
                    n == self.cells@.len(),
                    forall|j: int| 0 <= j < from_col as int ==> self.cells@[j] == old(self).cells@[j],
                    forall|j: int| from_col as int <= j < i ==> self.cells@[j] == spec_default_cell(),
                    forall|j: int| i <= j < n ==> self.cells@[j] == old(self).cells@[j],
                    self.wrapped == old(self).wrapped,
                    self.dirty == old(self).dirty,
                decreases n - i,
            {
                self.cells.set(i, Cell::default());
                i = i + 1;
            }
            self.dirty = true;
        }
    }

    /// Clear from the beginning of the line to the given column (inclusive).
    pub fn clear_to(&mut self, to_col: u16)
        ensures
            final(self).cells@.len() == old(self).cells@.len(),
            forall|j: int|
                0 <= j < old(self).cells@.len() && j <= to_col as int ==> final(self).cells@[j]
                    == spec_default_cell(),
            forall|j: int|
                (to_col as int) < j && j < old(self).cells@.len() ==> final(self).cells@[j]
                    == old(self).cells@[j],
            final(self).wrapped == old(self).wrapped,
            final(self).dirty,
    {
        let n = self.cells.len();
        let end: usize = if (to_col as usize) < n {
            to_col as usize + 1
        } else {
            n
        };
        let mut i: usize = 0;
        while i < end
            invariant
                i <= end <= n,
                n == self.cells@.len(),
                forall|j: int| 0 <= j < i ==> self.cells@[j] == spec_default_cell(),
                forall|j: int| i <= j < n ==> self.cells@[j] == old(self).cells@[j],
                self.wrapped == old(self).wrapped,
            decreases end - i,
        {
            self.cells.set(i, Cell::default());
            i = i + 1;
        }
        self.dirty = true;
    }

    /// The text content of the line, one character per cell.
    pub fn text(&self) -> (r: String)
        ensures
            r@ == self.chars(),
    {
        let mut s = String::new();
        let n = self.cells.len();
        let mut i: usize = 0;
        while i < n
            invariant
                i <= n,
                n == self.cells@.len(),
                s@ =~= cells_chars(self.cells@.subrange(0, i as int)),
            decreases n - i,
        {
            crate::text::push_char(&mut s, self.cells[i].character);
            assert(self.cells@.subrange(0, i + 1) =~= self.cells@.subrange(0, i as int).push(
                self.cells@[i as int],
            ));
            assert(s@ =~= cells_chars(self.cells@.subrange(0, i + 1)));
            i = i + 1;
        }
        assert(self.cells@.subrange(0, n as int) =~= self.cells@);
        s
    }

    /// Whether every cell of the line is the default cell.
    pub fn is_empty(&self) -> (r: bool)
        ensures
            r == (self.cells@ =~= blank_cells(self.cells@.len() as nat)),
    {
        let n = self.cells.len();
        let mut i: usize = 0;
        while i < n
            invariant
                i <= n,
                n == self.cells@.len(),
                forall|j: int| 0 <= j < i ==> self.cells@[j] == spec_default_cell(),
            decreases n - i,
        {
            if !self.cells[i].is_default() {
                assert(self.cells@[i as int] != blank_cells(self.cells@.len() as nat)[i as int]);
                return false;
            }
            i = i + 1;
        }
        assert(self.cells@ =~= blank_cells(self.cells@.len() as nat));
        true
    }
}

/// Clear type for screen and line clearing operations.
#[derive(Debug, Clone, Copy, PartialEq, Eq, Structural)]
pub enum ClearType {
    All,
    ToEnd,
    ToBeginning,
}

/// Tracks which lines changed since the last render.
#[verifier::ext_equal]
#[derive(Debug, Clone)]
pub struct DirtyTracker {
    pub width: u16,
    pub height: u16,
    pub dirty_lines: Vec<bool>,
    pub all_dirty: bool,
}

impl DirtyTracker {
    /// One flag per line.
    pub open spec fn wf(self) -> bool {
        self.dirty_lines@.len() == self.height as int
    }

    /// A fresh tracker: everything dirty.
    pub fn new(width: u16, height: u16) -> (r: Self)
        ensures
            r.wf(),
            r.width == width,
            r.height == height,
            r.all_dirty,
            forall|i: int| 0 <= i < height as int ==> !r.dirty_lines@[i],
    {
        let mut dirty_lines: Vec<bool> = Vec::new();
        let mut i: usize = 0;
        while i < height as usize
            invariant
                i <= height as usize,
                dirty_lines@.len() == i,
                forall|j: int| 0 <= j < i ==> !dirty_lines@[j],
            decreases height as usize - i,
        {
            dirty_lines.push(false);
            i = i + 1;
        }
        DirtyTracker { width, height, dirty_lines, all_dirty: true }
    }

    /// Mark the line holding a cell dirty; rows out of range are ignored.
    pub fn mark_cell_dirty(&mut self, row: u16, _col: u16)
        ensures
            final(self).width == old(self).width,
            final(self).height == old(self).height,
            final(self).all_dirty == old(self).all_dirty,
            (row as int) < old(self).dirty_lines@.len() ==> final(self).dirty_lines@ == old(self).dirty_lines@.update(row as int, true),
            (row as int) >= old(self).dirty_lines@.len() ==> final(self).dirty_lines@ == old(self).dirty_lines@,
    {
        if (row as usize) < self.dirty_lines.len() {
            self.dirty_lines.set(row as usize, true);
        }
    }

    /// Mark a whole line dirty; rows out of range are ignored.
    pub fn mark_line_dirty(&mut self, row: u16)
        ensures
            final(self).width == old(self).width,
            final(self).height == old(self).height,
            final(self).all_dirty == old(self).all_dirty,
            (row as int) < old(self).dirty_lines@.len() ==> final(self).dirty_lines@ == old(self).dirty_lines@.update(row as int, true),
            (row as int) >= old(self).dirty_lines@.len() ==> final(self).dirty_lines@ == old(self).dirty_lines@,
    {
        if (row as usize) < self.dirty_lines.len() {
            self.dirty_lines.set(row as usize, true);
        }
    }

    /// Mark everything dirty.
    pub fn mark_all_dirty(&mut self)
        ensures
            final(self).width == old(self).width,
            final(self).height == old(self).height,
            final(self).all_dirty,
            final(self).dirty_lines@.len() == old(self).dirty_lines@.len(),
            forall|i: int| 0 <= i < final(self).dirty_lines@.len() ==> final(self).dirty_lines@[i],
    {
        self.all_dirty = true;
        let n = self.dirty_lines.len();
        let mut i: usize = 0;
        while i < n
            invariant
                i <= n,
                n == self.dirty_lines@.len(),
                self.all_dirty,
                self.width == old(self).width,
                self.height == old(self).height,
                forall|j: int| 0 <= j < i ==> self.dirty_lines@[j],
            decreases n - i,
        {
            self.dirty_lines.set(i, true);
            i = i + 1;
        }
    }

    /// Reset every dirty flag, called after rendering.
    pub fn clear(&mut self)
        ensures
            final(self).width == old(self).width,
            final(self).height == old(self).height,
            !final(self).all_dirty,
            final(self).dirty_lines@.len() == old(self).dirty_lines@.len(),
            forall|i: int| 0 <= i < final(self).dirty_lines@.len() ==> !final(self).dirty_lines@[i],
    {
        self.all_dirty = false;
        let n = self.dirty_lines.len();
        let mut i: usize = 0;
        while i < n
            invariant
                i <= n,
                n == self.dirty_lines@.len(),
                !self.all_dirty,
                self.width == old(self).width,
                self.height == old(self).height,
                forall|j: int| 0 <= j < i ==> !self.dirty_lines@[j],
            decreases n - i,
        {
            self.dirty_lines.set(i, false);
            i = i + 1;
        }
    }

    /// Whether a line must be re-rendered.
    pub fn is_line_dirty(&self, row: u16) -> (r: bool)
        ensures
            r == (self.all_dirty || ((row as int) < self.dirty_lines@.len()
                && self.dirty_lines@[row as int])),
    {
        self.all_dirty || ((row as usize) < self.dirty_lines.len() && self.dirty_lines[row
            as usize])
    }

    /// Whether everything must be re-rendered.
    pub fn is_all_dirty(&self) -> (r: bool)
        ensures
            r == self.all_dirty,
    {
        self.all_dirty
    }
}

/// Which buffer a search match was found in.
#[derive(Debug, Clone, Copy, PartialEq, Eq, Structural)]
pub enum BufferType {
    Screen,
    Scrollback,
}

/// One search match: the line it lies in and the columns it spans.
#[derive(Debug, Clone)]
pub struct SearchMatch {
    pub buffer_type: BufferType,
    pub line: usize,
    pub start_col: usize,
    pub end_col: usize,
    pub text: String,
}

/// The characters, case-folded when `fold` is set.
pub open spec fn folded_chars(s: Seq<char>, fold: bool) -> Seq<char> {
    if fold {
        s.map_values(|c: char| lower_char(c))
    } else {
        s
    }
}

/// Whether `pat` occurs in `text` starting at position `i`.
pub open spec fn occurs_at(text: Seq<char>, pat: Seq<char>, i: int) -> bool {
    &&& 0 <= i
    &&& i + pat.len() <= text.len()
    &&& forall|j: int| 0 <= j < pat.len() ==> text[i + j] == pat[j]
}

/// The text a case-insensitive search compares against: the line's
/// characters, folded unless the search is case-sensitive.
pub open spec fn search_chars(l: Line, case_sensitive: bool) -> Seq<char> {
    folded_chars(l.chars(), !case_sensitive)
}

/// The pattern a search compares with, folded the same way.
pub open spec fn search_pat(pat: Seq<char>, case_sensitive: bool) -> Seq<char> {
    folded_chars(pat, !case_sensitive)
}

/// Whether `pat` occurs in line `l` of `lines` at column `s`, after folding
/// both sides for a case-insensitive search.
pub open spec fn line_occurrence(
    lines: Seq<Line>,
    pat: Seq<char>,
    case_sensitive: bool,
    l: int,
    s: int,
) -> bool {
    &&& 0 <= l < lines.len()
    &&& occurs_at(search_chars(lines[l], case_sensitive), search_pat(pat, case_sensitive), s)
}

/// Whether a list of matches is strictly ordered by line and then by
/// start column.
pub open spec fn matches_ordered(ms: Seq<SearchMatch>) -> bool {
    forall|k1: int, k2: int|
        0 <= k1 < k2 < ms.len() ==> (#[trigger] ms[k1]).line < (#[trigger] ms[k2]).line
            || (ms[k1].line == ms[k2].line && ms[k1].start_col < ms[k2].start_col)
}

/// What a scrollback push leaves in the history: the line appended, after
/// the oldest line was evicted if the history was at capacity; with no
/// capacity at all, nothing is ever held.
pub open spec fn sb_push(pre: Seq<Line>, max_lines: usize, line: Line) -> Seq<Line> {
    if pre.len() < max_lines {
        pre.push(line)
    } else if max_lines > 0 {
        pre.subrange(1, pre.len() as int).push(line)
    } else {
        Seq::empty()
    }
}

/// Bounded scrollback history of lines that scrolled off the top of the
/// screen, oldest first, oldest evicted once at capacity.
#[derive(Debug, Clone)]
pub struct ScrollbackBuffer {
    pub lines: VecDeque<Line>,
    pub max_lines: usize,
    pub current_size: usize,
}

impl ScrollbackBuffer {
    /// The running count mirrors the stored count, and the history never
    /// exceeds its capacity.
    pub open spec fn wf(self) -> bool {
        &&& self.current_size == self.lines@.len()
        &&& self.lines@.len() <= self.max_lines
    }

    /// A new empty scrollback buffer with the given capacity.
    pub fn new(max_lines: usize) -> (r: Self)
        ensures
            r.wf(),
            r.max_lines == max_lines,
            r.lines@.len() == 0,
    {
        ScrollbackBuffer { lines: VecDeque::new(), max_lines, current_size: 0 }
    }

    /// Append a line; at capacity the oldest line is evicted first, and
    /// with no capacity at all the line is dropped.
    pub fn push_line(&mut self, line: Line)
        requires
            old(self).wf(),
        ensures
            final(self).wf(),
            final(self).max_lines == old(self).max_lines,
            final(self).lines@ == sb_push(old(self).lines@, old(self).max_lines, line),
            final(self).lines@.len() == vstd::math::min(
                old(self).lines@.len() as int + 1,
                old(self).max_lines as int,
            ),
    {
        if self.max_lines == 0 {
            return ;
        }
        if self.current_size >= self.max_lines {
            let popped = self.lines.pop_front();
            if popped.is_some() {
                self.current_size = self.current_size - 1;
            }
            self.current_size = self.current_size + 1;
        } else {
            self.current_size = self.current_size + 1;
        }
        self.lines.push_back(line);
    }

    /// The line at `index`, oldest first.
    pub fn get_line(&self, index: usize) -> (r: Option<&Line>)
        ensures
            (index as int) < self.lines@.len() ==> r == Some(&self.lines@[index as int]),
            (index as int) >= self.lines@.len() ==> r is None,
    {
        if index < self.lines.len() {
            Some(&self.lines[index])
        } else {
            None
        }
    }

    /// The number of lines held.
    pub fn len(&self) -> (r: usize)
        ensures
            r == self.lines@.len(),
    {
        self.lines.len()
    }

    /// Whether the history is empty.
    pub fn is_empty(&self) -> (r: bool)
        ensures
            r == (self.lines@.len() == 0),
    {
        self.lines.len() == 0
    }

    /// Drop the whole history.
    pub fn clear(&mut self)
        ensures
            final(self).wf(),
            final(self).lines@.len() == 0,
            final(self).max_lines == old(self).max_lines,
    {
        self.lines.clear();
        self.current_size = 0;
    }

    /// Search the history for a pattern.  Every occurrence is reported, in
    /// order of line and then of start column, overlapping occurrences
    /// included; the folded comparison is ASCII-case-insensitive.
    pub fn search(&self, pattern: &str, case_sensitive: bool) -> (r: Vec<SearchMatch>)
        requires
            pattern@.len() > 0,
        ensures
            forall|k: int|
                0 <= k < r@.len() ==> {
                    &&& (#[trigger] r@[k]).buffer_type == BufferType::Scrollback
                    &&& r@[k].text@ == pattern@
                    &&& r@[k].end_col == r@[k].start_col + pattern@.len()
                    &&& line_occurrence(
                        self.lines@,
                        pattern@,
                        case_sensitive,
                        r@[k].line as int,
                        r@[k].start_col as int,
                    )
                },
            forall|l: int, s: int|
                #[trigger] line_occurrence(self.lines@, pattern@, case_sensitive, l, s) ==> exists|k: int|
                    0 <= k < r@.len() && (#[trigger] r@[k]).line == l && r@[k].start_col == s,
            matches_ordered(r@),
    {
        let fold = !case_sensitive;
        let pat = prepare_pattern(pattern, fold);
        let mut matches: Vec<SearchMatch> = Vec::new();
        let n = self.lines.len();
        let mut line_idx: usize = 0;
        while line_idx < n
            invariant
                line_idx <= n,
                n == self.lines@.len(),
                pat@ == search_pat(pattern@, case_sensitive),
                pat@.len() == pattern@.len() > 0,
                forall|k: int|
                    0 <= k < matches@.len() ==> {
                        &&& (#[trigger] matches@[k]).buffer_type == BufferType::Scrollback
                        &&& matches@[k].text@ == pattern@
                        &&& matches@[k].end_col == matches@[k].start_col + pattern@.len()
                        &&& line_occurrence(
                            self.lines@,
                            pattern@,
                            case_sensitive,
                            matches@[k].line as int,
                            matches@[k].start_col as int,
                        )
                    },
                forall|l: int, s: int|
                    0 <= l < line_idx && #[trigger] line_occurrence(self.lines@, pattern@, case_sensitive, l, s)
                        ==> exists|k: int|
                        0 <= k < matches@.len() && (#[trigger] matches@[k]).line == l
                            && matches@[k].start_col == s,
                forall|k: int| 0 <= k < matches@.len() ==> (#[trigger] matches@[k]).line < line_idx,
                matches_ordered(matches@),
            decreases n - line_idx,
        {
            let ghost prev_len = matches@.len();
            search_line(
                &self.lines[line_idx],
                line_idx,
                pattern,
                &pat,
                case_sensitive,
                BufferType::Scrollback,
                &mut matches,
                Ghost(self.lines@),
            );
            proof {
                assert forall|k1: int, k2: int|
                    0 <= k1 < k2 < matches@.len() implies (#[trigger] matches@[k1]).line < (
                #[trigger] matches@[k2]).line || (matches@[k1].line == matches@[k2].line
                    && matches@[k1].start_col < matches@[k2].start_col) by {
                    if k2 < prev_len {
                    } else if k1 < prev_len {
                        assert(matches@[k1].line < line_idx);
                        assert(matches@[k2].line == line_idx);
                    } else {
                        assert(matches@[k1].start_col < matches@[k2].start_col);
                    }
                }
            }
            line_idx = line_idx + 1;
        }
        matches
    }
}

/// The pattern's characters, folded for a case-insensitive search.
pub(crate) fn prepare_pattern(pattern: &str, fold: bool) -> (r: Vec<char>)
    ensures
        r@ == folded_chars(pattern@, fold),
{
    let raw = str_chars(pattern);
    if !fold {
        return raw;
    }
    let mut out: Vec<char> = Vec::new();
    let n = raw.len();
    let mut i: usize = 0;
    while i < n
        invariant
            i <= n,
            n == raw@.len(),
            raw@ == pattern@,
            out@ =~= folded_chars(pattern@.subrange(0, i as int), true),
        decreases n - i,
    {
        out.push(to_lower_char(raw[i]));
        assert(out@ =~= folded_chars(pattern@.subrange(0, i + 1), true));
        i = i + 1;
    }
    assert(pattern@.subrange(0, n as int) =~= pattern@);
    out
}

/// Whether the folded pattern occurs in the line's folded text at `start`.
fn line_matches_at(line: &Line, pat: &Vec<char>, start: usize, fold: bool) -> (r: bool)
    requires
        start + pat@.len() <= line.cells@.len(),
    ensures
        r == occurs_at(folded_chars(line.chars(), fold), pat@, start as int),
{
    let n = line.cells.len();
    let m = pat.len();
    let mut j: usize = 0;
    while j < m
        invariant
            j <= m,
            m == pat@.len(),
            n == line.cells@.len(),
            start + m <= n,
            forall|q: int|
                0 <= q < j ==> folded_chars(line.chars(), fold)[start + q] == pat@[q],
        decreases m - j,
    {
        let c = line.cells[start + j].character;
        let cf = if fold {
            to_lower_char(c)
        } else {
            c
        };
        assert(folded_chars(line.chars(), fold)[start + j as int] == cf);
        if cf != pat[j] {
            return false;
        }
        j = j + 1;
    }
    true
}

/// Scan one line and append every occurrence of the pattern to `matches`,
/// in increasing column order, tagged with the given buffer kind.
pub(crate) fn search_line(
    line: &Line,
    line_idx: usize,
    pattern: &str,
    pat: &Vec<char>,
    case_sensitive: bool,
    buffer_type: BufferType,
    matches: &mut Vec<SearchMatch>,
    all_lines: Ghost<Seq<Line>>,
)
    requires
        pat@ == search_pat(pattern@, case_sensitive),
        pat@.len() == pattern@.len() > 0,
        (line_idx as int) < all_lines@.len(),
        all_lines@[line_idx as int] == *line,
        forall|k: int|
            0 <= k < old(matches)@.len() ==> {
                &&& (#[trigger] old(matches)@[k]).buffer_type == buffer_type
                &&& old(matches)@[k].text@ == pattern@
                &&& old(matches)@[k].end_col == old(matches)@[k].start_col + pattern@.len()
                &&& line_occurrence(
                    all_lines@,
                    pattern@,
                    case_sensitive,
                    old(matches)@[k].line as int,
                    old(matches)@[k].start_col as int,
                )
            },
    ensures
        final(matches)@.len() >= old(matches)@.len(),
        forall|k: int|
            0 <= k < old(matches)@.len() ==> final(matches)@[k] == old(matches)@[k],
        forall|k: int|
            0 <= k < final(matches)@.len() ==> {
                &&& (#[trigger] final(matches)@[k]).buffer_type == buffer_type
                &&& final(matches)@[k].text@ == pattern@
                &&& final(matches)@[k].end_col == final(matches)@[k].start_col + pattern@.len()
                &&& line_occurrence(
                    all_lines@,
                    pattern@,
                    case_sensitive,
                    final(matches)@[k].line as int,
                    final(matches)@[k].start_col as int,
                )
            },
        forall|k: int|
            old(matches)@.len() <= k < final(matches)@.len() ==> (#[trigger] final(matches)@[k]).line == line_idx,
        forall|k1: int, k2: int|
            old(matches)@.len() <= k1 < k2 < final(matches)@.len() ==> (#[trigger] final(matches)@[k1]).start_col < (#[trigger] final(matches)@[k2]).start_col,
        forall|s: int|
            #[trigger] occurs_at(search_chars(*line, case_sensitive), pat@, s) ==> exists|k: int|
                0 <= k < final(matches)@.len() && (#[trigger] final(matches)@[k]).line == line_idx
                    && final(matches)@[k].start_col == s,
{
    let fold = !case_sensitive;
    let width = line.cells.len();
    let m = pat.len();
    if m > width {
        return ;
    }
    let last_start = width - m;
    let mut start: usize = 0;
    while start <= last_start
        invariant
            start <= last_start + 1,
            last_start == width - m,
            m == pat@.len() == pattern@.len(),
            pat@.len() > 0,
            width == line.cells@.len(),
            fold == !case_sensitive,
            pat@ == search_pat(pattern@, case_sensitive),
            (line_idx as int) < all_lines@.len(),
            all_lines@[line_idx as int] == *line,
            matches@.len() >= old(matches)@.len(),
            forall|k: int| 0 <= k < old(matches)@.len() ==> matches@[k] == old(matches)@[k],
            forall|k: int|
                0 <= k < matches@.len() ==> {
                    &&& (#[trigger] matches@[k]).buffer_type == buffer_type
                    &&& matches@[k].text@ == pattern@
                    &&& matches@[k].end_col == matches@[k].start_col + pattern@.len()
                    &&& line_occurrence(
                        all_lines@,
                        pattern@,
                        case_sensitive,
                        matches@[k].line as int,
                        matches@[k].start_col as int,
                    )
                },
            forall|k: int|
                old(matches)@.len() <= k < matches@.len() ==> (#[trigger] matches@[k]).line
                    == line_idx,
            forall|k: int|
                old(matches)@.len() <= k < matches@.len() ==> (#[trigger] matches@[k]).start_col
                    < start,
            forall|k1: int, k2: int|
                old(matches)@.len() <= k1 < k2 < matches@.len() ==> (#[trigger] matches@[k1]).start_col
                    < (#[trigger] matches@[k2]).start_col,
            forall|s: int|
                0 <= s < start && #[trigger] occurs_at(folded_chars(line.chars(), fold), pat@, s)
                    ==> exists|k: int|
                    0 <= k < matches@.len() && (#[trigger] matches@[k]).line == line_idx
                        && matches@[k].start_col == s,
        decreases last_start + 1 - start,
    {
        let ghost prev = matches@;
        let hit = line_matches_at(line, pat, start, fold);
        if hit {
            let found = SearchMatch {
                buffer_type,
                line: line_idx,
                start_col: start,
                end_col: start + m,
                text: pattern.to_owned(),
            };
            matches.push(found);
        }
        assert forall|s: int|
            0 <= s < start + 1 && #[trigger] occurs_at(
                folded_chars(line.chars(), fold),
                pat@,
                s,
            ) implies exists|k: int|
            0 <= k < matches@.len() && (#[trigger] matches@[k]).line == line_idx
                && matches@[k].start_col == s by {
            if s == start {
                assert(hit);
                let k = matches@.len() - 1;
                assert(matches@[k].line == line_idx && matches@[k].start_col == s);
            } else {
                let k = choose|k: int|
                    0 <= k < prev.len() && (#[trigger] prev[k]).line == line_idx
                        && prev[k].start_col == s;
                assert(matches@[k].line == line_idx && matches@[k].start_col == s);
            }
        }
        start = start + 1;
    }
    assert forall|s: int|
        occurs_at(folded_chars(line.chars(), fold), pat@, s) implies 0 <= s < start by {
        assert(s + pat@.len() <= line.chars().len());
    }
}

/// A blank, unwrapped, dirty line of the given width.
pub open spec fn is_blank_line(l: Line, width: u16) -> bool {
    &&& l.cells@ =~= blank_cells(width as nat)
    &&& !l.wrapped
    &&& l.dirty
}

/// The fixed-size grid of visible terminal content, with per-line dirty
/// tracking.
#[verifier::ext_equal]
#[derive(Debug, Clone)]
pub struct ScreenBuffer {
    pub lines: Vec<Line>,
    pub width: u16,
    pub height: u16,
    pub dirty_regions: DirtyTracker,
}

/// What clearing the whole screen leaves behind: every line blank and
/// dirty, wrapped flags kept, sizes kept, and the whole screen marked
/// dirty.
pub open spec fn screen_cleared_all(pre: ScreenBuffer, post: ScreenBuffer) -> bool {
    &&& post.width == pre.width
    &&& post.height == pre.height
    &&& post.lines@.len() == pre.lines@.len()
    &&& forall|i: int|
        0 <= i < pre.lines@.len() ==> (#[trigger] post.lines@[i]).cells@ =~= blank_cells(
            pre.lines@[i].cells@.len() as nat,
        )
    &&& forall|i: int|
        0 <= i < pre.lines@.len() ==> (#[trigger] post.lines@[i]).wrapped
            == pre.lines@[i].wrapped
    &&& forall|i: int| 0 <= i < pre.lines@.len() ==> (#[trigger] post.lines@[i]).dirty
    &&& post.dirty_regions.width == pre.dirty_regions.width
    &&& post.dirty_regions.height == pre.dirty_regions.height
    &&& post.dirty_regions.all_dirty
    &&& post.dirty_regions.dirty_lines@.len() == pre.dirty_regions.dirty_lines@.len()
    &&& forall|i: int|
        0 <= i < post.dirty_regions.dirty_lines@.len() ==> post.dirty_regions.dirty_lines@[i]
}

impl ScreenBuffer {
    /// Exactly `height` lines, each `width` cells wide, with one dirty flag
    /// per line.
    pub open spec fn wf(self) -> bool {
        &&& self.lines@.len() == self.height as int
        &&& forall|i: int|
            0 <= i < self.lines@.len() ==> (#[trigger] self.lines@[i]).cells@.len()
                == self.width as int
        &&& self.dirty_regions.dirty_lines@.len() == self.height as int
    }

    /// A new screen buffer of blank lines, everything marked dirty.
    pub fn new(width: u16, height: u16) -> (r: Self)
        ensures
            r.wf(),
            r.width == width,
            r.height == height,
            forall|i: int|
                0 <= i < height as int ==> is_blank_line(#[trigger] r.lines@[i], width),
            r.dirty_regions.all_dirty,
    {
        let mut lines: Vec<Line> = Vec::new();
        let mut i: usize = 0;
        while i < height as usize
            invariant
                i <= height as usize,
                lines@.len() == i,
                forall|j: int| 0 <= j < i ==> is_blank_line(#[trigger] lines@[j], width),
            decreases height as usize - i,
        {
            lines.push(Line::new(width));
            i = i + 1;
        }
        ScreenBuffer { lines, width, height, dirty_regions: DirtyTracker::new(width, height) }
    }

    /// Resize: lines are added at or dropped from the bottom, every kept
    /// line keeps its left cells and gets default cells in new columns, and
    /// the whole screen is marked dirty.  Never fails.
    pub fn resize(&mut self, new_width: u16, new_height: u16) -> (r: PaneResult<()>)
        requires
            old(self).wf(),
        ensures
            r is Ok,
            final(self).wf(),
            final(self).width == new_width,
            final(self).height == new_height,
            forall|i: int|
                0 <= i < new_height as int && i < old(self).height as int ==> {
                    &&& (#[trigger] final(self).lines@[i]).wrapped == old(self).lines@[i].wrapped
                    &&& forall|j: int|
                        0 <= j < new_width as int ==> final(self).lines@[i].cells@[j] == (if j < old(self).width as int {
                            old(self).lines@[i].cells@[j]
                        } else {
                            spec_default_cell()
                        })
                },
            forall|i: int|
                old(self).height as int <= i < new_height as int ==> is_blank_line(
                    #[trigger] final(self).lines@[i],
                    new_width,
                ),
            final(self).dirty_regions.all_dirty,
    {
        let old_height = self.height;
        if new_height > old_height {
            while self.lines.len() < new_height as usize
                invariant
                    old(self).wf(),
                    old_height == old(self).height,
                    old(self).height as int <= self.lines@.len() <= new_height as int,
                    self.width == old(self).width,
                    self.height == old(self).height,
                    forall|i: int|
                        0 <= i < old(self).height as int ==> #[trigger] self.lines@[i] == old(self).lines@[i],
                    forall|i: int|
                        old(self).height as int <= i < self.lines@.len() ==> is_blank_line(
                            #[trigger] self.lines@[i],
                            new_width,
                        ),
                decreases new_height as int - self.lines@.len(),
            {
                self.lines.push(Line::new(new_width));
            }
        } else if new_height < old_height {
            self.lines.truncate(new_height as usize);
        }
        let n = self.lines.len();
        let ghost mid = self.lines@;
        let mut i: usize = 0;
        while i < n
            invariant
                i <= n,
                n == self.lines@.len(),
                mid.len() == n,
                forall|k: int| i <= k < n ==> #[trigger] self.lines@[k] == mid[k],
                forall|k: int|
                    0 <= k < i ==> {
                        &&& (#[trigger] self.lines@[k]).cells@.len() == new_width as int
                        &&& self.lines@[k].wrapped == mid[k].wrapped
                        &&& self.lines@[k].dirty == (mid[k].dirty || new_width as int
                            != mid[k].cells@.len())
                        &&& forall|j: int|
                            0 <= j < new_width as int ==> self.lines@[k].cells@[j] == (if j
                                < mid[k].cells@.len() {
                                mid[k].cells@[j]
                            } else {
                                spec_default_cell()
                            })
                    },
            decreases n - i,
        {
            let line = &mut self.lines[i];
            line.resize(new_width);
            i = i + 1;
        }
        self.width = new_width;
        self.height = new_height;
        self.dirty_regions = DirtyTracker::new(new_width, new_height);
        self.dirty_regions.mark_all_dirty();
        assert forall|i: int|
            old(self).height as int <= i < new_height as int implies is_blank_line(
            #[trigger] self.lines@[i],
            new_width,
        ) by {
            assert(self.lines@[i].cells@ =~= blank_cells(new_width as nat));
        }
        Ok(())
    }

    /// Write a character at the cursor position with the current
    /// attributes.
    pub fn write_char_at_cursor(
        &mut self,
        ch: char,
        cursor: &crate::pane::cursor::Cursor,
        modes: &crate::pane::state::TerminalModes,
    ) -> (r: PaneResult<()>)
        requires
            old(self).wf(),
        ensures
            final(self).wf(),
            final(self).width == old(self).width,
            final(self).height == old(self).height,
            r is Ok <==> cursor.position.row < old(self).height,
            r is Err ==> *final(self) == *old(self) && r.get_Err_0() == (
            PaneError::InvalidCursorPosition(cursor.position.row, cursor.position.col)),
            r is Ok ==> char_written(
                *old(self),
                *final(self),
                cursor.position.row,
                cursor.position.col,
                ch,
                modes.current_attributes,
            ),
    {
        let pos = cursor.position;
        self.write_char_at(pos.row, pos.col, ch, &modes.current_attributes)
    }

    /// Write a character at a given cell.  A row outside the screen is an
    /// invalid cursor position; a column outside the row is ignored.
    pub fn write_char_at(&mut self, row: u16, col: u16, ch: char, attrs: &CellAttributes) -> (r:
        PaneResult<()>)
        requires
            old(self).wf(),
        ensures
            final(self).wf(),
            final(self).width == old(self).width,
            final(self).height == old(self).height,
            r is Ok <==> row < old(self).height,
            r is Err ==> *final(self) == *old(self) && r.get_Err_0() == (
            PaneError::InvalidCursorPosition(row, col)),
            r is Ok ==> char_written(*old(self), *final(self), row, col, ch, *attrs),
    {
        if row >= self.height {
            return Err(PaneError::InvalidCursorPosition(row, col));
        }
        if col < self.width {
            let line = &mut self.lines[row as usize];
            line.write_char(col, ch, *attrs);
            self.dirty_regions.mark_cell_dirty(row, col);
        }
        Ok(())
    }
}

/// What writing one character at `(row, col)` changes: that cell's
/// character and attributes, that line's and the tracker's dirty flag, and
/// nothing else.  A column outside the row changes nothing.
pub open spec fn char_written(
    pre: ScreenBuffer,
    post: ScreenBuffer,
    row: u16,
    col: u16,
    ch: char,
    attrs: CellAttributes,
) -> bool {
    &&& post.width == pre.width
    &&& post.height == pre.height
    &&& post.lines@.len() == pre.lines@.len()
    &&& if col < pre.width && row < pre.height {
        &&& post.lines@ == pre.lines@.update(
            row as int,
            Line {
                cells: post.lines@[row as int].cells,
                wrapped: pre.lines@[row as int].wrapped,
                dirty: true,
            },
        )
        &&& post.lines@[row as int].cells@ == pre.lines@[row as int].cells@.update(
            col as int,
            Cell {
                character: ch,
                attributes: attrs,
                foreground: pre.lines@[row as int].cells@[col as int].foreground,
                background: pre.lines@[row as int].cells@[col as int].background,
            },
        )
        &&& post.dirty_regions.dirty_lines@ == pre.dirty_regions.dirty_lines@.update(
            row as int,
            true,
        )
        &&& post.dirty_regions.all_dirty == pre.dirty_regions.all_dirty
        &&& post.dirty_regions.width == pre.dirty_regions.width
        &&& post.dirty_regions.height == pre.dirty_regions.height
    } else {
        post == pre
    }
}

impl ScreenBuffer {
    /// Clear part or all of the screen, relative to the cursor.  `All`
    /// clears every line and homes the cursor; `ToEnd` clears from the
    /// cursor to the end of the screen; `ToBeginning` from the start of the
    /// screen through the cursor.  The whole screen is marked dirty.
    pub fn clear_screen(&mut self, clear_type: ClearType, cursor: &mut Cursor) -> (r: PaneResult<
        (),
    >)
        requires
            old(self).wf(),
            old(cursor).position.row < old(self).height,
        ensures
            r is Ok,
            final(self).wf(),
            final(self).width == old(self).width,
            final(self).height == old(self).height,
            final(self).dirty_regions.all_dirty,
            clear_type is All ==> screen_cleared_all(*old(self), *final(self)),
            clear_type is All ==> Cursor::moved_only(*old(cursor), *final(cursor))
                && final(cursor).position.row == 0 && final(cursor).position.col == 0,
            !(clear_type is All) ==> *final(cursor) == *old(cursor),
            clear_type is ToEnd ==> {
                let row = old(cursor).position.row as int;
                let col = old(cursor).position.col as int;
                &&& forall|i: int|
                    0 <= i < row ==> (#[trigger] final(self).lines@[i]).cells@ == old(self).lines@[i].cells@ && final(self).lines@[i].wrapped == old(self).lines@[i].wrapped
                &&& forall|j: int|
                    0 <= j < old(self).width as int && j < col ==> final(self).lines@[row].cells@[j] == old(self).lines@[row].cells@[j]
                &&& forall|j: int|
                    col <= j < old(self).width as int ==> final(self).lines@[row].cells@[j]
                        == spec_default_cell()
                &&& forall|i: int|
                    row < i < old(self).height as int ==> (#[trigger] final(self).lines@[i]).cells@ =~= blank_cells(old(self).width as nat)
            },
            clear_type is ToBeginning ==> {
                let row = old(cursor).position.row as int;
                let col = old(cursor).position.col as int;
                &&& forall|i: int|
                    0 <= i < row ==> (#[trigger] final(self).lines@[i]).cells@ =~= blank_cells(
                        old(self).width as nat,
                    )
                &&& forall|j: int|
                    0 <= j < old(self).width as int && j <= col ==> final(self).lines@[row].cells@[j] == spec_default_cell()
                &&& forall|j: int|
                    col < j < old(self).width as int ==> final(self).lines@[row].cells@[j] == old(self).lines@[row].cells@[j]
                &&& forall|i: int|
                    row < i < old(self).height as int ==> (#[trigger] final(self).lines@[i]).cells@
                        == old(self).lines@[i].cells@
            },
    {
        match clear_type {
            ClearType::All => {
                let n = self.lines.len();
                let mut i: usize = 0;
                while i < n
                    invariant
                        i <= n,
                        n == self.lines@.len(),
                        self.width == old(self).width,
                        self.height == old(self).height,
                        self.dirty_regions == old(self).dirty_regions,
                        forall|k: int|
                            0 <= k < i ==> (#[trigger] self.lines@[k]).cells@ =~= blank_cells(
                                old(self).lines@[k].cells@.len() as nat,
                            ) && self.lines@[k].wrapped == old(self).lines@[k].wrapped
                                && self.lines@[k].dirty,
                        forall|k: int| i <= k < n ==> #[trigger] self.lines@[k] == old(self).lines@[k],
                    decreases n - i,
                {
                    let line = &mut self.lines[i];
                    line.clear();
                    i = i + 1;
                }
                let _ = cursor.set_position(0, 0, self);
            },
            ClearType::ToEnd => {
                let cursor_row = cursor.position.row as usize;
                let cursor_col = cursor.position.col;
                let line = &mut self.lines[cursor_row];
                line.clear_from(cursor_col);
                let n = self.lines.len();
                let mut i: usize = cursor_row + 1;
                while i < n
                    invariant
                        cursor_row + 1 <= i <= n,
                        n == self.lines@.len(),
                        cursor_row < n,
                        self.width == old(self).width,
                        self.height == old(self).height,
                        self.dirty_regions == old(self).dirty_regions,
                        forall|k: int|
                            0 <= k <= cursor_row ==> #[trigger] self.lines@[k].cells@.len() == old(self).lines@[k].cells@.len(),
                        forall|k: int|
                            0 <= k < cursor_row ==> #[trigger] self.lines@[k] == old(self).lines@[k],
                        self.lines@[cursor_row as int].wrapped == old(self).lines@[cursor_row as int].wrapped,
                        forall|j: int|
                            0 <= j < cursor_col as int && j < old(self).lines@[cursor_row as int].cells@.len() ==> #[trigger] self.lines@[cursor_row as int].cells@[j]
                                == old(self).lines@[cursor_row as int].cells@[j],
                        forall|j: int|
                            cursor_col as int <= j < old(self).lines@[cursor_row as int].cells@.len()
                                ==> #[trigger] self.lines@[cursor_row as int].cells@[j]
                                == spec_default_cell(),
                        forall|k: int|
                            cursor_row < k < i ==> (#[trigger] self.lines@[k]).cells@ =~= blank_cells(
                                old(self).lines@[k].cells@.len() as nat,
                            ),
                        forall|k: int| i <= k < n ==> #[trigger] self.lines@[k] == old(self).lines@[k],
                    decreases n - i,
                {
                    let below = &mut self.lines[i];
                    below.clear();
                    i = i + 1;
                }
            },
            ClearType::ToBeginning => {
                let cursor_row = cursor.position.row as usize;
                let cursor_col = cursor.position.col;
                let mut i: usize = 0;
                while i < cursor_row
                    invariant
                        i <= cursor_row,
                        cursor_row < self.lines@.len(),
                        self.lines@.len() == old(self).lines@.len(),
                        self.width == old(self).width,
                        self.height == old(self).height,
                        self.dirty_regions == old(self).dirty_regions,
                        forall|k: int|
                            0 <= k < i ==> (#[trigger] self.lines@[k]).cells@ =~= blank_cells(
                                old(self).lines@[k].cells@.len() as nat,
                            ),
                        forall|k: int|
                            i <= k < self.lines@.len() ==> #[trigger] self.lines@[k] == old(self).lines@[k],
                    decreases cursor_row - i,
                {
                    let above = &mut self.lines[i];
                    above.clear();
                    i = i + 1;
                }
                let line = &mut self.lines[cursor_row];
                line.clear_to(cursor_col);
            },
        }
        self.dirty_regions.mark_all_dirty();
        Ok(())
    }

    /// Clear part or all of the cursor's line and mark it dirty; the rest
    /// of the screen is untouched.
    pub fn clear_line(&mut self, clear_type: ClearType, cursor: &Cursor) -> (r: PaneResult<()>)
        requires
            old(self).wf(),
        ensures
            r is Ok,
            final(self).wf(),
            final(self).width == old(self).width,
            final(self).height == old(self).height,
            (cursor.position.row as int) >= old(self).lines@.len() ==> *final(self) == *old(self),
            (cursor.position.row as int) < old(self).lines@.len() ==> {
                let row = cursor.position.row as int;
                let col = cursor.position.col as int;
                &&& forall|i: int|
                    0 <= i < old(self).lines@.len() && i != row ==> #[trigger] final(self).lines@[i] == old(self).lines@[i]
                &&& final(self).lines@[row].wrapped == old(self).lines@[row].wrapped
                &&& (!(clear_type is ToEnd) ==> final(self).lines@[row].dirty)
                &&& (clear_type is ToEnd ==> final(self).lines@[row].dirty == (old(
                    self,
                ).lines@[row].dirty || col <= old(self).width as int))
                &&& (clear_type is All ==> forall|j: int|
                    0 <= j < old(self).width as int ==> #[trigger] final(self).lines@[row].cells@[j]
                        == spec_default_cell())
                &&& (clear_type is ToEnd ==> forall|j: int|
                    0 <= j < old(self).width as int ==> #[trigger] final(self).lines@[row].cells@[j]
                        == (if j < col {
                        old(self).lines@[row].cells@[j]
                    } else {
                        spec_default_cell()
                    }))
                &&& (clear_type is ToBeginning ==> forall|j: int|
                    0 <= j < old(self).width as int ==> #[trigger] final(self).lines@[row].cells@[j]
                        == (if j <= col {
                        spec_default_cell()
                    } else {
                        old(self).lines@[row].cells@[j]
                    }))
                &&& final(self).dirty_regions.dirty_lines@ == old(self).dirty_regions.dirty_lines@.update(row, true)
                &&& final(self).dirty_regions.all_dirty == old(self).dirty_regions.all_dirty
            },
    {
        let row = cursor.position.row as usize;
        if row >= self.lines.len() {
            return Ok(());
        }
        let line = &mut self.lines[row];
        match clear_type {
            ClearType::All => line.clear(),
            ClearType::ToEnd => line.clear_from(cursor.position.col),
            ClearType::ToBeginning => line.clear_to(cursor.position.col),
        }
        self.dirty_regions.mark_line_dirty(cursor.position.row);
        Ok(())
    }

    /// Insert up to `count` blank lines at the cursor row, pushing the rows
    /// below down and dropping as many from the bottom; the insertion is
    /// bounded by the rows at and below the cursor.  The whole screen is
    /// marked dirty.
    pub fn insert_lines(&mut self, count: u16, cursor: &Cursor) -> (r: PaneResult<()>)
        requires
            old(self).wf(),
            cursor.position.row < old(self).height,
        ensures
            r is Ok,
            final(self).wf(),
            final(self).width == old(self).width,
            final(self).height == old(self).height,
            final(self).dirty_regions.all_dirty,
            ({
                let row = cursor.position.row as int;
                let n = vstd::math::min(count as int, old(self).height - cursor.position.row);
                &&& forall|i: int| 0 <= i < row ==> #[trigger] final(self).lines@[i] == old(self).lines@[i]
                &&& forall|i: int|
                    row <= i < row + n ==> is_blank_line(#[trigger] final(self).lines@[i], old(self).width)
                &&& forall|i: int|
                    row + n <= i < old(self).height as int ==> #[trigger] final(self).lines@[i]
                        == old(self).lines@[i - n]
            }),
    {
        let start_row = cursor.position.row as usize;
        if start_row >= self.lines.len() {
            return Ok(());
        }
        let count_usize: usize = count as usize;
        let room: usize = (self.height - cursor.position.row) as usize;
        let n: usize = if count_usize < room {
            count_usize
        } else {
            room
        };
        let mut t: usize = 0;
        while t < n
            invariant
                t <= n,
                n <= old(self).height - cursor.position.row,
                start_row == cursor.position.row as usize,
                start_row < old(self).height,
                self.lines@.len() == old(self).lines@.len(),
                self.lines@.len() == old(self).height as int,
                self.width == old(self).width,
                self.height == old(self).height,
                self.dirty_regions == old(self).dirty_regions,
                forall|i: int| 0 <= i < start_row as int ==> #[trigger] self.lines@[i] == old(self).lines@[i],
                forall|i: int|
                    start_row as int <= i < start_row as int + t ==> is_blank_line(
                        #[trigger] self.lines@[i],
                        old(self).width,
                    ),
                forall|i: int|
                    start_row as int + t <= i < old(self).height as int ==> #[trigger] self.lines@[i]
                        == old(self).lines@[i - t],
            decreases n - t,
        {
            let last = self.lines.len() - 1;
            let _ = self.lines.remove(last);
            self.lines.insert(start_row, Line::new(self.width));
            t = t + 1;
        }
        self.dirty_regions.mark_all_dirty();
        Ok(())
    }

    /// Delete up to `count` lines at the cursor row, pulling the rows below
    /// up and filling the bottom with blank lines; the deletion is bounded
    /// by the rows at and below the cursor.  The whole screen is marked
    /// dirty.
    pub fn delete_lines(&mut self, count: u16, cursor: &Cursor) -> (r: PaneResult<()>)
        requires
            old(self).wf(),
            cursor.position.row < old(self).height,
        ensures
            r is Ok,
            final(self).wf(),
            final(self).width == old(self).width,
            final(self).height == old(self).height,
            final(self).dirty_regions.all_dirty,
            ({
                let row = cursor.position.row as int;
                let n = vstd::math::min(count as int, old(self).height - cursor.position.row);
                &&& forall|i: int| 0 <= i < row ==> #[trigger] final(self).lines@[i] == old(self).lines@[i]
                &&& forall|i: int|
                    row <= i < old(self).height - n ==> #[trigger] final(self).lines@[i] == old(self).lines@[i + n]
                &&& forall|i: int|
                    old(self).height - n <= i < old(self).height as int ==> is_blank_line(
                        #[trigger] final(self).lines@[i],
                        old(self).width,
                    )
            }),
    {
        let start_row = cursor.position.row as usize;
        if start_row >= self.lines.len() {
            return Ok(());
        }
        let count_usize: usize = count as usize;
        let room: usize = (self.height - cursor.position.row) as usize;
        let n: usize = if count_usize < room {
            count_usize
        } else {
            room
        };
        let mut t: usize = 0;
        while t < n
            invariant
                t <= n,
                n <= old(self).height - cursor.position.row,
                start_row == cursor.position.row as usize,
                start_row < old(self).height,
                self.lines@.len() == old(self).lines@.len(),
                self.lines@.len() == old(self).height as int,
                self.width == old(self).width,
                self.height == old(self).height,
                self.dirty_regions == old(self).dirty_regions,
                forall|i: int| 0 <= i < start_row as int ==> #[trigger] self.lines@[i] == old(self).lines@[i],
                forall|i: int|
                    start_row as int <= i < old(self).height - t ==> #[trigger] self.lines@[i] == old(self).lines@[i + t],
                forall|i: int|
                    old(self).height - t <= i < old(self).height as int ==> is_blank_line(
                        #[trigger] self.lines@[i],
                        old(self).width,
                    ),
            decreases n - t,
        {
            let _ = self.lines.remove(start_row);
            self.lines.push(Line::new(self.width));
            t = t + 1;
        }
        self.dirty_regions.mark_all_dirty();
        Ok(())
    }

    /// The line at `index`, if it exists.
    pub fn get_line(&self, index: usize) -> (r: Option<&Line>)
        ensures
            (index as int) < self.lines@.len() ==> r == Some(&self.lines@[index as int]),
            (index as int) >= self.lines@.len() ==> r is None,
    {
        if index < self.lines.len() {
            Some(&self.lines[index])
        } else {
            None
        }
    }

    /// Mark the entire screen dirty.
    pub fn mark_all_dirty(&mut self)
        ensures
            final(self).lines@ == old(self).lines@,
            final(self).width == old(self).width,
            final(self).height == old(self).height,
            final(self).dirty_regions.all_dirty,
            final(self).dirty_regions.width == old(self).dirty_regions.width,
            final(self).dirty_regions.height == old(self).dirty_regions.height,
            final(self).dirty_regions.dirty_lines@.len() == old(self).dirty_regions.dirty_lines@.len(),
            forall|i: int|
                0 <= i < final(self).dirty_regions.dirty_lines@.len() ==> final(self).dirty_regions.dirty_lines@[i],
    {
        self.dirty_regions.mark_all_dirty();
    }

    /// The dirty tracker, for rendering.
    pub fn get_dirty_regions(&self) -> (r: &DirtyTracker)
        ensures
            r == &self.dirty_regions,
    {
        &self.dirty_regions
    }

    /// Reset the dirty tracker, called after rendering.
    pub fn clear_dirty(&mut self)
        ensures
            final(self).lines@ == old(self).lines@,
            final(self).width == old(self).width,
            final(self).height == old(self).height,
            !final(self).dirty_regions.all_dirty,
            final(self).dirty_regions.width == old(self).dirty_regions.width,
            final(self).dirty_regions.height == old(self).dirty_regions.height,
            final(self).dirty_regions.dirty_lines@.len() == old(self).dirty_regions.dirty_lines@.len(),
            forall|i: int|
                0 <= i < final(self).dirty_regions.dirty_lines@.len() ==> !final(self).dirty_regions.dirty_lines@[i],
    {
        self.dirty_regions.clear();
    }
}

} // verus!
