//! Mode flags, the current graphic rendition, character-set slots, and tab
//! stops: the state the interpreter's operations read and mutate.

use vstd::prelude::*;
use crate::pane::buffer::{spec_default_attributes, BlinkType, CellAttributes, UnderlineType};
use crate::pane::errors::PaneResult;

verus! {

/// What one "select graphic rendition" parameter does to the attribute set:
/// 0 resets everything; 1 to 9 set bold, dim, italic, single underline,
/// slow blink (5 and 6), reverse, invisible and strikethrough; 21 sets a
/// double underline; 22 to 29 clear the corresponding attribute; everything
/// else (the color ranges among them) is ignored.
pub open spec fn spec_apply_sgr(attrs: CellAttributes, p: u8) -> CellAttributes {
    if p == 0 {
        spec_default_attributes()
    } else if p == 1 {
        CellAttributes { bold: true, ..attrs }
    } else if p == 2 {
        CellAttributes { dim: true, ..attrs }
    } else if p == 3 {
        CellAttributes { italic: true, ..attrs }
    } else if p == 4 {
        CellAttributes { underline: UnderlineType::Single, ..attrs }
    } else if p == 5 || p == 6 {
        CellAttributes { blink: BlinkType::Slow, ..attrs }
    } else if p == 7 {
        CellAttributes { reverse: true, ..attrs }
    } else if p == 8 {
        CellAttributes { invisible: true, ..attrs }
    } else if p == 9 {
        CellAttributes { strikethrough: true, ..attrs }
    } else if p == 21 {
        CellAttributes { underline: UnderlineType::Double, ..attrs }
    } else if p == 22 {
        CellAttributes { bold: false, dim: false, ..attrs }
    } else if p == 23 {
        CellAttributes { italic: false, ..attrs }
    } else if p == 24 {
        CellAttributes { underline: UnderlineType::NoUnderline, ..attrs }
    } else if p == 25 {
        CellAttributes { blink: BlinkType::NoBlink, ..attrs }
    } else if p == 27 {
        CellAttributes { reverse: false, ..attrs }
    } else if p == 28 {
        CellAttributes { invisible: false, ..attrs }
    } else if p == 29 {
        CellAttributes { strikethrough: false, ..attrs }
    } else {
        attrs
    }
}

/// The attribute set after applying a whole parameter list in order.
pub open spec fn spec_apply_sgr_seq(attrs: CellAttributes, params: Seq<u8>) -> CellAttributes
    decreases params.len(),
{
    if params.len() == 0 {
        attrs
    } else {
        spec_apply_sgr(spec_apply_sgr_seq(attrs, params.drop_last()), params.last())
    }
}

/// A reset parameter list (the single parameter 0) clears the current
/// attributes to the default, whatever they were.
pub proof fn lemma_sgr_reset_clears_attributes(attrs: CellAttributes)
    ensures
        spec_apply_sgr_seq(attrs, seq![0u8]) == spec_default_attributes(),
{
    assert(seq![0u8].drop_last() =~= Seq::<u8>::empty());
}

/// Terminal mode flags and the current graphic rendition.
#[derive(Debug, Clone, PartialEq, Eq, Structural)]
pub struct TerminalModes {
    pub insert_mode: bool,
    pub auto_wrap: bool,
    pub cursor_visible: bool,
    pub application_keypad: bool,
    pub application_cursor: bool,
    pub origin_mode: bool,
    pub current_attributes: CellAttributes,
}

/// The stock mode set: auto-wrap on, cursor visible, everything else off,
/// default attributes.
pub open spec fn spec_default_modes() -> TerminalModes {
    TerminalModes {
        insert_mode: false,
        auto_wrap: true,
        cursor_visible: true,
        application_keypad: false,
        application_cursor: false,
        origin_mode: false,
        current_attributes: spec_default_attributes(),
    }
}

impl Default for TerminalModes {
    fn default() -> (c: Self)
        ensures
            c == spec_default_modes(),
    {
        TerminalModes {
            insert_mode: false,
            auto_wrap: true,
            cursor_visible: true,
            application_keypad: false,
            application_cursor: false,
            origin_mode: false,
            current_attributes: CellAttributes::default(),
        }
    }
}

impl TerminalModes {
    /// Apply a "select graphic rendition" parameter list, in order, to the
    /// current attributes; the mode flags are untouched.
    pub fn set_graphics_attributes(&mut self, params: &[u8]) -> (r: PaneResult<()>)
        ensures
            r is Ok,
            final(self).current_attributes == spec_apply_sgr_seq(
                old(self).current_attributes,
                params@,
            ),
            final(self).insert_mode == old(self).insert_mode,
            final(self).auto_wrap == old(self).auto_wrap,
            final(self).cursor_visible == old(self).cursor_visible,
            final(self).application_keypad == old(self).application_keypad,
            final(self).application_cursor == old(self).application_cursor,
            final(self).origin_mode == old(self).origin_mode,
    {
        let n = params.len();
        let mut i: usize = 0;
        while i < n
            invariant
                i <= n,
                n == params@.len(),
                self.current_attributes == spec_apply_sgr_seq(
                    old(self).current_attributes,
                    params@.subrange(0, i as int),
                ),
                self.insert_mode == old(self).insert_mode,
                self.auto_wrap == old(self).auto_wrap,
                self.cursor_visible == old(self).cursor_visible,
                self.application_keypad == old(self).application_keypad,
                self.application_cursor == old(self).application_cursor,
                self.origin_mode == old(self).origin_mode,
            decreases n - i,
        {
            let param = params[i];
            self.current_attributes = apply_sgr_param(self.current_attributes, param);
            proof {
                assert(params@.subrange(0, i + 1).drop_last() =~= params@.subrange(0, i as int));
                assert(params@.subrange(0, i + 1).last() == params@[i as int]);
            }
            i = i + 1;
        }
        proof {
            assert(params@.subrange(0, n as int) =~= params@);
        }
        Ok(())
    }
}

/// Apply one graphic-rendition parameter, exact to `spec_apply_sgr`.
fn apply_sgr_param(attrs: CellAttributes, p: u8) -> (r: CellAttributes)
    ensures
        r == spec_apply_sgr(attrs, p),
{
    match p {
        0 => CellAttributes::default(),
        1 => CellAttributes { bold: true, ..attrs },
        2 => CellAttributes { dim: true, ..attrs },
        3 => CellAttributes { italic: true, ..attrs },
        4 => CellAttributes { underline: UnderlineType::Single, ..attrs },
        5 | 6 => CellAttributes { blink: BlinkType::Slow, ..attrs },
        7 => CellAttributes { reverse: true, ..attrs },
        8 => CellAttributes { invisible: true, ..attrs },
        9 => CellAttributes { strikethrough: true, ..attrs },
        21 => CellAttributes { underline: UnderlineType::Double, ..attrs },
        22 => CellAttributes { bold: false, dim: false, ..attrs },
        23 => CellAttributes { italic: false, ..attrs },
        24 => CellAttributes { underline: UnderlineType::NoUnderline, ..attrs },
        25 => CellAttributes { blink: BlinkType::NoBlink, ..attrs },
        27 => CellAttributes { reverse: false, ..attrs },
        28 => CellAttributes { invisible: false, ..attrs },
        29 => CellAttributes { strikethrough: false, ..attrs },
        _ => attrs,
    }
}

/// One character-set designation.
#[derive(Debug, Clone, Copy, PartialEq, Eq, Structural)]
pub enum CharacterSet {
    Ascii,
    DecSpecialCharacter,
    DecAlternateCharacter,
    DecAlternateRom,
}

/// Which designation slot is active.
#[derive(Debug, Clone, Copy, PartialEq, Eq, Structural)]
pub enum CharacterSetSlot {
    G0,
    G1,
}

/// The two character-set slots and the active one.
#[derive(Debug, Clone, Copy, PartialEq, Eq, Structural)]
pub struct CharacterSets {
    pub g0: CharacterSet,
    pub g1: CharacterSet,
    pub active: CharacterSetSlot,
}

impl Default for CharacterSets {
    /// Both slots ASCII, G0 active.
    fn default() -> (c: Self)
        ensures
            c == (CharacterSets {
                g0: CharacterSet::Ascii,
                g1: CharacterSet::Ascii,
                active: CharacterSetSlot::G0,
            }),
    {
        CharacterSets { g0: CharacterSet::Ascii, g1: CharacterSet::Ascii, active: CharacterSetSlot::G0 }
    }
}

/// Per-column tab stops, default stops every eight columns.
#[derive(Debug, Clone)]
pub struct TabStops {
    stops: Vec<bool>,
    default_width: u16,
}

impl TabStops {
    /// The stop flags, one per column.
    pub closed spec fn spec_stops(self) -> Seq<bool> {
        self.stops@
    }

    /// The first set stop at or after column `c`; without one, the last
    /// column.
    pub open spec fn spec_next_stop_from(stops: Seq<bool>, c: int) -> u16
        decreases stops.len() - c,
    {
        if c >= stops.len() {
            if stops.len() == 0 {
                0u16
            } else {
                ((stops.len() - 1) as int) as u16
            }
        } else if stops[c] {
            c as u16
        } else {
            TabStops::spec_next_stop_from(stops, c + 1)
        }
    }

    /// The next tab stop strictly after `from_col`.
    pub open spec fn spec_next_tab_stop(stops: Seq<bool>, from_col: u16) -> u16 {
        if from_col + 1 <= stops.len() {
            TabStops::spec_next_stop_from(stops, from_col + 1)
        } else {
            if stops.len() == 0 {
                0u16
            } else {
                ((stops.len() - 1) as int) as u16
            }
        }
    }

    /// New tab stops for the given width: a stop on every eighth column,
    /// starting at column zero.
    pub fn new(width: u16) -> (r: Self)
        ensures
            r.spec_stops().len() == width as int,
            forall|i: int|
                0 <= i < width as int ==> r.spec_stops()[i] == (i % 8 == 0),
    {
        let mut stops: Vec<bool> = Vec::new();
        let mut i: usize = 0;
        while i < width as usize
            invariant
                i <= width as usize,
                stops@.len() == i,
                forall|j: int| 0 <= j < i ==> stops@[j] == (j % 8 == 0),
            decreases width as usize - i,
        {
            stops.push(i % 8 == 0);
            i = i + 1;
        }
        TabStops { stops, default_width: 8 }
    }

    /// The next set tab stop strictly after `from_col`; without one, the
    /// last column.
    pub fn next_tab_stop(&self, from_col: u16) -> (r: u16)
        requires
            self.spec_stops().len() <= u16::MAX as int,
        ensures
            r == TabStops::spec_next_tab_stop(self.spec_stops(), from_col),
    {
        let n = self.stops.len();
        let last: u16 = if n == 0 {
            0
        } else {
            (n - 1) as u16
        };
        if (from_col as usize) + 1 > n {
            return last;
        }
        let mut c: usize = from_col as usize + 1;
        while c < n
            invariant
                from_col as usize + 1 <= c <= n,
                n == self.spec_stops().len(),
                forall|j: int| from_col as int + 1 <= j < c ==> !self.spec_stops()[j],
                TabStops::spec_next_stop_from(self.spec_stops(), from_col as int + 1)
                    == TabStops::spec_next_stop_from(self.spec_stops(), c as int),
            decreases n - c,
        {
            if self.stops[c] {
                return c as u16;
            }
            c = c + 1;
        }
        last
    }

    /// Set a tab stop at a column; out of range columns are ignored.
    pub fn set_tab_stop(&mut self, col: u16)
        ensures
            (col as int) < old(self).spec_stops().len() ==> final(self).spec_stops() == old(
                self,
            ).spec_stops().update(col as int, true),
            (col as int) >= old(self).spec_stops().len() ==> final(self).spec_stops() == old(
                self,
            ).spec_stops(),
    {
        if (col as usize) < self.stops.len() {
            self.stops.set(col as usize, true);
        }
    }

    /// Clear a tab stop at a column; out of range columns are ignored.
    pub fn clear_tab_stop(&mut self, col: u16)
        ensures
            (col as int) < old(self).spec_stops().len() ==> final(self).spec_stops() == old(
                self,
            ).spec_stops().update(col as int, false),
            (col as int) >= old(self).spec_stops().len() ==> final(self).spec_stops() == old(
                self,
            ).spec_stops(),
    {
        if (col as usize) < self.stops.len() {
            self.stops.set(col as usize, false);
        }
    }

    /// Clear every tab stop.
    pub fn clear_all(&mut self)
        ensures
            final(self).spec_stops().len() == old(self).spec_stops().len(),
            forall|i: int| 0 <= i < final(self).spec_stops().len() ==> !final(self).spec_stops()[i],
    {
        let n = self.stops.len();
        let mut i: usize = 0;
        while i < n
            invariant
                i <= n,
                n == self.stops@.len(),
                forall|j: int| 0 <= j < i ==> !self.stops@[j],
            decreases n - i,
        {
            self.stops.set(i, false);
            i = i + 1;
        }
    }

    /// Back to the default stops: every eighth column.
    pub fn reset_defaults(&mut self)
        ensures
            final(self).spec_stops().len() == old(self).spec_stops().len(),
            forall|i: int|
                0 <= i < final(self).spec_stops().len() ==> final(self).spec_stops()[i] == (i % 8
                    == 0),
    {
        self.clear_all();
        let n = self.stops.len();
        let mut i: usize = 0;
        while i < n
            invariant
                i <= n,
                n == self.stops@.len(),
                forall|j: int| 0 <= j < i ==> self.stops@[j] == (j % 8 == 0),
                forall|j: int| i <= j < n ==> !self.stops@[j],
            decreases n - i,
        {
            if i % 8 == 0 {
                self.stops.set(i, true);
            }
            i = i + 1;
        }
    }
}

} // verus!
