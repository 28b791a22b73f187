//! The byte-level VT/ANSI sequence parser, the sequence interpreter, and
//! the terminal that composes them.  The parser is a state machine over
//! single bytes that can never fail: bytes that match no recognized
//! transition are consumed silently, and unknown escape sequences fall back
//! to the ground state with no emission.

use vstd::prelude::*;
use crate::pane::buffer::ClearType;
use crate::pane::errors::PaneResult;

verus! {

/// Parser states of the escape-sequence state machine.
#[derive(Debug, Clone, Copy, PartialEq, Eq, Structural)]
pub enum ParserState {
    Ground,
    Escape,
    CsiEntry,
    CsiParam,
    CsiIntermediate,
    OscString,
}

/// C0 control codes the terminal understands.
#[derive(Debug, Clone, Copy, PartialEq, Eq, Structural)]
pub enum ControlCode {
    Bell,
    Backspace,
    Tab,
    LineFeed,
    CarriageReturn,
}

/// Recognized plain escape sequences.
#[derive(Debug, Clone, Copy, PartialEq, Eq, Structural)]
pub enum EscapeSequence {
    Index,
    ReverseIndex,
    Reset,
    SaveCursor,
    RestoreCursor,
}

/// A parsed CSI command with its parameters.
#[derive(Debug, Clone)]
pub enum CsiCommand {
    CursorUp(u16),
    CursorDown(u16),
    CursorForward(u16),
    CursorBack(u16),
    CursorPosition(u16, u16),
    ClearScreen(ClearType),
    ClearLine(ClearType),
    InsertLines(u16),
    DeleteLines(u16),
    SetGraphicsRendition(Vec<u8>),
    Unknown(u8, Vec<i32>),
}

/// A parsed operating-system-command sequence.
#[derive(Debug, Clone)]
pub enum OscCommand {
    SetTitle(String),
    Unknown(Vec<u8>),
}

/// A complete sequence token emitted by the parser.
#[derive(Debug, Clone)]
pub enum VtSequence {
    Character(char),
    Control(ControlCode),
    Escape(EscapeSequence),
    Csi(CsiCommand),
    Osc(OscCommand),
}

/// The mathematical shadow of a CSI command, with parameter sequences.
pub ghost enum CsiToken {
    CursorUp(u16),
    CursorDown(u16),
    CursorForward(u16),
    CursorBack(u16),
    CursorPosition(u16, u16),
    ClearScreen(ClearType),
    ClearLine(ClearType),
    InsertLines(u16),
    DeleteLines(u16),
    SetGraphicsRendition(Seq<u8>),
    Unknown(u8, Seq<i32>),
}

/// The mathematical shadow of a sequence token.
pub ghost enum VtToken {
    Character(char),
    Control(ControlCode),
    Escape(EscapeSequence),
    Csi(CsiToken),
    Osc,
}

impl CsiCommand {
    /// The token this command stands for.
    pub open spec fn view_token(self) -> CsiToken {
        match self {
            CsiCommand::CursorUp(n) => CsiToken::CursorUp(n),
            CsiCommand::CursorDown(n) => CsiToken::CursorDown(n),
            CsiCommand::CursorForward(n) => CsiToken::CursorForward(n),
            CsiCommand::CursorBack(n) => CsiToken::CursorBack(n),
            CsiCommand::CursorPosition(r, c) => CsiToken::CursorPosition(r, c),
            CsiCommand::ClearScreen(t) => CsiToken::ClearScreen(t),
            CsiCommand::ClearLine(t) => CsiToken::ClearLine(t),
            CsiCommand::InsertLines(n) => CsiToken::InsertLines(n),
            CsiCommand::DeleteLines(n) => CsiToken::DeleteLines(n),
            CsiCommand::SetGraphicsRendition(ps) => CsiToken::SetGraphicsRendition(ps@),
            CsiCommand::Unknown(b, ps) => CsiToken::Unknown(b, ps@),
        }
    }
}

impl VtSequence {
    /// The token this sequence stands for.
    pub open spec fn view_token(self) -> VtToken {
        match self {
            VtSequence::Character(ch) => VtToken::Character(ch),
            VtSequence::Control(c) => VtToken::Control(c),
            VtSequence::Escape(e) => VtToken::Escape(e),
            VtSequence::Csi(c) => VtToken::Csi(c.view_token()),
            VtSequence::Osc(_) => VtToken::Osc,
        }
    }
}

/// The token an optional sequence stands for.
pub open spec fn opt_token(o: Option<VtSequence>) -> Option<VtToken> {
    match o {
        Some(s) => Some(s.view_token()),
        None => None,
    }
}

/// The mathematical shadow of the parser's accumulation state.
pub ghost struct ParserModel {
    /// Current state of the state machine.
    pub state: ParserState,
    /// Completed parameter fields of the sequence being accumulated.
    pub params: Seq<i32>,
    /// Value of the parameter field being accumulated.
    pub cur: i32,
    /// Whether the field being accumulated overflowed a signed 32-bit value
    /// (such a field reads as zero).
    pub overflow: bool,
    /// Whether any parameter byte was seen in this sequence.
    pub has_params: bool,
    /// Whether the last byte of an operating-system-command body was the
    /// escape byte, which makes a following backslash terminate it.
    pub osc_esc: bool,
}

/// The parameter accumulation state reset for a new sequence.
pub open spec fn params_reset(m: ParserModel) -> ParserModel {
    ParserModel { params: Seq::empty(), cur: 0, overflow: false, has_params: false, ..m }
}

/// The value a completed parameter field reads as: zero where it was empty
/// or overflowed.
pub open spec fn field_value(cur: i32, overflow: bool) -> i32 {
    if overflow {
        0
    } else {
        cur
    }
}

/// One more digit appended to the field being accumulated.
pub open spec fn accum_digit(m: ParserModel, d: i32) -> ParserModel {
    if m.overflow || m.cur > (0x7fff_ffffi32 - d) / 10 {
        ParserModel { overflow: true, has_params: true, ..m }
    } else {
        ParserModel { cur: (m.cur * 10 + d) as i32, has_params: true, ..m }
    }
}

/// The parameter field list a final byte sees: the completed fields, with
/// the field in progress appended where any parameter byte was seen at all.
pub open spec fn closed_params(m: ParserModel) -> Seq<i32> {
    if m.has_params {
        m.params.push(field_value(m.cur, m.overflow))
    } else {
        m.params
    }
}

/// The first parameter, or `default` where the list is empty, reduced to an
/// unsigned 16-bit count.
pub open spec fn param_or(ps: Seq<i32>, default: u16) -> u16 {
    if ps.len() == 0 {
        default
    } else {
        ((ps[0] % 0x10000) as int) as u16
    }
}

/// The second parameter, or `default` where the list is shorter.
pub open spec fn param1_or(ps: Seq<i32>, default: u16) -> u16 {
    if ps.len() <= 1 {
        default
    } else {
        ((ps[1] % 0x10000) as int) as u16
    }
}

/// The clear kind a parameter selects: 0 to the end, 1 to the beginning, 2
/// and everything else all.
pub open spec fn clear_kind(p: int) -> ClearType {
    if p == 0 {
        ClearType::ToEnd
    } else if p == 1 {
        ClearType::ToBeginning
    } else {
        ClearType::All
    }
}

/// The CSI token a final byte builds from the accumulated parameters:
/// `A`/`B`/`C`/`D` move the cursor (default one step), `H` and `f` address
/// it (defaults one), `J` and `K` clear screen or line, `m` selects
/// graphic rendition, `L` and `M` insert or delete lines; anything else is
/// the unknown token carrying the final byte and the raw parameters.
pub open spec fn build_csi(ps: Seq<i32>, fin: u8) -> CsiToken {
    if fin == 65 {
        CsiToken::CursorUp(param_or(ps, 1))
    } else if fin == 66 {
        CsiToken::CursorDown(param_or(ps, 1))
    } else if fin == 67 {
        CsiToken::CursorForward(param_or(ps, 1))
    } else if fin == 68 {
        CsiToken::CursorBack(param_or(ps, 1))
    } else if fin == 72 || fin == 102 {
        CsiToken::CursorPosition(param_or(ps, 1), param1_or(ps, 1))
    } else if fin == 74 {
        CsiToken::ClearScreen(clear_kind(if ps.len() == 0 {
            0int
        } else {
            ps[0] as int
        }))
    } else if fin == 75 {
        CsiToken::ClearLine(clear_kind(if ps.len() == 0 {
            0int
        } else {
            ps[0] as int
        }))
    } else if fin == 109 {
        CsiToken::SetGraphicsRendition(ps.map_values(|p: i32| ((p % 256) as int) as u8))
    } else if fin == 76 {
        CsiToken::InsertLines(param_or(ps, 1))
    } else if fin == 77 {
        CsiToken::DeleteLines(param_or(ps, 1))
    } else {
        CsiToken::Unknown(fin, ps)
    }
}

/// Whether a byte is an ASCII digit.
pub open spec fn is_digit_byte(b: u8) -> bool {
    48 <= b <= 57
}

/// Whether a byte is an ASCII letter, the final byte of a CSI sequence.
pub open spec fn is_csi_final(b: u8) -> bool {
    (65 <= b <= 90) || (97 <= b <= 122)
}

/// The parser's transition function: what one byte does to the
/// accumulation state, and which token it completes, if any.  It is total:
/// every byte in every state has a successor state, and unrecognized input
/// falls back to the ground state with no emission.
#[verifier::opaque]
pub open spec fn spec_parser_step(m: ParserModel, b: u8) -> (ParserModel, Option<VtToken>) {
    match m.state {
        ParserState::Ground => {
            if b == 0x1b {
                (params_reset(ParserModel { state: ParserState::Escape, ..m }), None)
            } else if b == 0x08 {
                (m, Some(VtToken::Control(ControlCode::Backspace)))
            } else if b == 0x09 {
                (m, Some(VtToken::Control(ControlCode::Tab)))
            } else if b == 0x0a {
                (m, Some(VtToken::Control(ControlCode::LineFeed)))
            } else if b == 0x0d {
                (m, Some(VtToken::Control(ControlCode::CarriageReturn)))
            } else if b == 0x07 {
                (m, Some(VtToken::Control(ControlCode::Bell)))
            } else if 0x20 <= b <= 0x7e || b >= 0x80 {
                (m, Some(VtToken::Character(b as char)))
            } else {
                (m, None)
            }
        },
        ParserState::Escape => {
            if b == 91 {
                (ParserModel { state: ParserState::CsiEntry, ..m }, None)
            } else if b == 93 {
                (ParserModel { state: ParserState::OscString, osc_esc: false, ..m }, None)
            } else if b == 68 {
                (
                    ParserModel { state: ParserState::Ground, ..m },
                    Some(VtToken::Escape(EscapeSequence::Index)),
                )
            } else if b == 77 {
                (
                    ParserModel { state: ParserState::Ground, ..m },
                    Some(VtToken::Escape(EscapeSequence::ReverseIndex)),
                )
            } else if b == 99 {
                (
                    ParserModel { state: ParserState::Ground, ..m },
                    Some(VtToken::Escape(EscapeSequence::Reset)),
                )
            } else if b == 55 {
                (
                    ParserModel { state: ParserState::Ground, ..m },
                    Some(VtToken::Escape(EscapeSequence::SaveCursor)),
                )
            } else if b == 56 {
                (
                    ParserModel { state: ParserState::Ground, ..m },
                    Some(VtToken::Escape(EscapeSequence::RestoreCursor)),
                )
            } else {
                (ParserModel { state: ParserState::Ground, ..m }, None)
            }
        },
        ParserState::CsiEntry | ParserState::CsiParam => {
            if is_digit_byte(b) {
                (
                    ParserModel {
                        state: ParserState::CsiParam,
                        ..accum_digit(m, (b - 48) as i32)
                    },
                    None,
                )
            } else if b == 59 {
                (
                    ParserModel {
                        state: ParserState::CsiParam,
                        params: m.params.push(field_value(m.cur, m.overflow)),
                        cur: 0,
                        overflow: false,
                        has_params: true,
                        ..m
                    },
                    None,
                )
            } else if is_csi_final(b) {
                (
                    params_reset(ParserModel { state: ParserState::Ground, ..m }),
                    Some(VtToken::Csi(build_csi(closed_params(m), b))),
                )
            } else {
                (ParserModel { state: ParserState::Ground, ..m }, None)
            }
        },
        ParserState::CsiIntermediate => (ParserModel { state: ParserState::Ground, ..m }, None),
        ParserState::OscString => {
            if b == 0x07 || (m.osc_esc && b == 92) {
                (ParserModel { state: ParserState::Ground, osc_esc: false, ..m }, None)
            } else {
                (ParserModel { osc_esc: b == 0x1b, ..m }, None)
            }
        },
    }
}

/// The byte-at-a-time VT sequence parser.
#[derive(Debug)]
pub struct VtParser {
    pub state_machine: ParserState,
    pub params: Vec<i32>,
    pub current_param: i32,
    pub current_overflow: bool,
    pub has_params: bool,
    pub osc_esc: bool,
}

impl View for VtParser {
    type V = ParserModel;

    open spec fn view(&self) -> ParserModel {
        ParserModel {
            state: self.state_machine,
            params: self.params@,
            cur: self.current_param,
            overflow: self.current_overflow,
            has_params: self.has_params,
            osc_esc: self.osc_esc,
        }
    }
}

/// The parser model at rest: ground state with no accumulation.
pub open spec fn parser_at_rest() -> ParserModel {
    ParserModel {
        state: ParserState::Ground,
        params: Seq::empty(),
        cur: 0,
        overflow: false,
        has_params: false,
        osc_esc: false,
    }
}

impl VtParser {
    /// A new parser in the ground state.
    pub fn new() -> (r: Self)
        ensures
            r@ == parser_at_rest(),
    {
        VtParser {
            state_machine: ParserState::Ground,
            params: Vec::new(),
            current_param: 0,
            current_overflow: false,
            has_params: false,
            osc_esc: false,
        }
    }

    /// Feed one byte; a complete sequence is returned as soon as one is
    /// recognized.  Never fails: every byte has a transition.
    pub fn process_byte(&mut self, byte: u8) -> (r: PaneResult<Option<VtSequence>>)
        ensures
            r is Ok,
            (final(self)@, opt_token(r.get_Ok_0())) == spec_parser_step(old(self)@, byte),
    {
        proof {
            reveal(spec_parser_step);
        }
        match self.state_machine {
            ParserState::Ground => {
                match byte {
                    0x1b => {
                        self.state_machine = ParserState::Escape;
                        self.params = Vec::new();
                        self.current_param = 0;
                        self.current_overflow = false;
                        self.has_params = false;
                        Ok(None)
                    },
                    0x08 => Ok(Some(VtSequence::Control(ControlCode::Backspace))),
                    0x09 => Ok(Some(VtSequence::Control(ControlCode::Tab))),
                    0x0a => Ok(Some(VtSequence::Control(ControlCode::LineFeed))),
                    0x0d => Ok(Some(VtSequence::Control(ControlCode::CarriageReturn))),
                    0x07 => Ok(Some(VtSequence::Control(ControlCode::Bell))),
                    0x20..=0x7e => Ok(Some(VtSequence::Character(byte as char))),
                    0x80..=0xff => Ok(Some(VtSequence::Character(byte as char))),
                    _ => Ok(None),
                }
            },
            ParserState::Escape => {
                match byte {
                    91 => {
                        self.state_machine = ParserState::CsiEntry;
                        Ok(None)
                    },
                    93 => {
                        self.state_machine = ParserState::OscString;
                        self.osc_esc = false;
                        Ok(None)
                    },
                    68 => {
                        self.state_machine = ParserState::Ground;
                        Ok(Some(VtSequence::Escape(EscapeSequence::Index)))
                    },
                    77 => {
                        self.state_machine = ParserState::Ground;
                        Ok(Some(VtSequence::Escape(EscapeSequence::ReverseIndex)))
                    },
                    99 => {
                        self.state_machine = ParserState::Ground;
                        Ok(Some(VtSequence::Escape(EscapeSequence::Reset)))
                    },
                    55 => {
                        self.state_machine = ParserState::Ground;
                        Ok(Some(VtSequence::Escape(EscapeSequence::SaveCursor)))
                    },
                    56 => {
                        self.state_machine = ParserState::Ground;
                        Ok(Some(VtSequence::Escape(EscapeSequence::RestoreCursor)))
                    },
                    _ => {
                        self.state_machine = ParserState::Ground;
                        Ok(None)
                    },
                }
            },
            ParserState::CsiEntry | ParserState::CsiParam => {
                if 48 <= byte && byte <= 57 {
                    let d: i32 = byte as i32 - 48;
                    if self.current_overflow || self.current_param > (0x7fff_ffffi32 - d) / 10 {
                        self.current_overflow = true;
                    } else {
                        let prod: i64 = self.current_param as i64 * 10 + d as i64;
                        self.current_param = #[verifier::truncate] (prod as i32);
                    }
                    self.has_params = true;
                    self.state_machine = ParserState::CsiParam;
                    Ok(None)
                } else if byte == 59 {
                    let v: i32 = if self.current_overflow {
                        0
                    } else {
                        self.current_param
                    };
                    self.params.push(v);
                    self.current_param = 0;
                    self.current_overflow = false;
                    self.has_params = true;
                    self.state_machine = ParserState::CsiParam;
                    Ok(None)
                } else if (65 <= byte && byte <= 90) || (97 <= byte && byte <= 122) {
                    if self.has_params {
                        let v: i32 = if self.current_overflow {
                            0
                        } else {
                            self.current_param
                        };
                        self.params.push(v);
                    }
                    let sequence = self.build_csi_sequence(byte);
                    self.state_machine = ParserState::Ground;
                    self.params = Vec::new();
                    self.current_param = 0;
                    self.current_overflow = false;
                    self.has_params = false;
                    Ok(Some(sequence))
                } else {
                    self.state_machine = ParserState::Ground;
                    Ok(None)
                }
            },
            ParserState::CsiIntermediate => {
                self.state_machine = ParserState::Ground;
                Ok(None)
            },
            ParserState::OscString => {
                if byte == 0x07 || (self.osc_esc && byte == 92) {
                    self.state_machine = ParserState::Ground;
                    self.osc_esc = false;
                    Ok(None)
                } else {
                    self.osc_esc = byte == 0x1b;
                    Ok(None)
                }
            },
        }
    }

    /// Build the CSI sequence the final byte selects from the accumulated
    /// parameters.
    fn build_csi_sequence(&self, final_byte: u8) -> (r: VtSequence)
        ensures
            r.view_token() == VtToken::Csi(build_csi(self.params@, final_byte)),
    {
        let csi_command = match final_byte {
            65 => CsiCommand::CursorUp(self.first_param_or(1)),
            66 => CsiCommand::CursorDown(self.first_param_or(1)),
            67 => CsiCommand::CursorForward(self.first_param_or(1)),
            68 => CsiCommand::CursorBack(self.first_param_or(1)),
            72 | 102 => CsiCommand::CursorPosition(self.first_param_or(1), self.second_param_or(1)),
            74 => {
                let p: i32 = if self.params.len() == 0 {
                    0
                } else {
                    self.params[0]
                };
                CsiCommand::ClearScreen(clear_kind_exec(p))
            },
            75 => {
                let p: i32 = if self.params.len() == 0 {
                    0
                } else {
                    self.params[0]
                };
                CsiCommand::ClearLine(clear_kind_exec(p))
            },
            109 => {
                let mut ps: Vec<u8> = Vec::new();
                let n = self.params.len();
                let mut i: usize = 0;
                while i < n
                    invariant
                        i <= n,
                        n == self.params@.len(),
                        ps@ =~= self.params@.subrange(0, i as int).map_values(
                            |p: i32| ((p % 256) as int) as u8,
                        ),
                    decreases n - i,
                {
                    let p = self.params[i];
                    let m: i32 = p % 256;
                    let b: u8 = if m < 0 {
                        (m + 256) as u8
                    } else {
                        m as u8
                    };
                    ps.push(b);
                    assert(ps@ =~= self.params@.subrange(0, i + 1).map_values(
                        |p: i32| ((p % 256) as int) as u8,
                    ));
                    i = i + 1;
                }
                assert(self.params@.subrange(0, n as int) =~= self.params@);
                CsiCommand::SetGraphicsRendition(ps)
            },
            76 => CsiCommand::InsertLines(self.first_param_or(1)),
            77 => CsiCommand::DeleteLines(self.first_param_or(1)),
            _ => CsiCommand::Unknown(final_byte, self.params.clone()),
        };
        VtSequence::Csi(csi_command)
    }

    /// The first parameter reduced to a count, or the default.
    fn first_param_or(&self, default: u16) -> (r: u16)
        ensures
            r == param_or(self.params@, default),
    {
        if self.params.len() == 0 {
            default
        } else {
            let p = self.params[0];
            let m: i32 = p % 0x10000;
            if m < 0 {
                (m + 0x10000) as u16
            } else {
                m as u16
            }
        }
    }

    /// The second parameter reduced to a count, or the default.
    fn second_param_or(&self, default: u16) -> (r: u16)
        ensures
            r == param1_or(self.params@, default),
    {
        if self.params.len() <= 1 {
            default
        } else {
            let p = self.params[1];
            let m: i32 = p % 0x10000;
            if m < 0 {
                (m + 0x10000) as u16
            } else {
                m as u16
            }
        }
    }
}

/// The clear kind a parameter selects, exact to `clear_kind`.
fn clear_kind_exec(p: i32) -> (r: ClearType)
    ensures
        r == clear_kind(p as int),
{
    if p == 0 {
        ClearType::ToEnd
    } else if p == 1 {
        ClearType::ToBeginning
    } else {
        ClearType::All
    }
}


/// High-level terminal commands the interpreter produces.
#[derive(Debug, Clone)]
pub enum VtCommand {
    PrintChar(char),
    Bell,
    Backspace,
    Tab,
    LineFeed,
    CarriageReturn,
    CursorUp(u16),
    CursorDown(u16),
    CursorForward(u16),
    CursorBack(u16),
    CursorPosition(u16, u16),
    SaveCursor,
    RestoreCursor,
    ClearScreen(ClearType),
    ClearLine(ClearType),
    InsertLines(u16),
    DeleteLines(u16),
    SetGraphicsRendition(Vec<u8>),
    Reset,
    SetMode(Vec<u16>),
    ResetMode(Vec<u16>),
    DecPrivateModeSet(u16),
    DecPrivateModeReset(u16),
    DeviceStatusReport,
}

/// The mathematical shadow of a terminal command.
pub ghost enum CommandToken {
    PrintChar(char),
    Bell,
    Backspace,
    Tab,
    LineFeed,
    CarriageReturn,
    CursorUp(u16),
    CursorDown(u16),
    CursorForward(u16),
    CursorBack(u16),
    CursorPosition(u16, u16),
    SaveCursor,
    RestoreCursor,
    ClearScreen(ClearType),
    ClearLine(ClearType),
    InsertLines(u16),
    DeleteLines(u16),
    SetGraphicsRendition(Seq<u8>),
    Reset,
    SetMode(Seq<u16>),
    ResetMode(Seq<u16>),
    DecPrivateModeSet(u16),
    DecPrivateModeReset(u16),
    DeviceStatusReport,
}

impl VtCommand {
    /// The token this command stands for.
    pub open spec fn view_token(self) -> CommandToken {
        match self {
            VtCommand::PrintChar(ch) => CommandToken::PrintChar(ch),
            VtCommand::Bell => CommandToken::Bell,
            VtCommand::Backspace => CommandToken::Backspace,
            VtCommand::Tab => CommandToken::Tab,
            VtCommand::LineFeed => CommandToken::LineFeed,
            VtCommand::CarriageReturn => CommandToken::CarriageReturn,
            VtCommand::CursorUp(n) => CommandToken::CursorUp(n),
            VtCommand::CursorDown(n) => CommandToken::CursorDown(n),
            VtCommand::CursorForward(n) => CommandToken::CursorForward(n),
            VtCommand::CursorBack(n) => CommandToken::CursorBack(n),
            VtCommand::CursorPosition(r, c) => CommandToken::CursorPosition(r, c),
            VtCommand::SaveCursor => CommandToken::SaveCursor,
            VtCommand::RestoreCursor => CommandToken::RestoreCursor,
            VtCommand::ClearScreen(t) => CommandToken::ClearScreen(t),
            VtCommand::ClearLine(t) => CommandToken::ClearLine(t),
            VtCommand::InsertLines(n) => CommandToken::InsertLines(n),
            VtCommand::DeleteLines(n) => CommandToken::DeleteLines(n),
            VtCommand::SetGraphicsRendition(ps) => CommandToken::SetGraphicsRendition(ps@),
            VtCommand::Reset => CommandToken::Reset,
            VtCommand::SetMode(ms) => CommandToken::SetMode(ms@),
            VtCommand::ResetMode(ms) => CommandToken::ResetMode(ms@),
            VtCommand::DecPrivateModeSet(m) => CommandToken::DecPrivateModeSet(m),
            VtCommand::DecPrivateModeReset(m) => CommandToken::DecPrivateModeReset(m),
            VtCommand::DeviceStatusReport => CommandToken::DeviceStatusReport,
        }
    }
}

/// The token an optional command stands for.
pub open spec fn opt_command_token(o: Option<VtCommand>) -> Option<CommandToken> {
    match o {
        Some(c) => Some(c.view_token()),
        None => None,
    }
}

/// The interpreter's total mapping from a sequence token to at most one
/// terminal command: characters print, control codes map one to one, the
/// five recognized escape sequences map to cursor steps, reset and
/// save/restore, every defined CSI command maps one to one, and unknown
/// CSI and operating-system-command tokens map to nothing.
#[verifier::opaque]
pub open spec fn spec_interpret(t: VtToken) -> Option<CommandToken> {
    match t {
        VtToken::Character(ch) => Some(CommandToken::PrintChar(ch)),
        VtToken::Control(code) => Some(
            match code {
                ControlCode::Bell => CommandToken::Bell,
                ControlCode::Backspace => CommandToken::Backspace,
                ControlCode::Tab => CommandToken::Tab,
                ControlCode::LineFeed => CommandToken::LineFeed,
                ControlCode::CarriageReturn => CommandToken::CarriageReturn,
            },
        ),
        VtToken::Escape(esc) => Some(
            match esc {
                EscapeSequence::Index => CommandToken::CursorDown(1),
                EscapeSequence::ReverseIndex => CommandToken::CursorUp(1),
                EscapeSequence::Reset => CommandToken::Reset,
                EscapeSequence::SaveCursor => CommandToken::SaveCursor,
                EscapeSequence::RestoreCursor => CommandToken::RestoreCursor,
            },
        ),
        VtToken::Csi(csi) => match csi {
            CsiToken::CursorUp(n) => Some(CommandToken::CursorUp(n)),
            CsiToken::CursorDown(n) => Some(CommandToken::CursorDown(n)),
            CsiToken::CursorForward(n) => Some(CommandToken::CursorForward(n)),
            CsiToken::CursorBack(n) => Some(CommandToken::CursorBack(n)),
            CsiToken::CursorPosition(r, c) => Some(CommandToken::CursorPosition(r, c)),
            CsiToken::ClearScreen(t) => Some(CommandToken::ClearScreen(t)),
            CsiToken::ClearLine(t) => Some(CommandToken::ClearLine(t)),
            CsiToken::InsertLines(n) => Some(CommandToken::InsertLines(n)),
            CsiToken::DeleteLines(n) => Some(CommandToken::DeleteLines(n)),
            CsiToken::SetGraphicsRendition(ps) => Some(CommandToken::SetGraphicsRendition(ps)),
            CsiToken::Unknown(_, _) => None,
        },
        VtToken::Osc => None,
    }
}

/// The side-effect-free VT command interpreter.
#[derive(Debug)]
pub struct VtInterpreter {
}

impl VtInterpreter {
    /// A new interpreter.
    pub fn new() -> (r: Self) {
        VtInterpreter {  }
    }

    /// Interpret a sequence token into at most one terminal command.  Never
    /// fails; unknown tokens map to nothing.
    pub fn interpret(&self, sequence: VtSequence) -> (r: PaneResult<Option<VtCommand>>)
        ensures
            r is Ok,
            opt_command_token(r.get_Ok_0()) == spec_interpret(sequence.view_token()),
    {
        proof {
            reveal(spec_interpret);
        }
        match sequence {
            VtSequence::Character(ch) => Ok(Some(VtCommand::PrintChar(ch))),
            VtSequence::Control(code) => Ok(Some(
                match code {
                    ControlCode::Bell => VtCommand::Bell,
                    ControlCode::Backspace => VtCommand::Backspace,
                    ControlCode::Tab => VtCommand::Tab,
                    ControlCode::LineFeed => VtCommand::LineFeed,
                    ControlCode::CarriageReturn => VtCommand::CarriageReturn,
                },
            )),
            VtSequence::Escape(esc) => Ok(Some(
                match esc {
                    EscapeSequence::Index => VtCommand::CursorDown(1),
                    EscapeSequence::ReverseIndex => VtCommand::CursorUp(1),
                    EscapeSequence::Reset => VtCommand::Reset,
                    EscapeSequence::SaveCursor => VtCommand::SaveCursor,
                    EscapeSequence::RestoreCursor => VtCommand::RestoreCursor,
                },
            )),
            VtSequence::Csi(csi) => match csi {
                CsiCommand::CursorUp(n) => Ok(Some(VtCommand::CursorUp(n))),
                CsiCommand::CursorDown(n) => Ok(Some(VtCommand::CursorDown(n))),
                CsiCommand::CursorForward(n) => Ok(Some(VtCommand::CursorForward(n))),
                CsiCommand::CursorBack(n) => Ok(Some(VtCommand::CursorBack(n))),
                CsiCommand::CursorPosition(row, col) => Ok(
                    Some(VtCommand::CursorPosition(row, col)),
                ),
                CsiCommand::ClearScreen(clear_type) => Ok(Some(VtCommand::ClearScreen(clear_type))),
                CsiCommand::ClearLine(clear_type) => Ok(Some(VtCommand::ClearLine(clear_type))),
                CsiCommand::InsertLines(n) => Ok(Some(VtCommand::InsertLines(n))),
                CsiCommand::DeleteLines(n) => Ok(Some(VtCommand::DeleteLines(n))),
                CsiCommand::SetGraphicsRendition(params) => Ok(
                    Some(VtCommand::SetGraphicsRendition(params)),
                ),
                CsiCommand::Unknown(_, _) => Ok(None),
            },
            VtSequence::Osc(_) => Ok(None),
        }
    }
}

/// Terminal operating mode.
#[derive(Debug, Clone, Copy, PartialEq, Eq, Structural)]
pub enum TerminalMode {
    Normal,
    ApplicationKeypad,
    ApplicationCursor,
}

/// What one byte does to the parser, and the command it completes, if any:
/// the parser takes its step, and a completed token runs through the
/// interpreter.
pub open spec fn spec_terminal_step(m: ParserModel, b: u8) -> (ParserModel, Option<CommandToken>) {
    let (m2, t) = spec_parser_step(m, b);
    match t {
        Some(tok) => (m2, spec_interpret(tok)),
        None => (m2, None),
    }
}

/// The parser state and command list a whole chunk of bytes produces, in
/// arrival order.
#[verifier::opaque]
pub open spec fn spec_terminal_run(m: ParserModel, bytes: Seq<u8>) -> (ParserModel, Seq<
    CommandToken,
>)
    decreases bytes.len(),
{
    if bytes.len() == 0 {
        (m, Seq::empty())
    } else {
        let (m1, c) = spec_terminal_step(m, bytes[0]);
        let (m2, rest) = spec_terminal_run(m1, bytes.drop_first());
        match c {
            Some(cmd) => (m2, seq![cmd] + rest),
            None => (m2, rest),
        }
    }
}

/// The command tokens a command list stands for.
pub open spec fn commands_view(cs: Seq<VtCommand>) -> Seq<CommandToken> {
    cs.map_values(|c: VtCommand| c.view_token())
}

/// The terminal emulation core: parser and interpreter composed.
#[derive(Debug)]
pub struct Terminal {
    pub parser: VtParser,
    pub interpreter: VtInterpreter,
    pub current_mode: TerminalMode,
}

impl Terminal {
    /// A new terminal in normal mode with a parser at rest.
    pub fn new() -> (r: PaneResult<Self>)
        ensures
            r is Ok,
            r.get_Ok_0().parser@ == parser_at_rest(),
            r.get_Ok_0().current_mode == TerminalMode::Normal,
    {
        Ok(
            Terminal {
                parser: VtParser::new(),
                interpreter: VtInterpreter::new(),
                current_mode: TerminalMode::Normal,
            },
        )
    }

    /// Feed one byte to the parser and interpret a completed sequence.
    /// Never fails, whatever the byte.
    pub fn process_byte(&mut self, byte: u8) -> (r: PaneResult<Option<VtCommand>>)
        ensures
            r is Ok,
            (final(self).parser@, opt_command_token(r.get_Ok_0())) == spec_terminal_step(
                old(self).parser@,
                byte,
            ),
            final(self).current_mode == old(self).current_mode,
    {
        let seq_opt = self.parser.process_byte(byte)?;
        if let Some(sequence) = seq_opt {
            return self.interpreter.interpret(sequence);
        }
        Ok(None)
    }

    /// Feed a whole chunk of bytes in order, collecting every command they
    /// complete.  Never fails, whatever the bytes: malformed input is
    /// dropped, not errored.
    pub fn process_bytes(&mut self, bytes: &[u8]) -> (r: PaneResult<Vec<VtCommand>>)
        ensures
            r is Ok,
            final(self).parser@ == spec_terminal_run(old(self).parser@, bytes@).0,
            commands_view(r.get_Ok_0()@) == spec_terminal_run(old(self).parser@, bytes@).1,
            final(self).current_mode == old(self).current_mode,
    {
        let mut commands: Vec<VtCommand> = Vec::new();
        let n = bytes.len();
        proof {
            reveal(spec_terminal_run);
            assert(bytes@.subrange(0, n as int) =~= bytes@);
            let (mf0, cs0) = spec_terminal_run(self.parser@, bytes@.subrange(0, n as int));
            assert(commands_view(commands@) =~= Seq::<CommandToken>::empty());
            assert(commands_view(commands@) + cs0 =~= cs0);
        }
        let mut i: usize = 0;
        while i < n
            invariant
                i <= n,
                n == bytes@.len(),
                self.current_mode == old(self).current_mode,
                spec_terminal_run(old(self).parser@, bytes@) == {
                    let (mf, cs) = spec_terminal_run(self.parser@, bytes@.subrange(i as int, n as int));
                    (mf, commands_view(commands@) + cs)
                },
            decreases n - i,
        {
            let ghost pre_model = self.parser@;
            let ghost pre_cmds = commands@;
            let cmd_opt = self.process_byte(bytes[i])?;
            if let Some(command) = cmd_opt {
                commands.push(command);
            }
            proof {
                reveal(spec_terminal_run);
                let rest_pre = bytes@.subrange(i as int, n as int);
                let rest_post = bytes@.subrange(i + 1, n as int);
                assert(rest_pre.drop_first() =~= rest_post);
                assert(rest_pre[0] == bytes@[i as int]);
                let (mf_post, cs_post) = spec_terminal_run(self.parser@, rest_post);
                match spec_terminal_step(pre_model, bytes@[i as int]).1 {
                    Some(c) => {
                        assert(commands_view(commands@) =~= commands_view(pre_cmds).push(c));
                        assert(commands_view(pre_cmds) + (seq![c] + cs_post) =~= commands_view(
                            commands@,
                        ) + cs_post);
                    },
                    None => {
                        assert(commands_view(commands@) =~= commands_view(pre_cmds));
                    },
                }
            }
            i = i + 1;
        }
        proof {
            reveal(spec_terminal_run);
            assert(bytes@.subrange(n as int, n as int) =~= Seq::<u8>::empty());
            assert(commands_view(commands@) + Seq::<CommandToken>::empty() =~= commands_view(
                commands@,
            ));
        }
        Ok(commands)
    }

    /// The current terminal operating mode.
    pub fn current_mode(&self) -> (r: TerminalMode)
        ensures
            r == self.current_mode,
    {
        self.current_mode
    }

    /// Set the terminal operating mode.
    pub fn set_mode(&mut self, mode: TerminalMode)
        ensures
            final(self).current_mode == mode,
            final(self).parser@ == old(self).parser@,
    {
        self.current_mode = mode;
    }
}

} // verus!
