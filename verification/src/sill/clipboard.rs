//! Clipboard management: a bounded in-process selection buffer, text
//! sanitation, and format conversion.  No system clipboard is wired into
//! this library; the backend hooks report themselves as not implemented,
//! and the manager falls back to its own buffer.

use vstd::prelude::*;
use vstd::string::StringExecFns;
use crate::sill::errors::{SillError, SillResult};
use crate::text::{push_char, str_chars};

verus! {

/// Clipboard format types.
#[derive(Debug, Clone, Copy, PartialEq, Eq, Structural)]
pub enum ClipboardFormat {
    PlainText,
    Html,
    Rtf,
    Markdown,
}

/// Clipboard configuration.
#[derive(Debug, Clone)]
pub struct ClipboardConfig {
    pub use_system_clipboard: bool,
    pub buffer_size: usize,
    pub max_text_size: usize,
    pub strip_control_chars: bool,
    pub normalize_line_endings: bool,
    pub auto_trim_whitespace: bool,
    pub enable_rich_formats: bool,
}

impl Default for ClipboardConfig {
    /// System clipboard preferred, fifty entries, a megabyte of text,
    /// control characters stripped, line endings normalized.
    fn default() -> (c: Self)
        ensures
            c.use_system_clipboard,
            c.buffer_size == 50,
            c.max_text_size == 1048576,
            c.strip_control_chars,
            c.normalize_line_endings,
    {
        ClipboardConfig {
            use_system_clipboard: true,
            buffer_size: 50,
            max_text_size: 1048576,
            strip_control_chars: true,
            normalize_line_endings: true,
            auto_trim_whitespace: false,
            enable_rich_formats: false,
        }
    }
}

/// The stand-in for a platform clipboard.  Every transfer reports itself
/// as not implemented; real clipboard access lives outside this library.
#[derive(Debug, Clone, Copy, PartialEq, Eq, Structural)]
pub struct SystemClipboard;

impl SystemClipboard {
    pub fn new() -> (r: SillResult<Self>)
        ensures
            r is Ok,
    {
        Ok(SystemClipboard)
    }

    /// Setting text is not wired in this library.
    pub fn set_text(&mut self, _text: &str) -> (r: SillResult<()>)
        ensures
            r is Err,
            r.get_Err_0() is NotImplemented,
    {
        Err(SillError::not_implemented("system clipboard not wired in this library"))
    }

    /// Reading text is not wired in this library.
    pub fn get_text(&self) -> (r: SillResult<String>)
        ensures
            r is Err,
            r.get_Err_0() is NotImplemented,
    {
        Err(SillError::not_implemented("system clipboard not wired in this library"))
    }

    /// Clearing delegates to setting empty text.
    pub fn clear(&mut self) -> (r: SillResult<()>)
        ensures
            r is Err,
    {
        self.set_text("")
    }

    /// Whether a clipboard backend is reachable.
    pub fn is_available(&self) -> (r: bool) {
        true
    }

    /// The formats the backend can offer: plain text only.
    pub fn get_available_formats(&self) -> (r: SillResult<Vec<ClipboardFormat>>)
        ensures
            r is Ok,
            r.get_Ok_0()@.len() == 1,
    {
        let mut formats: Vec<ClipboardFormat> = Vec::new();
        formats.push(ClipboardFormat::PlainText);
        Ok(formats)
    }
}

/// A bounded in-process clipboard history, oldest first.
#[derive(Debug)]
pub struct SelectionBuffer {
    entries: Vec<String>,
    max_size: usize,
}

impl SelectionBuffer {
    /// The stored entries, oldest first.
    pub closed spec fn spec_entries(self) -> Seq<String> {
        self.entries@
    }

    /// The configured bound.
    pub closed spec fn spec_max(self) -> usize {
        self.max_size
    }

    /// A new empty buffer with the given bound.
    pub fn new(max_size: usize) -> (r: Self)
        ensures
            r.spec_entries().len() == 0,
            r.spec_max() == max_size,
    {
        SelectionBuffer { entries: Vec::new(), max_size }
    }

    /// Record text: empty text and a repeat of the latest entry are
    /// dropped, and the oldest entry leaves once the bound is exceeded.
    pub fn add_text(&mut self, text: String)
        ensures
            final(self).spec_max() == old(self).spec_max(),
            text@.len() == 0 ==> final(self).spec_entries() == old(self).spec_entries(),
            text@.len() > 0 && old(self).spec_max() > 0 && (old(self).spec_entries().len() == 0
                || old(self).spec_entries().last()@ != text@) ==> final(self).spec_entries().len() >= 1 && final(self).spec_entries().last() == text,
    {
        if text.as_str().is_empty() {
            return ;
        }
        if self.entries.len() > 0 {
            let last = &self.entries[self.entries.len() - 1];
            if crate::text::str_eq(last.as_str(), text.as_str()) {
                return ;
            }
        }
        self.entries.push(text);
        if self.entries.len() > self.max_size {
            let _ = self.entries.remove(0);
        }
    }

    /// The most recent entry, if any.
    pub fn get_latest(&self) -> (r: Option<String>)
        ensures
            self.spec_entries().len() == 0 <==> r is None,
            self.spec_entries().len() > 0 ==> r == Some(self.spec_entries().last()),
    {
        if self.entries.len() > 0 {
            Some(self.entries[self.entries.len() - 1].clone())
        } else {
            None
        }
    }

    /// All entries, oldest first.
    pub fn get_all(&self) -> (r: &Vec<String>)
        ensures
            r@ == self.spec_entries(),
    {
        &self.entries
    }

    /// The entry at `index`, oldest first.
    pub fn get(&self, index: usize) -> (r: Option<&String>)
        ensures
            (index as int) < self.spec_entries().len() ==> r == Some(
                &self.spec_entries()[index as int],
            ),
            (index as int) >= self.spec_entries().len() ==> r is None,
    {
        if index < self.entries.len() {
            Some(&self.entries[index])
        } else {
            None
        }
    }

    /// Drop every entry.
    pub fn clear(&mut self)
        ensures
            final(self).spec_entries().len() == 0,
            final(self).spec_max() == old(self).spec_max(),
    {
        self.entries.clear();
    }

    /// Whether the buffer is empty.
    pub fn is_empty(&self) -> (r: bool)
        ensures
            r == (self.spec_entries().len() == 0),
    {
        self.entries.len() == 0
    }

    /// How many entries are stored.
    pub fn len(&self) -> (r: usize)
        ensures
            r == self.spec_entries().len(),
    {
        self.entries.len()
    }

    /// Change the bound, dropping the oldest entries that no longer fit.
    pub fn set_max_size(&mut self, max_size: usize)
        ensures
            final(self).spec_max() == max_size,
            final(self).spec_entries().len() <= vstd::math::max(
                max_size as int,
                old(self).spec_entries().len() as int,
            ),
    {
        self.max_size = max_size;
        if self.entries.len() > max_size {
            let excess = self.entries.len() - max_size;
            let mut t: usize = 0;
            while t < excess
                invariant
                    t <= excess,
                    excess <= old(self).spec_entries().len(),
                    self.entries@.len() == old(self).spec_entries().len() - t,
                    self.max_size == max_size,
                decreases excess - t,
            {
                let _ = self.entries.remove(0);
                t = t + 1;
            }
        }
    }
}

/// Whether a character is a control character (the two control ranges of
/// the character table).
pub open spec fn is_control_char(c: char) -> bool {
    (c as u32) < 0x20 || (0x7f <= c as u32 && c as u32 <= 0x9f)
}

/// Clipboard manager: sanitation, history and format conversion.
#[derive(Debug)]
pub struct ClipboardManager {
    config: ClipboardConfig,
    system_clipboard: SystemClipboard,
    selection_buffer: SelectionBuffer,
    operation_count: u64,
}

impl ClipboardManager {
    /// How many clipboard operations ran.
    pub closed spec fn spec_operations(self) -> u64 {
        self.operation_count
    }

    /// Whether the configuration asks for the system clipboard.
    pub closed spec fn spec_uses_system(self) -> bool {
        self.config.use_system_clipboard
    }

    /// The stored history, oldest first.
    pub closed spec fn spec_history(self) -> Seq<String> {
        self.selection_buffer.spec_entries()
    }

    /// A new manager with an empty history.
    pub fn new(config: &ClipboardConfig) -> (r: SillResult<Self>)
        ensures
            r is Ok,
            r.get_Ok_0().spec_operations() == 0,
            r.get_Ok_0().spec_history().len() == 0,
    {
        let system_clipboard = SystemClipboard::new()?;
        Ok(
            ClipboardManager {
                config: config.clone(),
                system_clipboard,
                selection_buffer: SelectionBuffer::new(config.buffer_size),
                operation_count: 0,
            },
        )
    }

    /// Copy text: it is sanitized and joins the history.  With the system
    /// clipboard enabled the copy fails, since no backend is wired in;
    /// the history keeps the text either way.
    pub fn copy_text(&mut self, text: &str) -> (r: SillResult<()>)
        ensures
            final(self).spec_operations() == vstd::math::min(
                old(self).spec_operations() as int + 1,
                u64::MAX as int,
            ),
            r is Ok <==> !old(self).spec_uses_system(),
    {
        if self.operation_count < u64::MAX {
            self.operation_count = self.operation_count + 1;
        }
        let sanitized_text = sanitize_text(&self.config, text);
        self.selection_buffer.add_text(sanitized_text.clone());
        if self.config.use_system_clipboard {
            self.system_clipboard.set_text(sanitized_text.as_str())?;
        }
        Ok(())
    }

    /// Read text: the system clipboard is consulted first where enabled
    /// (and, with no backend wired in, always falls through), then the
    /// most recent history entry; with neither, the clipboard is
    /// unavailable.
    pub fn get_text(&mut self) -> (r: SillResult<String>)
        ensures
            final(self).spec_operations() == vstd::math::min(
                old(self).spec_operations() as int + 1,
                u64::MAX as int,
            ),
            r is Ok <==> old(self).spec_history().len() > 0,
            r is Ok ==> r.get_Ok_0() == old(self).spec_history().last(),
            r is Err ==> r.get_Err_0() is ClipboardUnavailable,
    {
        if self.operation_count < u64::MAX {
            self.operation_count = self.operation_count + 1;
        }
        if self.config.use_system_clipboard {
            match self.system_clipboard.get_text() {
                Ok(text) => {
                    return Ok(sanitize_text(&self.config, text.as_str()));
                },
                Err(_) => {},
            }
        }
        match self.selection_buffer.get_latest() {
            Some(text) => Ok(text),
            None => Err(SillError::clipboard_unavailable("No clipboard content available")),
        }
    }

    /// Record text in the history without touching any system clipboard.
    pub fn copy_to_buffer(&mut self, text: &str) -> (r: SillResult<()>)
        ensures
            r is Ok,
            final(self).spec_operations() == vstd::math::min(
                old(self).spec_operations() as int + 1,
                u64::MAX as int,
            ),
    {
        if self.operation_count < u64::MAX {
            self.operation_count = self.operation_count + 1;
        }
        let sanitized_text = sanitize_text(&self.config, text);
        self.selection_buffer.add_text(sanitized_text);
        Ok(())
    }

    /// The history, oldest first.
    pub fn get_history(&self) -> (r: &Vec<String>)
        ensures
            r@ == self.spec_history(),
    {
        self.selection_buffer.get_all()
    }

    /// Clear the history; with the system clipboard enabled the clearing
    /// of the backend fails, since none is wired in.
    pub fn clear(&mut self) -> (r: SillResult<()>)
        ensures
            final(self).spec_history().len() == 0,
            r is Ok <==> !old(self).spec_uses_system(),
    {
        if self.operation_count < u64::MAX {
            self.operation_count = self.operation_count + 1;
        }
        self.selection_buffer.clear();
        if self.config.use_system_clipboard {
            self.system_clipboard.clear()?;
        }
        Ok(())
    }

    /// Whether anything can be pasted.
    pub fn is_available(&self) -> (r: bool)
        ensures
            !self.spec_uses_system() ==> r == (self.spec_history().len() > 0),
    {
        if self.config.use_system_clipboard {
            self.system_clipboard.is_available()
        } else {
            !self.selection_buffer.is_empty()
        }
    }

    /// The formats a paste can take.
    pub fn get_available_formats(&self) -> (r: SillResult<Vec<ClipboardFormat>>)
        ensures
            r is Ok,
            r.get_Ok_0()@.len() == 1,
    {
        if self.config.use_system_clipboard {
            self.system_clipboard.get_available_formats()
        } else {
            let mut formats: Vec<ClipboardFormat> = Vec::new();
            formats.push(ClipboardFormat::PlainText);
            Ok(formats)
        }
    }

    /// Read text converted to the requested format.
    pub fn get_formatted_text(&mut self, format: ClipboardFormat) -> (r: SillResult<String>)
        ensures
            r is Ok <==> old(self).spec_history().len() > 0,
    {
        let text = self.get_text()?;
        match format {
            ClipboardFormat::PlainText => Ok(text),
            ClipboardFormat::Html => Ok(convert_to_html(text.as_str())),
            ClipboardFormat::Rtf => Ok(convert_to_rtf(text.as_str())),
            ClipboardFormat::Markdown => Ok(convert_to_markdown(text.as_str())),
        }
    }

    /// Replace the configuration; the history bound follows it.
    pub fn update_config(&mut self, config: &ClipboardConfig) -> (r: SillResult<()>)
        ensures
            r is Ok,
    {
        self.config = config.clone();
        self.selection_buffer.set_max_size(config.buffer_size);
        Ok(())
    }

    /// How many clipboard operations ran.
    pub fn get_operation_count(&self) -> (r: u64)
        ensures
            r == self.spec_operations(),
    {
        self.operation_count
    }
}

/// Sanitize clipboard text: null characters leave, the length is capped
/// at the configured size (counted in characters), control characters
/// other than line feeds and tabs leave where configured, and carriage
/// returns fold into line feeds where configured.
fn sanitize_text(config: &ClipboardConfig, text: &str) -> (r: String)
    ensures
        r@.len() <= config.max_text_size,
{
    let chars = str_chars(text);
    let n = chars.len();
    let mut out = String::new();
    let mut kept: usize = 0;
    let mut i: usize = 0;
    while i < n
        invariant
            i <= n,
            n == chars@.len(),
            kept == out@.len(),
            kept <= config.max_text_size,
        decreases n - i,
    {
        if kept >= config.max_text_size {
            return out;
        }
        let c = chars[i];
        if c == '\0' {
            i = i + 1;
            continue ;
        }
        if config.strip_control_chars {
            let u: u32 = c as u32;
            if (u < 0x20 || (0x7f <= u && u <= 0x9f)) && c != '\n' && c != '\t' && c != '\r' {
                i = i + 1;
                continue ;
            }
        }
        if config.normalize_line_endings && c == '\r' {
            // A carriage return folds into a line feed; a following line
            // feed is consumed with it.
            push_char(&mut out, '\n');
            kept = kept + 1;
            if i + 1 < n && chars[i + 1] == '\n' {
                i = i + 2;
            } else {
                i = i + 1;
            }
            continue ;
        }
        push_char(&mut out, c);
        kept = kept + 1;
        i = i + 1;
    }
    out
}

/// Wrap text in a minimal hypertext page, escaping its markup characters.
fn convert_to_html(text: &str) -> (r: String) {
    let chars = str_chars(text);
    let n = chars.len();
    let mut html = String::new();
    html.append("<!DOCTYPE html>\n<html><body><pre>");
    let mut i: usize = 0;
    while i < n
        invariant
            i <= n,
            n == chars@.len(),
        decreases n - i,
    {
        let c = chars[i];
        if c == '<' {
            html.append("&lt;");
        } else if c == '>' {
            html.append("&gt;");
        } else if c == '&' {
            html.append("&amp;");
        } else if c == '"' {
            html.append("&quot;");
        } else if c == '\n' {
            html.append("<br>\n");
        } else {
            push_char(&mut html, c);
        }
        i = i + 1;
    }
    html.append("</pre></body></html>");
    html
}

/// Append the decimal digits of a number to a string.
fn push_u32_decimal(s: &mut String, v: u32)
    ensures
        final(s)@.len() > old(s)@.len(),
{
    let mut digits: Vec<char> = Vec::new();
    let mut rest: u32 = v;
    loop
        invariant_except_break
            true,
        ensures
            digits@.len() > 0,
        decreases rest,
    {
        let d: u32 = rest % 10;
        digits.push(match d {
            0 => '0',
            1 => '1',
            2 => '2',
            3 => '3',
            4 => '4',
            5 => '5',
            6 => '6',
            7 => '7',
            8 => '8',
            _ => '9',
        });
        rest = rest / 10;
        if rest == 0 {
            break ;
        }
    }
    let mut i: usize = digits.len();
    while i > 0
        invariant
            i <= digits@.len(),
            s@.len() >= old(s)@.len() + (digits@.len() - i),
        decreases i,
    {
        i = i - 1;
        push_char(s, digits[i]);
    }
    proof {
        assert(s@.len() >= old(s)@.len() + digits@.len());
    }
}

/// Wrap text in a minimal rich-text document, escaping its markup
/// characters and spelling characters beyond the base table numerically.
fn convert_to_rtf(text: &str) -> (r: String) {
    let chars = str_chars(text);
    let n = chars.len();
    let mut rtf = String::new();
    rtf.append("{\\rtf1\\ansi\\deff0 {\\fonttbl {\\f0 Courier New;}}\\f0\\fs20 ");
    let mut i: usize = 0;
    while i < n
        invariant
            i <= n,
            n == chars@.len(),
        decreases n - i,
    {
        let c = chars[i];
        if c == '\\' {
            rtf.append("\\\\");
        } else if c == '{' {
            rtf.append("\\{");
        } else if c == '}' {
            rtf.append("\\}");
        } else if c == '\n' {
            rtf.append("\\par\n");
        } else if (c as u32) > 127 {
            rtf.append("\\u");
            push_u32_decimal(&mut rtf, c as u32);
            rtf.append("?");
        } else {
            push_char(&mut rtf, c);
        }
        i = i + 1;
    }
    rtf.append("}");
    rtf
}

/// Wrap text in a fenced code block.
fn convert_to_markdown(text: &str) -> (r: String) {
    let mut md = String::new();
    md.append("```\n");
    md.append(text);
    md.append("\n```");
    md
}

} // verus!
