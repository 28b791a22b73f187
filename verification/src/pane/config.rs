//! Pane configuration: sizes, behavior flags and named profiles.

use vstd::prelude::*;
use crate::pane::cursor::CursorStyle;
use crate::pane::errors::{PaneError, PaneResult};
use crate::text::str_chars;

verus! {

/// What the terminal does when the bell rings.
#[derive(Debug, Clone, Copy, PartialEq, Eq, Structural)]
pub enum BellAction {
    Ignore,
    Visual,
    Audible,
    Both,
    Notification,
}

/// Configuration of one pane.
#[derive(Debug)]
pub struct PaneConfig {
    pub initial_size: (u16, u16),
    pub min_size: (u16, u16),
    pub max_size: Option<(u16, u16)>,
    pub default_command: String,
    pub default_args: Vec<String>,
    pub working_directory: Option<String>,
    pub environment_variables: Vec<(String, String)>,
    pub scrollback_lines: usize,
    pub auto_wrap: bool,
    pub cursor_blink: bool,
    pub cursor_style: CursorStyle,
    pub default_title: String,
    pub title_format: String,
    pub show_cursor: bool,
    pub bell_action: BellAction,
    pub alt_sends_escape: bool,
    pub application_cursor_keys: bool,
    pub application_keypad: bool,
    pub save_scrollback_to_file: bool,
    pub scrollback_file_path: Option<String>,
    pub max_memory_usage: Option<usize>,
    pub render_throttle_ms: u64,
    pub lazy_rendering: bool,
    pub log_terminal_sequences: bool,
    pub debug_mode: bool,
}

/// Whether a character counts as blank for command validation.
pub open spec fn is_space_char(c: char) -> bool {
    c == ' ' || c == '\t' || c == '\n' || c == '\r'
}

/// Whether a command string holds nothing but blanks.
pub open spec fn spec_blank(s: Seq<char>) -> bool {
    forall|i: int| 0 <= i < s.len() ==> is_space_char(#[trigger] s[i])
}

/// Append every environment pair of `src` to `dst`.
fn push_env_pairs(dst: &mut Vec<(String, String)>, src: Vec<(String, String)>)
    ensures
        final(dst)@.len() == old(dst)@.len() + src@.len(),
{
    let n = src.len();
    let mut i: usize = 0;
    while i < n
        invariant
            i <= n,
            n == src@.len(),
            dst@.len() == old(dst)@.len() + i,
        decreases n - i,
    {
        let key = src[i].0.clone();
        let value = src[i].1.clone();
        dst.push((key, value));
        i = i + 1;
    }
}

/// Whether a string slice holds nothing but blanks.
fn is_blank(s: &str) -> (r: bool)
    ensures
        r == spec_blank(s@),
{
    let chars = str_chars(s);
    let n = chars.len();
    let mut i: usize = 0;
    while i < n
        invariant
            i <= n,
            n == chars@.len(),
            chars@ == s@,
            forall|j: int| 0 <= j < i ==> is_space_char(#[trigger] s@[j]),
        decreases n - i,
    {
        let c = chars[i];
        if !(c == ' ' || c == '\t' || c == '\n' || c == '\r') {
            return false;
        }
        i = i + 1;
    }
    true
}

impl PaneConfig {
    /// Whether the configuration passes validation: the initial size within
    /// the minimum and maximum, a non-blank command, a scrollback of at
    /// most a million lines, and a memory limit of at least a megabyte.
    pub open spec fn spec_valid(self) -> bool {
        &&& self.initial_size.0 >= self.min_size.0
        &&& self.initial_size.1 >= self.min_size.1
        &&& match self.max_size {
            Some(max) => self.initial_size.0 <= max.0 && self.initial_size.1 <= max.1,
            None => true,
        }
        &&& !spec_blank(self.default_command@)
        &&& self.scrollback_lines <= 1_000_000
        &&& match self.max_memory_usage {
            Some(limit) => limit >= 1048576,
            None => true,
        }
    }

    /// A new configuration with the stock settings.
    pub fn new() -> (c: Self)
        ensures
            c.initial_size == (80u16, 24u16),
            c.scrollback_lines == 10000,
            c.auto_wrap,
            c.cursor_blink,
            c.default_title@ == "Terminal"@,
    {
        PaneConfig::default()
    }

    /// Set the initial terminal size.
    pub fn with_size(self, width: u16, height: u16) -> (c: Self)
        ensures
            c == (PaneConfig { initial_size: (width, height), ..self }),
    {
        PaneConfig { initial_size: (width, height), ..self }
    }

    /// Set the default command.
    pub fn with_command(self, command: &str) -> (c: Self)
        ensures
            c.default_command@ == command@,
            c.initial_size == self.initial_size,
            c.scrollback_lines == self.scrollback_lines,
            c.default_title == self.default_title,
    {
        PaneConfig { default_command: command.to_owned(), ..self }
    }

    /// Set the command arguments.
    pub fn with_args(self, args: Vec<String>) -> (c: Self)
        ensures
            c == (PaneConfig { default_args: args, ..self }),
    {
        PaneConfig { default_args: args, ..self }
    }

    /// Set the working directory.
    pub fn with_working_directory(self, path: &str) -> (c: Self)
        ensures
            c.working_directory is Some,
            c.working_directory.unwrap()@ == path@,
    {
        PaneConfig { working_directory: Some(path.to_owned()), ..self }
    }

    /// Add an environment variable.
    pub fn with_env(self, key: &str, value: &str) -> (c: Self)
        ensures
            c.environment_variables@.len() == self.environment_variables@.len() + 1,
            c.environment_variables@.last().0@ == key@,
            c.environment_variables@.last().1@ == value@,
    {
        let mut env = self.environment_variables;
        env.push((key.to_owned(), value.to_owned()));
        PaneConfig { environment_variables: env, ..self }
    }

    /// Set the scrollback capacity.
    pub fn with_scrollback(self, lines: usize) -> (c: Self)
        ensures
            c == (PaneConfig { scrollback_lines: lines, ..self }),
    {
        PaneConfig { scrollback_lines: lines, ..self }
    }

    /// Set the title.
    pub fn with_title(self, title: &str) -> (c: Self)
        ensures
            c.default_title@ == title@,
            c.initial_size == self.initial_size,
            c.scrollback_lines == self.scrollback_lines,
            c.default_command == self.default_command,
    {
        PaneConfig { default_title: title.to_owned(), ..self }
    }

    /// Switch debug mode (and with it sequence logging) on or off.
    pub fn with_debug(self, enabled: bool) -> (c: Self)
        ensures
            c == (PaneConfig { debug_mode: enabled, log_terminal_sequences: enabled, ..self }),
    {
        PaneConfig { debug_mode: enabled, log_terminal_sequences: enabled, ..self }
    }

    /// Validate the configuration, exact to `spec_valid`: too small or too
    /// large a size, a blank command, an oversized scrollback and an
    /// undersized memory limit are each refused with a configuration
    /// error.
    pub fn validate(&self) -> (r: PaneResult<()>)
        ensures
            r is Ok <==> self.spec_valid(),
            r is Err ==> r.get_Err_0() is ConfigError,
    {
        if self.initial_size.0 < self.min_size.0 || self.initial_size.1 < self.min_size.1 {
            return Err(PaneError::config("Initial size is smaller than minimum size"));
        }
        if let Some(max_size) = self.max_size {
            if self.initial_size.0 > max_size.0 || self.initial_size.1 > max_size.1 {
                return Err(PaneError::config("Initial size is larger than maximum size"));
            }
        }
        if is_blank(self.default_command.as_str()) {
            return Err(PaneError::config("Default command cannot be empty"));
        }
        if self.scrollback_lines > 1_000_000 {
            return Err(PaneError::config("Scrollback size is too large (max 1,000,000)"));
        }
        if let Some(memory_limit) = self.max_memory_usage {
            if memory_limit < 1048576 {
                return Err(PaneError::config("Memory limit is too small (minimum 1MB)"));
            }
        }
        Ok(())
    }

    /// The environment variables as a list of pairs.
    pub fn env_as_vec(&self) -> (r: Vec<(String, String)>)
        ensures
            r@.len() == self.environment_variables@.len(),
    {
        let mut out: Vec<(String, String)> = Vec::new();
        let n = self.environment_variables.len();
        let mut i: usize = 0;
        while i < n
            invariant
                i <= n,
                n == self.environment_variables@.len(),
                out@.len() == i,
            decreases n - i,
        {
            let key = self.environment_variables[i].0.clone();
            let value = self.environment_variables[i].1.clone();
            out.push((key, value));
            i = i + 1;
        }
        out
    }

    /// Merge another configuration into this one: explicitly set values of
    /// `other` win, values still at their stock defaults are kept.
    pub fn merge(&mut self, other: PaneConfig)
        ensures
            final(self).initial_size == if other.initial_size != (80u16, 24u16) {
                other.initial_size
            } else {
                old(self).initial_size
            },
            final(self).scrollback_lines == if other.scrollback_lines != 10000 {
                other.scrollback_lines
            } else {
                old(self).scrollback_lines
            },
            final(self).auto_wrap == other.auto_wrap,
            final(self).cursor_blink == other.cursor_blink,
            final(self).show_cursor == other.show_cursor,
            final(self).debug_mode == other.debug_mode,
            final(self).render_throttle_ms == other.render_throttle_ms,
            final(self).cursor_style == other.cursor_style,
            final(self).bell_action == other.bell_action,
            final(self).max_size == if other.max_size is Some {
                other.max_size
            } else {
                old(self).max_size
            },
            final(self).max_memory_usage == if other.max_memory_usage is Some {
                other.max_memory_usage
            } else {
                old(self).max_memory_usage
            },
    {
        let mut tmp = PaneConfig::default();
        core::mem::swap(self, &mut tmp);
        *self = merged_config(tmp, other);
    }
}

/// The merge of two configurations: explicitly set values of `other` win,
/// values still at their stock defaults keep the base's setting.
fn merged_config(base: PaneConfig, other: PaneConfig) -> (r: PaneConfig)
    ensures
        r.initial_size == if other.initial_size != (80u16, 24u16) {
            other.initial_size
        } else {
            base.initial_size
        },
        r.scrollback_lines == if other.scrollback_lines != 10000 {
            other.scrollback_lines
        } else {
            base.scrollback_lines
        },
        r.auto_wrap == other.auto_wrap,
        r.cursor_blink == other.cursor_blink,
        r.show_cursor == other.show_cursor,
        r.alt_sends_escape == other.alt_sends_escape,
        r.application_cursor_keys == other.application_cursor_keys,
        r.application_keypad == other.application_keypad,
        r.save_scrollback_to_file == other.save_scrollback_to_file,
        r.lazy_rendering == other.lazy_rendering,
        r.log_terminal_sequences == other.log_terminal_sequences,
        r.debug_mode == other.debug_mode,
        r.render_throttle_ms == other.render_throttle_ms,
        r.cursor_style == other.cursor_style,
        r.bell_action == other.bell_action,
        r.max_size == if other.max_size is Some {
            other.max_size
        } else {
            base.max_size
        },
        r.max_memory_usage == if other.max_memory_usage is Some {
            other.max_memory_usage
        } else {
            base.max_memory_usage
        },
{
    let initial_size: (u16, u16) = if other.initial_size.0 != 80 || other.initial_size.1 != 24 {
        other.initial_size
    } else {
        base.initial_size
    };
    let default_command: String = if !crate::text::str_eq(other.default_command.as_str(), "/bin/sh") {
        other.default_command
    } else {
        base.default_command
    };
    let default_args: Vec<String> = if other.default_args.len() > 0 {
        other.default_args
    } else {
        base.default_args
    };
    let working_directory: Option<String> = if other.working_directory.is_some() {
        other.working_directory
    } else {
        base.working_directory
    };
    let mut environment_variables = base.environment_variables;
    push_env_pairs(&mut environment_variables, other.environment_variables);
    let scrollback_lines: usize = if other.scrollback_lines != 10000 {
        other.scrollback_lines
    } else {
        base.scrollback_lines
    };
    let default_title: String = if !crate::text::str_eq(other.default_title.as_str(), "Terminal") {
        other.default_title
    } else {
        base.default_title
    };
    let max_size: Option<(u16, u16)> = if other.max_size.is_some() {
        other.max_size
    } else {
        base.max_size
    };
    let scrollback_file_path: Option<String> = if other.scrollback_file_path.is_some() {
        other.scrollback_file_path
    } else {
        base.scrollback_file_path
    };
    let max_memory_usage: Option<usize> = if other.max_memory_usage.is_some() {
        other.max_memory_usage
    } else {
        base.max_memory_usage
    };
    PaneConfig {
        initial_size,
        min_size: base.min_size,
        max_size,
        default_command,
        default_args,
        working_directory,
        environment_variables,
        scrollback_lines,
        auto_wrap: other.auto_wrap,
        cursor_blink: other.cursor_blink,
        cursor_style: other.cursor_style,
        default_title,
        title_format: base.title_format,
        show_cursor: other.show_cursor,
        bell_action: other.bell_action,
        alt_sends_escape: other.alt_sends_escape,
        application_cursor_keys: other.application_cursor_keys,
        application_keypad: other.application_keypad,
        save_scrollback_to_file: other.save_scrollback_to_file,
        scrollback_file_path,
        max_memory_usage,
        render_throttle_ms: other.render_throttle_ms,
        lazy_rendering: other.lazy_rendering,
        log_terminal_sequences: other.log_terminal_sequences,
        debug_mode: other.debug_mode,
    }
}

impl Default for PaneConfig {
    /// The stock configuration: an 80-by-24 terminal running `/bin/sh` with
    /// ten thousand lines of scrollback.
    fn default() -> (c: Self)
        ensures
            c.initial_size == (80u16, 24u16),
            c.min_size == (10u16, 3u16),
            c.max_size is None,
            c.scrollback_lines == 10000,
            c.auto_wrap,
            c.cursor_blink,
            c.cursor_style == CursorStyle::Block,
            c.default_title@ == "Terminal"@,
            c.show_cursor,
            c.bell_action == BellAction::Ignore,
            c.default_command@ == "/bin/sh"@,
            c.max_memory_usage == Some(268435456usize),
    {
        let mut env: Vec<(String, String)> = Vec::new();
        env.push(("TERM".to_owned(), "xterm-256color".to_owned()));
        env.push(("COLORTERM".to_owned(), "truecolor".to_owned()));
        PaneConfig {
            initial_size: (80, 24),
            min_size: (10, 3),
            max_size: None,
            default_command: "/bin/sh".to_owned(),
            default_args: Vec::new(),
            working_directory: None,
            environment_variables: env,
            scrollback_lines: 10000,
            auto_wrap: true,
            cursor_blink: true,
            cursor_style: CursorStyle::Block,
            default_title: "Terminal".to_owned(),
            title_format: "{command}".to_owned(),
            show_cursor: true,
            bell_action: BellAction::Ignore,
            alt_sends_escape: true,
            application_cursor_keys: false,
            application_keypad: false,
            save_scrollback_to_file: false,
            scrollback_file_path: None,
            max_memory_usage: Some(268435456),
            render_throttle_ms: 16,
            lazy_rendering: true,
            log_terminal_sequences: false,
            debug_mode: false,
        }
    }
}

/// A named pane profile: a configuration with a description and tags.
#[derive(Debug)]
pub struct PaneProfile {
    pub name: String,
    pub description: String,
    pub config: PaneConfig,
    pub tags: Vec<String>,
}

impl PaneProfile {
    /// A new profile with an empty description and no tags.
    pub fn new(name: &str, config: PaneConfig) -> (r: Self)
        ensures
            r.name@ == name@,
            r.description@.len() == 0,
            r.tags@.len() == 0,
            r.config == config,
    {
        PaneProfile {
            name: name.to_owned(),
            description: String::new(),
            config,
            tags: Vec::new(),
        }
    }

    /// Attach a description.
    pub fn with_description(self, description: &str) -> (r: Self)
        ensures
            r.description@ == description@,
            r.name == self.name,
            r.tags == self.tags,
            r.config == self.config,
    {
        PaneProfile { description: description.to_owned(), ..self }
    }

    /// Replace the tags.
    pub fn with_tags(self, tags: Vec<String>) -> (r: Self)
        ensures
            r.tags == tags,
            r.name == self.name,
            r.description == self.description,
            r.config == self.config,
    {
        PaneProfile { tags, ..self }
    }

    /// Add one tag.
    pub fn with_tag(self, tag: String) -> (r: Self)
        ensures
            r.tags@ == self.tags@.push(tag),
            r.name == self.name,
            r.description == self.description,
            r.config == self.config,
    {
        let mut tags = self.tags;
        tags.push(tag);
        PaneProfile { name: self.name, description: self.description, config: self.config, tags }
    }
}

/// The built-in pane profiles.
pub struct BuiltinProfiles;

impl BuiltinProfiles {
    /// The stock terminal profile.
    pub fn default() -> (r: PaneProfile)
        ensures
            r.name@ == "default"@,
            r.config.initial_size == (80u16, 24u16),
    {
        PaneProfile::new("default", PaneConfig::default()).with_description(
            "Default terminal configuration",
        )
    }

    /// A development profile with a large scrollback.
    pub fn development() -> (r: PaneProfile)
        ensures
            r.name@ == "development"@,
            r.config.initial_size == (100u16, 30u16),
            r.config.scrollback_lines == 50000,
    {
        let config = PaneConfig::default().with_scrollback(50000).with_debug(false).with_size(
            100,
            30,
        );
        PaneProfile::new("development", config).with_description(
            "Development environment with large scrollback",
        ).with_tag("dev".to_owned())
    }

    /// A remote-connection profile whose bell raises a notification.
    pub fn ssh() -> (r: PaneProfile)
        ensures
            r.name@ == "ssh"@,
            r.config.bell_action == BellAction::Notification,
    {
        let mut config = PaneConfig::default();
        config.title_format = "{command} - {host}".to_owned();
        config.bell_action = BellAction::Notification;
        PaneProfile::new("ssh", config).with_description("SSH connection profile").with_tag(
            "remote".to_owned(),
        )
    }

    /// A monitoring profile with the largest scrollback.
    pub fn monitoring() -> (r: PaneProfile)
        ensures
            r.name@ == "monitoring"@,
            r.config.initial_size == (120u16, 40u16),
            r.config.scrollback_lines == 100000,
    {
        let config = PaneConfig::default().with_scrollback(100000).with_size(120, 40);
        let mut tags: Vec<String> = Vec::new();
        tags.push("monitoring".to_owned());
        tags.push("logging".to_owned());
        PaneProfile::new("monitoring", config).with_description(
            "Monitoring and logging profile with large scrollback",
        ).with_tags(tags)
    }

    /// All built-in profiles.
    pub fn all() -> (r: Vec<PaneProfile>)
        ensures
            r@.len() == 4,
    {
        let mut profiles: Vec<PaneProfile> = Vec::new();
        profiles.push(BuiltinProfiles::default());
        profiles.push(BuiltinProfiles::development());
        profiles.push(BuiltinProfiles::ssh());
        profiles.push(BuiltinProfiles::monitoring());
        profiles
    }
}

} // verus!
