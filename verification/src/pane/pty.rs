//! The pseudo-terminal boundary: the interface a pane drives a child process
//! through, a simulated in-process implementation of it, and its errors.
//! Real process I/O lives outside this library; the simulation here keeps
//! the same observable bookkeeping without touching the operating system.

use vstd::prelude::*;
use vstd::string::StringExecFns;

verus! {

/// Error type for pseudo-terminal operations.
#[derive(Debug, Clone)]
pub enum PtyError {
    SpawnFailed(String),
    IoError(String),
    ProcessNotRunning,
    InvalidSize { rows: u16, cols: u16 },
    NotInitialized,
    PermissionDenied(String),
    CommandNotFound(String),
    OperationFailed(String),
}

pub type PtyResult<T> = Result<T, PtyError>;

/// The interface a pane drives its child process through.
pub trait PtyInterface {
    /// Spawn a new process.
    fn spawn(&mut self, command: &str, args: &[&str], env: &[(String, String)]) -> PtyResult<()>;

    /// Read pending output bytes.
    fn read(&mut self) -> PtyResult<Vec<u8>>;

    /// Write input bytes; returns how many were taken.
    fn write(&mut self, data: &[u8]) -> PtyResult<usize>;

    /// Resize the terminal the process sees.
    fn resize(&mut self, rows: u16, cols: u16) -> PtyResult<()>;

    /// The process id, if one is running.
    fn pid(&self) -> Option<u32>;

    /// Whether the process is alive.
    fn is_alive(&self) -> bool;

    /// Kill the process.
    fn kill(&mut self) -> PtyResult<()>;

    /// The current size as (columns, rows).
    fn size(&self) -> (u16, u16);

    /// Set an environment variable for future spawns.
    fn set_env(&mut self, key: String, value: String);

    /// Set the working directory for future spawns.
    fn set_working_directory(&mut self, path: &str) -> PtyResult<()>;
}

/// Bookkeeping for one simulated process.
#[derive(Debug, Clone)]
pub struct PtyProcess {
    pub pid: u32,
    pub command: String,
    pub alive: bool,
}

/// A simulated pseudo-terminal: it tracks spawn state, size, environment and
/// working directory exactly, and carries no real process behind them.
#[derive(Debug)]
pub struct BasicPty {
    process: Option<PtyProcess>,
    size: (u16, u16),
    env_vars: Vec<(String, String)>,
    working_directory: Option<String>,
}

impl BasicPty {
    /// A fresh simulated pseudo-terminal of the stock 80-by-24 size, with no
    /// process.
    pub fn new() -> (r: Self)
        ensures
            r.spec_size() == (80u16, 24u16),
            r.spec_process() is None,
    {
        BasicPty { process: None, size: (80, 24), env_vars: Vec::new(), working_directory: None }
    }

    /// The process bookkeeping, visible to contracts.
    pub closed spec fn spec_process(self) -> Option<PtyProcess> {
        self.process
    }

    /// The current size, visible to contracts.
    pub closed spec fn spec_size(self) -> (u16, u16) {
        self.size
    }
}

impl PtyInterface for BasicPty {
    fn spawn(&mut self, command: &str, args: &[&str], env: &[(String, String)]) -> PtyResult<()> {
        if command.is_empty() {
            return Err(PtyError::SpawnFailed("Empty command".to_owned()));
        }
        let mut i: usize = 0;
        while i < env.len()
            decreases env.len() - i,
        {
            let key = env[i].0.clone();
            let value = env[i].1.clone();
            self.env_vars.push((key, value));
            i = i + 1;
        }
        let mut full_command = command.to_owned();
        let mut j: usize = 0;
        while j < args.len()
            decreases args.len() - j,
        {
            full_command.append(" ");
            full_command.append(args[j]);
            j = j + 1;
        }
        self.process = Some(PtyProcess { pid: 1234, command: full_command, alive: true });
        Ok(())
    }

    fn read(&mut self) -> PtyResult<Vec<u8>> {
        if self.process.is_none() {
            return Err(PtyError::ProcessNotRunning);
        }
        Ok(Vec::new())
    }

    fn write(&mut self, data: &[u8]) -> PtyResult<usize> {
        if self.process.is_none() {
            return Err(PtyError::ProcessNotRunning);
        }
        Ok(data.len())
    }

    fn resize(&mut self, rows: u16, cols: u16) -> PtyResult<()> {
        if rows == 0 || cols == 0 {
            return Err(PtyError::InvalidSize { rows, cols });
        }
        self.size = (cols, rows);
        Ok(())
    }

    fn pid(&self) -> Option<u32> {
        match &self.process {
            Some(p) => Some(p.pid),
            _ => None,
        }
    }

    fn is_alive(&self) -> bool {
        match &self.process {
            Some(p) => p.alive,
            _ => false,
        }
    }

    fn kill(&mut self) -> PtyResult<()> {
        match &mut self.process {
            Some(process) => {
                process.alive = false;
                Ok(())
            },
            _ => Err(PtyError::ProcessNotRunning),
        }
    }

    fn size(&self) -> (u16, u16) {
        self.size
    }

    fn set_env(&mut self, key: String, value: String) {
        self.env_vars.push((key, value));
    }

    fn set_working_directory(&mut self, path: &str) -> PtyResult<()> {
        self.working_directory = Some(path.to_owned());
        Ok(())
    }
}

/// Pseudo-terminal configuration.
#[derive(Debug)]
pub struct PtyConfig {
    pub initial_size: (u16, u16),
    pub scroll_buffer_size: usize,
    pub environment_variables: Vec<(String, String)>,
    pub working_directory: Option<String>,
    pub shell: String,
}

impl Default for PtyConfig {
    fn default() -> (c: Self)
        ensures
            c.initial_size == (80u16, 24u16),
            c.scroll_buffer_size == 10000,
    {
        PtyConfig {
            initial_size: (80, 24),
            scroll_buffer_size: 10000,
            environment_variables: Vec::new(),
            working_directory: None,
            shell: "/bin/sh".to_owned(),
        }
    }
}

/// Factory for pseudo-terminal instances.
pub struct PtyFactory;

impl PtyFactory {
    /// A pseudo-terminal with the stock configuration.
    pub fn create() -> (r: BasicPty)
        ensures
            r.spec_size() == (80u16, 24u16),
            r.spec_process() is None,
    {
        BasicPty::new()
    }

    /// A pseudo-terminal with the given configuration applied.
    pub fn create_with_config(config: PtyConfig) -> (r: BasicPty) {
        let mut pty = BasicPty::new();
        let _ = pty.resize(config.initial_size.1, config.initial_size.0);
        let mut i: usize = 0;
        let env = config.environment_variables;
        while i < env.len()
            decreases env.len() - i,
        {
            let key = env[i].0.clone();
            let value = env[i].1.clone();
            pty.set_env(key, value);
            i = i + 1;
        }
        if let Some(working_dir) = config.working_directory {
            let _ = pty.set_working_directory(working_dir.as_str());
        }
        pty
    }
}

} // verus!
