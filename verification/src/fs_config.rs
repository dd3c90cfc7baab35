//! File-system interception mode and the switches derived from it.

use vstd::prelude::*;

verus! {

/// How file operations of the local process are served.
#[derive(Clone, Copy, Debug, PartialEq, Eq, Structural)]
pub enum FsModeConfig {
    /// Every file operation stays on the local machine.
    Local,
    /// Local unless a path matches an exception.
    LocalWithOverrides,
    /// Files are read remotely and written locally.
    Read,
    /// Files are read and written remotely.
    Write,
}

impl FsModeConfig {
    pub open spec fn spec_is_local(self) -> bool {
        self == FsModeConfig::Local
    }

    pub open spec fn spec_is_read(self) -> bool {
        self == FsModeConfig::Read
    }

    pub open spec fn spec_is_write(self) -> bool {
        self == FsModeConfig::Write
    }

    /// The number under which a mode is reported to telemetry.
    pub open spec fn spec_analytics_value(self) -> u32 {
        match self {
            FsModeConfig::Local => 0,
            FsModeConfig::LocalWithOverrides => 1,
            FsModeConfig::Read => 2,
            FsModeConfig::Write => 3,
        }
    }

    #[verifier::when_used_as_spec(spec_is_local)]
    pub fn is_local(self) -> (r: bool)
        ensures
            r == self.spec_is_local(),
    {
        matches!(self, FsModeConfig::Local)
    }

    #[verifier::when_used_as_spec(spec_is_read)]
    pub fn is_read(self) -> (r: bool)
        ensures
            r == self.spec_is_read(),
    {
        matches!(self, FsModeConfig::Read)
    }

    #[verifier::when_used_as_spec(spec_is_write)]
    pub fn is_write(self) -> (r: bool)
        ensures
            r == self.spec_is_write(),
    {
        matches!(self, FsModeConfig::Write)
    }

    #[verifier::when_used_as_spec(spec_analytics_value)]
    pub fn analytics_value(self) -> (r: u32)
        ensures
            r == self.spec_analytics_value(),
    {
        match self {
            FsModeConfig::Local => 0,
            FsModeConfig::LocalWithOverrides => 1,
            FsModeConfig::Read => 2,
            FsModeConfig::Write => 3,
        }
    }
}

impl Default for FsModeConfig {
    fn default() -> (mode: FsModeConfig)
        ensures
            mode == FsModeConfig::Read,
    {
        FsModeConfig::Read
    }
}

/// How file operations are served: the mode that applies by default, and the
/// path patterns that are exempt from it.
#[derive(Debug, Clone, PartialEq, Eq)]
pub struct FsConfig {
    /// The mode that applies where no pattern matches.
    pub mode: FsModeConfig,
    /// Patterns of paths that are read and written remotely.
    pub read_write: Option<Vec<String>>,
    /// Patterns of paths that are read remotely and written locally.
    pub read_only: Option<Vec<String>>,
    /// Patterns of paths that are opened locally.
    pub local: Option<Vec<String>>,
    /// Patterns of paths that are treated as absent.
    pub not_found: Option<Vec<String>>,
    /// Patterns of paths with the text that replaces what they match.
    pub mapping: Option<Vec<(String, String)>>,
}

/// What telemetry is told of a file-system configuration.
#[derive(Clone, Copy, Debug, PartialEq, Eq, Structural)]
pub struct FsAnalytics {
    pub mode: u32,
    pub local_paths: usize,
    pub read_write_paths: usize,
    pub read_only_paths: usize,
    pub not_found_paths: usize,
}

/// The number of patterns in a list that may be absent.
pub open spec fn pattern_count(patterns: Option<Vec<String>>) -> nat {
    match patterns {
        Some(p) => p@.len(),
        None => 0,
    }
}

fn count(patterns: &Option<Vec<String>>) -> (n: usize)
    ensures
        n == pattern_count(*patterns),
{
    match patterns {
        Some(p) => p.len(),
        None => 0,
    }
}

impl Default for FsConfig {
    fn default() -> (config: FsConfig)
        ensures
            config.mode == FsModeConfig::Read,
            config.read_write is None,
            config.read_only is None,
            config.local is None,
            config.not_found is None,
            config.mapping is None,
    {
        FsConfig {
            mode: FsModeConfig::Read,
            read_write: None,
            read_only: None,
            local: None,
            not_found: None,
            mapping: None,
        }
    }
}

impl FsConfig {
    /// The configuration of a file system feature that is switched off: the
    /// given mode and the patterns that the environment names; nothing is
    /// treated as absent and no path is replaced.
    pub fn disabled(
        mode: FsModeConfig,
        read_write: Option<Vec<String>>,
        read_only: Option<Vec<String>>,
        local: Option<Vec<String>>,
    ) -> (config: FsConfig)
        ensures
            config == (FsConfig {
                mode,
                read_write,
                read_only,
                local,
                not_found: None,
                mapping: None,
            }),
    {
        FsConfig { mode, read_write, read_only, local, not_found: None, mapping: None }
    }

    /// Whether files are read remotely and written locally by default.
    pub fn is_read(&self) -> (r: bool)
        ensures
            r == (self.mode == FsModeConfig::Read),
    {
        self.mode.is_read()
    }

    /// Whether files are read and written remotely by default.
    pub fn is_write(&self) -> (r: bool)
        ensures
            r == (self.mode == FsModeConfig::Write),
    {
        self.mode.is_write()
    }

    /// Whether any file operation may leave the local machine.
    pub fn is_active(&self) -> (r: bool)
        ensures
            r == (self.mode != FsModeConfig::Local),
    {
        !self.mode.is_local()
    }

    /// What telemetry is told of this configuration: the number of the mode
    /// and the length of each list of patterns.
    pub fn collect_analytics(&self) -> (a: FsAnalytics)
        ensures
            a.mode == self.mode.spec_analytics_value(),
            a.local_paths == pattern_count(self.local),
            a.read_write_paths == pattern_count(self.read_write),
            a.read_only_paths == pattern_count(self.read_only),
            a.not_found_paths == pattern_count(self.not_found),
    {
        FsAnalytics {
            mode: self.mode.analytics_value(),
            local_paths: count(&self.local),
            read_write_paths: count(&self.read_write),
            read_only_paths: count(&self.read_only),
            not_found_paths: count(&self.not_found),
        }
    }
}

} // verus!
