//! Configuration of the logger: the options a run is started with and the
//! rule that makes them valid.

use std::path::PathBuf;
use std::sync::Arc;
use vstd::prelude::*;
use vstd::string::*;

use crate::text::{decimal, decimal_string};

verus! {

/// Lowest port the receivers may be bound to.
pub const MIN_PORT: usize = 1024;

/// Highest port the receivers may be bound to.
pub const MAX_PORT: usize = 65535;

/// `std::path::PathBuf`, carried through verified code as an opaque value.
#[verifier::external_type_specification]
#[verifier::external_body]
pub struct ExPathBuf(PathBuf);

/// `PathBuf::clone` returns a path equal to the one it was given.
pub assume_specification[ <PathBuf as Clone>::clone ](path: &PathBuf) -> (copy: PathBuf)
    ensures
        copy == *path,
;

/// How much of the log is recorded.
#[derive(Debug, Clone, Copy, PartialEq, Eq, Structural)]
pub enum LogLevel {
    /// Nothing is recorded.
    Off,
    /// Errors only.
    Error,
    /// Warnings and errors.
    Warn,
    /// General information and above.
    Info,
    /// Debugging information and above.
    Debug,
    /// Everything.
    Trace,
}

/// The lower-case name of a level.
pub open spec fn level_name(level: LogLevel) -> Seq<char> {
    match level {
        LogLevel::Off => "none"@,
        LogLevel::Error => "error"@,
        LogLevel::Warn => "warn"@,
        LogLevel::Info => "info"@,
        LogLevel::Debug => "debug"@,
        LogLevel::Trace => "trace"@,
    }
}

impl LogLevel {
    /// The lower-case name of the level.
    pub fn as_ref(&self) -> (name: &'static str)
        ensures
            name@ == level_name(*self),
    {
        match self {
            LogLevel::Off => "none",
            LogLevel::Error => "error",
            LogLevel::Warn => "warn",
            LogLevel::Info => "info",
            LogLevel::Debug => "debug",
            LogLevel::Trace => "trace",
        }
    }
}

/// Why a set of options is refused.
#[derive(Debug, Clone, Copy, PartialEq, Eq, Structural)]
pub enum ConfigError {
    /// The port lies outside `MIN_PORT..=MAX_PORT`.
    PortOutOfRange,
}

/// The text shown to the operator for an error.
pub open spec fn config_error_text(error: ConfigError) -> Seq<char> {
    match error {
        ConfigError::PortOutOfRange => "listening port is out of range"@,
    }
}

impl ConfigError {
    /// The text shown to the operator.
    pub fn message(&self) -> (text: &'static str)
        ensures
            text@ == config_error_text(*self),
    {
        match self {
            ConfigError::PortOutOfRange => "listening port is out of range",
        }
    }
}

/// The options of one run.
pub struct Options {
    log_level: LogLevel,
    log_output: Option<PathBuf>,
    bind: String,
    port: usize,
    db_file: PathBuf,
}

/// What a set of options holds.
pub struct OptionsView {
    pub log_level: LogLevel,
    pub log_output: Option<PathBuf>,
    pub bind: Seq<char>,
    pub port: usize,
    pub db_file: PathBuf,
}

/// Whether a port may be listened on.
pub open spec fn port_is_valid(port: usize) -> bool {
    MIN_PORT <= port <= MAX_PORT
}

/// The address both receivers are bound to: host, a colon, the port in
/// decimal.
pub open spec fn endpoint_text(bind: Seq<char>, port: usize) -> Seq<char> {
    bind + seq![':'] + decimal(port as nat)
}

impl View for Options {
    type V = OptionsView;

    closed spec fn view(&self) -> OptionsView {
        OptionsView {
            log_level: self.log_level,
            log_output: self.log_output,
            bind: self.bind@,
            port: self.port,
            db_file: self.db_file,
        }
    }
}

impl Options {
    /// Collects the options of a run, unchecked.
    pub fn new(
        log_level: LogLevel,
        log_output: Option<PathBuf>,
        bind: String,
        port: usize,
        db_file: PathBuf,
    ) -> (opts: Options)
        ensures
            opts@ == (OptionsView { log_level, log_output, bind: bind@, port, db_file }),
    {
        Options { log_level, log_output, bind, port, db_file }
    }

    /// The level of the log.
    pub fn log_level(&self) -> (level: LogLevel)
        ensures
            level == self@.log_level,
    {
        self.log_level
    }

    /// Where the log is written, if a place was given.
    pub fn log_output(&self) -> (path: Option<PathBuf>)
        ensures
            path == self@.log_output,
    {
        match &self.log_output {
            Some(path) => Some(path.clone()),
            None => None,
        }
    }

    /// The address to bind both receivers to.
    pub fn endpoint(&self) -> (address: String)
        ensures
            address@ == endpoint_text(self@.bind, self@.port),
    {
        proof {
            reveal_strlit(":");
        }
        let mut address = self.bind.clone();
        address.append(":");
        let port = decimal_string(self.port);
        address.append(port.as_str());
        assert(address@ =~= endpoint_text(self@.bind, self@.port));
        address
    }

    /// The path of the database file.
    pub fn db_file(&self) -> (path: PathBuf)
        ensures
            path == self@.db_file,
    {
        self.db_file.clone()
    }

    /// Accepts the options exactly when the port may be listened on.
    pub fn validate(&self) -> (r: Result<(), ConfigError>)
        ensures
            r is Ok <==> port_is_valid(self@.port),
            r matches Err(error) ==> error == ConfigError::PortOutOfRange,
    {
        if self.port < MIN_PORT || self.port > MAX_PORT {
            return Err(ConfigError::PortOutOfRange);
        }
        Ok(())
    }
}

/// Builds the options of a run from the values given on the command line and
/// checks them: the result is `Ok`, and holds exactly those values, when the
/// port is valid, and the error names the fault otherwise.
pub fn parse(
    log_level: LogLevel,
    log_output: Option<PathBuf>,
    bind: String,
    port: usize,
    db_file: PathBuf,
) -> (r: Result<Arc<Options>, ConfigError>)
    ensures
        r is Ok <==> port_is_valid(port),
        r matches Ok(opts) ==> opts@ == (OptionsView {
            log_level,
            log_output,
            bind: bind@,
            port,
            db_file,
        }),
        r matches Err(error) ==> error == ConfigError::PortOutOfRange,
{
    let opts = Options::new(log_level, log_output, bind, port, db_file);
    match opts.validate() {
        Ok(()) => Ok(Arc::new(opts)),
        Err(error) => Err(error),
    }
}

} // verus!
