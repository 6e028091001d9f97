//! The errors of configuration resolution and the process exit status.

use vstd::prelude::*;
use crate::snapshot::{decimal_string, decimal_text};

verus! {

/// A setting of the agent, as named in errors.
#[derive(Clone, Copy, Debug, PartialEq, Eq, Structural)]
pub enum Setting {
    ConfigFile,
    StatsDestination,
    InterfaceName,
    MinInterval,
    MaxInterval,
    RootPath,
}

#[derive(Debug, Clone)]
pub enum ProgramError {
    /// An underlying read or write failed; the text says why.
    IoError(String),
    /// No layer gave a value for the setting.
    MissingValueError(Setting),
    /// The minimum interval exceeds the maximum: `(min, max)` in seconds.
    MinGreaterThanMaxDurationError(u64, u64),
    /// The command line could not be parsed.
    ArgParseError(String),
    /// The setting holds a malformed duration or address literal.
    InvalidValueError(Setting),
}

impl Setting {
    /// The name of the setting, as the config file writes it.
    pub open spec fn spec_name(self) -> Seq<char> {
        match self {
            Setting::ConfigFile => "config"@,
            Setting::StatsDestination => "stats-destination"@,
            Setting::InterfaceName => "interface-name"@,
            Setting::MinInterval => "min-interval"@,
            Setting::MaxInterval => "max-interval"@,
            Setting::RootPath => "root-path"@,
        }
    }

    /// The name of the setting, as the config file writes it.
    pub fn name(&self) -> (r: &'static str)
        ensures
            r@ == self.spec_name(),
    {
        match self {
            Setting::ConfigFile => "config",
            Setting::StatsDestination => "stats-destination",
            Setting::InterfaceName => "interface-name",
            Setting::MinInterval => "min-interval",
            Setting::MaxInterval => "max-interval",
            Setting::RootPath => "root-path",
        }
    }
}

/// The text that reports an error.
pub open spec fn message_text(e: ProgramError) -> Seq<char> {
    match e {
        ProgramError::IoError(t) => "IO error: "@ + t@,
        ProgramError::MissingValueError(s) => "missing value for "@ + s.spec_name(),
        ProgramError::MinGreaterThanMaxDurationError(min, max) => "min-interval "@
            + decimal_text(min as nat) + "s is greater than max-interval "@ + decimal_text(
            max as nat,
        ) + "s"@,
        ProgramError::ArgParseError(t) => "argument error: "@ + t@,
        ProgramError::InvalidValueError(s) => "invalid value for "@ + s.spec_name(),
    }
}

impl ProgramError {
    /// The text that reports this error.
    pub fn message(&self) -> (r: String)
        ensures
            r@ == message_text(*self),
    {
        match self {
            ProgramError::IoError(e) => String::from_str("IO error: ").concat(e.as_str()),
            ProgramError::MissingValueError(s) => String::from_str("missing value for ").concat(
                s.name(),
            ),
            ProgramError::MinGreaterThanMaxDurationError(min, max) => {
                let r = String::from_str("min-interval ").concat(decimal_string(*min).as_str());
                let r = r.concat("s is greater than max-interval ");
                let r = r.concat(decimal_string(*max).as_str());
                r.concat("s")
            },
            ProgramError::ArgParseError(t) => String::from_str("argument error: ").concat(
                t.as_str(),
            ),
            ProgramError::InvalidValueError(s) => String::from_str("invalid value for ").concat(
                s.name(),
            ),
        }
    }

    /// The exit status of a process that stops on this error.
    pub fn exit_code(&self) -> (r: u8)
        ensures
            r == 1,
    {
        1
    }
}

/// The result of a step of the program.
pub enum ProgramResult<T> {
    Done(T),
    Failed(ProgramError),
}

impl<T> ProgramResult<T> {
    pub fn is_ok(&self) -> (r: bool)
        ensures
            r == self is Done,
    {
        match self {
            ProgramResult::Done(_) => true,
            ProgramResult::Failed(_) => false,
        }
    }

    /// The value of a successful result.
    pub fn unwrap(self) -> (r: T)
        requires
            self is Done,
        ensures
            r == self->Done_0,
    {
        match self {
            ProgramResult::Done(t) => t,
            ProgramResult::Failed(_) => {
                proof {
                    assert(false);
                }
                unreached()
            },
        }
    }

    /// The outcome of the program once it stops with this result.
    pub fn into_exit(self) -> (r: ExitResult)
        ensures
            self is Done <==> r is Success,
            self is Failed ==> r == ExitResult::Failure(self->Failed_0),
    {
        match self {
            ProgramResult::Done(_) => ExitResult::Success,
            ProgramResult::Failed(e) => ExitResult::Failure(e),
        }
    }
}

/// How the program ends: cleanly, or on an error.
pub enum ExitResult {
    Success,
    Failure(ProgramError),
}

impl ExitResult {
    /// The process exit status: zero on success.
    pub fn exit_code(&self) -> (r: u8)
        ensures
            r == (if self is Success { 0u8 } else { 1u8 }),
    {
        match self {
            ExitResult::Success => 0,
            ExitResult::Failure(e) => e.exit_code(),
        }
    }
}

} // verus!
