//! The bridge to the native layer's log output: levels, loggers and the
//! slot in which the active logger is registered.

use vstd::prelude::*;
use crate::types::{Error, Status};

verus! {

/// Logging level.
#[derive(Debug, Clone, Copy, PartialEq, Eq, Hash, Structural)]
pub enum LogLevel {
    /// Critical errors.
    Error,
    /// Infos.
    Info,
    /// General messages.
    Message,
    /// Debug messages.
    Debug,
    /// Warnings.
    Warning,
}

impl AsRef<str> for LogLevel {
    /// The name, as [`LogLevel::as_ref`] gives it.
    fn as_ref(&self) -> (s: &str)
        ensures
            s@ == self.name(),
    {
        LogLevel::as_ref(self)
    }
}

impl LogLevel {
    /// The name.
    pub open spec fn name(&self) -> Seq<char> {
        match self {
            LogLevel::Error => "ERROR"@,
            LogLevel::Info => "INFO"@,
            LogLevel::Message => "MESSAGE"@,
            LogLevel::Debug => "DEBUG"@,
            LogLevel::Warning => "WARNING"@,
        }
    }

    /// The name.
    pub fn as_ref(&self) -> (s: &'static str)
        ensures
            s@ == self.name(),
    {
        match self {
            LogLevel::Error => "ERROR",
            LogLevel::Info => "INFO",
            LogLevel::Message => "MESSAGE",
            LogLevel::Debug => "DEBUG",
            LogLevel::Warning => "WARNING",
        }
    }

    /// The name as an owned string, as it is displayed.
    pub fn to_string(&self) -> (s: String)
        ensures
            s@ == self.name(),
    {
        self.as_ref().to_owned()
    }

    /// The number by which the native layer knows the level.
    pub open spec fn code(self) -> i32 {
        match self {
            LogLevel::Error => 0,
            LogLevel::Info => 1,
            LogLevel::Message => 2,
            LogLevel::Debug => 3,
            LogLevel::Warning => 4,
        }
    }

    /// The level that a number stands for, if any.
    pub open spec fn of_code(code: i32) -> Option<LogLevel> {
        if code == 0 {
            Some(LogLevel::Error)
        } else if code == 1 {
            Some(LogLevel::Info)
        } else if code == 2 {
            Some(LogLevel::Message)
        } else if code == 3 {
            Some(LogLevel::Debug)
        } else if code == 4 {
            Some(LogLevel::Warning)
        } else {
            None
        }
    }

    /// The number of the level, as the native layer gives it.
    pub fn to_ffi(self) -> (code: i32)
        ensures
            code == self.code(),
    {
        match self {
            LogLevel::Error => 0,
            LogLevel::Info => 1,
            LogLevel::Message => 2,
            LogLevel::Debug => 3,
            LogLevel::Warning => 4,
        }
    }

    /// Reads a level from the number that the native layer gives; a number
    /// that is no level is read as none.
    pub fn from_ffi(code: i32) -> (r: Option<LogLevel>)
        ensures
            r == LogLevel::of_code(code),
    {
        match code {
            0 => Some(LogLevel::Error),
            1 => Some(LogLevel::Info),
            2 => Some(LogLevel::Message),
            3 => Some(LogLevel::Debug),
            4 => Some(LogLevel::Warning),
            _ => None,
        }
    }

    /// Every level is read back from its own number, and a number is read
    /// as a level exactly when it is the number of that level.
    pub proof fn lemma_code_round_trip(code: i32, which: LogLevel)
        ensures
            LogLevel::of_code(which.code()) == Some(which),
            LogLevel::of_code(code) == Some(which) <==> which.code() == code,
    {
    }
}

/// Severity of a message, as general-purpose logging knows it.
#[derive(Debug, Clone, Copy, PartialEq, Eq, Hash, Structural)]
pub enum Level {
    /// Serious errors.
    Error,
    /// Hazardous situations.
    Warn,
    /// Useful information.
    Info,
    /// Lower priority information.
    Debug,
}

impl LogLevel {
    /// The severity of a message of this level. Infos and general messages
    /// are both information.
    pub open spec fn severity(self) -> Level {
        match self {
            LogLevel::Error => Level::Error,
            LogLevel::Warning => Level::Warn,
            LogLevel::Message => Level::Info,
            LogLevel::Info => Level::Info,
            LogLevel::Debug => Level::Debug,
        }
    }
}

impl From<LogLevel> for Level {
    /// The severity of a message of the given level.
    fn from(level: LogLevel) -> (severity: Level) {
        match level {
            LogLevel::Error => Level::Error,
            LogLevel::Warning => Level::Warn,
            LogLevel::Message => Level::Info,
            LogLevel::Info => Level::Info,
            LogLevel::Debug => Level::Debug,
        }
    }
}

impl vstd::std_specs::convert::FromSpecImpl<LogLevel> for Level {
    open spec fn obeys_from_spec() -> bool {
        true
    }

    open spec fn from_spec(level: LogLevel) -> Level {
        level.severity()
    }
}

/// Log output handler.
pub trait Logger {
    /// What it means that the logger, as it was, has taken a message. A
    /// logger that does not say means nothing by it.
    open spec fn took(&self, level: LogLevel, message: &str) -> bool {
        true
    }

    /// Takes one message of the native layer.
    fn log(&mut self, level: LogLevel, message: &str)
        ensures
            old(self).took(level, message),
    ;
}

/// Closure logger wrapper: a function that takes every level and message.
pub struct FnLogger<F: Fn(LogLevel, &str)>(F);

impl<F: Fn(LogLevel, &str)> View for FnLogger<F> {
    type V = F;

    /// The function inside.
    closed spec fn view(&self) -> F {
        self.0
    }
}

impl<F: Fn(LogLevel, &str)> FnLogger<F> {
    #[verifier::type_invariant]
    spec fn inv(self) -> bool {
        forall|level: LogLevel, message: &str| call_requires(self.0, (level, message))
    }

    /// Wraps a function that can be called with any level and message.
    pub fn new(func: F) -> (logger: Self)
        requires
            forall|level: LogLevel, message: &str| call_requires(func, (level, message)),
        ensures
            logger@ == func,
    {
        FnLogger(func)
    }
}

impl<F: Fn(LogLevel, &str)> Logger for FnLogger<F> {
    /// The function inside has been called with the level and the message.
    open spec fn took(&self, level: LogLevel, message: &str) -> bool {
        call_ensures(self@, (level, message), ())
    }

    fn log(&mut self, level: LogLevel, message: &str)
        ensures
            final(self)@ == old(self)@,
    {
        proof {
            use_type_invariant(&*self);
        }
        (self.0)(level, message);
    }
}

/// The registration slot of the native layer's log output: it holds the one
/// logger that is active, or none, in which case the native layer prints
/// its messages itself.
pub struct Log<T: Logger> {
    logger: Option<T>,
}

impl<T: Logger> View for Log<T> {
    type V = Option<T>;

    /// The active logger, if any.
    closed spec fn view(&self) -> Option<T> {
        self.logger
    }
}

impl<T: Logger> Log<T> {
    /// The slot after `logger` was registered in it.
    pub open spec fn registered(slot: Option<T>, logger: T) -> Option<T> {
        Some(logger)
    }

    /// The slot after it was reset.
    pub open spec fn cleared(slot: Option<T>) -> Option<T> {
        None
    }

    /// An empty slot.
    pub fn new() -> (log: Self)
        ensures
            log@ is None,
    {
        Log { logger: None }
    }

    /// A slot with `logger` registered in it.
    pub fn from(logger: T) -> (log: Self)
        ensures
            log@ == Some(logger),
    {
        Log { logger: Some(logger) }
    }

    /// Registers `logger` in place of whatever was registered before.
    pub fn set(&mut self, logger: T)
        ensures
            final(self)@ == Self::registered(old(self)@, logger),
    {
        self.logger = Some(logger);
    }

    /// Leaves no logger registered.
    pub fn reset(&mut self)
        ensures
            final(self)@ == Self::cleared(old(self)@),
    {
        self.logger = None;
    }

    /// Whether a logger is registered.
    pub fn is_set(&self) -> (set: bool)
        ensures
            set == self@ is Some,
    {
        self.logger.is_some()
    }

    /// Hands one message of the native layer, with the number of its level,
    /// to the active logger, and to no other. A number that is no level is
    /// an invalid argument and reaches no logger; with no logger registered
    /// the message is dropped.
    pub fn dispatch(&mut self, level: i32, message: &str) -> (r: Status)
        ensures
            match r {
                Ok(()) => LogLevel::of_code(level) is Some && (match old(self)@ {
                    Some(logger) => final(self)@ is Some && logger.took(
                        LogLevel::of_code(level)->Some_0,
                        message,
                    ),
                    None => final(self)@ is None,
                }),
                Err(e) => e == Error::InvalidArg && LogLevel::of_code(level) is None
                    && final(self)@ == old(self)@,
            },
    {
        match LogLevel::from_ffi(level) {
            Some(level) => {
                match &mut self.logger {
                    Some(logger) => {
                        logger.log(level, message);
                    },
                    None => {},
                }
                Ok(())
            },
            None => Err(Error::InvalidArg),
        }
    }

    /// At most one logger is active. Registering a second logger leaves the
    /// slot as if the first had never been registered: the second is the
    /// active one and the first is not in the slot. Resetting leaves it
    /// empty, whatever was registered.
    pub proof fn lemma_single_active_logger(slot: Option<T>, first: T, second: T)
        ensures
            Self::registered(Self::registered(slot, first), second) == Some(second),
            Self::registered(Self::registered(slot, first), second) == Self::registered(
                slot,
                second,
            ),
            Self::cleared(Self::registered(slot, first)) is None,
            Self::cleared(slot) is None,
    {
    }
}

impl<F: Fn(LogLevel, &str)> Log<FnLogger<F>> {
    /// A slot with a function registered in it as logger.
    pub fn from_fn(function: F) -> (log: Self)
        requires
            forall|level: LogLevel, message: &str| call_requires(function, (level, message)),
        ensures
            log@ is Some,
            log@->Some_0@ == function,
    {
        Log::from(FnLogger::new(function))
    }
}

} // verus!
