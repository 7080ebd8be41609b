//! What is written to the console, and when.

use vstd::prelude::*;

use crate::text::concat3;

verus! {

/// How severe a log record is, from the most severe on.
#[derive(Clone, Copy, Debug, PartialEq, Eq, Structural)]
pub enum LogLevel {
    Error,
    Warn,
    Info,
    Debug,
    Trace,
}

impl LogLevel {
    /// The name that a log line begins with.
    pub open spec fn name(self) -> Seq<char> {
        match self {
            LogLevel::Error => "ERROR"@,
            LogLevel::Warn => "WARN"@,
            LogLevel::Info => "INFO"@,
            LogLevel::Debug => "DEBUG"@,
            LogLevel::Trace => "TRACE"@,
        }
    }

    /// The name that a log line begins with.
    pub fn as_str(self) -> (name: &'static str)
        ensures
            name@ == self.name(),
    {
        match self {
            LogLevel::Error => "ERROR",
            LogLevel::Warn => "WARN",
            LogLevel::Info => "INFO",
            LogLevel::Debug => "DEBUG",
            LogLevel::Trace => "TRACE",
        }
    }
}

/// The least severe records that reach a logger at all.
#[derive(Clone, Copy, Debug, PartialEq, Eq, Structural)]
pub enum LevelFilter {
    Info,
    Debug,
}

/// A logger that writes to the console.
#[derive(Clone, Copy, Debug)]
pub struct Logger {
    pub debug: bool,
}

impl Logger {
    /// Whether a record is written: always down to `Info`, `Debug` only when
    /// debugging, `Trace` never.
    pub open spec fn writes(self, level: LogLevel) -> bool {
        match level {
            LogLevel::Error | LogLevel::Warn | LogLevel::Info => true,
            LogLevel::Debug => self.debug,
            LogLevel::Trace => false,
        }
    }

    /// Whether a record of this level is written.
    pub fn enabled(&self, level: LogLevel) -> (enabled: bool)
        ensures
            enabled == self.writes(level),
    {
        match level {
            LogLevel::Error | LogLevel::Warn | LogLevel::Info => true,
            LogLevel::Debug => self.debug,
            LogLevel::Trace => false,
        }
    }

    /// The line to write for a record, if it is written.
    pub fn log(&self, level: LogLevel, args: &str) -> (line: Option<String>)
        ensures
            line is Some <==> self.writes(level),
            line matches Some(line) ==> line@ == level.name() + " RS - "@ + args@,
    {
        if self.enabled(level) {
            Some(concat3(level.as_str(), " RS - ", args))
        } else {
            None
        }
    }
}

/// The filter that belongs to a logger.
pub open spec fn filter_for(debug: bool) -> LevelFilter {
    if debug {
        LevelFilter::Debug
    } else {
        LevelFilter::Info
    }
}

/// What was done about logging in a process so far: the logger that is offered to
/// it, and the filter that was set.
#[derive(Clone, Copy, Debug)]
pub struct Logging {
    pub logger: Option<Logger>,
    pub filter: Option<LevelFilter>,
}

/// The logger to offer: the one that was made first.
pub open spec fn logger_to_offer(before: Logging, debug: bool) -> Logger {
    match before.logger {
        Some(logger) => logger,
        None => Logger { debug },
    }
}

/// How logging stands after an offer. Only the first offer makes a logger, and
/// only an offer that the process accepts sets the filter.
pub open spec fn offered(before: Logging, debug: bool, accepted: bool) -> Logging {
    Logging {
        logger: Some(logger_to_offer(before, debug)),
        filter: if accepted {
            Some(filter_for(debug))
        } else {
            before.filter
        },
    }
}

impl Logging {
    /// How logging stands before anything was offered.
    pub fn untouched() -> (logging: Logging)
        ensures
            logging == (Logging { logger: None, filter: None }),
    {
        Logging { logger: None, filter: None }
    }

    /// The logger to offer: the one that was made first.
    pub fn logger(self, debug: bool) -> (logger: Logger)
        ensures
            logger == logger_to_offer(self, debug),
    {
        match self.logger {
            Some(logger) => logger,
            None => Logger { debug },
        }
    }

    /// Takes whether the process accepted the logger.
    pub fn offer(self, debug: bool, accepted: bool) -> (after: Logging)
        ensures
            after == offered(self, debug, accepted),
    {
        Logging {
            logger: Some(self.logger(debug)),
            filter: if !accepted {
                self.filter
            } else if debug {
                Some(LevelFilter::Debug)
            } else {
                Some(LevelFilter::Info)
            },
        }
    }
}

/// How logging stands after a series of offers, each with whether the process
/// accepted it.
pub open spec fn after_offers(before: Logging, offers: Seq<(bool, bool)>) -> Logging
    decreases offers.len(),
{
    if offers.len() == 0 {
        before
    } else {
        let (debug, accepted) = offers.last();
        offered(after_offers(before, offers.drop_last()), debug, accepted)
    }
}

/// The first logger and its filter stay, whatever later offers ask for: a process
/// accepts one logger.
pub proof fn law_first_logger_stays(offers: Seq<(bool, bool)>)
    requires
        offers.len() > 0,
        offers[0].1,
        forall|i: int| 0 < i < offers.len() ==> !(#[trigger] offers[i]).1,
    ensures
        after_offers(Logging { logger: None, filter: None }, offers) == (Logging {
            logger: Some(Logger { debug: offers[0].0 }),
            filter: Some(
                if offers[0].0 {
                    LevelFilter::Debug
                } else {
                    LevelFilter::Info
                },
            ),
        }),
    decreases offers.len(),
{
    let before = Logging { logger: None, filter: None };
    if offers.len() == 1 {
        assert(offers.drop_last().len() == 0);
        assert(after_offers(before, offers.drop_last()) == before);
    } else {
        law_first_logger_stays(offers.drop_last());
        assert(!offers[offers.len() - 1].1);
    }
}

/// Where a process never accepts the logger, no filter is set.
pub proof fn law_refused_loggers_set_no_filter(offers: Seq<(bool, bool)>)
    requires
        forall|i: int| 0 <= i < offers.len() ==> !(#[trigger] offers[i]).1,
    ensures
        after_offers(Logging { logger: None, filter: None }, offers).filter is None,
    decreases offers.len(),
{
    if offers.len() > 0 {
        law_refused_loggers_set_no_filter(offers.drop_last());
        assert(!offers[offers.len() - 1].1);
    }
}

/// Reports the progress of an installation on the console.
#[derive(Debug, Clone, Copy)]
pub struct ConsoleLogReporter;

impl ConsoleLogReporter {
    /// The line to write when an installation waits for something.
    pub fn on_blocking(&self, message: &str) -> (line: String)
        ensures
            line@ == "Blocking"@ + " "@ + message@,
    {
        concat3("Blocking", " ", message)
    }

    /// The line to write when an installation begins with something.
    pub fn on_initializing(&self, message: &str) -> (line: String)
        ensures
            line@ == "Initialize"@ + " "@ + message@,
    {
        concat3("Initialize", " ", message)
    }
}

/// Debugging adds records and takes none away.
pub proof fn law_debugging_only_adds(level: LogLevel)
    ensures
        (Logger { debug: false }).writes(level) ==> (Logger { debug: true }).writes(level),
        (Logger { debug: true }).writes(level) && !(Logger { debug: false }).writes(level) <==> level
            == LogLevel::Debug,
{
}

/// Errors, warnings and information are always written, details only when
/// debugging, and traces never. What is written is the name of the level, a mark
/// of the library, and the text.
pub proof fn law_what_is_written(logger: Logger, level: LogLevel, args: &str, line: Option<String>)
    requires
        call_ensures(Logger::log, (&logger, level, args), line),
    ensures
        level is Error || level is Warn || level is Info ==> line is Some,
        level is Debug ==> (line is Some <==> logger.debug),
        level is Trace ==> line is None,
        line matches Some(line) ==> {
            &&& level is Error ==> line@ == "ERROR"@ + " RS - "@ + args@
            &&& level is Warn ==> line@ == "WARN"@ + " RS - "@ + args@
            &&& level is Info ==> line@ == "INFO"@ + " RS - "@ + args@
            &&& level is Debug ==> line@ == "DEBUG"@ + " RS - "@ + args@
        },
{
}

/// A logger is enabled for what it writes.
pub proof fn law_enabled_is_written(
    logger: Logger,
    level: LogLevel,
    args: &str,
    enabled: bool,
    line: Option<String>,
)
    requires
        call_ensures(Logger::enabled, (&logger, level), enabled),
        call_ensures(Logger::log, (&logger, level, args), line),
    ensures
        enabled <==> line is Some,
{
}

/// What is reported ends with the message, behind one word and a space.
pub proof fn law_what_is_reported(
    reporter: ConsoleLogReporter,
    message: &str,
    blocking: String,
    initializing: String,
)
    requires
        call_ensures(ConsoleLogReporter::on_blocking, (&reporter, message), blocking),
        call_ensures(ConsoleLogReporter::on_initializing, (&reporter, message), initializing),
    ensures
        blocking@ == "Blocking"@ + " "@ + message@,
        initializing@ == "Initialize"@ + " "@ + message@,
{
}

/// The first offer makes a logger with its own flag, a later one keeps the logger
/// that there is, and an offer that is not accepted changes no filter.
pub proof fn law_an_offer(
    before: Logging,
    debug: bool,
    accepted: bool,
    logger: Logger,
    after: Logging,
)
    requires
        call_ensures(Logging::logger, (before, debug), logger),
        call_ensures(Logging::offer, (before, debug, accepted), after),
    ensures
        after.logger == Some(logger),
        before.logger is None ==> logger.debug == debug,
        before.logger matches Some(first) ==> logger == first,
        !accepted ==> after.filter == before.filter,
        accepted && debug ==> after.filter == Some(LevelFilter::Debug),
        accepted && !debug ==> after.filter == Some(LevelFilter::Info),
{
}

} // verus!
