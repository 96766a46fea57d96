use vstd::prelude::*;

verus! {

/// Severity of a log message; a message is emitted when the weight of its
/// level reaches the logger's threshold.
#[derive(Clone, Copy, Debug, PartialEq, Eq, Structural)]
pub enum LogLevel {
    Trace,
    Debug,
    Info,
    Warning,
    Error,
    Fatal,
}

impl LogLevel {
    pub open spec fn spec_weight(self) -> u8 {
        match self {
            LogLevel::Trace => 1,
            LogLevel::Debug => 5,
            LogLevel::Info => 15,
            LogLevel::Warning => 50,
            LogLevel::Error => 100,
            LogLevel::Fatal => 255,
        }
    }

    /// The weight of the level: 1, 5, 15, 50, 100 and 255 from `Trace` to
    /// `Fatal`.
    pub fn weight(self) -> (w: u8)
        ensures
            w == self.spec_weight(),
    {
        match self {
            LogLevel::Trace => 1,
            LogLevel::Debug => 5,
            LogLevel::Info => 15,
            LogLevel::Warning => 50,
            LogLevel::Error => 100,
            LogLevel::Fatal => 255,
        }
    }
}

/// The level that a lower-case level name stands for.
pub open spec fn level_named(name: Seq<char>) -> Option<LogLevel> {
    if name == "trace"@ {
        Some(LogLevel::Trace)
    } else if name == "debug"@ {
        Some(LogLevel::Debug)
    } else if name == "info"@ {
        Some(LogLevel::Info)
    } else if name == "warning"@ || name == "warn"@ {
        Some(LogLevel::Warning)
    } else if name == "error"@ {
        Some(LogLevel::Error)
    } else if name == "fatal"@ {
        Some(LogLevel::Fatal)
    } else {
        None
    }
}

/// The text that `str::to_lowercase` makes of `s`.
pub uninterp spec fn lowercase(s: Seq<char>) -> Seq<char>;

/// Calls `str::to_lowercase`. Trusted: the result is `lowercase(s)`, a
/// function of the text alone (Unicode's lower-case mapping, which the
/// contract does not spell out).
#[verifier::external_body]
fn to_lowercase(s: &str) -> (lower: String)
    ensures
        lower@ == lowercase(s@),
{
    s.to_lowercase()
}

fn text_is(s: &String, literal: &str) -> (b: bool)
    ensures
        b == (s@ == literal@),
{
    let t = literal.to_owned();
    *s == t
}

/// The level named by a lower-case name, as `level_named` gives it.
pub fn level_from_lowercase(name: &str) -> (level: Option<LogLevel>)
    ensures
        level == level_named(name@),
{
    let name = name.to_owned();
    if text_is(&name, "trace") {
        Some(LogLevel::Trace)
    } else if text_is(&name, "debug") {
        Some(LogLevel::Debug)
    } else if text_is(&name, "info") {
        Some(LogLevel::Info)
    } else if text_is(&name, "warning") || text_is(&name, "warn") {
        Some(LogLevel::Warning)
    } else if text_is(&name, "error") {
        Some(LogLevel::Error)
    } else if text_is(&name, "fatal") {
        Some(LogLevel::Fatal)
    } else {
        None
    }
}

/// The level named by `level`, whatever its case.
pub fn string_to_log_level(level: &str) -> (res: Option<LogLevel>)
    ensures
        res == level_named(lowercase(level@)),
{
    let lower = to_lowercase(level);
    level_from_lowercase(lower.as_str())
}

/// A message to emit, at its level.
#[derive(Debug)]
pub struct LogLine {
    pub level: LogLevel,
    pub message: String,
}

/// Decides which messages are emitted: those whose level weighs at least
/// the threshold.
#[derive(Debug)]
pub struct Logger {
    log_level_weight: u8,
}

impl Logger {
    pub closed spec fn threshold(self) -> u8 {
        self.log_level_weight
    }

    /// A logger that emits messages of `log_level` and above.
    pub fn new(log_level: LogLevel) -> (logger: Logger)
        ensures
            logger.threshold() == log_level.spec_weight(),
    {
        Logger { log_level_weight: log_level.weight() }
    }

    /// The threshold weight.
    pub fn level_weight(&self) -> (w: u8)
        ensures
            w == self.threshold(),
    {
        self.log_level_weight
    }

    /// Whether a message of `level` is emitted.
    pub fn enabled(&self, level: LogLevel) -> (b: bool)
        ensures
            b == (level.spec_weight() >= self.threshold()),
    {
        level.weight() >= self.log_level_weight
    }

    /// The line to emit for `message` at `level`, if the level is enabled.
    pub open spec fn emits(self, level: LogLevel, message: &str, line: Option<LogLine>) -> bool {
        if level.spec_weight() >= self.threshold() {
            line matches Some(l) && l.level == level && l.message@ == message@
        } else {
            line is None
        }
    }

    fn log(&self, level: LogLevel, message: &str) -> (line: Option<LogLine>)
        ensures
            self.emits(level, message, line),
    {
        if self.enabled(level) {
            Some(LogLine { level, message: message.to_owned() })
        } else {
            None
        }
    }

    /// A fatal message is emitted whatever the threshold; the caller then
    /// ends the process.
    pub fn fatal(&self, message: &str) -> (line: Option<LogLine>)
        ensures
            self.emits(LogLevel::Fatal, message, line),
            line is Some,
    {
        self.log(LogLevel::Fatal, message)
    }

    pub fn log_error(&self, message: &str) -> (line: Option<LogLine>)
        ensures
            self.emits(LogLevel::Error, message, line),
    {
        self.log(LogLevel::Error, message)
    }

    pub fn log_warn(&self, message: &str) -> (line: Option<LogLine>)
        ensures
            self.emits(LogLevel::Warning, message, line),
    {
        self.log(LogLevel::Warning, message)
    }

    pub fn log_info(&self, message: &str) -> (line: Option<LogLine>)
        ensures
            self.emits(LogLevel::Info, message, line),
    {
        self.log(LogLevel::Info, message)
    }

    pub fn log_debug(&self, message: &str) -> (line: Option<LogLine>)
        ensures
            self.emits(LogLevel::Debug, message, line),
    {
        self.log(LogLevel::Debug, message)
    }

    pub fn log_trace(&self, message: &str) -> (line: Option<LogLine>)
        ensures
            self.emits(LogLevel::Trace, message, line),
    {
        self.log(LogLevel::Trace, message)
    }
}

/// The logger a process starts with.
pub fn init(log_level: LogLevel) -> (logger: Logger)
    ensures
        logger.threshold() == log_level.spec_weight(),
{
    Logger::new(log_level)
}

/// Whether `logger` emits messages of `level`.
pub fn should_log(logger: &Logger, level: LogLevel) -> (b: bool)
    ensures
        b == (level.spec_weight() >= logger.threshold()),
{
    logger.enabled(level)
}

/// Sets the threshold to the level that `level_str` names, whatever its
/// case; an unknown name sets `Info`.
pub fn set_log_level(logger: &mut Logger, level_str: &str)
    ensures
        final(logger).threshold() == (match level_named(lowercase(level_str@)) {
            Some(l) => l,
            None => LogLevel::Info,
        }).spec_weight(),
{
    let level = match string_to_log_level(level_str) {
        Some(lvl) => lvl,
        None => LogLevel::Info,
    };
    logger.log_level_weight = level.weight();
}

/// The lower-case name of a level as configuration spells it.
pub open spec fn canonical_name(level: LogLevel) -> Seq<char> {
    match level {
        LogLevel::Trace => "trace"@,
        LogLevel::Debug => "debug"@,
        LogLevel::Info => "info"@,
        LogLevel::Warning => "warning"@,
        LogLevel::Error => "error"@,
        LogLevel::Fatal => "fatal"@,
    }
}

/// Each level's name reads back as that level.
pub proof fn lemma_level_names_round_trip(level: LogLevel)
    ensures
        level_named(canonical_name(level)) == Some(level),
{
    reveal_strlit("trace");
    reveal_strlit("debug");
    reveal_strlit("info");
    reveal_strlit("warning");
    reveal_strlit("warn");
    reveal_strlit("error");
    reveal_strlit("fatal");
    let names = seq!["trace"@, "debug"@, "info"@, "warning"@, "warn"@, "error"@, "fatal"@];
    assert forall|i: int, j: int| 0 <= i < j < 7 implies #[trigger] names[i] != #[trigger] names[j]
    by {
        if names[i].len() == names[j].len() {
            assert(names[i][0] != names[j][0]);
        }
    }
}

/// A logger that emits a level emits every heavier level too.
pub proof fn lemma_heavier_levels_emitted(logger: Logger, lighter: LogLevel, heavier: LogLevel)
    requires
        lighter.spec_weight() <= heavier.spec_weight(),
        lighter.spec_weight() >= logger.threshold(),
    ensures
        heavier.spec_weight() >= logger.threshold(),
{
}

/// Fatal messages are emitted whatever the threshold.
pub proof fn lemma_fatal_always_emitted(logger: Logger)
    ensures
        LogLevel::Fatal.spec_weight() >= logger.threshold(),
{
}

/// The levels weigh strictly more from `Trace` to `Fatal`.
pub proof fn lemma_weights_increase()
    ensures
        LogLevel::Trace.spec_weight() < LogLevel::Debug.spec_weight(),
        LogLevel::Debug.spec_weight() < LogLevel::Info.spec_weight(),
        LogLevel::Info.spec_weight() < LogLevel::Warning.spec_weight(),
        LogLevel::Warning.spec_weight() < LogLevel::Error.spec_weight(),
        LogLevel::Error.spec_weight() < LogLevel::Fatal.spec_weight(),
{
}

} // verus!
