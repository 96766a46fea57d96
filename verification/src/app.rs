use vstd::prelude::*;

use crate::infrastructure::logger::{LogLine, Logger};

verus! {

/// The application shell.
#[derive(Debug)]
pub struct App;

impl App {
    pub fn new() -> (app: Self) {
        App
    }

    /// Announces that the application runs: an info line, when `logger`
    /// emits info.
    pub fn run(&self, logger: &Logger) -> (line: Option<LogLine>)
        ensures
            logger.emits(crate::infrastructure::logger::LogLevel::Info, "App is running", line),
    {
        logger.log_info("App is running")
    }
}

} // verus!
