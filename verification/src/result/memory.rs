//! A logger that keeps what it is given.

use crate::error::{messages, texts, CausalError};
use crate::result::{Level, Log};
use vstd::prelude::*;

verus! {

/// One call of a logger: the level, the message, and the messages of the
/// error and of its causes.
#[derive(Debug)]
pub struct Record {
    pub level: Level,
    pub message: String,
    pub chain: Vec<String>,
}

impl View for Record {
    type V = (Level, Seq<char>, Seq<Seq<char>>);

    open spec fn view(&self) -> (Level, Seq<char>, Seq<Seq<char>>) {
        (self.level, self.message@, texts(self.chain@))
    }
}

/// A logger that keeps every record in memory, in the order of the calls.
#[derive(Debug)]
pub struct MemoryLogger {
    records: Vec<Record>,
}

impl View for MemoryLogger {
    type V = Seq<(Level, Seq<char>, Seq<Seq<char>>)>;

    closed spec fn view(&self) -> Seq<(Level, Seq<char>, Seq<Seq<char>>)> {
        self.records@.map_values(|record: Record| record@)
    }
}

impl MemoryLogger {
    /// A logger that has seen nothing yet.
    pub fn new() -> (logger: Self)
        ensures
            logger@ == Seq::<(Level, Seq<char>, Seq<Seq<char>>)>::empty(),
    {
        let logger = MemoryLogger { records: Vec::new() };
        assert(logger@ =~= Seq::<(Level, Seq<char>, Seq<Seq<char>>)>::empty());
        logger
    }

    /// What the logger has been given so far.
    pub fn records(&self) -> (records: &Vec<Record>)
        ensures
            records@.map_values(|record: Record| record@) == self@,
    {
        &self.records
    }

    fn keep<E: CausalError>(&mut self, level: Level, message: &str, error: &E)
        ensures
            final(self)@ == old(self)@.push((level, message@, error.chain())),
    {
        let record = Record { level, message: message.to_owned(), chain: messages(error) };
        self.records.push(record);
        assert(self@ =~= old(self)@.push((level, message@, error.chain())));
    }
}

impl Log for MemoryLogger {
    /// One call adds one record, at the end.
    open spec fn observes(
        &self,
        after: &Self,
        level: Level,
        message: Seq<char>,
        chain: Seq<Seq<char>>,
    ) -> bool {
        after@ == self@.push((level, message, chain))
    }

    fn log_error<E: CausalError>(&mut self, message: &str, error: &E) {
        self.keep(Level::Error, message, error);
    }

    fn log_warning<E: CausalError>(&mut self, message: &str, error: &E) {
        self.keep(Level::Warning, message, error);
    }

    fn log_info<E: CausalError>(&mut self, message: &str, error: &E) {
        self.keep(Level::Info, message, error);
    }

    fn log_debug<E: CausalError>(&mut self, message: &str, error: &E) {
        self.keep(Level::Debug, message, error);
    }

    fn log_trace<E: CausalError>(&mut self, message: &str, error: &E) {
        self.keep(Level::Trace, message, error);
    }
}

} // verus!
