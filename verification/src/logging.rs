//! The in-memory log: a bounded ring of recent records the log pane shows.
//! Writing to a logging facade and to stderr is the application's part;
//! this holds the buffer itself and what it retains.

use std::collections::VecDeque;
use vstd::prelude::*;

verus! {

/// How many records the buffer retains.
pub const LOG_RETAIN: usize = 200;

/// Severity of a record.
#[derive(Clone, Copy, PartialEq, Eq, Structural, Debug)]
pub enum LogLevel {
    Error,
    Warn,
    Info,
    Debug,
    Trace,
}

/// The name a record's severity prints as.
pub open spec fn spec_level_name(l: LogLevel) -> Seq<char> {
    match l {
        LogLevel::Error => "ERROR"@,
        LogLevel::Warn => "WARN"@,
        LogLevel::Info => "INFO"@,
        LogLevel::Debug => "DEBUG"@,
        LogLevel::Trace => "TRACE"@,
    }
}

pub fn level_name(level: &LogLevel) -> (r: &'static str)
    ensures
        r@ == spec_level_name(*level),
{
    match level {
        LogLevel::Error => "ERROR",
        LogLevel::Warn => "WARN",
        LogLevel::Info => "INFO",
        LogLevel::Debug => "DEBUG",
        LogLevel::Trace => "TRACE",
    }
}

/// One log record: severity, the component it came from, and the message.
pub struct LogRecord {
    pub level: LogLevel,
    pub target: String,
    pub message: String,
}

/// Two records with the same severity and the same text.
pub open spec fn record_like(a: LogRecord, b: LogRecord) -> bool {
    &&& a.level == b.level
    &&& a.target@ == b.target@
    &&& a.message@ == b.message@
}

impl Clone for LogRecord {
    fn clone(&self) -> (r: Self)
        ensures
            record_like(r, *self),
    {
        LogRecord {
            level: self.level,
            target: self.target.clone(),
            message: self.message.clone(),
        }
    }
}

impl LogRecord {
    /// The one-line form of the record: severity, target, message.
    pub fn display_line(&self) -> (r: String)
        ensures
            r@ == spec_level_name(self.level) + " ["@ + self.target@ + "] "@ + self.message@,
    {
        let mut r = level_name(&self.level).to_owned();
        crate::text::string_push_str(&mut r, " [");
        crate::text::string_push_str(&mut r, self.target.as_str());
        crate::text::string_push_str(&mut r, "] ");
        crate::text::string_push_str(&mut r, self.message.as_str());
        proof {
            assert(r@ =~= spec_level_name(self.level) + " ["@ + self.target@ + "] "@
                + self.message@);
        }
        r
    }
}

/// The bounded ring of recent records: pushing past the retention bound
/// drops the oldest.
pub struct LogBuffer {
    pub buffer: VecDeque<LogRecord>,
}

impl LogBuffer {
    /// The buffer never holds more than the retention bound.
    pub open spec fn wf(self) -> bool {
        self.buffer@.len() <= LOG_RETAIN
    }

    pub fn new() -> (r: LogBuffer)
        ensures
            r.buffer@.len() == 0,
            r.wf(),
    {
        LogBuffer { buffer: VecDeque::new() }
    }

    /// Append a record; when the buffer is full the oldest record leaves.
    pub fn push(&mut self, record: LogRecord)
        requires
            old(self).wf(),
        ensures
            final(self).buffer@ == if old(self).buffer@.len() < LOG_RETAIN {
                old(self).buffer@.push(record)
            } else {
                old(self).buffer@.drop_first().push(record)
            },
            final(self).wf(),
    {
        self.buffer.push_back(record);
        if self.buffer.len() > LOG_RETAIN {
            self.buffer.pop_front();
        }
    }

    /// The newest `n` records, oldest first.
    pub fn last_n(&self, n: usize) -> (r: Vec<LogRecord>)
        ensures
            r@.len() == vstd::math::min(n as int, self.buffer@.len() as int),
            forall|k: int|
                0 <= k < r@.len() ==> record_like(
                    #[trigger] r@[k],
                    self.buffer@[self.buffer@.len() - r@.len() + k],
                ),
    {
        let len = self.buffer.len();
        let m = if n < len {
            n
        } else {
            len
        };
        let start = len - m;
        let mut r: Vec<LogRecord> = Vec::new();
        let mut i: usize = 0;
        while i < m
            invariant
                m <= len,
                len == self.buffer@.len(),
                start == len - m,
                i <= m,
                r@.len() == i,
                forall|k: int|
                    0 <= k < i ==> record_like(#[trigger] r@[k], self.buffer@[start + k]),
            decreases m - i,
        {
            r.push(self.buffer[start + i].clone());
            i = i + 1;
        }
        r
    }
}

/// The newest `n` records of the buffer, oldest first.
pub fn last_n_records(buffer: &LogBuffer, n: usize) -> (r: Vec<LogRecord>)
    ensures
        r@.len() == vstd::math::min(n as int, buffer.buffer@.len() as int),
        forall|k: int|
            0 <= k < r@.len() ==> record_like(
                #[trigger] r@[k],
                buffer.buffer@[buffer.buffer@.len() - r@.len() + k],
            ),
{
    buffer.last_n(n)
}

} // verus!
