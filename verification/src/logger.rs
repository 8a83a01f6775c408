//! The activity log: a bounded, ordered record of what the registry did.

use crate::platform::current_millis;
use vstd::prelude::*;

verus! {

/// The most entries the log keeps. A further entry evicts the oldest.
pub const MAX_LOG_ENTRIES: usize = 100;

/// One entry of the log.
#[derive(Debug)]
pub struct LogEntry {
    /// When the entry was made: milliseconds since the start of 1970 (UTC).
    pub timestamp: i64,
    /// What happened.
    pub message: String,
}

/// What an entry says, as a mathematical value.
pub struct LogRecord {
    pub timestamp: i64,
    pub message: Seq<char>,
}

impl View for LogEntry {
    type V = LogRecord;

    open spec fn view(&self) -> LogRecord {
        LogRecord { timestamp: self.timestamp, message: self.message@ }
    }
}

impl Clone for LogEntry {
    fn clone(&self) -> (copy: LogEntry)
        ensures
            copy@ == self@,
    {
        LogEntry { timestamp: self.timestamp, message: self.message.clone() }
    }
}

/// A log after one more entry: the entry stands last, and the oldest entry
/// has left if the log would otherwise exceed [`MAX_LOG_ENTRIES`].
pub open spec fn appended(log: Seq<LogRecord>, entry: LogRecord) -> Seq<LogRecord> {
    let grown = log.push(entry);
    if grown.len() > MAX_LOG_ENTRIES {
        grown.subrange(1, grown.len() as int)
    } else {
        grown
    }
}

/// The last `count` entries of a log in their order, or all of them when
/// the log holds fewer.
pub open spec fn recent(log: Seq<LogRecord>, count: nat) -> Seq<LogRecord> {
    if log.len() > count {
        log.subrange(log.len() - count, log.len() as int)
    } else {
        log
    }
}

/// What a list of entries says, entry by entry.
pub open spec fn records_of(entries: Seq<LogEntry>) -> Seq<LogRecord> {
    entries.map_values(|e: LogEntry| e@)
}

/// The activity log. It only ever grows at its end and never holds more
/// than [`MAX_LOG_ENTRIES`] entries.
#[derive(Debug)]
pub struct Logger {
    log_entries: Vec<LogEntry>,
}

impl View for Logger {
    type V = Seq<LogRecord>;

    /// The entries, oldest first.
    closed spec fn view(&self) -> Seq<LogRecord> {
        records_of(self.log_entries@)
    }
}

impl Clone for Logger {
    /// A log of its own with the same entries.
    fn clone(&self) -> (copy: Logger)
        ensures
            copy@ == self@,
    {
        proof {
            use_type_invariant(self);
        }
        let mut entries: Vec<LogEntry> = Vec::new();
        let mut i: usize = 0;
        while i < self.log_entries.len()
            invariant
                i <= self.log_entries@.len(),
                entries@.len() == i,
                forall|k: int| 0 <= k < i ==> (#[trigger] entries@[k])@ == self.log_entries@[k]@,
            decreases self.log_entries@.len() - i,
        {
            entries.push(self.log_entries[i].clone());
            i = i + 1;
        }
        let copy = Logger { log_entries: entries };
        assert(copy@ =~= self@);
        copy
    }
}

impl Logger {
    #[verifier::type_invariant]
    spec fn bounded(self) -> bool {
        self.log_entries@.len() <= MAX_LOG_ENTRIES
    }

    /// An empty log.
    pub fn new() -> (log: Logger)
        ensures
            log@ == Seq::<LogRecord>::empty(),
    {
        let log = Logger { log_entries: Vec::new() };
        assert(log@ =~= Seq::<LogRecord>::empty());
        log
    }

    /// Appends `message` with the given time.
    pub fn log_at(&mut self, timestamp: i64, message: String)
        ensures
            final(self)@ == appended(old(self)@, LogRecord { timestamp, message: message@ }),
            final(self)@.len() <= MAX_LOG_ENTRIES,
    {
        proof {
            use_type_invariant(&*self);
        }
        let entry = LogEntry { timestamp, message };
        let ghost record = entry@;
        let mut entries: Vec<LogEntry> = Vec::new();
        core::mem::swap(&mut self.log_entries, &mut entries);
        entries.push(entry);
        if entries.len() > MAX_LOG_ENTRIES {
            entries.remove(0);
        }
        core::mem::swap(&mut self.log_entries, &mut entries);
        assert(self@ =~= appended(old(self)@, record));
    }

    /// Appends `message` with the time of the wall clock and returns that
    /// time.
    pub fn log(&mut self, message: String) -> (timestamp: i64)
        ensures
            final(self)@ == appended(old(self)@, LogRecord { timestamp, message: message@ }),
            final(self)@.len() <= MAX_LOG_ENTRIES,
    {
        let timestamp = current_millis();
        self.log_at(timestamp, message);
        timestamp
    }

    /// The last `count` entries, oldest first.
    pub fn get_recent_logs(&self, count: usize) -> (entries: Vec<LogEntry>)
        ensures
            records_of(entries@) == recent(self@, count as nat),
            entries@.len() == recent(self@, count as nat).len(),
            forall|i: int|
                0 <= i < entries@.len() ==> (#[trigger] entries@[i])@ == recent(
                    self@,
                    count as nat,
                )[i],
    {
        let len = self.log_entries.len();
        let start = if len > count {
            len - count
        } else {
            0
        };
        let mut entries: Vec<LogEntry> = Vec::new();
        let mut i = start;
        while i < len
            invariant
                start <= i <= len,
                len == self.log_entries@.len(),
                entries@.len() == i - start,
                forall|k: int| 0 <= k < i - start ==> (#[trigger] entries@[k])@ == self@[start + k],
            decreases len - i,
        {
            entries.push(self.log_entries[i].clone());
            i = i + 1;
        }
        assert(records_of(entries@) =~= recent(self@, count as nat));
        entries
    }

    /// The number of entries the log holds.
    pub fn len(&self) -> (n: usize)
        ensures
            n == self@.len(),
            n <= MAX_LOG_ENTRIES,
    {
        proof {
            use_type_invariant(self);
        }
        self.log_entries.len()
    }
}

} // verus!
