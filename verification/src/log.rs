//! The console's message log: the latest messages, oldest first, with a
//! message that is repeated counted instead of listed again.

use vstd::prelude::*;
use vstd::string::StringExecFns;
use std::collections::VecDeque;
use crate::constants::MAX_LOG_ENTRIES;
use crate::text::{natural_text, push_natural};

verus! {

/// How much a message matters.
#[derive(Clone, Copy, Debug, PartialEq, Eq, Structural, PartialOrd, Ord)]
pub enum LogLevel {
    Info,
    Warning,
    Error,
}

/// The colour in which a level is shown.
#[derive(Clone, Copy, Debug, PartialEq, Eq, Structural)]
pub enum LevelColor {
    Green,
    Yellow,
    Red,
}

impl LogLevel {
    /// Whether a message of this level opens the log popup by itself:
    /// warnings and errors do.
    pub open spec fn spec_should_show_popup(self) -> bool {
        self != LogLevel::Info
    }

    /// The tag that precedes a message of this level.
    pub open spec fn spec_prefix(self) -> Seq<char> {
        match self {
            LogLevel::Info => "[INFO]"@,
            LogLevel::Warning => "[WARN]"@,
            LogLevel::Error => "[ERROR]"@,
        }
    }

    /// Whether a message of this level opens the log popup by itself:
    /// warnings and errors do.
    pub fn should_show_popup(self) -> (show: bool)
        ensures
            show == self.spec_should_show_popup(),
    {
        match self {
            LogLevel::Info => false,
            LogLevel::Warning => true,
            LogLevel::Error => true,
        }
    }

    /// The colour in which this level is shown.
    pub fn color(self) -> (color: LevelColor)
        ensures
            color == match self {
                LogLevel::Info => LevelColor::Green,
                LogLevel::Warning => LevelColor::Yellow,
                LogLevel::Error => LevelColor::Red,
            },
    {
        match self {
            LogLevel::Info => LevelColor::Green,
            LogLevel::Warning => LevelColor::Yellow,
            LogLevel::Error => LevelColor::Red,
        }
    }

    /// The tag that precedes a message of this level.
    pub fn prefix(self) -> (tag: &'static str)
        ensures
            tag@ == self.spec_prefix(),
    {
        match self {
            LogLevel::Info => "[INFO]",
            LogLevel::Warning => "[WARN]",
            LogLevel::Error => "[ERROR]",
        }
    }
}

/// The local time of day as text, hours, minutes and seconds, as
/// `chrono::Local::now` and its `format` give it for `%H:%M:%S`. The text
/// depends on the machine's clock and time zone, so nothing is claimed of it.
#[verifier::external_body]
fn clock_text() -> (text: String) {
    chrono::Local::now().format("%H:%M:%S").to_string()
}

/// One line of the log.
#[derive(Debug)]
pub struct LogEntry {
    pub message: String,
    pub count: u32,
    pub timestamp: String,
    pub level: LogLevel,
}

impl Clone for LogEntry {
    fn clone(&self) -> (copy: Self)
        ensures
            copy == *self,
    {
        LogEntry {
            message: self.message.clone(),
            count: self.count,
            timestamp: self.timestamp.clone(),
            level: self.level,
        }
    }
}

impl LogEntry {
    /// The message as the log shows it: followed by its count in the form
    /// ` (x3)` where it came more than once.
    pub open spec fn spec_with_count(&self) -> Seq<char> {
        if self.count > 1 {
            self.message@ + " (x"@ + natural_text(self.count as nat) + ")"@
        } else {
            self.message@
        }
    }

    /// A first occurrence of a message, stamped with the time of day.
    pub fn new(message: String, level: LogLevel) -> (entry: Self)
        ensures
            entry.message == message,
            entry.count == 1,
            entry.level == level,
    {
        LogEntry { message, count: 1, timestamp: clock_text(), level }
    }

    /// An entry with every part given.
    pub fn with_timestamp(message: String, level: LogLevel, timestamp: String, count: u32) -> (entry:
        Self)
        ensures
            entry.message == message,
            entry.count == count,
            entry.timestamp == timestamp,
            entry.level == level,
    {
        LogEntry { message, count, timestamp, level }
    }

    /// The message as the log shows it: followed by its count in the form
    /// ` (x3)` where it came more than once.
    pub fn with_count(&self) -> (text: String)
        ensures
            text@ == self.spec_with_count(),
    {
        let mut text = self.message.clone();
        if self.count > 1 {
            text.append(" (x");
            push_natural(&mut text, self.count);
            text.append(")");
        }
        text
    }
}

/// The log: at most fifty entries, oldest first.
pub struct LogQueue {
    entries: VecDeque<LogEntry>,
    has_new_important: bool,
}

impl LogQueue {
    /// The entries, oldest first.
    pub closed spec fn spec_entries(&self) -> Seq<LogEntry> {
        self.entries@
    }

    /// Whether a warning or an error has come in since the flag was last
    /// cleared.
    pub closed spec fn spec_important(&self) -> bool {
        self.has_new_important
    }

    /// The log holds no more entries than it may.
    pub open spec fn wf(&self) -> bool {
        self.spec_entries().len() <= MAX_LOG_ENTRIES
    }

    /// Whether a message repeats the latest entry: same text, same level.
    pub open spec fn repeats_last(&self, message: Seq<char>, level: LogLevel) -> bool {
        &&& self.spec_entries().len() > 0
        &&& self.spec_entries().last().message@ == message
        &&& self.spec_entries().last().level == level
    }

    /// `post` is `pre` after a message was logged. One that repeats the
    /// latest entry raised that entry's count by one and left all else as it
    /// was. Any other became a new latest entry of count one behind the
    /// entries there were, of which the oldest left where the log was full.
    /// A warning or an error raised the flag; information left it.
    pub open spec fn added(pre: &LogQueue, post: &LogQueue, message: String, level: LogLevel) -> bool {
        &&& post.spec_important() == (pre.spec_important() || level.spec_should_show_popup())
        &&& if pre.repeats_last(message@, level) {
            let last = pre.spec_entries().last();
            &&& post.spec_entries().len() == pre.spec_entries().len()
            &&& post.spec_entries().drop_last() == pre.spec_entries().drop_last()
            &&& post.spec_entries().last() == (LogEntry { count: (last.count + 1) as u32, ..last })
        } else {
            let kept = if pre.spec_entries().len() == MAX_LOG_ENTRIES {
                pre.spec_entries().drop_first()
            } else {
                pre.spec_entries()
            };
            &&& post.spec_entries().len() == kept.len() + 1
            &&& post.spec_entries().drop_last() == kept
            &&& post.spec_entries().last().message == message
            &&& post.spec_entries().last().count == 1
            &&& post.spec_entries().last().level == level
        }
    }

    /// An empty log.
    pub fn new() -> (log: Self)
        ensures
            log.wf(),
            log.spec_entries().len() == 0,
            !log.spec_important(),
    {
        LogQueue { entries: VecDeque::with_capacity(MAX_LOG_ENTRIES), has_new_important: false }
    }

    /// Logs a message. One that repeats the latest entry raises that entry's
    /// count; any other becomes a new entry of count one, and where the log
    /// is full the oldest entry leaves. A warning or an error raises the
    /// flag.
    pub fn add(&mut self, message: String, level: LogLevel)
        requires
            old(self).wf(),
            old(self).repeats_last(message@, level) ==> old(self).spec_entries().last().count
                < u32::MAX,
        ensures
            final(self).wf(),
            Self::added(old(self), final(self), message, level),
    {
        let important = level.should_show_popup();
        match self.entries.pop_back() {
            Some(mut last) => {
                if last.message == message && last.level == level {
                    last.count = last.count + 1;
                    self.entries.push_back(last);
                    if important {
                        self.has_new_important = true;
                    }
                    proof {
                        let before = old(self).spec_entries();
                        let after = self.entries@;
                        assert(after.drop_last() =~= before.drop_last());
                    }
                    return ;
                }
                self.entries.push_back(last);
                assert(self.entries@ =~= old(self).spec_entries());
            },
            None => {},
        }
        self.entries.push_back(LogEntry::new(message, level));
        if important {
            self.has_new_important = true;
        }
        let ghost grown = self.entries@;
        while self.entries.len() > MAX_LOG_ENTRIES
            invariant
                grown.len() <= MAX_LOG_ENTRIES + 1,
                self.entries@ == if grown.len() > MAX_LOG_ENTRIES && self.entries@.len()
                    <= MAX_LOG_ENTRIES {
                    grown.drop_first()
                } else {
                    grown
                },
                self.has_new_important == (old(self).spec_important()
                    || level.spec_should_show_popup()),
            decreases self.entries@.len(),
        {
            let _ = self.entries.pop_front();
            assert(self.entries@ =~= grown.drop_first());
        }
        proof {
            let before = old(self).spec_entries();
            assert(grown == before.push(grown.last()));
            if before.len() == MAX_LOG_ENTRIES {
                assert(self.entries@.drop_last() =~= before.drop_first());
            } else {
                assert(self.entries@.drop_last() =~= before);
            }
        }
    }

    /// Logs a piece of information.
    pub fn info(&mut self, message: String)
        requires
            old(self).wf(),
            old(self).repeats_last(message@, LogLevel::Info) ==> old(
                self,
            ).spec_entries().last().count < u32::MAX,
        ensures
            final(self).wf(),
            Self::added(old(self), final(self), message, LogLevel::Info),
    {
        self.add(message, LogLevel::Info);
    }

    /// Logs a warning.
    pub fn warn(&mut self, message: String)
        requires
            old(self).wf(),
            old(self).repeats_last(message@, LogLevel::Warning) ==> old(
                self,
            ).spec_entries().last().count < u32::MAX,
        ensures
            final(self).wf(),
            Self::added(old(self), final(self), message, LogLevel::Warning),
    {
        self.add(message, LogLevel::Warning);
    }

    /// Logs an error.
    pub fn error(&mut self, message: String)
        requires
            old(self).wf(),
            old(self).repeats_last(message@, LogLevel::Error) ==> old(
                self,
            ).spec_entries().last().count < u32::MAX,
        ensures
            final(self).wf(),
            Self::added(old(self), final(self), message, LogLevel::Error),
    {
        self.add(message, LogLevel::Error);
    }

    /// A copy of the entries, oldest first.
    pub fn entries(&self) -> (list: Vec<LogEntry>)
        ensures
            list@ == self.spec_entries(),
    {
        let mut list: Vec<LogEntry> = Vec::new();
        let mut i: usize = 0;
        while i < self.entries.len()
            invariant
                0 <= i <= self.entries@.len(),
                list@ == self.entries@.subrange(0, i as int),
            decreases self.entries@.len() - i,
        {
            list.push(self.entries[i].clone());
            i += 1;
            assert(list@ =~= self.entries@.subrange(0, i as int));
        }
        assert(list@ =~= self.entries@);
        list
    }

    /// Whether a warning or an error has come in since the flag was last
    /// cleared.
    pub fn has_new_important(&self) -> (flag: bool)
        ensures
            flag == self.spec_important(),
    {
        self.has_new_important
    }

    /// Clears the flag that warnings and errors raise.
    pub fn clear_important_flag(&mut self)
        ensures
            !final(self).spec_important(),
            final(self).spec_entries() == old(self).spec_entries(),
    {
        self.has_new_important = false;
    }

    /// Empties the log and clears the flag.
    pub fn clear(&mut self)
        ensures
            final(self).wf(),
            final(self).spec_entries().len() == 0,
            !final(self).spec_important(),
    {
        self.entries.clear();
        self.has_new_important = false;
    }

    /// Number of entries.
    pub fn len(&self) -> (n: usize)
        ensures
            n == self.spec_entries().len(),
    {
        self.entries.len()
    }
}

impl Default for LogQueue {
    /// An empty log.
    fn default() -> (log: Self)
        ensures
            log.wf(),
            log.spec_entries().len() == 0,
            !log.spec_important(),
    {
        LogQueue::new()
    }
}

} // verus!
