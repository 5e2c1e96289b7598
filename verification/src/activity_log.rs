//! The activity log: what happened, in the order it happened.

use vstd::prelude::*;
use vstd::string::StringExecFns;

verus! {

/// One line of the log.
#[derive(Clone, Debug, PartialEq, Eq)]
pub struct LogEntry {
    pub message: String,
}

/// The messages of a sequence of entries.
pub open spec fn messages_of(entries: Seq<LogEntry>) -> Seq<Seq<char>> {
    entries.map_values(|entry: LogEntry| entry.message@)
}

/// An append-only sequence of entries. Its view is the messages, oldest
/// first.
#[derive(Clone, Debug)]
pub struct ActivityLog {
    entries: Vec<LogEntry>,
}

impl View for ActivityLog {
    type V = Seq<Seq<char>>;

    closed spec fn view(&self) -> Seq<Seq<char>> {
        messages_of(self.entries@)
    }
}

impl ActivityLog {
    /// A log with nothing in it.
    pub fn new() -> (log: ActivityLog)
        ensures
            log@ == Seq::<Seq<char>>::empty(),
    {
        ActivityLog { entries: Vec::new() }
    }

    /// Appends a message: what was logged before stays, in its order, and the
    /// new message comes last.
    pub fn log(&mut self, text: &str)
        ensures
            final(self)@ == old(self)@.push(text@),
    {
        self.entries.push(LogEntry { message: String::from_str(text) });
        proof {
            assert(messages_of(self.entries@) =~= messages_of(old(self).entries@).push(text@));
        }
    }

    /// How many entries the log holds.
    pub fn len(&self) -> (n: usize)
        ensures
            n == self@.len(),
    {
        self.entries.len()
    }

    /// Whether nothing has been logged yet.
    pub fn is_empty(&self) -> (b: bool)
        ensures
            b == (self@.len() == 0),
    {
        self.entries.len() == 0
    }

    /// The entries, oldest first.
    pub fn entries(&self) -> (entries: &Vec<LogEntry>)
        ensures
            messages_of(entries@) == self@,
    {
        &self.entries
    }

    /// The entry at place `index`, counted from the oldest.
    pub fn get(&self, index: usize) -> (entry: Option<&LogEntry>)
        ensures
            entry.is_some() == (index < self@.len()),
            entry matches Some(e) ==> e.message@ == self@[index as int],
    {
        if index < self.entries.len() {
            Some(&self.entries[index])
        } else {
            None
        }
    }

    /// The newest entry.
    pub fn last(&self) -> (entry: Option<&LogEntry>)
        ensures
            entry.is_some() == (self@.len() > 0),
            entry matches Some(e) ==> e.message@ == self@.last(),
    {
        let n = self.entries.len();
        if n > 0 {
            Some(&self.entries[n - 1])
        } else {
            None
        }
    }
}

/// Logging never disturbs what is in the log: after a message is appended
/// every earlier entry is where it was, and the log is one longer.
pub proof fn lemma_log_is_append_only(before: Seq<Seq<char>>, message: Seq<char>)
    ensures
        before.push(message).len() == before.len() + 1,
        before.push(message).last() == message,
        forall|i: int| 0 <= i < before.len() ==> #[trigger] before.push(message)[i] == before[i],
{
}

} // verus!
