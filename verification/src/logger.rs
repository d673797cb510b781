//! The diagnostic log of a session: tagged messages, kept in the order in
//! which they were written.

use vstd::prelude::*;
use vstd::string::*;
use crate::text::texts;

verus! {

/// An append-only list of tagged messages.
pub struct Logger {
    logs: Vec<String>,
}

impl View for Logger {
    type V = Seq<Seq<char>>;

    /// The entries of the log, oldest first.
    closed spec fn view(&self) -> Seq<Seq<char>> {
        texts(self.logs@)
    }
}

/// The log as it is printed: a heading, the entries, a closing rule.
pub open spec fn dump_text(entries: Seq<Seq<char>>) -> Seq<Seq<char>> {
    seq!["\n--- DEV LOGS ---"@] + entries + seq!["----------------\n"@]
}

impl Logger {
    /// An empty log.
    pub fn new() -> (logger: Logger)
        ensures
            logger@ == Seq::<Seq<char>>::empty(),
    {
        let logger = Logger { logs: Vec::new() };
        assert(logger@ =~= Seq::<Seq<char>>::empty());
        logger
    }

    fn write(&mut self, tag: &str, message: &str)
        ensures
            final(self)@ == old(self)@.push(tag@ + message@),
    {
        let mut entry: String = String::from_str(tag);
        entry.append(message);
        self.logs.push(entry);
        assert(self@ =~= old(self)@.push(tag@ + message@));
    }

    /// Adds `message` as an information.
    pub fn info(&mut self, message: &str)
        ensures
            final(self)@ == old(self)@.push("[Info] "@ + message@),
    {
        self.write("[Info] ", message);
    }

    /// Adds `message` as an error.
    pub fn error(&mut self, message: &str)
        ensures
            final(self)@ == old(self)@.push("[Error] "@ + message@),
    {
        self.write("[Error] ", message);
    }

    /// Adds `message` as a warning.
    pub fn warn(&mut self, message: &str)
        ensures
            final(self)@ == old(self)@.push("[Warn] "@ + message@),
    {
        self.write("[Warn] ", message);
    }

    /// The lines that a dump of the log prints, each on a line of its own.
    pub fn dump_lines(&self) -> (lines: Vec<String>)
        ensures
            texts(lines@) == dump_text(self@),
    {
        let mut lines: Vec<String> = Vec::new();
        lines.push(String::from_str("\n--- DEV LOGS ---"));
        let mut i: usize = 0;
        while i < self.logs.len()
            invariant
                i <= self.logs@.len(),
                texts(lines@) == seq!["\n--- DEV LOGS ---"@] + self@.take(i as int),
            decreases self.logs@.len() - i,
        {
            let ghost before = lines@;
            let entry: String = self.logs[i].clone();
            lines.push(entry);
            assert(texts(lines@) =~= seq!["\n--- DEV LOGS ---"@] + self@.take(i + 1)) by {
                assert(texts(lines@) =~= texts(before).push(self.logs@[i as int]@));
            }
            i = i + 1;
        }
        let ghost before = lines@;
        lines.push(String::from_str("----------------\n"));
        assert(texts(lines@) =~= dump_text(self@)) by {
            assert(self@.take(i as int) =~= self@);
            assert(texts(lines@) =~= texts(before).push("----------------\n"@));
        }
        lines
    }

    /// A copy of the log with the same entries.
    pub fn clone(&self) -> (copy: Logger)
        ensures
            copy@ == self@,
    {
        let mut logs: Vec<String> = Vec::new();
        let mut i: usize = 0;
        while i < self.logs.len()
            invariant
                i <= self.logs@.len(),
                texts(logs@) == self@.take(i as int),
            decreases self.logs@.len() - i,
        {
            let ghost before = logs@;
            let entry: String = self.logs[i].clone();
            logs.push(entry);
            assert(texts(logs@) =~= self@.take(i + 1)) by {
                assert(texts(logs@) =~= texts(before).push(self.logs@[i as int]@));
            }
            i = i + 1;
        }
        assert(self@.take(i as int) =~= self@);
        Logger { logs }
    }
}

} // verus!
