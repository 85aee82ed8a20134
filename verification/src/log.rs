//! The structured logger consumed by the dispatch core.
//!
//! Dispatch writes leveled lines tagged with key/value fields (method,
//! request id). A logger value keeps one field stack: the adapter
//! pushes a field before nested work and pops it after, so a caller's
//! context is exactly restored while every line written in between —
//! the adapter's own and the action's — reaches the one sink, each
//! line carrying the fields in force when it was written. The logger
//! is a trait so a process can plug in its real logging stack while
//! tests substitute the recording logger below.

use vstd::prelude::*;

verus! {

/// The levels the dispatch core logs at.
#[derive(Clone, Copy, Debug, PartialEq, Eq, Structural)]
pub enum LogLevel {
    Debug,
    Warn,
    Error,
}

/// The key/value fields of one logger, as the contracts see them.
pub type LogFields = Seq<(Seq<char>, Seq<char>)>;

/// One written line, as the contracts see it: the fields in force at
/// the write, the level, and the message.
pub type LogLine = (LogFields, LogLevel, Seq<char>);

/// Where dispatch writes its log lines. The two spec functions give
/// the logger's abstract state: the key/value fields currently in
/// force, and the lines written so far, in order.
pub trait LogSink: Sized {
    /// The key/value fields attached to every line written now.
    spec fn context(&self) -> LogFields;

    /// The lines written so far, each with the fields it carried.
    spec fn entries(&self) -> Seq<LogLine>;

    /// Attach one more key/value field to the lines that follow.
    fn push_context(&mut self, key: &str, value: &str)
        ensures
            final(self).context() == old(self).context().push((key@, value@)),
            final(self).entries() == old(self).entries(),
    ;

    /// Drop the innermost field, restoring the context that the
    /// matching push extended.
    fn pop_context(&mut self)
        requires
            old(self).context().len() > 0,
        ensures
            final(self).context() == old(self).context().drop_last(),
            final(self).entries() == old(self).entries(),
    ;

    /// Write one line at the given level, tagged with the current
    /// fields.
    fn log(&mut self, level: LogLevel, message: &str)
        ensures
            final(self).context() == old(self).context(),
            final(self).entries() == old(self).entries().push(
                (old(self).context(), level, message@),
            ),
    ;
}

/// The abstraction of a list of owned key/value fields.
pub open spec fn field_pairs(fields: Seq<(String, String)>) -> LogFields {
    fields.map_values(|p: (String, String)| (p.0@, p.1@))
}

/// A logger that keeps every line in memory, for tests and for any
/// caller that wants to inspect what dispatch logged.
pub struct RecordingLog {
    /// The key/value fields currently in force.
    pub fields: Vec<(String, String)>,
    /// The lines written so far: the fields in force at the write,
    /// the level and the message.
    pub lines: Vec<(Vec<(String, String)>, LogLevel, String)>,
}

impl RecordingLog {
    /// A logger with no fields and no lines.
    pub fn new() -> (r: RecordingLog)
        ensures
            r.context() == Seq::<(Seq<char>, Seq<char>)>::empty(),
            r.entries() == Seq::<LogLine>::empty(),
    {
        let r = RecordingLog { fields: Vec::new(), lines: Vec::new() };
        proof {
            assert(r.context() =~= Seq::<(Seq<char>, Seq<char>)>::empty());
            assert(r.entries() =~= Seq::<LogLine>::empty());
        }
        r
    }
}

impl LogSink for RecordingLog {
    open spec fn context(&self) -> LogFields {
        field_pairs(self.fields@)
    }

    open spec fn entries(&self) -> Seq<LogLine> {
        self.lines@.map_values(
            |l: (Vec<(String, String)>, LogLevel, String)| (field_pairs(l.0@), l.1, l.2@),
        )
    }

    fn push_context(&mut self, key: &str, value: &str) {
        let ghost before = self.fields@;
        self.fields.push((key.to_owned(), value.to_owned()));
        proof {
            assert(self.context() =~= field_pairs(before).push((key@, value@)));
        }
    }

    fn pop_context(&mut self) {
        let ghost before = self.fields@;
        let _ = self.fields.pop();
        proof {
            assert(self.context() =~= field_pairs(before).drop_last());
        }
    }

    fn log(&mut self, level: LogLevel, message: &str) {
        let mut tags: Vec<(String, String)> = Vec::new();
        let mut i: usize = 0;
        while i < self.fields.len()
            invariant
                i <= self.fields.len(),
                tags@ == self.fields@.subrange(0, i as int),
            decreases self.fields.len() - i,
        {
            let k = self.fields[i].0.clone();
            let v = self.fields[i].1.clone();
            tags.push((k, v));
            proof {
                assert(tags@ =~= self.fields@.subrange(0, i + 1 as int));
            }
            i = i + 1;
        }
        proof {
            assert(self.fields@.subrange(0, self.fields@.len() as int) =~= self.fields@);
            assert(field_pairs(tags@) =~= field_pairs(self.fields@));
        }
        let ghost before = self.lines@;
        self.lines.push((tags, level, message.to_owned()));
        proof {
            assert(self.entries() =~= before.map_values(
                |l: (Vec<(String, String)>, LogLevel, String)| (field_pairs(l.0@), l.1, l.2@),
            ).push((field_pairs(self.fields@), level, message@)));
        }
    }
}

} // verus!
