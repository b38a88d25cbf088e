//! Log entries and the in-memory log stream.
//!
//! Entry construction, level filtering and line wrapping are verified
//! here; the unverified driver appends the stream to the day's log
//! file and renders entries to the terminal.

use vstd::prelude::*;
use crate::text::seq_views;

verus! {

/// Severity of one log entry.
#[derive(Clone, Copy, Debug, PartialEq, Eq, Structural)]
pub enum LogLevel {
    Info,
    Warning,
    Error,
}

impl LogLevel {
    /// The fixed-width label the level is printed under.
    pub fn label(&self) -> (r: String)
        ensures
            *self is Info ==> r@ == "INFO "@,
            *self is Warning ==> r@ == "WARN "@,
            *self is Error ==> r@ == "ERROR"@,
    {
        match self {
            LogLevel::Info => String::from_str("INFO "),
            LogLevel::Warning => String::from_str("WARN "),
            LogLevel::Error => String::from_str("ERROR"),
        }
    }
}

/// One log entry.
#[derive(Debug)]
pub struct LogEntry {
    pub timestamp: String,
    pub level: LogLevel,
    pub message: String,
    pub details: Option<String>,
}

impl LogEntry {
    /// A copy with equal fields.
    pub fn duplicate(&self) -> (r: LogEntry)
        ensures
            r == *self,
    {
        LogEntry {
            timestamp: self.timestamp.clone(),
            level: self.level,
            message: self.message.clone(),
            details: match &self.details {
                Some(d) => Some(d.clone()),
                None => None,
            },
        }
    }
}

/// The in-memory log stream and the directory it is mirrored to.
pub struct Logger {
    log_path: String,
    entries: Vec<LogEntry>,
}

impl Logger {
    /// The entries appended so far.
    pub closed spec fn entries_view(self) -> Seq<LogEntry> {
        self.entries@
    }

    /// The directory the driver mirrors the stream to.
    pub closed spec fn path_view(self) -> Seq<char> {
        self.log_path@
    }

    /// An empty stream mirrored to `log_path`.
    pub fn new(log_path: &str) -> (r: Logger)
        ensures
            r.path_view() == log_path@,
            r.entries_view() == Seq::<LogEntry>::empty(),
    {
        Logger { log_path: String::from_str(log_path), entries: Vec::new() }
    }

    /// The mirror directory.
    pub fn log_path(&self) -> (r: &str)
        ensures
            r@ == self.path_view(),
    {
        self.log_path.as_str()
    }

    /// Append one entry built from the given parts.
    pub fn log(&mut self, level: LogLevel, message: &str, details: Option<&str>, timestamp: &str)
        ensures
            final(self).path_view() == old(self).path_view(),
            final(self).entries_view().len() == old(self).entries_view().len() + 1,
            final(self).entries_view().drop_last() == old(self).entries_view(),
            ({
                let e = final(self).entries_view().last();
                &&& e.level == level
                &&& e.message@ == message@
                &&& e.timestamp@ == timestamp@
                &&& (details is None ==> e.details is None)
                &&& (details matches Some(d) ==> e.details matches Some(s) && s@ == d@)
            }),
    {
        let entry = LogEntry {
            timestamp: String::from_str(timestamp),
            level,
            message: String::from_str(message),
            details: match details {
                Some(d) => Some(String::from_str(d)),
                None => None,
            },
        };
        self.entries.push(entry);
        proof {
            assert(final(self).entries_view().drop_last() =~= old(self).entries_view());
        }
    }

    /// The entries of the stream, all of them or only those of one
    /// level.
    pub fn get_logs(&self, level: Option<LogLevel>) -> (r: Vec<LogEntry>)
        ensures
            level is None ==> r@ == self.entries_view(),
            (level matches Some(l) ==> r@ == self.entries_view().filter(
                (|e: LogEntry| e.level == l),
            )),
    {
        match level {
            None => {
                let mut out: Vec<LogEntry> = Vec::new();
                let mut i: usize = 0;
                while i < self.entries.len()
                    invariant
                        i <= self.entries@.len(),
                        out@ == self.entries@.subrange(0, i as int),
                    decreases self.entries@.len() - i,
                {
                    out.push(self.entries[i].duplicate());
                    proof {
                        assert(out@ =~= self.entries@.subrange(0, i + 1));
                    }
                    i = i + 1;
                }
                proof {
                    assert(self.entries@.subrange(0, self.entries@.len() as int)
                        =~= self.entries@);
                }
                out
            },
            Some(l) => {
                let mut out: Vec<LogEntry> = Vec::new();
                let mut i: usize = 0;
                proof {
                    reveal(Seq::filter);
                    assert(self.entries@.subrange(0, 0) =~= Seq::<LogEntry>::empty());
                }
                while i < self.entries.len()
                    invariant
                        i <= self.entries@.len(),
                        out@ == self.entries@.subrange(0, i as int).filter(
                            (|e: LogEntry| e.level == l),
                        ),
                    decreases self.entries@.len() - i,
                {
                    proof {
                        reveal(Seq::filter);
                        assert(self.entries@.subrange(0, i + 1).drop_last() =~= self.entries@
                            .subrange(0, i as int));
                        assert(self.entries@.subrange(0, i + 1).last() == self.entries@[i as int]);
                    }
                    if self.entries[i].level == l {
                        out.push(self.entries[i].duplicate());
                    }
                    proof {
                        assert(out@ == self.entries@.subrange(0, i + 1).filter(
                            (|e: LogEntry| e.level == l),
                        ));
                    }
                    i = i + 1;
                }
                proof {
                    assert(self.entries@.subrange(0, self.entries@.len() as int)
                        =~= self.entries@);
                }
                out
            },
        }
    }
}

/// `line` cut into chunks of `w` characters, the last one possibly
/// shorter.
pub open spec fn wrap_spec(s: Seq<char>, w: nat) -> Seq<Seq<char>>
    decreases s.len(),
{
    if w == 0 || s.len() == 0 {
        Seq::empty()
    } else if s.len() <= w {
        seq![s]
    } else {
        seq![s.subrange(0, w as int)] + wrap_spec(s.skip(w as int), w)
    }
}

/// Cut `line` into chunks of at most `max_width` characters, in
/// order; every chunk but the last is exactly `max_width` long.
pub fn wrap_line(line: &str, max_width: usize) -> (r: Vec<String>)
    requires
        max_width >= 1,
    ensures
        seq_views(r@) == wrap_spec(line@, max_width as nat),
{
    let len = line.unicode_len();
    let mut result: Vec<String> = Vec::new();
    let mut start: usize = 0;
    proof {
        assert(line@.skip(0) =~= line@);
        assert(seq_views(result@) =~= Seq::<Seq<char>>::empty());
    }
    while start < len
        invariant
            len == line@.len(),
            max_width >= 1,
            start <= len,
            wrap_spec(line@, max_width as nat) == seq_views(result@) + wrap_spec(
                line@.skip(start as int),
                max_width as nat,
            ),
        decreases len - start,
    {
        let ghost rest = line@.skip(start as int);
        let ghost pre = result@;
        let end = if len - start > max_width {
            start + max_width
        } else {
            len
        };
        let chunk = line.substring_char(start, end);
        result.push(String::from_str(chunk));
        proof {
            assert(seq_views(result@) =~= seq_views(pre).push(chunk@));
            if len - start > max_width {
                assert(chunk@ =~= rest.subrange(0, max_width as int));
                assert(rest.skip(max_width as int) =~= line@.skip(end as int));
                assert(seq_views(pre).push(chunk@) + wrap_spec(line@.skip(end as int), max_width as nat)
                    =~= seq_views(pre) + wrap_spec(rest, max_width as nat));
            } else {
                assert(chunk@ =~= rest);
                assert(line@.skip(end as int) =~= Seq::<char>::empty());
                assert(wrap_spec(line@.skip(end as int), max_width as nat) =~= Seq::<Seq<char>>::empty());
                assert(seq_views(pre).push(chunk@) + wrap_spec(line@.skip(end as int), max_width as nat)
                    =~= seq_views(pre) + wrap_spec(rest, max_width as nat));
            }
        }
        start = end;
    }
    proof {
        assert(line@.skip(len as int) =~= Seq::<char>::empty());
        assert(seq_views(result@) + wrap_spec(line@.skip(len as int), max_width as nat)
            =~= seq_views(result@));
        if len == 0 {
            assert(line@.skip(0) =~= Seq::<char>::empty());
        }
    }
    result
}

} // verus!
