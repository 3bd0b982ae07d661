//! The playback-history log and its reverse-chronological parser.
//!
//! The daemon appends one tab-delimited line per played item: unix
//! seconds, name, location.  The watcher reads the newest entries
//! first, skipping lines with fewer than three fields, bounded by a
//! requested count and a skip-offset from the tail; an unreadable
//! timestamp fails the whole read.  The caller watches the file and
//! hands its text in on every change notification.

use vstd::prelude::*;
use crate::SmError;
use crate::text::{spec_splitn, spec_lines, all_digits, dec_value, split_lines, splitn_char,
    parse_u64};

verus! {

/// How many history entries a page shows when the caller asks for no
/// other count.
pub const DEFAULT_HISTORY_ENTRIES_TO_FETCH: u64 = 100;

/// The last unix second of year 9999, the largest timestamp handed to
/// the local-time formatter; later stamps are refused as malformed.
pub const MAX_FORMATTED_UNIX_SECS: u64 = 253_402_300_799;

/// One line of the history log, newest first in every listing.
#[derive(Debug)]
pub struct HistoryLogEntry {
    /// The entry's wall-clock stamp, formatted for display.
    pub timestamp: String,
    pub name: String,
    /// Local path or URL.
    pub location: String,
    /// The raw unix seconds the stamp was formatted from.
    pub unix_secs: u64,
}

impl Clone for HistoryLogEntry {
    /// An entry clone keeps every field's content.
    fn clone(&self) -> (r: Self)
        ensures
            r.timestamp@ == self.timestamp@,
            r.name@ == self.name@,
            r.location@ == self.location@,
            r.unix_secs == self.unix_secs,
    {
        HistoryLogEntry {
            timestamp: self.timestamp.clone(),
            name: self.name.clone(),
            location: self.location.clone(),
            unix_secs: self.unix_secs,
        }
    }
}

/// Relies on chrono's `DateTime<Local>` conversion and formatting: the
/// hour-minute day-month year stamp of the given unix second in the
/// machine's local time zone.  The pattern prints two digits each for
/// hour, minute, day and year, a three-letter month, and four fixed
/// separators: fifteen characters in all.  The bound keeps the
/// conversion inside chrono's calendar range.
#[verifier::external_body]
fn format_local_timestamp(unix_secs: u64) -> (r: String)
    requires
        unix_secs <= MAX_FORMATTED_UNIX_SECS,
    ensures
        r@.len() == 15,
{
    let moment = std::time::UNIX_EPOCH + std::time::Duration::from_secs(unix_secs);
    let datetime = chrono::DateTime::<chrono::Local>::from(moment);
    datetime.format("%H:%M %d-%b %y").to_string()
}

/// A history timestamp field that can be accepted: digits whose value
/// stays inside the formatter's range.
pub open spec fn hist_ts_ok(t: Seq<char>) -> bool {
    all_digits(t) && t.len() >= 1 && dec_value(t) <= MAX_FORMATTED_UNIX_SECS
}

/// Folds history lines from the tail: the newest parseable entries, at
/// most `count`, skipping lines with fewer than three tab-delimited
/// fields; a bad timestamp fails the whole fold.
pub open spec fn parse_history_lines(ls: Seq<Seq<char>>, count: nat) -> Option<Seq<(u64, Seq<char>, Seq<char>)>>
    decreases ls.len(),
{
    if ls.len() == 0 || count == 0 {
        Some(Seq::empty())
    } else {
        let parts = spec_splitn(ls.last(), '\t', 3);
        if parts.len() < 3 {
            parse_history_lines(ls.drop_last(), count)
        } else if !hist_ts_ok(parts[0]) {
            None
        } else {
            match parse_history_lines(ls.drop_last(), (count - 1) as nat) {
                None => None,
                Some(es) => Some(seq![(dec_value(parts[0]) as u64, parts[1], parts[2])] + es),
            }
        }
    }
}

/// The newest `count` entries of a whole history text, after skipping
/// `offset` physical lines from the tail.
pub open spec fn parse_history_spec(s: Seq<char>, count: nat, offset: nat) -> Option<Seq<(u64, Seq<char>, Seq<char>)>> {
    let ls = spec_lines(s);
    let kept = if offset < ls.len() {
        ls.take(ls.len() - offset)
    } else {
        ls.take(0)
    };
    parse_history_lines(kept, count)
}

/// The executable entries match the specification's field tuples; the
/// formatted stamp always holds its fifteen characters.
pub open spec fn hist_entries_match(v: Seq<HistoryLogEntry>, es: Seq<(u64, Seq<char>, Seq<char>)>) -> bool {
    &&& v.len() == es.len()
    &&& forall|i: int| 0 <= i < v.len() ==> {
        &&& (#[trigger] v[i]).unix_secs == es[i].0
        &&& v[i].name@ == es[i].1
        &&& v[i].location@ == es[i].2
        &&& v[i].timestamp@.len() == 15
    }
}

/// Reads a history text from its tail: at most `num_lines_to_read`
/// entries, newest first, after skipping `line_offset_from_tail`
/// physical lines; fails exactly when a kept three-field line has a
/// timestamp that is not a bounded number.
pub fn parse_history(content: &str, num_lines_to_read: u64, line_offset_from_tail: u64) -> (r: Result<Vec<HistoryLogEntry>, SmError>)
    ensures
        r is Ok <==> parse_history_spec(content@, num_lines_to_read as nat,
            line_offset_from_tail as nat) is Some,
        r is Ok ==> hist_entries_match(r->Ok_0@, parse_history_spec(content@,
            num_lines_to_read as nat, line_offset_from_tail as nat)->0),
        r is Err ==> r->Err_0 == SmError::MalformedStateFile,
{
    let lines = split_lines(content);
    let ghost slines = spec_lines(content@);
    let kept_len: usize = if line_offset_from_tail < lines.len() as u64 {
        lines.len() - (line_offset_from_tail as usize)
    } else {
        0
    };
    let ghost skept = if (line_offset_from_tail as nat) < slines.len() {
        slines.take(slines.len() - line_offset_from_tail as nat)
    } else {
        slines.take(0)
    };
    proof {
        assert(skept =~= slines.take(kept_len as int));
        if parse_history_lines(skept, num_lines_to_read as nat) is Some {
            assert(Seq::<(u64, Seq<char>, Seq<char>)>::empty()
                + parse_history_lines(skept, num_lines_to_read as nat)->0
                =~= parse_history_lines(skept, num_lines_to_read as nat)->0);
        }
    }
    let mut entries: Vec<HistoryLogEntry> = Vec::new();
    let ghost mut ges: Seq<(u64, Seq<char>, Seq<char>)> = Seq::empty();
    let mut j: usize = kept_len;
    let mut remaining: u64 = num_lines_to_read;
    while j > 0 && remaining > 0
        invariant
            j <= kept_len <= slines.len(),
            slines == spec_lines(content@),
            lines.deep_view() == slines,
            skept == slines.take(kept_len as int),
            parse_history_spec(content@, num_lines_to_read as nat, line_offset_from_tail as nat)
                == parse_history_lines(skept, num_lines_to_read as nat),
            remaining <= num_lines_to_read,
            ges.len() == num_lines_to_read - remaining,
            hist_entries_match(entries@, ges),
            parse_history_lines(skept, num_lines_to_read as nat)
                == (match parse_history_lines(slines.take(j as int), remaining as nat) {
                    None => None::<Seq<(u64, Seq<char>, Seq<char>)>>,
                    Some(es) => Some(ges + es),
                }),
        decreases j,
    {
        let line = lines[j - 1].as_str();
        proof {
            assert(slines.take(j as int).drop_last() =~= slines.take(j - 1));
            assert(slines.take(j as int).last() == slines[j - 1]);
            assert(line@ == slines[j - 1]);
        }
        let parts = splitn_char(line, '\t', 3);
        let ghost sparts = spec_splitn(slines[j - 1], '\t', 3);
        proof {
            assert(parts@.len() == sparts.len());
        }
        if parts.len() >= 3 {
            proof {
                assert(parts@[0]@ == sparts[0]);
                assert(parts@[1]@ == sparts[1]);
                assert(parts@[2]@ == sparts[2]);
            }
            let ts = match parse_u64(parts[0].as_str()) {
                Some(v) => v,
                None => {
                    proof {
                        assert(!hist_ts_ok(sparts[0]));
                        assert(parse_history_lines(slines.take(j as int), remaining as nat)
                            is None);
                    }
                    return Err(SmError::MalformedStateFile);
                }
            };
            if ts > MAX_FORMATTED_UNIX_SECS {
                proof {
                    assert(!hist_ts_ok(sparts[0]));
                    assert(parse_history_lines(slines.take(j as int), remaining as nat) is None);
                }
                return Err(SmError::MalformedStateFile);
            }
            let stamp = format_local_timestamp(ts);
            let entry = HistoryLogEntry {
                timestamp: stamp,
                name: parts[1].clone(),
                location: parts[2].clone(),
                unix_secs: ts,
            };
            entries.push(entry);
            proof {
                ges = ges + seq![(ts, sparts[1], sparts[2])];
            }
            remaining = remaining - 1;
            proof {
                let inner = parse_history_lines(slines.take(j - 1), remaining as nat);
                assert(parse_history_lines(slines.take(j as int), (remaining + 1) as nat)
                    == (match inner {
                        None => None::<Seq<(u64, Seq<char>, Seq<char>)>>,
                        Some(es) => Some(seq![(ts as u64, sparts[1], sparts[2])] + es),
                    }));
                if inner is Some {
                    assert(ges + inner->0
                        =~= ges.drop_last() + (seq![(ts as u64, sparts[1], sparts[2])]
                            + inner->0));
                }
            }
        } else {
            proof {
                assert(parse_history_lines(slines.take(j as int), remaining as nat)
                    == parse_history_lines(slines.take(j - 1), remaining as nat));
            }
        }
        j = j - 1;
    }
    proof {
        assert(parse_history_lines(slines.take(j as int), remaining as nat)
            == Some(Seq::<(u64, Seq<char>, Seq<char>)>::empty()));
        assert(ges + Seq::<(u64, Seq<char>, Seq<char>)>::empty() =~= ges);
    }
    Ok(entries)
}

/// The live history listing, with the path the caller watches and the
/// one-shot change flag.
#[derive(Debug)]
pub struct HistoryWatcher {
    /// Path of the history file.
    pub sm_history_file: String,
    /// Last good listing, newest first; replaced whole, never patched.
    pub entries: Vec<HistoryLogEntry>,
    /// How many entries each read fetches.
    pub lines_to_read: u64,
    /// How many physical lines from the tail each read skips.
    pub line_offset: u64,
    /// Whether a change arrived since the last check.
    pub pending: bool,
}

impl HistoryWatcher {
    /// A watcher for the given file and page, with an empty listing.
    pub fn new(history_file: String, lines_to_read: u64, line_offset: u64) -> (r: Result<Self, SmError>)
        ensures
            r is Ok,
            r->Ok_0.sm_history_file == history_file,
            r->Ok_0.lines_to_read == lines_to_read,
            r->Ok_0.line_offset == line_offset,
            r->Ok_0.entries@.len() == 0,
            r->Ok_0.pending == false,
    {
        Ok(HistoryWatcher {
            sm_history_file: history_file,
            entries: Vec::new(),
            lines_to_read,
            line_offset,
            pending: false,
        })
    }

    /// Applies one observed write of the history file: a good parse
    /// replaces the listing whole, a bad one leaves it untouched;
    /// either way the change flag is raised.
    pub fn ingest(&mut self, content: &str) -> (r: Result<(), SmError>)
        ensures
            r is Ok <==> parse_history_spec(content@, old(self).lines_to_read as nat,
                old(self).line_offset as nat) is Some,
            r is Ok ==> hist_entries_match(final(self).entries@,
                parse_history_spec(content@, old(self).lines_to_read as nat,
                    old(self).line_offset as nat)->0),
            r is Err ==> final(self).entries == old(self).entries,
            r is Err ==> r->Err_0 == SmError::MalformedStateFile,
            final(self).pending == true,
            final(self).sm_history_file == old(self).sm_history_file,
            final(self).lines_to_read == old(self).lines_to_read,
            final(self).line_offset == old(self).line_offset,
    {
        self.pending = true;
        match parse_history(content, self.lines_to_read, self.line_offset) {
            Ok(entries) => {
                self.entries = entries;
                Ok(())
            }
            Err(e) => Err(e),
        }
    }

    /// A copy of the current listing, newest first.
    pub fn get_history(&self) -> (r: Vec<HistoryLogEntry>)
        ensures
            r@.len() == self.entries@.len(),
            forall|i: int| 0 <= i < r@.len() ==> {
                &&& (#[trigger] r@[i]).timestamp@ == self.entries@[i].timestamp@
                &&& r@[i].name@ == self.entries@[i].name@
                &&& r@[i].location@ == self.entries@[i].location@
                &&& r@[i].unix_secs == self.entries@[i].unix_secs
            },
    {
        let mut r: Vec<HistoryLogEntry> = Vec::new();
        let mut i: usize = 0;
        while i < self.entries.len()
            invariant
                i <= self.entries@.len(),
                r@.len() == i,
                forall|k: int| 0 <= k < i as int ==> {
                    &&& (#[trigger] r@[k]).timestamp@ == self.entries@[k].timestamp@
                    &&& r@[k].name@ == self.entries@[k].name@
                    &&& r@[k].location@ == self.entries@[k].location@
                    &&& r@[k].unix_secs == self.entries@[k].unix_secs
                },
            decreases self.entries@.len() - i,
        {
            r.push(self.entries[i].clone());
            i = i + 1;
        }
        r
    }

    /// One-shot change check: reports whether anything arrived since
    /// the last call and lowers the flag.
    pub fn check_for_status_change(&mut self) -> (r: bool)
        ensures
            r == old(self).pending,
            final(self).pending == false,
            final(self).entries == old(self).entries,
            final(self).sm_history_file == old(self).sm_history_file,
            final(self).lines_to_read == old(self).lines_to_read,
            final(self).line_offset == old(self).line_offset,
    {
        let r = self.pending;
        self.pending = false;
        r
    }
}

} // verus!
