//! The shared playback snapshot and the parsers that feed it.
//!
//! The daemon writes two files: a status file of two lines (playback
//! time, playback state) and a queue file of one `;`-delimited entry per
//! line.  The watcher keeps the last successfully parsed snapshot; a
//! malformed write never disturbs it.  The caller watches the files,
//! reads their content on each change notification and hands the text
//! in; it also owns the lock when the snapshot is shared across threads.
//!
//! Playback time is kept in thousandths of a percent: the decimal
//! number on the status file's first line, fraction digits beyond the
//! third ignored.

use vstd::prelude::*;
use crate::SmError;
use crate::text::{spec_splitn, spec_lines, all_digits, dec_value, is_digit, split_lines,
    splitn_char, parse_u64, contains_char, str_eq, check_all_digits, lemma_dec_value_small,
    lemma_dec_value_nonneg};
use vstd::arithmetic::div_mod::{lemma_fundamental_div_mod, lemma_mod_division_less_than_divisor};
use vstd::arithmetic::mul::lemma_mul_inequality;

verus! {

/// The playback state the daemon reports.
#[derive(Debug, Clone, Copy, PartialEq, Eq, Structural)]
pub enum PlaybackState {
    Playing,
    Paused,
    Idle,
    Stopped,
}

/// The token of each playback state, as the status file spells it.
pub open spec fn state_label_spec(s: PlaybackState) -> Seq<char> {
    match s {
        PlaybackState::Playing => "Playing"@,
        PlaybackState::Paused => "Paused"@,
        PlaybackState::Idle => "Idle"@,
        PlaybackState::Stopped => "Stopped"@,
    }
}

/// The playback state a status-file token names, if any.
pub open spec fn state_of_token(t: Seq<char>) -> Option<PlaybackState> {
    if t == "Paused"@ {
        Some(PlaybackState::Paused)
    } else if t == "Playing"@ {
        Some(PlaybackState::Playing)
    } else if t == "Idle"@ {
        Some(PlaybackState::Idle)
    } else if t == "Stopped"@ {
        Some(PlaybackState::Stopped)
    } else {
        None
    }
}

impl PlaybackState {
    /// The state's display token, the same text the status file uses.
    pub fn label(&self) -> (r: String)
        ensures
            r@ == state_label_spec(*self),
    {
        match self {
            PlaybackState::Playing => "Playing".to_owned(),
            PlaybackState::Paused => "Paused".to_owned(),
            PlaybackState::Idle => "Idle".to_owned(),
            PlaybackState::Stopped => "Stopped".to_owned(),
        }
    }
}

/// Reads a status-file token into a playback state.
pub fn state_from_token(t: &str) -> (r: Option<PlaybackState>)
    ensures
        r == state_of_token(t@),
{
    if str_eq(t, "Paused") {
        Some(PlaybackState::Paused)
    } else if str_eq(t, "Playing") {
        Some(PlaybackState::Playing)
    } else if str_eq(t, "Idle") {
        Some(PlaybackState::Idle)
    } else if str_eq(t, "Stopped") {
        Some(PlaybackState::Stopped)
    } else {
        None
    }
}

/// One entry of the playback queue, as the queue file lists it.
#[derive(Debug)]
pub struct QueueEntry {
    pub id: u64,
    pub priority: u64,
    pub entry_type: String,
    /// Local path or URL.
    pub file_location: String,
}

impl QueueEntry {
    /// Bundles the four fields of one queue line.
    pub fn new(id: u64, priority: u64, entry_type: String, file_location: String) -> (r: Self)
        ensures
            r.id == id,
            r.priority == priority,
            r.entry_type == entry_type,
            r.file_location == file_location,
    {
        QueueEntry { id, priority, entry_type, file_location }
    }
}

impl Clone for QueueEntry {
    /// An entry clone keeps every field's content.
    fn clone(&self) -> (r: Self)
        ensures
            r.id == self.id,
            r.priority == self.priority,
            r.entry_type@ == self.entry_type@,
            r.file_location@ == self.file_location@,
    {
        QueueEntry {
            id: self.id,
            priority: self.priority,
            entry_type: self.entry_type.clone(),
            file_location: self.file_location.clone(),
        }
    }
}

/// The whole snapshot the UI renders: playback state, playback time in
/// thousandths of a percent, and the queue entries in file order.
#[derive(Debug)]
pub struct QueueInfo {
    pub playback_state: PlaybackState,
    /// Thousandths of a percent of the playing entry.
    pub playback_time: u64,
    pub entry_list: Vec<QueueEntry>,
}

impl QueueInfo {
    /// The snapshot before any file was read: stopped, at zero, empty.
    pub fn new() -> (r: Self)
        ensures
            r.playback_state == PlaybackState::Stopped,
            r.playback_time == 0,
            r.entry_list@.len() == 0,
    {
        QueueInfo {
            playback_state: PlaybackState::Stopped,
            playback_time: 0,
            entry_list: Vec::new(),
        }
    }
}

/// The accepted shape of the status file's first line: an unsigned
/// decimal number, digits with at most one point, at least one digit in
/// all.
pub open spec fn time_grammar_ok(l: Seq<char>) -> bool {
    let parts = spec_splitn(l, '.', 2);
    &&& forall|i: int| 0 <= i < parts.len() ==> all_digits(#[trigger] parts[i])
    &&& parts[0].len() + (if parts.len() >= 2 {
        parts[1].len()
    } else {
        0
    }) >= 1
}

/// The value of the fraction digits in thousandths, the fourth digit on
/// ignored.
pub open spec fn frac_milli(f: Seq<char>) -> int {
    if f.len() >= 3 {
        dec_value(f.take(3))
    } else if f.len() == 2 {
        dec_value(f) * 10
    } else if f.len() == 1 {
        dec_value(f) * 100
    } else {
        0
    }
}

/// The first line's value in thousandths of a percent.
pub open spec fn time_value_milli(l: Seq<char>) -> int {
    let parts = spec_splitn(l, '.', 2);
    dec_value(parts[0]) * 1000 + (if parts.len() >= 2 {
        frac_milli(parts[1])
    } else {
        0
    })
}

/// Reads the playback-time line.  Exactly the lines that meet the
/// grammar and whose value fits are accepted.
pub fn parse_time_milli(l: &str) -> (r: Option<u64>)
    ensures
        r is Some <==> time_grammar_ok(l@) && time_value_milli(l@) <= u64::MAX,
        r is Some ==> r->0 == time_value_milli(l@),
{
    let parts = splitn_char(l, '.', 2);
    let ghost sparts = spec_splitn(l@, '.', 2);
    let whole = parts[0].as_str();
    if !check_all_digits(whole) {
        return None;
    }
    let mut frac_val: u64 = 0;
    let mut frac_len: usize = 0;
    if parts.len() >= 2 {
        let frac = parts[1].as_str();
        if !check_all_digits(frac) {
            return None;
        }
        frac_len = frac.unicode_len();
        proof {
            assert(forall|i: int| 0 <= i < sparts.len()
                ==> all_digits(#[trigger] sparts[i])) by {
                assert(sparts.len() <= 2) by {
                    assert(parts@.len() == sparts.len());
                }
            }
        }
        if frac_len >= 3 {
            let f3 = frac.substring_char(0, 3);
            proof {
                assert(f3@ =~= sparts[1].take(3));
                assert(all_digits(f3@));
                lemma_dec_value_small(f3@);
            }
            match parse_u64(f3) {
                Some(v) => {
                    frac_val = v;
                }
                None => {
                    proof {
                        assert(false);
                    }
                }
            }
        } else if frac_len > 0 {
            proof {
                lemma_dec_value_small(frac@);
            }
            match parse_u64(frac) {
                Some(v) => {
                    if frac_len == 2 {
                        frac_val = v * 10;
                    } else {
                        frac_val = v * 100;
                    }
                }
                None => {
                    proof {
                        assert(false);
                    }
                }
            }
        }
    } else {
        proof {
            assert(forall|i: int| 0 <= i < sparts.len()
                ==> all_digits(#[trigger] sparts[i])) by {
                assert(parts@.len() == sparts.len());
            }
        }
    }
    let whole_len = whole.unicode_len();
    if whole_len == 0 && frac_len == 0 {
        return None;
    }
    proof {
        assert(time_grammar_ok(l@));
        lemma_dec_value_nonneg(sparts[0]);
        assert(frac_val <= 999);
    }
    let whole_val: u64;
    if whole_len == 0 {
        whole_val = 0;
    } else {
        match parse_u64(whole) {
            Some(v) => {
                whole_val = v;
            }
            None => {
                proof {
                    lemma_mul_inequality(u64::MAX + 1, dec_value(sparts[0]), 1000);
                }
                return None;
            }
        }
    }
    if whole_val > (u64::MAX - frac_val) / 1000 {
        proof {
            lemma_fundamental_div_mod(u64::MAX - frac_val, 1000);
            lemma_mod_division_less_than_divisor(u64::MAX - frac_val, 1000);
        }
        return None;
    }
    proof {
        lemma_fundamental_div_mod(u64::MAX - frac_val, 1000);
        lemma_mod_division_less_than_divisor(u64::MAX - frac_val, 1000);
    }
    Some(whole_val * 1000 + frac_val)
}

/// Whether a status file parses: two lines, a well-formed time whose
/// value fits, a known state token.
pub open spec fn status_ok(s: Seq<char>) -> bool {
    let lines = spec_lines(s);
    &&& lines.len() >= 2
    &&& time_grammar_ok(lines[0])
    &&& time_value_milli(lines[0]) <= u64::MAX
    &&& state_of_token(lines[1]) is Some
}

/// Reads a status file into the pair of playback time (thousandths of a
/// percent) and playback state; fails exactly on the contents
/// `status_ok` refuses.
pub fn parse_status(content: &str) -> (r: Result<(u64, PlaybackState), SmError>)
    ensures
        r is Ok <==> status_ok(content@),
        r is Ok ==> r->Ok_0.0 == time_value_milli(spec_lines(content@)[0]),
        r is Ok ==> Some(r->Ok_0.1) == state_of_token(spec_lines(content@)[1]),
        r is Err ==> r->Err_0 == SmError::MalformedStateFile,
{
    let lines = split_lines(content);
    if lines.len() < 2 {
        return Err(SmError::MalformedStateFile);
    }
    let time = match parse_time_milli(lines[0].as_str()) {
        Some(v) => v,
        None => {
            return Err(SmError::MalformedStateFile);
        }
    };
    let state = match state_from_token(lines[1].as_str()) {
        Some(s) => s,
        None => {
            return Err(SmError::MalformedStateFile);
        }
    };
    Ok((time, state))
}

/// The four `;`-delimited fields of one queue line, when the line is
/// well formed: id, priority, entry type, location (the location keeps
/// any further `;`).
pub open spec fn parse_queue_line(l: Seq<char>) -> Option<(u64, u64, Seq<char>, Seq<char>)> {
    let parts = spec_splitn(l, ';', 4);
    if parts.len() < 4 {
        None
    } else if !(all_digits(parts[0]) && parts[0].len() >= 1 && dec_value(parts[0]) <= u64::MAX) {
        None
    } else if !(all_digits(parts[1]) && parts[1].len() >= 1 && dec_value(parts[1]) <= u64::MAX) {
        None
    } else {
        Some((dec_value(parts[0]) as u64, dec_value(parts[1]) as u64, parts[2], parts[3]))
    }
}

/// Folds the lines of a queue file: lines without the delimiter are
/// skipped, a malformed delimited line fails the whole file.
pub open spec fn parse_queue_lines(ls: Seq<Seq<char>>) -> Option<Seq<(u64, u64, Seq<char>, Seq<char>)>>
    decreases ls.len(),
{
    if ls.len() == 0 {
        Some(Seq::empty())
    } else {
        match parse_queue_lines(ls.drop_last()) {
            None => None,
            Some(es) => {
                let l = ls.last();
                if !l.contains(';') {
                    Some(es)
                } else {
                    match parse_queue_line(l) {
                        None => None,
                        Some(e) => Some(es.push(e)),
                    }
                }
            }
        }
    }
}

/// The entries of a whole queue file.
pub open spec fn parse_queue_spec(s: Seq<char>) -> Option<Seq<(u64, u64, Seq<char>, Seq<char>)>> {
    parse_queue_lines(spec_lines(s))
}

/// The executable entries match the specification's field tuples.
pub open spec fn entries_match(v: Seq<QueueEntry>, es: Seq<(u64, u64, Seq<char>, Seq<char>)>) -> bool {
    &&& v.len() == es.len()
    &&& forall|i: int| 0 <= i < v.len() ==> {
        &&& (#[trigger] v[i]).id == es[i].0
        &&& v[i].priority == es[i].1
        &&& v[i].entry_type@ == es[i].2
        &&& v[i].file_location@ == es[i].3
    }
}

/// A failing prefix fails the whole fold.
proof fn lemma_queue_lines_none(ls: Seq<Seq<char>>, k: int)
    requires
        0 <= k <= ls.len(),
        parse_queue_lines(ls.take(k)) is None,
    ensures
        parse_queue_lines(ls) is None,
    decreases ls.len() - k,
{
    if k < ls.len() {
        assert(ls.take(k + 1).drop_last() =~= ls.take(k));
        lemma_queue_lines_none(ls, k + 1);
    } else {
        assert(ls.take(k) =~= ls);
    }
}

/// Reads a queue file into its entry list, in file order; fails exactly
/// when a delimited line is malformed.
pub fn parse_queue(content: &str) -> (r: Result<Vec<QueueEntry>, SmError>)
    ensures
        r is Ok <==> parse_queue_spec(content@) is Some,
        r is Ok ==> entries_match(r->Ok_0@, parse_queue_spec(content@)->0),
        r is Err ==> r->Err_0 == SmError::MalformedStateFile,
{
    let lines = split_lines(content);
    let ghost slines = spec_lines(content@);
    let mut entries: Vec<QueueEntry> = Vec::new();
    let mut i: usize = 0;
    while i < lines.len()
        invariant
            i <= lines@.len(),
            slines == spec_lines(content@),
            lines.deep_view() == slines,
            parse_queue_lines(slines.take(i as int)) is Some,
            entries_match(entries@, parse_queue_lines(slines.take(i as int))->0),
        decreases lines@.len() - i,
    {
        let line = lines[i].as_str();
        proof {
            assert(slines.take(i + 1).drop_last() =~= slines.take(i as int));
            assert(slines.take(i + 1).last() == slines[i as int]);
            assert(line@ == slines[i as int]);
        }
        if contains_char(line, ';') {
            let parts = splitn_char(line, ';', 4);
            let ghost sparts = spec_splitn(slines[i as int], ';', 4);
            proof {
                assert(parts@.len() == sparts.len());
            }
            if parts.len() < 4 {
                proof {
                    assert(parse_queue_line(slines[i as int]) is None);
                    lemma_queue_lines_none(slines, i + 1);
                }
                return Err(SmError::MalformedStateFile);
            }
            proof {
                assert(parts@[0]@ == sparts[0]);
                assert(parts@[1]@ == sparts[1]);
                assert(parts@[2]@ == sparts[2]);
                assert(parts@[3]@ == sparts[3]);
            }
            let id = match parse_u64(parts[0].as_str()) {
                Some(v) => v,
                None => {
                    proof {
                        assert(parse_queue_line(slines[i as int]) is None);
                        lemma_queue_lines_none(slines, i + 1);
                    }
                    return Err(SmError::MalformedStateFile);
                }
            };
            let priority = match parse_u64(parts[1].as_str()) {
                Some(v) => v,
                None => {
                    proof {
                        assert(parse_queue_line(slines[i as int]) is None);
                        lemma_queue_lines_none(slines, i + 1);
                    }
                    return Err(SmError::MalformedStateFile);
                }
            };
            let entry = QueueEntry::new(id, priority, parts[2].clone(), parts[3].clone());
            entries.push(entry);
        }
        i = i + 1;
    }
    proof {
        assert(slines.take(slines.len() as int) =~= slines);
    }
    Ok(entries)
}

/// A queue file whose delimited lines are all well formed yields
/// exactly one entry per delimited line, in file order; the lines
/// without the delimiter are ignored without error.
pub proof fn lemma_queue_wellformed_count(ls: Seq<Seq<char>>)
    requires
        forall|i: int| 0 <= i < ls.len() && (#[trigger] ls[i]).contains(';')
            ==> parse_queue_line(ls[i]) is Some,
    ensures
        parse_queue_lines(ls) is Some,
        parse_queue_lines(ls)->0.len() == ls.filter(|l: Seq<char>| l.contains(';')).len(),
    decreases ls.len(),
{
    reveal(Seq::filter);
    if ls.len() > 0 {
        assert(forall|i: int| 0 <= i < ls.drop_last().len()
            && (#[trigger] ls.drop_last()[i]).contains(';')
            ==> parse_queue_line(ls.drop_last()[i]) is Some) by {
            assert(forall|i: int| 0 <= i < ls.drop_last().len()
                ==> ls.drop_last()[i] == ls[i]);
        }
        lemma_queue_wellformed_count(ls.drop_last());
        assert(ls.last() == ls[ls.len() - 1]);
    }
}

/// The live snapshot of the status and queue files, with the paths the
/// caller watches and the one-shot change flag.
#[derive(Debug)]
pub struct StatusWatcher {
    /// Path of the status file.
    pub sm_status_file: String,
    /// Path of the queue file.
    pub sm_queue_file: String,
    /// Last good snapshot; replaced whole, never patched.
    pub status_info: QueueInfo,
    /// Whether a change arrived since the last check.
    pub pending: bool,
}

impl StatusWatcher {
    /// A watcher for the two given files, with an empty snapshot.
    pub fn new(status_file: String, queue_file: String) -> (r: Result<Self, SmError>)
        ensures
            r is Ok,
            r->Ok_0.sm_status_file == status_file,
            r->Ok_0.sm_queue_file == queue_file,
            r->Ok_0.status_info.playback_state == PlaybackState::Stopped,
            r->Ok_0.status_info.playback_time == 0,
            r->Ok_0.status_info.entry_list@.len() == 0,
            r->Ok_0.pending == false,
    {
        Ok(StatusWatcher {
            sm_status_file: status_file,
            sm_queue_file: queue_file,
            status_info: QueueInfo::new(),
            pending: false,
        })
    }

    /// Applies one observed write of the status file: a good parse
    /// replaces time and state, a bad one leaves the whole snapshot
    /// untouched; either way the change flag is raised.
    pub fn ingest_status(&mut self, content: &str) -> (r: Result<(), SmError>)
        ensures
            r is Ok <==> status_ok(content@),
            r is Ok ==> final(self).status_info.playback_time
                == time_value_milli(spec_lines(content@)[0]),
            r is Ok ==> Some(final(self).status_info.playback_state)
                == state_of_token(spec_lines(content@)[1]),
            final(self).status_info.entry_list == old(self).status_info.entry_list,
            r is Err ==> final(self).status_info == old(self).status_info,
            r is Err ==> r->Err_0 == SmError::MalformedStateFile,
            final(self).pending == true,
            final(self).sm_status_file == old(self).sm_status_file,
            final(self).sm_queue_file == old(self).sm_queue_file,
    {
        self.pending = true;
        match parse_status(content) {
            Ok((time, state)) => {
                self.status_info.playback_time = time;
                self.status_info.playback_state = state;
                Ok(())
            }
            Err(e) => Err(e),
        }
    }

    /// Applies one observed write of the queue file: a good parse
    /// replaces the entry list whole, a bad one leaves the snapshot
    /// untouched; either way the change flag is raised.
    pub fn ingest_queue(&mut self, content: &str) -> (r: Result<(), SmError>)
        ensures
            r is Ok <==> parse_queue_spec(content@) is Some,
            r is Ok ==> entries_match(final(self).status_info.entry_list@,
                parse_queue_spec(content@)->0),
            final(self).status_info.playback_time == old(self).status_info.playback_time,
            final(self).status_info.playback_state == old(self).status_info.playback_state,
            r is Err ==> final(self).status_info == old(self).status_info,
            r is Err ==> r->Err_0 == SmError::MalformedStateFile,
            final(self).pending == true,
            final(self).sm_status_file == old(self).sm_status_file,
            final(self).sm_queue_file == old(self).sm_queue_file,
    {
        self.pending = true;
        match parse_queue(content) {
            Ok(entries) => {
                self.status_info.entry_list = entries;
                Ok(())
            }
            Err(e) => Err(e),
        }
    }

    /// One-shot change check: reports whether anything arrived since
    /// the last call and lowers the flag.
    pub fn check_for_status_change(&mut self) -> (r: bool)
        ensures
            r == old(self).pending,
            final(self).pending == false,
            final(self).status_info == old(self).status_info,
            final(self).sm_status_file == old(self).sm_status_file,
            final(self).sm_queue_file == old(self).sm_queue_file,
    {
        let r = self.pending;
        self.pending = false;
        r
    }
}

/// One filesystem notification for a watched file, as the caller maps
/// the platform's event.
#[derive(Debug, Clone, Copy, PartialEq, Eq, Structural)]
pub enum FileEvent {
    /// The file was written.
    Write,
    /// The file was created.
    Create,
    /// Any other notification.
    Other,
}

/// Which notifications make a watcher re-read its file: writes and
/// creations; everything else is ignored.
pub fn should_reparse(event: FileEvent) -> (r: bool)
    ensures
        r == (event == FileEvent::Write || event == FileEvent::Create),
{
    match event {
        FileEvent::Write => true,
        FileEvent::Create => true,
        FileEvent::Other => false,
    }
}

} // verus!
