//! Daemon-side activity log ring buffer.
//!
//! The daemon captures file events into a bounded, sequence-tagged buffer so
//! IPC clients (the TUI) can poll for new entries incrementally. Sequence ids
//! start at 1 and grow by one per entry; only the newest `MAX_ACTIVITY`
//! entries are kept.
use vstd::prelude::*;
use std::collections::VecDeque;

verus! {

/// Maximum number of activity entries retained in the ring buffer.
pub const MAX_ACTIVITY: usize = 200;

/// One activity-log entry.
#[derive(Debug, Clone, PartialEq, Eq)]
pub struct ActivityEntry {
    /// Sequence id assigned by the log.
    pub seq: u64,
    /// Wall-clock time of the event (`HH:MM:SS`).
    pub timestamp: String,
    /// Human-readable description.
    pub description: String,
    /// Whether the event is a failure.
    pub is_error: bool,
}

impl ActivityEntry {
    /// A copy of the entry.
    pub fn duplicate(&self) -> (r: Self)
        ensures
            r == *self,
    {
        ActivityEntry {
            seq: self.seq,
            timestamp: self.timestamp.clone(),
            description: self.description.clone(),
            is_error: self.is_error,
        }
    }
}

/// The entries of `s` whose sequence id is greater than `cursor`, in order.
pub open spec fn newer_than(s: Seq<ActivityEntry>, cursor: u64) -> Seq<ActivityEntry>
    decreases s.len(),
{
    if s.len() == 0 {
        s
    } else if s.last().seq > cursor {
        newer_than(s.drop_last(), cursor).push(s.last())
    } else {
        newer_than(s.drop_last(), cursor)
    }
}

/// The cursor `since` returns: the last new entry's id, or the input cursor.
pub open spec fn next_cursor(new_entries: Seq<ActivityEntry>, cursor: u64) -> u64 {
    if new_entries.len() > 0 {
        new_entries.last().seq
    } else {
        cursor
    }
}

/// The newest `MAX_ACTIVITY` entries of `s`.
pub open spec fn keep_newest(s: Seq<ActivityEntry>) -> Seq<ActivityEntry> {
    if s.len() > MAX_ACTIVITY {
        s.subrange(s.len() - MAX_ACTIVITY, s.len() as int)
    } else {
        s
    }
}

/// Sequence ids strictly increase along `s` and stay at or below `last`.
pub open spec fn increasing_upto(s: Seq<ActivityEntry>, last: u64) -> bool {
    &&& forall|i: int, j: int| 0 <= i < j < s.len() ==> s[i].seq < s[j].seq
    &&& forall|i: int| 0 <= i < s.len() ==> s[i].seq <= last
}

/// The entry a push of `d` (timestamp, description, failure flag) records
/// under id `seq`.
pub open spec fn entry_of(seq: u64, d: (String, String, bool)) -> ActivityEntry {
    ActivityEntry { seq, timestamp: d.0, description: d.1, is_error: d.2 }
}

/// The id handed out after `last`.
pub open spec fn next_id(last: u64) -> u64 {
    if last == u64::MAX {
        0
    } else {
        (last + 1) as u64
    }
}

/// `after` is the log `before` with `d` pushed onto it: the next id, and the
/// newest `MAX_ACTIVITY` of the old entries plus the new one.
pub open spec fn pushed_onto(before: (Seq<ActivityEntry>, u64), after: (Seq<ActivityEntry>, u64), d: (String, String, bool)) -> bool {
    &&& after.1 == next_id(before.1)
    &&& after.0 == keep_newest(before.0.push(entry_of(after.1, d)))
}

/// Bounded, sequence-tagged activity log.
pub struct ActivityLog {
    entries: VecDeque<ActivityEntry>,
    next_seq: u64,
}

impl View for ActivityLog {
    /// The retained entries (oldest first) and the last id given out.
    type V = (Seq<ActivityEntry>, u64);

    closed spec fn view(&self) -> (Seq<ActivityEntry>, u64) {
        (self.entries@, self.next_seq)
    }
}

impl ActivityLog {
    /// The retained entries, oldest first.
    pub open spec fn entries(&self) -> Seq<ActivityEntry> {
        self@.0
    }

    /// The number of entries ever pushed (modulo 2^64): the last id given out.
    pub open spec fn last_seq(&self) -> u64 {
        self@.1
    }

    /// The log holds at most `MAX_ACTIVITY` entries.
    pub open spec fn wf(&self) -> bool {
        self.entries().len() <= MAX_ACTIVITY
    }

    /// An empty log.
    pub fn new() -> (r: Self)
        ensures
            r.entries() == Seq::<ActivityEntry>::empty(),
            r.last_seq() == 0,
            r.wf(),
            increasing_upto(r.entries(), r.last_seq()),
    {
        ActivityLog { entries: VecDeque::new(), next_seq: 0 }
    }

    /// Append a new entry with the next sequence id, dropping the oldest
    /// entries beyond `MAX_ACTIVITY`.
    pub fn push(&mut self, timestamp: String, description: String, is_error: bool)
        requires
            old(self).wf(),
        ensures
            final(self).wf(),
            increasing_upto(old(self).entries(), old(self).last_seq()) && old(self).last_seq()
                < u64::MAX ==> increasing_upto(final(self).entries(), final(self).last_seq()),
            final(self).last_seq() == (if old(self).last_seq() == u64::MAX {
                0
            } else {
                (old(self).last_seq() + 1) as u64
            }),
            final(self).entries() == keep_newest(
                old(self).entries().push(
                    ActivityEntry { seq: final(self).last_seq(), timestamp, description, is_error },
                ),
            ),
            pushed_onto(old(self)@, final(self)@, (timestamp, description, is_error)),
    {
        let seq = self.next_seq.wrapping_add(1);
        self.next_seq = seq;
        let entry = ActivityEntry { seq, timestamp, description, is_error };
        let ghost pushed = self.entries@.push(entry);
        self.entries.push_back(entry);
        assert(self.entries@ == pushed);
        assert(pushed.subrange(0, pushed.len() as int) =~= pushed);
        while self.entries.len() > MAX_ACTIVITY
            invariant
                self.entries@ == pushed.subrange(
                    pushed.len() - self.entries@.len(),
                    pushed.len() as int,
                ),
                self.entries@.len() >= MAX_ACTIVITY || self.entries@.len() == pushed.len(),
                self.entries@.len() <= pushed.len(),
                self.next_seq == seq,
            decreases self.entries@.len(),
        {
            self.entries.pop_front();
            assert(self.entries@ =~= pushed.subrange(
                pushed.len() - self.entries@.len(),
                pushed.len() as int,
            ));
        }
        assert(self.entries@ =~= keep_newest(pushed));
        proof {
            let old_entries = pushed.drop_last();
            if increasing_upto(old_entries, old(self).next_seq) && old(self).next_seq < u64::MAX {
                assert(increasing_upto(pushed, seq)) by {
                    assert forall|i: int, j: int| 0 <= i < j < pushed.len() implies pushed[i].seq
                        < pushed[j].seq by {
                        if j == pushed.len() - 1 {
                            assert(pushed[i] == old_entries[i]);
                        } else {
                            assert(pushed[i] == old_entries[i]);
                            assert(pushed[j] == old_entries[j]);
                        }
                    }
                    assert forall|i: int| 0 <= i < pushed.len() implies pushed[i].seq <= seq by {
                        if i < pushed.len() - 1 {
                            assert(pushed[i] == old_entries[i]);
                        }
                    }
                }
                let k = pushed.len() - self.entries@.len();
                assert forall|i: int, j: int| 0 <= i < j < self.entries@.len() implies
                    self.entries@[i].seq < self.entries@[j].seq by {
                    assert(self.entries@[i] == pushed[k + i]);
                    assert(self.entries@[j] == pushed[k + j]);
                }
                assert forall|i: int| 0 <= i < self.entries@.len() implies self.entries@[i].seq
                    <= seq by {
                    assert(self.entries@[i] == pushed[k + i]);
                }
            }
        }
    }

    /// All entries with `seq > cursor`, oldest first, plus the new cursor (the
    /// highest id returned, or `cursor` when nothing is new).
    pub fn since(&self, cursor: u64) -> (r: (Vec<ActivityEntry>, u64))
        ensures
            r.0@ == newer_than(self.entries(), cursor),
            r.1 == next_cursor(newer_than(self.entries(), cursor), cursor),
    {
        let mut out: Vec<ActivityEntry> = Vec::new();
        let n = self.entries.len();
        let mut i: usize = 0;
        while i < n
            invariant
                n == self.entries@.len(),
                i <= n,
                out@ == newer_than(self.entries@.take(i as int), cursor),
            decreases n - i,
        {
            let e = &self.entries[i];
            assert(self.entries@.take(i + 1).drop_last() =~= self.entries@.take(i as int));
            if e.seq > cursor {
                out.push(e.duplicate());
            }
            i = i + 1;
        }
        assert(self.entries@.take(n as int) =~= self.entries@);
        let new_cursor = if out.len() > 0 {
            out[out.len() - 1].seq
        } else {
            cursor
        };
        (out, new_cursor)
    }
}

/// No entry of `s` is newer than a cursor at or above all its ids.
pub proof fn lemma_newer_than_none(s: Seq<ActivityEntry>, m: u64)
    requires
        forall|i: int| 0 <= i < s.len() ==> s[i].seq <= m,
    ensures
        newer_than(s, m).len() == 0,
    decreases s.len(),
{
    if s.len() > 0 {
        assert forall|i: int| 0 <= i < s.drop_last().len() implies s.drop_last()[i].seq <= m by {
            assert(s.drop_last()[i] == s[i]);
        }
        lemma_newer_than_none(s.drop_last(), m);
    }
}

/// Polling again with the cursor `since` returned yields nothing new: when
/// ids increase along the log, `since(since(c).1)` is empty.
pub proof fn law_poll_with_returned_cursor_is_empty(log: &ActivityLog, cursor: u64)
    requires
        increasing_upto(log.entries(), log.last_seq()),
    ensures
        newer_than(log.entries(), next_cursor(newer_than(log.entries(), cursor), cursor)).len()
            == 0,
{
    let s = log.entries();
    if s.len() > 0 && s.last().seq > cursor {
        assert(newer_than(s, cursor).last() == s.last());
        assert forall|i: int| 0 <= i < s.len() implies s[i].seq <= s.last().seq by {
            if i < s.len() - 1 {
                assert(s[i].seq < s[s.len() - 1].seq);
            }
        }
        lemma_newer_than_none(s, s.last().seq);
    } else {
        assert forall|i: int| 0 <= i < s.len() implies s[i].seq <= cursor by {
            if i < s.len() - 1 {
                assert(s[i].seq < s[s.len() - 1].seq);
            }
        }
        lemma_newer_than_none(s, cursor);
    }
}

/// After a push, polling with the id handed out before it returns exactly
/// the pushed entry (when ids increase and have not wrapped).
pub proof fn law_push_then_poll_returns_entry(
    before: &ActivityLog,
    after: &ActivityLog,
    entry: ActivityEntry,
)
    requires
        before.wf(),
        increasing_upto(before.entries(), before.last_seq()),
        before.last_seq() < u64::MAX,
        entry.seq == before.last_seq() + 1,
        after.entries() == keep_newest(before.entries().push(entry)),
    ensures
        newer_than(after.entries(), before.last_seq()) == seq![entry],
{
    let s = after.entries();
    let p = before.entries().push(entry);
    let k = p.len() - s.len();
    assert(s.len() > 0 && s.last() == entry) by {
        assert(s[s.len() - 1] == p[k + s.len() - 1]);
    }
    assert forall|i: int| 0 <= i < s.drop_last().len() implies s.drop_last()[i].seq
        <= before.last_seq() by {
        assert(s.drop_last()[i] == p[k + i]);
        assert(p[k + i] == before.entries()[k + i]);
    }
    lemma_newer_than_none(s.drop_last(), before.last_seq());
    assert(newer_than(s, before.last_seq()) =~= seq![entry]);
}

/// The entries a log holding `start` holds after `pushed` is pushed onto it,
/// one entry at a time.
pub open spec fn after_pushes(start: Seq<ActivityEntry>, pushed: Seq<ActivityEntry>) -> Seq<ActivityEntry>
    decreases pushed.len(),
{
    if pushed.len() == 0 {
        start
    } else {
        keep_newest(after_pushes(start, pushed.drop_last()).push(pushed.last()))
    }
}

/// Trimming before a push changes nothing: keeping the newest entries of a
/// trimmed log plus one more is keeping the newest of the whole.
proof fn lemma_keep_newest_push(s: Seq<ActivityEntry>, e: ActivityEntry)
    ensures
        keep_newest(keep_newest(s).push(e)) == keep_newest(s.push(e)),
{
    if s.len() > MAX_ACTIVITY {
        assert(keep_newest(keep_newest(s).push(e)) =~= keep_newest(s.push(e)));
    }
}

/// Any number of pushes onto a log keeps exactly the newest `MAX_ACTIVITY`
/// entries of everything it was given, oldest first.
pub proof fn law_pushes_keep_newest(start: Seq<ActivityEntry>, pushed: Seq<ActivityEntry>)
    requires
        start.len() <= MAX_ACTIVITY,
    ensures
        after_pushes(start, pushed) == keep_newest(start + pushed),
    decreases pushed.len(),
{
    if pushed.len() == 0 {
        assert(start + pushed =~= start);
    } else {
        law_pushes_keep_newest(start, pushed.drop_last());
        lemma_keep_newest_push(start + pushed.drop_last(), pushed.last());
        assert((start + pushed.drop_last()).push(pushed.last()) =~= start + pushed);
    }
}

/// The entries pushed onto a fresh log from `data`, numbered from 1.
pub open spec fn numbered(data: Seq<(String, String, bool)>) -> Seq<ActivityEntry> {
    Seq::new(data.len(), |i: int| entry_of((i + 1) as u64, data[i]))
}

/// The log states `logs` start fresh and each is the one before with the
/// next item of `data` pushed.
pub open spec fn fresh_then_pushed(logs: Seq<(Seq<ActivityEntry>, u64)>, data: Seq<(String, String, bool)>) -> bool {
    &&& logs.len() == data.len() + 1
    &&& logs[0].0 == Seq::<ActivityEntry>::empty()
    &&& logs[0].1 == 0
    &&& forall|i: int| 0 <= i < data.len() ==> pushed_onto(#[trigger] logs[i], logs[i + 1], data[i])
}

/// After `i` pushes a fresh log has handed out ids `1..=i` and keeps the
/// newest of the entries numbered so far.
proof fn lemma_fresh_prefix(logs: Seq<(Seq<ActivityEntry>, u64)>, data: Seq<(String, String, bool)>, i: int)
    requires
        fresh_then_pushed(logs, data),
        data.len() < u64::MAX,
        0 <= i <= data.len(),
    ensures
        logs[i].1 == i,
        logs[i].0 == keep_newest(numbered(data.take(i))),
    decreases i,
{
    if i == 0 {
        assert(numbered(data.take(0)) =~= Seq::<ActivityEntry>::empty());
    } else {
        lemma_fresh_prefix(logs, data, i - 1);
        assert(pushed_onto(logs[i - 1], logs[i], data[i - 1]));
        let e = entry_of(i as u64, data[i - 1]);
        lemma_keep_newest_push(numbered(data.take(i - 1)), e);
        assert(numbered(data.take(i - 1)).push(e) =~= numbered(data.take(i)));
    }
}

/// A fresh log after `n` pushes: it has handed out ids `1..=n`, holds the
/// newest `min(n, MAX_ACTIVITY)` entries with ids `n - len + 1 ..= n` in
/// order, polling from `n - 1` returns exactly the last entry pushed, and
/// polling from `n` returns nothing.
pub proof fn law_fresh_log_after_pushes(logs: Seq<(Seq<ActivityEntry>, u64)>, data: Seq<(String, String, bool)>)
    requires
        fresh_then_pushed(logs, data),
        data.len() < u64::MAX,
    ensures
        logs.last().1 == data.len(),
        logs.last().0 == keep_newest(numbered(data)),
        logs.last().0.len() == (if data.len() < MAX_ACTIVITY {
            data.len()
        } else {
            MAX_ACTIVITY as nat
        }),
        forall|k: int|
            0 <= k < logs.last().0.len() ==> (#[trigger] logs.last().0[k]).seq == data.len()
                - logs.last().0.len() + k + 1,
        data.len() > 0 ==> newer_than(logs.last().0, (data.len() - 1) as u64) == seq![
            entry_of(data.len() as u64, data.last()),
        ],
        newer_than(logs.last().0, data.len() as u64).len() == 0,
{
    let n = data.len() as int;
    lemma_fresh_prefix(logs, data, n);
    assert(data.take(n) =~= data);
    let s = logs.last().0;
    let all = numbered(data);
    let len = s.len() as int;
    assert forall|k: int| 0 <= k < len implies (#[trigger] s[k]).seq == n - len + k + 1 by {
        if n > MAX_ACTIVITY {
            assert(s[k] == all[n - MAX_ACTIVITY + k]);
        } else {
            assert(s[k] == all[k]);
        }
    }
    assert forall|k: int| 0 <= k < s.len() implies s[k].seq <= n by {
        assert(s[k].seq == n - len + k + 1);
    }
    lemma_newer_than_none(s, n as u64);
    if n > 0 {
        assert(s.len() > 0);
        assert(s.last() == entry_of(n as u64, data.last())) by {
            assert(s[len - 1].seq == n);
            if n > MAX_ACTIVITY {
                assert(s[len - 1] == all[n - 1]);
            } else {
                assert(s[len - 1] == all[n - 1]);
            }
        }
        assert forall|k: int| 0 <= k < s.drop_last().len() implies s.drop_last()[k].seq
            <= (n - 1) as u64 by {
            assert(s.drop_last()[k] == s[k]);
            assert(s[k].seq == n - len + k + 1);
        }
        lemma_newer_than_none(s.drop_last(), (n - 1) as u64);
        assert(newer_than(s, (n - 1) as u64) =~= seq![entry_of(n as u64, data.last())]);
    }
}

} // verus!
