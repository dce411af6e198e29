//! The request deduplicator: a short-lived, time-windowed guard that
//! suppresses rapid-fire duplicate submissions of identical text. Requests
//! are keyed by a heuristic fingerprint — the text's byte length joined
//! with its first fifty characters — a deliberately collision-prone key
//! whose false positives only cost an extra rejected call.

use crate::text::{chars_of, push_decimal, spec_decimal, string_of};
use vstd::prelude::*;

verus! {

/// How long a fingerprint may sit in the table before a new request sweeps
/// it out.
pub const SWEEP_AGE_MS: u64 = 5000;

/// How close together two submissions of the same fingerprint must be for
/// the second to count as a duplicate.
pub const DUPLICATE_WINDOW_MS: u64 = 500;

/// How many leading characters of the text enter the fingerprint.
pub const FINGERPRINT_PREFIX_LEN: usize = 50;

/// One tracked submission: its fingerprint and when it was submitted, in
/// milliseconds of some monotonic clock.
pub struct InFlightRecord {
    pub fingerprint: String,
    pub submitted_at: u64,
}

/// The UTF-8 byte length of a text, as the machine reports it.
pub open spec fn byte_len(text: Seq<char>) -> nat {
    (vstd::utf8::encode_utf8(text).len() as usize) as nat
}

/// The fingerprint of a text: its byte length in decimal, a dash, and its
/// first fifty characters.
pub open spec fn spec_fingerprint(text: Seq<char>) -> Seq<char> {
    let prefix_len = if text.len() < FINGERPRINT_PREFIX_LEN as nat {
        text.len()
    } else {
        FINGERPRINT_PREFIX_LEN as nat
    };
    spec_decimal(byte_len(text)) + seq!['-'] + text.take(prefix_len as int)
}

/// Milliseconds elapsed from `at` to `now`; zero when the clock appears to
/// have gone backwards.
pub open spec fn spec_elapsed(at: u64, now: u64) -> u64 {
    if now >= at {
        (now - at) as u64
    } else {
        0
    }
}

/// The submission time recorded for `fp`: the latest binding wins.
pub open spec fn lookup_at(entries: Seq<InFlightRecord>, fp: Seq<char>) -> Option<u64>
    decreases entries.len(),
{
    if entries.len() == 0 {
        None
    } else if entries.last().fingerprint@ == fp {
        Some(entries.last().submitted_at)
    } else {
        lookup_at(entries.drop_last(), fp)
    }
}

/// The table with every record older than the sweep age removed.
pub open spec fn spec_prune(entries: Seq<InFlightRecord>, now: u64) -> Seq<InFlightRecord>
    decreases entries.len(),
{
    if entries.len() == 0 {
        Seq::empty()
    } else if spec_elapsed(entries.last().submitted_at, now) < SWEEP_AGE_MS {
        spec_prune(entries.drop_last(), now).push(entries.last())
    } else {
        spec_prune(entries.drop_last(), now)
    }
}

/// The table with the latest binding of `fp` removed, if any.
pub open spec fn spec_remove(entries: Seq<InFlightRecord>, fp: Seq<char>) -> Seq<InFlightRecord>
    decreases entries.len(),
{
    if entries.len() == 0 {
        Seq::empty()
    } else if entries.last().fingerprint@ == fp {
        entries.drop_last()
    } else {
        spec_remove(entries.drop_last(), fp).push(entries.last())
    }
}

/// The table after the fingerprint `fp` is recorded at `now`, replacing
/// any earlier binding of the same key.
pub open spec fn spec_register(entries: Seq<InFlightRecord>, fp: String, now: u64) -> Seq<
    InFlightRecord,
> {
    spec_remove(entries, fp@).push(InFlightRecord { fingerprint: fp, submitted_at: now })
}

/// Whether `fp` was recorded within the duplicate window before `now`.
pub open spec fn is_recent_duplicate(entries: Seq<InFlightRecord>, fp: Seq<char>, now: u64) -> bool {
    match lookup_at(entries, fp) {
        Some(at) => spec_elapsed(at, now) < DUPLICATE_WINDOW_MS,
        None => false,
    }
}

/// Compute the fingerprint of a text, per `spec_fingerprint`.
pub fn fingerprint(text: &str) -> (r: String)
    ensures
        r@ == spec_fingerprint(text@),
{
    let chars = chars_of(text);
    let mut out: Vec<char> = Vec::new();
    push_decimal(&mut out, text.len());
    out.push('-');
    proof {
        assert(out@ =~= spec_decimal(byte_len(chars@)) + seq!['-'] + chars@.take(0));
    }
    let prefix_len = if chars.len() < FINGERPRINT_PREFIX_LEN {
        chars.len()
    } else {
        FINGERPRINT_PREFIX_LEN
    };
    let mut i: usize = 0;
    while i < prefix_len
        invariant
            prefix_len <= chars@.len(),
            i <= prefix_len,
            out@ == spec_decimal(byte_len(chars@)) + seq!['-'] + chars@.take(i as int),
        decreases prefix_len - i,
    {
        out.push(chars[i]);
        i = i + 1;
        proof {
            assert(out@ =~= spec_decimal(byte_len(chars@)) + seq!['-'] + chars@.take(
                i as int,
            ));
        }
    }
    string_of(&out)
}

/// The in-memory table of in-flight requests; owned by the application and
/// handed to the translation flow, never ambient global state. Does not
/// persist across restarts.
pub struct Deduplicator {
    entries: Vec<InFlightRecord>,
}

impl Deduplicator {
    /// The tracked records, oldest first.
    pub closed spec fn records(&self) -> Seq<InFlightRecord> {
        self.entries@
    }

    /// An empty table.
    pub fn new() -> (r: Self)
        ensures
            r.records() == Seq::<InFlightRecord>::empty(),
    {
        Deduplicator { entries: Vec::new() }
    }

    /// One request admission step: sweep records older than the sweep age,
    /// then reject the request if its fingerprint was recorded within the
    /// duplicate window, else record it (replacing any earlier binding) and
    /// accept.
    pub fn check_and_register(&mut self, fp: &String, now_ms: u64) -> (accepted: bool)
        ensures
            ({
                let pruned = spec_prune(old(self).records(), now_ms);
                if is_recent_duplicate(pruned, fp@, now_ms) {
                    !accepted && final(self).records() == pruned
                } else {
                    accepted && final(self).records() == spec_register(pruned, *fp, now_ms)
                }
            }),
    {
        self.prune(now_ms);
        match self.find_last(fp) {
            Some(i) => {
                let at = self.entries[i].submitted_at;
                if elapsed_ms(at, now_ms) < DUPLICATE_WINDOW_MS {
                    return false;
                }
                proof {
                    lemma_remove_at(self.entries@, fp@, i as int);
                }
                self.entries.remove(i);
                self.entries.push(InFlightRecord { fingerprint: fp.clone(), submitted_at: now_ms });
                true
            },
            None => {
                proof {
                    lemma_remove_absent(self.entries@, fp@);
                }
                self.entries.push(InFlightRecord { fingerprint: fp.clone(), submitted_at: now_ms });
                true
            },
        }
    }

    /// Forget the fingerprint once the underlying call completed, so a
    /// legitimate repeat is never blocked.
    pub fn release(&mut self, fp: &String)
        ensures
            final(self).records() == spec_remove(old(self).records(), fp@),
    {
        match self.find_last(fp) {
            Some(i) => {
                proof {
                    lemma_remove_at(self.entries@, fp@, i as int);
                }
                self.entries.remove(i);
            },
            None => {
                proof {
                    lemma_remove_absent(self.entries@, fp@);
                }
            },
        }
    }

    fn prune(&mut self, now_ms: u64)
        ensures
            final(self).records() == spec_prune(old(self).records(), now_ms),
    {
        let mut kept: Vec<InFlightRecord> = Vec::new();
        let mut i: usize = 0;
        while i < self.entries.len()
            invariant
                i <= self.entries@.len(),
                self.entries@ == old(self).entries@,
                kept@ == spec_prune(self.entries@.take(i as int), now_ms),
            decreases self.entries@.len() - i,
        {
            proof {
                assert(self.entries@.take(i + 1).drop_last() =~= self.entries@.take(i as int));
                assert(self.entries@.take(i + 1).last() == self.entries@[i as int]);
            }
            let at = self.entries[i].submitted_at;
            if elapsed_ms(at, now_ms) < SWEEP_AGE_MS {
                kept.push(
                    InFlightRecord {
                        fingerprint: self.entries[i].fingerprint.clone(),
                        submitted_at: at,
                    },
                );
            }
            i = i + 1;
        }
        proof {
            assert(self.entries@.take(self.entries@.len() as int) =~= self.entries@);
        }
        self.entries = kept;
    }

    /// The index of the latest record bearing this fingerprint.
    fn find_last(&self, fp: &String) -> (r: Option<usize>)
        ensures
            match r {
                Some(i) => i < self.records().len() && self.records()[i as int].fingerprint@ == fp@
                    && lookup_at(self.records(), fp@) == Some(
                    self.records()[i as int].submitted_at,
                ) && (forall|j: int|
                    i < j < self.records().len() ==> self.records()[j].fingerprint@ != fp@),
                None => lookup_at(self.records(), fp@) is None,
            },
    {
        let mut i: usize = self.entries.len();
        proof {
            assert(self.entries@.take(i as int) =~= self.entries@);
        }
        while i > 0
            invariant
                i <= self.entries@.len(),
                lookup_at(self.entries@, fp@) == lookup_at(self.entries@.take(i as int), fp@),
                forall|j: int| i <= j < self.entries@.len() ==> self.entries@[j].fingerprint@ != fp@,
            decreases i,
        {
            i = i - 1;
            proof {
                assert(self.entries@.take(i + 1).drop_last() =~= self.entries@.take(i as int));
                assert(self.entries@.take(i + 1).last() == self.entries@[i as int]);
            }
            if str_eq_strings(&self.entries[i].fingerprint, fp) {
                return Some(i);
            }
        }
        None
    }
}

fn elapsed_ms(at: u64, now: u64) -> (r: u64)
    ensures
        r == spec_elapsed(at, now),
{
    if now >= at {
        now - at
    } else {
        0
    }
}

fn str_eq_strings(a: &String, b: &String) -> (r: bool)
    ensures
        r == (a@ == b@),
{
    crate::text::str_eq(a.as_str(), b.as_str())
}

/// Removing the latest binding of `fp` is removing the record at its last
/// matching index.
proof fn lemma_remove_at(s: Seq<InFlightRecord>, fp: Seq<char>, i: int)
    requires
        0 <= i < s.len(),
        s[i].fingerprint@ == fp,
        forall|j: int| i < j < s.len() ==> s[j].fingerprint@ != fp,
    ensures
        spec_remove(s, fp) == s.remove(i),
    decreases s.len(),
{
    if i == s.len() - 1 {
        assert(s.remove(i) =~= s.drop_last());
    } else {
        lemma_remove_at(s.drop_last(), fp, i);
        assert(s.drop_last().remove(i).push(s.last()) =~= s.remove(i));
    }
}

/// Removing an absent fingerprint changes nothing.
proof fn lemma_remove_absent(s: Seq<InFlightRecord>, fp: Seq<char>)
    requires
        lookup_at(s, fp) is None,
    ensures
        spec_remove(s, fp) == s,
    decreases s.len(),
{
    if s.len() > 0 {
        lemma_remove_absent(s.drop_last(), fp);
        assert(spec_remove(s.drop_last(), fp).push(s.last()) =~= s);
    } else {
        assert(spec_remove(s, fp) =~= s);
    }
}

/// Two submissions of identical text issued under the duplicate window
/// apart: after the first is registered at `t1`, an admission check at
/// `t2` finds a recent duplicate, so the second call is rejected and no
/// upstream call is made.
pub proof fn lemma_duplicate_suppressed(
    entries: Seq<InFlightRecord>,
    fp: String,
    t1: u64,
    t2: u64,
)
    requires
        t1 <= t2,
        t2 - t1 < DUPLICATE_WINDOW_MS,
    ensures
        is_recent_duplicate(
            spec_prune(spec_register(spec_prune(entries, t1), fp, t1), t2),
            fp@,
            t2,
        ),
{
    lemma_registered_lookup(entries, fp, t1, t2);
}

/// Submissions of identical text issued at least the duplicate window
/// apart (but before the sweep age): the admission check at `t2` finds no
/// recent duplicate, so the second call proceeds.
pub proof fn lemma_repeat_after_window_proceeds(
    entries: Seq<InFlightRecord>,
    fp: String,
    t1: u64,
    t2: u64,
)
    requires
        t1 <= t2,
        DUPLICATE_WINDOW_MS <= t2 - t1 < SWEEP_AGE_MS,
    ensures
        !is_recent_duplicate(
            spec_prune(spec_register(spec_prune(entries, t1), fp, t1), t2),
            fp@,
            t2,
        ),
{
    lemma_registered_lookup(entries, fp, t1, t2);
}

/// While a registration at `t1` is within the sweep age at `t2`, it is
/// what the admission check at `t2` finds for its fingerprint.
proof fn lemma_registered_lookup(entries: Seq<InFlightRecord>, fp: String, t1: u64, t2: u64)
    requires
        t1 <= t2,
        t2 - t1 < SWEEP_AGE_MS,
    ensures
        lookup_at(spec_prune(spec_register(spec_prune(entries, t1), fp, t1), t2), fp@) == Some(t1),
{
    let rec = InFlightRecord { fingerprint: fp, submitted_at: t1 };
    let removed = spec_remove(spec_prune(entries, t1), fp@);
    let s1 = spec_register(spec_prune(entries, t1), fp, t1);
    assert(s1 == removed.push(rec));
    assert(s1.drop_last() =~= removed);
    assert(s1.last() == rec);
    assert(spec_elapsed(t1, t2) < SWEEP_AGE_MS);
    let pruned2 = spec_prune(s1, t2);
    assert(pruned2 == spec_prune(removed, t2).push(rec));
    assert(pruned2.drop_last() =~= spec_prune(removed, t2));
    assert(pruned2.last() == rec);
}

/// After the sweep age has passed since a fingerprint's only registration,
/// the sweep removes it and the admission check finds no duplicate at all.
pub proof fn lemma_repeat_after_sweep_proceeds(
    entries: Seq<InFlightRecord>,
    fp: String,
    t1: u64,
    t2: u64,
)
    requires
        t1 <= t2,
        t2 - t1 >= SWEEP_AGE_MS,
        forall|k: int| 0 <= k < entries.len() ==> entries[k].fingerprint@ != fp@,
    ensures
        lookup_at(spec_prune(spec_register(spec_prune(entries, t1), fp, t1), t2), fp@) is None,
        !is_recent_duplicate(
            spec_prune(spec_register(spec_prune(entries, t1), fp, t1), t2),
            fp@,
            t2,
        ),
{
    let pruned1 = spec_prune(entries, t1);
    lemma_prune_keeps_absent(entries, fp@, t1);
    lemma_lookup_absent(pruned1, fp@);
    lemma_remove_absent(pruned1, fp@);
    let rec = InFlightRecord { fingerprint: fp, submitted_at: t1 };
    let s1 = spec_register(pruned1, fp, t1);
    assert(s1 == pruned1.push(rec));
    assert(s1.drop_last() =~= pruned1);
    assert(s1.last() == rec);
    assert(spec_elapsed(t1, t2) >= SWEEP_AGE_MS);
    assert(spec_prune(s1, t2) == spec_prune(pruned1, t2));
    lemma_prune_keeps_absent(pruned1, fp@, t2);
    lemma_lookup_absent(spec_prune(pruned1, t2), fp@);
}

/// Sweeping never introduces a fingerprint that was not tracked.
proof fn lemma_prune_keeps_absent(s: Seq<InFlightRecord>, fp: Seq<char>, now: u64)
    requires
        forall|k: int| 0 <= k < s.len() ==> s[k].fingerprint@ != fp,
    ensures
        forall|k: int|
            0 <= k < spec_prune(s, now).len() ==> spec_prune(s, now)[k].fingerprint@ != fp,
    decreases s.len(),
{
    if s.len() > 0 {
        assert(forall|k: int| 0 <= k < s.drop_last().len() ==> s.drop_last()[k] == s[k]);
        lemma_prune_keeps_absent(s.drop_last(), fp, now);
        let p = spec_prune(s.drop_last(), now);
        if spec_elapsed(s.last().submitted_at, now) < SWEEP_AGE_MS {
            assert(spec_prune(s, now) == p.push(s.last()));
            assert(forall|k: int| 0 <= k < p.len() ==> p.push(s.last())[k] == p[k]);
            assert(p.push(s.last())[p.len() as int] == s.last());
            assert(s.last() == s[s.len() - 1]);
        }
    }
}

/// A fingerprint borne by no record is never found.
proof fn lemma_lookup_absent(s: Seq<InFlightRecord>, fp: Seq<char>)
    requires
        forall|k: int| 0 <= k < s.len() ==> s[k].fingerprint@ != fp,
    ensures
        lookup_at(s, fp) is None,
    decreases s.len(),
{
    if s.len() > 0 {
        lemma_lookup_absent(s.drop_last(), fp);
    }
}

} // verus!

