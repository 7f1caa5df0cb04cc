//! The resend rate limiter: a per-key cooldown gate. Checking the cooldown
//! and recording the attempt happen in one call on the exclusively borrowed
//! limiter, so two interleaved calls for one key cannot both pass.

use vstd::prelude::*;
use vstd::pervasive::VecAdditionalExecFns;
use crate::strutil::str_eq;

verus! {

/// The cooldown window between two permitted resends for one key: 60
/// seconds.
pub const RESEND_COOLDOWN_MS: u64 = 60000;

/// A key with the instant (milliseconds since the Unix epoch) of its last
/// permitted attempt.
pub struct LimiterEntry {
    pub key: String,
    pub last_ms: u64,
}

/// The recorded history of an entry sequence: each key's last permitted
/// instant.
spec fn entries_view(entries: Seq<LimiterEntry>) -> Map<Seq<char>, u64> {
    Map::new(
        |k: Seq<char>| exists|i: int| 0 <= i < entries.len() && #[trigger] entries[i].key@ == k,
        |k: Seq<char>|
            entries[choose|i: int| 0 <= i < entries.len() && #[trigger] entries[i].key@ == k].last_ms,
    )
}

/// The per-key cooldown gate.
pub struct ResendRateLimiter {
    entries: Vec<LimiterEntry>,
}

/// Whether the recorded history permits an attempt for `key` at `now_ms`:
/// no instant is recorded, or the cooldown has fully elapsed since it.
pub open spec fn spec_allowed(m: Map<Seq<char>, u64>, key: Seq<char>, now_ms: u64) -> bool {
    !m.dom().contains(key) || m[key] + RESEND_COOLDOWN_MS <= now_ms
}

impl ResendRateLimiter {
    /// The recorded history: each key's last permitted instant.
    pub closed spec fn view(&self) -> Map<Seq<char>, u64> {
        entries_view(self.entries@)
    }

    /// Keys are recorded at most once.
    pub closed spec fn wf(&self) -> bool {
        forall|i: int, j: int|
            0 <= i < j < self.entries@.len() ==> (#[trigger] self.entries@[i].key@)
                != (#[trigger] self.entries@[j].key@)
    }

    /// An empty limiter: no key has a recorded instant.
    pub fn new() -> (r: Self)
        ensures
            r.wf(),
            r@ == Map::<Seq<char>, u64>::empty(),
    {
        let limiter = ResendRateLimiter { entries: Vec::new() };
        proof {
            assert(limiter@ =~= Map::<Seq<char>, u64>::empty());
        }
        limiter
    }

    /// Permit or refuse an attempt for `key` at `now_ms`, in one atomic
    /// check-and-record step: permitted exactly when no instant is recorded
    /// for the key or the cooldown has elapsed since it, and only a
    /// permitted attempt records the new instant.
    pub fn allow(&mut self, key: &str, now_ms: u64) -> (r: bool)
        requires
            old(self).wf(),
        ensures
            final(self).wf(),
            r == spec_allowed(old(self)@, key@, now_ms),
            r ==> final(self)@ == old(self)@.insert(key@, now_ms),
            !r ==> final(self)@ == old(self)@,
    {
        let n = self.entries.len();
        let mut i: usize = 0;
        while i < n
            invariant
                n == self.entries@.len(),
                0 <= i <= n,
                *self == *old(self),
                old(self).wf(),
                forall|j: int| 0 <= j < i ==> (#[trigger] self.entries@[j].key@) != key@,
            decreases n - i,
        {
            if str_eq(self.entries[i].key.as_str(), key) {
                proof {
                    assert(old(self)@.dom().contains(key@));
                    lemma_unique_key_idx(self.entries@, key@, i as int);
                }
                if self.entries[i].last_ms <= u64::MAX - RESEND_COOLDOWN_MS
                    && self.entries[i].last_ms + RESEND_COOLDOWN_MS <= now_ms {
                    let updated = LimiterEntry { key: key.to_owned(), last_ms: now_ms };
                    self.entries.set(i, updated);
                    proof {
                        lemma_set_view(old(self).entries@, self.entries@, i as int, key@, now_ms);
                    }
                    return true;
                } else {
                    return false;
                }
            }
            i = i + 1;
        }
        proof {
            assert(!old(self)@.dom().contains(key@));
        }
        let entry = LimiterEntry { key: key.to_owned(), last_ms: now_ms };
        self.entries.push(entry);
        proof {
            lemma_push_view(old(self).entries@, self.entries@, key@, now_ms);
        }
        true
    }
}

/// Law: one permitted attempt locks its key for a full cooldown window.
/// After an attempt permitted and recorded at `t1`, any attempt at `t2`
/// inside the window is refused, and any attempt at `t3` at or past the
/// window's end is permitted again.
pub proof fn lemma_cooldown_window(
    m: Map<Seq<char>, u64>,
    key: Seq<char>,
    t1: u64,
    t2: u64,
    t3: u64,
)
    requires
        spec_allowed(m, key, t1),
        t2 < t1 + RESEND_COOLDOWN_MS,
        t1 + RESEND_COOLDOWN_MS <= t3,
    ensures
        !spec_allowed(m.insert(key, t1), key, t2),
        spec_allowed(m.insert(key, t1), key, t3),
{
}

/// With pairwise-distinct keys, any index holding a given key is the chosen
/// one.
proof fn lemma_unique_key_idx(entries: Seq<LimiterEntry>, key: Seq<char>, i: int)
    requires
        forall|a: int, b: int|
            0 <= a < b < entries.len() ==> (#[trigger] entries[a].key@) != (
            #[trigger] entries[b].key@),
        0 <= i < entries.len(),
        entries[i].key@ == key,
    ensures
        (choose|j: int| 0 <= j < entries.len() && #[trigger] entries[j].key@ == key) == i,
{
    let c = choose|j: int| 0 <= j < entries.len() && #[trigger] entries[j].key@ == key;
    assert(0 <= c < entries.len() && entries[c].key@ == key);
    if c < i {
        assert(entries[c].key@ != entries[i].key@);
    } else if i < c {
        assert(entries[i].key@ != entries[c].key@);
    }
}

/// Replacing the entry of a key with a fresh instant updates the history at
/// that key alone.
proof fn lemma_set_view(
    before: Seq<LimiterEntry>,
    after: Seq<LimiterEntry>,
    i: int,
    key: Seq<char>,
    now_ms: u64,
)
    requires
        forall|a: int, b: int|
            0 <= a < b < before.len() ==> (#[trigger] before[a].key@) != (#[trigger] before[b].key@),
        0 <= i < before.len(),
        before[i].key@ == key,
        after == before.update(i, LimiterEntry { key: after[i].key, last_ms: now_ms }),
        after[i].key@ == key,
    ensures
        entries_view(after) == entries_view(before).insert(key, now_ms),
        forall|a: int, b: int|
            0 <= a < b < after.len() ==> (#[trigger] after[a].key@) != (#[trigger] after[b].key@),
{
    assert forall|a: int, b: int|
        0 <= a < b < after.len() implies (#[trigger] after[a].key@) != (
    #[trigger] after[b].key@) by {
        assert(before[a].key@ != before[b].key@);
    }
    assert(entries_view(after) =~= entries_view(before).insert(key, now_ms)) by {
        assert forall|k: Seq<char>| entries_view(after).dom().contains(k) implies entries_view(
            before,
        ).insert(key, now_ms).dom().contains(k) by {
            let w = choose|j: int| 0 <= j < after.len() && #[trigger] after[j].key@ == k;
            if w != i {
                assert(before[w].key@ == k);
            }
        }
        assert forall|k: Seq<char>|
            entries_view(before).insert(key, now_ms).dom().contains(k) implies entries_view(
            after,
        ).dom().contains(k) by {
            if k == key {
                assert(after[i].key@ == k);
            } else {
                let w = choose|j: int| 0 <= j < before.len() && #[trigger] before[j].key@ == k;
                assert(after[w].key@ == k);
            }
        }
        assert forall|k: Seq<char>| entries_view(after).dom().contains(k) implies entries_view(
            after,
        )[k] == entries_view(before).insert(key, now_ms)[k] by {
            let w = choose|j: int| 0 <= j < after.len() && #[trigger] after[j].key@ == k;
            lemma_unique_key_idx(after, k, w);
            if k == key {
                lemma_unique_key_idx(after, key, i);
            } else {
                assert(before[w].key@ == k);
                lemma_unique_key_idx(before, k, w);
            }
        }
    }
}

/// Appending an entry for an unrecorded key adds that key's instant to the
/// history.
proof fn lemma_push_view(
    before: Seq<LimiterEntry>,
    after: Seq<LimiterEntry>,
    key: Seq<char>,
    now_ms: u64,
)
    requires
        forall|a: int, b: int|
            0 <= a < b < before.len() ==> (#[trigger] before[a].key@) != (#[trigger] before[b].key@),
        forall|j: int| 0 <= j < before.len() ==> (#[trigger] before[j].key@) != key,
        after == before.push(LimiterEntry { key: after[before.len() as int].key, last_ms: now_ms }),
        after[before.len() as int].key@ == key,
    ensures
        entries_view(after) == entries_view(before).insert(key, now_ms),
        forall|a: int, b: int|
            0 <= a < b < after.len() ==> (#[trigger] after[a].key@) != (#[trigger] after[b].key@),
{
    let n = before.len() as int;
    assert forall|a: int, b: int|
        0 <= a < b < after.len() implies (#[trigger] after[a].key@) != (
    #[trigger] after[b].key@) by {
        if b < n {
            assert(before[a].key@ != before[b].key@);
        } else {
            assert(before[a].key@ != key);
        }
    }
    assert(entries_view(after) =~= entries_view(before).insert(key, now_ms)) by {
        assert forall|k: Seq<char>| entries_view(after).dom().contains(k) implies entries_view(
            before,
        ).insert(key, now_ms).dom().contains(k) by {
            let w = choose|j: int| 0 <= j < after.len() && #[trigger] after[j].key@ == k;
            if w < n {
                assert(before[w].key@ == k);
            }
        }
        assert forall|k: Seq<char>|
            entries_view(before).insert(key, now_ms).dom().contains(k) implies entries_view(
            after,
        ).dom().contains(k) by {
            if k == key {
                assert(after[n].key@ == k);
            } else {
                let w = choose|j: int| 0 <= j < before.len() && #[trigger] before[j].key@ == k;
                assert(after[w].key@ == k);
            }
        }
        assert forall|k: Seq<char>| entries_view(after).dom().contains(k) implies entries_view(
            after,
        )[k] == entries_view(before).insert(key, now_ms)[k] by {
            let w = choose|j: int| 0 <= j < after.len() && #[trigger] after[j].key@ == k;
            if k == key {
                if w < n {
                    assert(before[w].key@ != key);
                }
                assert(w == n);
            } else {
                assert(w < n);
                assert(before[w].key@ == k);
                lemma_unique_key_idx(before, k, w);
            }
        }
    }
}

} // verus!
