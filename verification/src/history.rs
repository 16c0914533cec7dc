//! Per-slot, time-ordered, append-only audit history.
//!
//! Each (site, page, profile) triple owns one independent log of summaries,
//! ordered by strictly increasing run id and immutable once appended. An
//! append whose run id does not exceed the slot's last one fails with
//! [`HistoryError::OutOfOrderRun`] and changes nothing, so a stale or
//! duplicate run can never corrupt the order — the check and the write are
//! one conditional operation, not a read followed by a write. The
//! latest-only and full-trend read views are both served from this one log.

use vstd::prelude::*;

use crate::resolver::{ProfileKey, ProfileKeyV};
use crate::AuditSummary;

verus! {

/// Why an append was refused. Fatal for that one append only; the caller
/// owns any retry policy.
#[derive(Debug, Clone, Copy, PartialEq, Eq, Structural)]
pub enum HistoryError {
    /// The summary's run id does not exceed the slot's last run id: the run
    /// is stale or a duplicate.
    OutOfOrderRun,
}

/// What identifies one history slot, mathematically.
pub type SlotKey = (Seq<char>, Seq<char>, ProfileKeyV);

/// One slot: the log of summaries for one (site, page, profile) triple.
pub struct HistorySlot {
    pub site_id: String,
    pub page_id: String,
    pub profile: ProfileKey,
    pub entries: Vec<AuditSummary>,
}

impl HistorySlot {
    /// The slot's identity.
    pub open spec fn key(self) -> SlotKey {
        (self.site_id@, self.page_id@, self.profile.deep_view())
    }

    /// The slot's entries are ordered by strictly increasing run id.
    pub open spec fn wf(self) -> bool {
        forall|i: int, j: int|
            0 <= i < j < self.entries@.len() ==> #[trigger] self.entries@[i].site_run_id
                < #[trigger] self.entries@[j].site_run_id
    }
}

/// The history: every slot of every site, grown only by appending.
pub struct History {
    pub slots: Vec<HistorySlot>,
}

impl History {
    /// Every slot is well formed, and no two slots share an identity.
    pub open spec fn wf(self) -> bool {
        &&& forall|i: int| 0 <= i < self.slots@.len() ==> (#[trigger] self.slots@[i]).wf()
        &&& forall|i: int, j: int|
            0 <= i < j < self.slots@.len() ==> (#[trigger] self.slots@[i]).key() != (
            #[trigger] self.slots@[j]).key()
    }

    /// Whether some slot carries this identity.
    pub open spec fn has_slot(self, key: SlotKey) -> bool {
        exists|i: int| 0 <= i < self.slots@.len() && (#[trigger] self.slots@[i]).key() == key
    }

    /// The index of the slot with this identity (unique under `wf`).
    pub open spec fn slot_at(self, key: SlotKey) -> int {
        choose|i: int| 0 <= i < self.slots@.len() && (#[trigger] self.slots@[i]).key() == key
    }

    /// The log of one slot; a slot never written is the empty log.
    pub open spec fn entries_of(self, key: SlotKey) -> Seq<AuditSummary> {
        if self.has_slot(key) {
            self.slots@[self.slot_at(key)].entries@
        } else {
            Seq::empty()
        }
    }

    /// Whether a run id may be appended to a slot: it must exceed the
    /// slot's last appended run id, or the slot must still be empty.
    pub open spec fn can_append(self, key: SlotKey, run_id: i32) -> bool {
        self.entries_of(key).len() == 0 || self.entries_of(key).last().site_run_id < run_id
    }

    /// An empty history.
    pub fn new() -> (h: History)
        ensures
            h.wf(),
            h.slots@.len() == 0,
            forall|key: SlotKey| #[trigger] h.entries_of(key) == Seq::<AuditSummary>::empty(),
    {
        History { slots: Vec::new() }
    }
}

/// A slot's index is determined by its identity: under `wf`, any index whose
/// slot carries `key` is the one `slot_at` names.
proof fn lemma_slot_at_unique(h: History, key: SlotKey, i: int)
    requires
        h.wf(),
        0 <= i < h.slots@.len(),
        h.slots@[i].key() == key,
    ensures
        h.has_slot(key),
        h.slot_at(key) == i,
{
    assert(h.has_slot(key));
    let j = h.slot_at(key);
    assert(0 <= j < h.slots@.len() && h.slots@[j].key() == key);
    if i < j {
        assert(h.slots@[i].key() != h.slots@[j].key());
    } else if j < i {
        assert(h.slots@[j].key() != h.slots@[i].key());
    }
}

impl History {
    /// Appends `summary` to the slot of (`site_id`, `page_id`, `profile`),
    /// creating the slot on first use.
    ///
    /// Succeeds exactly when the summary's run id exceeds the slot's last
    /// one (an empty or fresh slot accepts any run id); then the slot's log
    /// is the old log with `summary` appended, and no other slot moves. An
    /// out-of-order run id is refused and the history stands unchanged.
    pub fn append(
        &mut self,
        site_id: String,
        page_id: String,
        profile: ProfileKey,
        summary: AuditSummary,
    ) -> (r: Result<(), HistoryError>)
        requires
            old(self).wf(),
        ensures
            final(self).wf(),
            ({
                let key = (site_id@, page_id@, profile.deep_view());
                &&& (r is Ok <==> old(self).can_append(key, summary.site_run_id))
                &&& (r is Ok ==> final(self).entries_of(key) == old(self).entries_of(key).push(
                    summary,
                ))
                &&& (r is Err ==> r == Err::<(), HistoryError>(HistoryError::OutOfOrderRun)
                    && *final(self) == *old(self))
                &&& forall|other: SlotKey|
                    other != key ==> #[trigger] final(self).entries_of(other) == old(
                        self,
                    ).entries_of(other)
            }),
    {
        let ghost key = (site_id@, page_id@, profile.deep_view());
        let n = self.slots.len();
        let mut i: usize = 0;
        while i < n
            invariant
                *self == *old(self),
                self.wf(),
                n == self.slots@.len(),
                0 <= i <= n,
                key == (site_id@, page_id@, profile.deep_view()),
                forall|j: int| 0 <= j < i ==> (#[trigger] self.slots@[j]).key() != key,
            decreases n - i,
        {
            let found = self.slots[i].site_id == site_id && self.slots[i].page_id == page_id
                && self.slots[i].profile.key_eq(&profile);
            if found {
                proof {
                    assert(self.slots@[i as int].key() == key);
                    lemma_slot_at_unique(*self, key, i as int);
                }
                let m = self.slots[i].entries.len();
                if m > 0 {
                    let last_run = self.slots[i].entries[m - 1].site_run_id;
                    if last_run >= summary.site_run_id {
                        proof {
                            assert(old(self).entries_of(key).last() == self.slots@[i as int].entries@[
                                m - 1
                            ]);
                        }
                        return Err(HistoryError::OutOfOrderRun);
                    }
                }
                let ghost before = self.slots@;
                self.slots[i].entries.push(summary);
                proof {
                    let updated = self.slots@[i as int];
                    assert(self.slots@ =~= before.update(i as int, updated));
                    assert(updated.entries@ =~= before[i as int].entries@.push(summary));
                    assert forall|a: int, b: int|
                        0 <= a < b < updated.entries@.len() implies #[trigger] updated.entries@[a].site_run_id
                        < #[trigger] updated.entries@[b].site_run_id by {
                        let entries = before[i as int].entries@;
                        if b < entries.len() {
                            assert(old(self).slots@[i as int].wf());
                        } else {
                            if a < entries.len() - 1 {
                                assert(entries[a].site_run_id < entries[entries.len() - 1].site_run_id);
                            }
                        }
                    }
                    assert(updated.wf());
                    assert forall|j: int| 0 <= j < self.slots@.len() implies (
                    #[trigger] self.slots@[j]).key() == before[j].key() by {}
                    lemma_slot_at_unique(*self, key, i as int);
                    assert(final(self).entries_of(key) == old(self).entries_of(key).push(summary));
                    assert forall|other: SlotKey| other != key implies #[trigger] self.entries_of(
                        other,
                    ) == old(self).entries_of(other) by {
                        lemma_frame_on_same_keys(*old(self), *self, other);
                    }
                }
                return Ok(());
            }
            i = i + 1;
        }
        let mut entries: Vec<AuditSummary> = Vec::new();
        entries.push(summary);
        let ghost before = self.slots@;
        let fresh = HistorySlot { site_id, page_id, profile, entries };
        proof {
            assert(fresh.key() == key);
            assert(!old(self).has_slot(key));
        }
        self.slots.push(fresh);
        proof {
            assert(self.slots@ =~= before.push(fresh));
            assert(fresh.entries@ =~= Seq::<AuditSummary>::empty().push(summary));
            assert(fresh.wf());
            lemma_slot_at_unique(*self, key, before.len() as int);
            assert(old(self).entries_of(key) =~= Seq::<AuditSummary>::empty());
            assert(final(self).entries_of(key) == old(self).entries_of(key).push(summary));
            assert forall|other: SlotKey| other != key implies #[trigger] self.entries_of(other)
                == old(self).entries_of(other) by {
                lemma_frame_on_push(*old(self), *self, fresh, other);
            }
        }
        Ok(())
    }

    /// The full-trend view: the ordered log of one slot, when it exists.
    pub fn trend(&self, site_id: &String, page_id: &String, profile: &ProfileKey) -> (r: Option<
        &Vec<AuditSummary>,
    >)
        requires
            self.wf(),
        ensures
            ({
                let key = (site_id@, page_id@, profile.deep_view());
                match r {
                    Some(entries) => self.has_slot(key) && entries@ == self.entries_of(key),
                    None => !self.has_slot(key),
                }
            }),
    {
        let ghost key = (site_id@, page_id@, profile.deep_view());
        let n = self.slots.len();
        let mut i: usize = 0;
        while i < n
            invariant
                self.wf(),
                n == self.slots@.len(),
                0 <= i <= n,
                key == (site_id@, page_id@, profile.deep_view()),
                forall|j: int| 0 <= j < i ==> (#[trigger] self.slots@[j]).key() != key,
            decreases n - i,
        {
            let found = self.slots[i].site_id == *site_id && self.slots[i].page_id == *page_id
                && self.slots[i].profile.key_eq(profile);
            if found {
                proof {
                    lemma_slot_at_unique(*self, key, i as int);
                }
                return Some(&self.slots[i].entries);
            }
            i = i + 1;
        }
        None
    }

    /// The latest-only view: the last summary of one slot's log. Served
    /// from the same log as [`History::trend`], so the two views never
    /// diverge.
    pub fn latest(&self, site_id: &String, page_id: &String, profile: &ProfileKey) -> (r: Option<
        &AuditSummary,
    >)
        requires
            self.wf(),
        ensures
            ({
                let key = (site_id@, page_id@, profile.deep_view());
                match r {
                    Some(s) => self.entries_of(key).len() > 0 && *s == self.entries_of(key).last(),
                    None => self.entries_of(key).len() == 0,
                }
            }),
    {
        match self.trend(site_id, page_id, profile) {
            Some(entries) => {
                if entries.len() > 0 {
                    Some(&entries[entries.len() - 1])
                } else {
                    None
                }
            },
            None => None,
        }
    }
}

/// Two well-formed histories whose slots carry the same identities, and the
/// same entries wherever the identity is `key`, serve the same log for
/// `key`.
proof fn lemma_frame_on_same_keys(h1: History, h2: History, key: SlotKey)
    requires
        h1.wf(),
        h2.wf(),
        h1.slots@.len() == h2.slots@.len(),
        forall|j: int|
            0 <= j < h1.slots@.len() ==> (#[trigger] h2.slots@[j]).key() == (
            #[trigger] h1.slots@[j]).key(),
        forall|j: int|
            0 <= j < h1.slots@.len() && (#[trigger] h1.slots@[j]).key() == key
                ==> h2.slots@[j].entries == h1.slots@[j].entries,
    ensures
        h2.entries_of(key) == h1.entries_of(key),
{
    if h1.has_slot(key) {
        let i = h1.slot_at(key);
        assert(0 <= i < h1.slots@.len() && h1.slots@[i].key() == key);
        lemma_slot_at_unique(h2, key, i);
    } else {
        if h2.has_slot(key) {
            let i = h2.slot_at(key);
            assert(0 <= i < h2.slots@.len() && h2.slots@[i].key() == key);
            assert(h1.slots@[i].key() == key);
        }
    }
}

/// Appending a slot with a different identity leaves a key's log unchanged.
proof fn lemma_frame_on_push(h1: History, h2: History, fresh: HistorySlot, key: SlotKey)
    requires
        h1.wf(),
        h2.wf(),
        h2.slots@ == h1.slots@.push(fresh),
        fresh.key() != key,
    ensures
        h2.entries_of(key) == h1.entries_of(key),
{
    assert(forall|j: int|
        0 <= j < h1.slots@.len() ==> (#[trigger] h2.slots@[j]).key() == h1.slots@[j].key());
    if h1.has_slot(key) {
        let i = h1.slot_at(key);
        assert(0 <= i < h1.slots@.len() && h1.slots@[i].key() == key);
        lemma_slot_at_unique(h2, key, i);
    } else {
        if h2.has_slot(key) {
            let i = h2.slot_at(key);
            assert(0 <= i < h2.slots@.len() && h2.slots@[i].key() == key);
            assert(i < h1.slots@.len() || h2.slots@[i] == fresh);
            if i < h1.slots@.len() {
                assert(h1.slots@[i].key() == key);
            }
        }
    }
}

/// A trend is ordered: run ids grow strictly along any slot's log.
pub proof fn lemma_trend_ordered(h: History, key: SlotKey, i: int, j: int)
    requires
        h.wf(),
        0 <= i < j < h.entries_of(key).len(),
    ensures
        h.entries_of(key)[i].site_run_id < h.entries_of(key)[j].site_run_id,
{
    assert(h.has_slot(key));
    let s = h.slot_at(key);
    assert(0 <= s < h.slots@.len() && h.slots@[s].key() == key);
    assert(h.slots@[s].wf());
}

} // verus!
