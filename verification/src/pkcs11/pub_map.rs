//! The bounded map from a private-key handle to its public-key handle.
use std::collections::{HashMap, VecDeque};
use vstd::prelude::*;

verus! {

/// Upper bound on the number of pairs a [`PubMap`] holds.
///
/// Every derivation records a pair, but only a handle that was just derived is
/// looked up again, so a first-in-first-out bound keeps a long-running signer's
/// map from growing without limit and never drops a pair that is still needed.
pub const PUB_MAP_CAP: usize = 4096;

/// What a [`PubMap`] holds: the private handles, oldest first, and the public
/// handle paired with each.
#[verifier::ext_equal]
pub struct PairLog {
    pub order: Seq<u64>,
    pub pairs: Map<u64, u64>,
}

impl PairLog {
    /// A log without pairs.
    pub open spec fn empty() -> PairLog {
        PairLog { order: Seq::empty(), pairs: Map::empty() }
    }

    /// No handle is listed twice, the listed handles are the paired ones, and
    /// there are at most [`PUB_MAP_CAP`] of them.
    pub open spec fn wf(self) -> bool {
        &&& self.order.no_duplicates()
        &&& forall|k: u64| #[trigger] self.pairs.contains_key(k) <==> self.order.contains(k)
        &&& self.order.len() <= PUB_MAP_CAP
    }

    /// The public handle paired with `private`.
    pub open spec fn lookup(self, private: u64) -> Option<u64> {
        if self.pairs.contains_key(private) {
            Some(self.pairs[private])
        } else {
            None
        }
    }

    /// The log after `private` was paired with `public`: a handle that is
    /// already listed keeps its place; a new one comes last, and pushes the
    /// oldest out when there is no room.
    pub open spec fn record(self, private: u64, public: u64) -> PairLog {
        if self.pairs.contains_key(private) {
            PairLog { order: self.order, pairs: self.pairs.insert(private, public) }
        } else if self.order.len() < PUB_MAP_CAP {
            PairLog {
                order: self.order.push(private),
                pairs: self.pairs.insert(private, public),
            }
        } else {
            PairLog {
                order: self.order.push(private).drop_first(),
                pairs: self.pairs.insert(private, public).remove(self.order[0]),
            }
        }
    }

    /// The log after each of `entries`, a private and a public handle, was recorded in turn.
    pub open spec fn record_all(self, entries: Seq<(u64, u64)>) -> PairLog
        decreases entries.len(),
    {
        if entries.len() == 0 {
            self
        } else {
            self.record_all(entries.drop_last()).record(entries.last().0, entries.last().1)
        }
    }
}

/// A bounded private-to-public handle map with first-in-first-out eviction.
pub struct PubMap {
    order: VecDeque<u64>,
    map: HashMap<u64, u64>,
}

impl View for PubMap {
    type V = PairLog;

    closed spec fn view(&self) -> PairLog {
        PairLog { order: self.order@, pairs: self.map@ }
    }
}

impl PubMap {
    /// The map's invariant.
    pub open spec fn wf(self) -> bool {
        self@.wf()
    }

    /// A map without pairs.
    pub fn new() -> (map: PubMap)
        ensures
            map@ == PairLog::empty(),
            map.wf(),
    {
        broadcast use vstd::std_specs::hash::group_hash_axioms;

        let map = PubMap { order: VecDeque::new(), map: HashMap::new() };
        assert(map@ =~= PairLog::empty());
        map
    }

    /// The public handle recorded for `private`.
    pub fn get(&self, private: u64) -> (public: Option<u64>)
        ensures
            public == self@.lookup(private),
    {
        broadcast use vstd::std_specs::hash::group_hash_axioms;

        match self.map.get(&private) {
            Some(public) => Some(*public),
            None => None,
        }
    }

    /// Pair `private` with `public`.
    pub fn record_pair(&mut self, private: u64, public: u64)
        requires
            old(self).wf(),
        ensures
            final(self)@ == old(self)@.record(private, public),
            final(self).wf(),
    {
        broadcast use vstd::std_specs::hash::group_hash_axioms;

        let ghost before = self@;
        proof {
            law_record_keeps_invariant(before, private, public);
        }
        if self.map.insert(private, public).is_none() {
            self.order.push_back(private);
            while self.order.len() > PUB_MAP_CAP
                invariant
                    before.wf(),
                    !before.pairs.contains_key(private),
                    self.order@ == before.order.push(private) && self.map@
                        == before.pairs.insert(private, public) || self@ == before.record(
                        private,
                        public,
                    ),
                decreases self.order.len(),
            {
                assert(before.order.push(private).subrange(1, before.order.len() as int + 1)
                    =~= before.order.push(private).drop_first());
                if let Some(old_handle) = self.order.pop_front() {
                    self.map.remove(&old_handle);
                }
            }
        }
        assert(self@ =~= before.record(private, public));
    }
}

/// Recording a pair keeps the log's invariant: it never holds more than
/// [`PUB_MAP_CAP`] pairs, however many are recorded.
pub proof fn law_record_keeps_invariant(log: PairLog, private: u64, public: u64)
    requires
        log.wf(),
    ensures
        log.record(private, public).wf(),
{
    let next = log.record(private, public);
    if log.pairs.contains_key(private) {
        assert forall|k: u64| #[trigger]
            next.pairs.contains_key(k) <==> next.order.contains(k) by {
            assert(log.pairs.contains_key(k) <==> log.order.contains(k));
        }
    } else {
        let pushed = log.order.push(private);
        assert(!log.order.contains(private));
        assert(pushed.no_duplicates());
        assert forall|k: u64| pushed.contains(k) <==> log.order.contains(k) || k == private by {
            if log.order.contains(k) {
                let i = choose|i: int| 0 <= i < log.order.len() && log.order[i] == k;
                assert(pushed[i] == k);
            }
            assert(pushed[log.order.len() as int] == private);
        }
        if log.order.len() < PUB_MAP_CAP {
            assert forall|k: u64| #[trigger]
                next.pairs.contains_key(k) <==> next.order.contains(k) by {
                assert(log.pairs.contains_key(k) <==> log.order.contains(k));
            }
        } else {
            let kept = pushed.drop_first();
            assert forall|k: u64| kept.contains(k) <==> pushed.contains(k) && k != pushed[0] by {
                if kept.contains(k) {
                    let i = choose|i: int| 0 <= i < kept.len() && kept[i] == k;
                    assert(pushed[i + 1] == k);
                }
                if pushed.contains(k) && k != pushed[0] {
                    let i = choose|i: int| 0 <= i < pushed.len() && pushed[i] == k;
                    assert(kept[i - 1] == k);
                }
            }
            assert forall|k: u64| #[trigger]
                next.pairs.contains_key(k) <==> next.order.contains(k) by {
                assert(log.pairs.contains_key(k) <==> log.order.contains(k));
            }
        }
    }
}

/// A pair is found right after it was recorded, also when recording it pushed
/// another one out.
pub proof fn law_recorded_pair_is_found(log: PairLog, private: u64, public: u64)
    requires
        log.wf(),
    ensures
        log.record(private, public).lookup(private) == Some(public),
{
    if !log.pairs.contains_key(private) && log.order.len() >= PUB_MAP_CAP {
        assert(log.order.contains(log.order[0]));
    }
}

/// Recording a pair leaves every other handle's pair as it was, but for the
/// oldest one when a new handle finds the log full.
pub proof fn law_record_keeps_other_pairs(log: PairLog, private: u64, public: u64, other: u64)
    requires
        log.wf(),
        other != private,
    ensures
        log.record(private, public).lookup(other) == (if !log.pairs.contains_key(private)
            && log.order.len() == PUB_MAP_CAP && other == log.order[0] {
            None
        } else {
            log.lookup(other)
        }),
{
}

/// However many pairs are recorded, the invariant holds.
pub proof fn law_record_all_keeps_invariant(log: PairLog, entries: Seq<(u64, u64)>)
    requires
        log.wf(),
    ensures
        log.record_all(entries).wf(),
    decreases entries.len(),
{
    if entries.len() > 0 {
        law_record_all_keeps_invariant(log, entries.drop_last());
        law_record_keeps_invariant(
            log.record_all(entries.drop_last()),
            entries.last().0,
            entries.last().1,
        );
    }
}

/// A newly paired handle stays paired through the next recordings, whatever
/// other handles they name, as long as there are fewer than [`PUB_MAP_CAP`].
pub proof fn law_new_pair_survives(
    log: PairLog,
    private: u64,
    public: u64,
    entries: Seq<(u64, u64)>,
)
    requires
        log.wf(),
        log.lookup(private) is None,
        entries.len() < PUB_MAP_CAP,
        forall|i: int| 0 <= i < entries.len() ==> (#[trigger] entries[i]).0 != private,
    ensures
        log.record(private, public).record_all(entries).lookup(private) == Some(public),
{
    lemma_new_pair_place(log, private, public, entries);
}

/// After `entries` were recorded, at most as many handles stand behind the one recorded before.
proof fn lemma_new_pair_place(
    log: PairLog,
    private: u64,
    public: u64,
    entries: Seq<(u64, u64)>,
) -> (place: int)
    requires
        log.wf(),
        !log.pairs.contains_key(private),
        entries.len() < PUB_MAP_CAP,
        forall|i: int| 0 <= i < entries.len() ==> (#[trigger] entries[i]).0 != private,
    ensures
        ({
            let after = log.record(private, public).record_all(entries);
            &&& after.wf()
            &&& 0 <= place < after.order.len()
            &&& after.order[place] == private
            &&& after.order.len() - 1 - place <= entries.len()
            &&& after.lookup(private) == Some(public)
        }),
    decreases entries.len(),
{
    if entries.len() == 0 {
        law_record_keeps_invariant(log, private, public);
        law_recorded_pair_is_found(log, private, public);
        log.record(private, public).order.len() - 1
    } else {
        let shorter = entries.drop_last();
        assert forall|i: int| 0 <= i < shorter.len() implies (#[trigger] shorter[i]).0
            != private by {
            assert(shorter[i] == entries[i]);
        }
        let place = lemma_new_pair_place(log, private, public, shorter);
        let before = log.record(private, public).record_all(shorter);
        let (other, value) = entries.last();
        assert(entries[entries.len() - 1].0 != private);
        law_record_keeps_invariant(before, other, value);
        if before.pairs.contains_key(other) || before.order.len() < PUB_MAP_CAP {
            place
        } else {
            place - 1
        }
    }
}

/// The private handles of `entries`, in order.
pub open spec fn entry_handles(entries: Seq<(u64, u64)>) -> Seq<u64> {
    entries.map_values(|entry: (u64, u64)| entry.0)
}

/// The last [`PUB_MAP_CAP`] elements of `handles`, or all of them where there are fewer.
pub open spec fn newest(handles: Seq<u64>) -> Seq<u64> {
    if handles.len() <= PUB_MAP_CAP {
        handles
    } else {
        handles.skip(handles.len() - PUB_MAP_CAP)
    }
}

/// First in, first out: after new handles were recorded, the log lists the
/// newest ones, in the order in which they came.
pub proof fn law_first_in_first_out(log: PairLog, entries: Seq<(u64, u64)>)
    requires
        log.wf(),
        (log.order + entry_handles(entries)).no_duplicates(),
    ensures
        log.record_all(entries).order == newest(log.order + entry_handles(entries)),
    decreases entries.len(),
{
    let all = log.order + entry_handles(entries);
    if entries.len() == 0 {
        assert(all =~= log.order);
    } else {
        let shorter = entries.drop_last();
        let fewer = log.order + entry_handles(shorter);
        let (handle, value) = entries.last();
        assert(all =~= fewer.push(handle));
        assert(fewer.no_duplicates()) by {
            assert forall|i: int, j: int| 0 <= i < j < fewer.len() implies fewer[i] != fewer[j] by {
                assert(all[i] == fewer[i] && all[j] == fewer[j]);
            }
        }
        law_first_in_first_out(log, shorter);
        law_record_all_keeps_invariant(log, shorter);
        let before = log.record_all(shorter);
        assert(!before.order.contains(handle)) by {
            if before.order.contains(handle) {
                let i = choose|i: int| 0 <= i < before.order.len() && before.order[i] == handle;
                let j = i + fewer.len() - before.order.len();
                assert(fewer[j] == handle);
                assert(all[j] == handle && all[fewer.len() as int] == handle);
            }
        }
        assert(!before.pairs.contains_key(handle));
        assert(before.record(handle, value).order =~= newest(all));
    }
}

/// A log knows the pairs that were put in it and no others, and a valid log
/// lists each handle once, lists those that have a pair, and at most 4096.
pub proof fn law_log_knows_its_pairs(log: PairLog, private: u64, i: int, j: int)
    ensures
        PairLog::empty().lookup(private) is None,
        PairLog::empty().wf(),
        PairLog::empty().order.len() == 0,
        log.lookup(private) is Some <==> log.pairs.contains_key(private),
        log.lookup(private) is Some ==> log.lookup(private) == Some(log.pairs[private]),
        log.wf() ==> log.order.len() <= 4096,
        log.wf() ==> (log.lookup(private) is Some <==> log.order.contains(private)),
        log.wf() && 0 <= i < j < log.order.len() ==> log.order[i] != log.order[j],
{
    assert(!Seq::<u64>::empty().contains(private));
}

/// A handle that is already listed keeps its place and moves no other; a new one
/// comes last, behind all that were there, or behind all but the oldest where
/// there were 4096.
pub proof fn law_record_moves_nothing_else(log: PairLog, private: u64, public: u64, i: int)
    requires
        log.wf(),
    ensures
        log.lookup(private) is Some ==> log.record(private, public).order == log.order,
        log.lookup(private) is None ==> {
            let next = log.record(private, public).order;
            let dropped: int = if log.order.len() == 4096 {
                1
            } else {
                0
            };
            &&& next.len() == log.order.len() + 1 - dropped
            &&& next.last() == private
            &&& 0 <= i < next.len() - 1 ==> next[i] == log.order[i + dropped]
        },
{
}

/// Recording several pairs is recording them one after the other.
pub proof fn law_record_all_is_in_turn(log: PairLog, entries: Seq<(u64, u64)>, entry: (u64, u64))
    ensures
        log.record_all(Seq::empty()) == log,
        log.record_all(entries.push(entry)) == log.record_all(entries).record(entry.0, entry.1),
{
    assert(entries.push(entry).drop_last() =~= entries);
}

} // verus!
