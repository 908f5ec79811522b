//! The dispatcher's in-memory view of the workers: the status each one last
//! reported and when it was last heard from, and the sweep that marks
//! silent workers unreachable.
use std::collections::HashMap;

use vstd::prelude::*;

use crate::enums::workers::WorkerStatusEnum;
use crate::heartbeat::{datagram_report, parse_heartbeat};

verus! {

broadcast use vstd::std_specs::hash::group_hash_axioms;

/// How long, in nanoseconds, a worker that is not offline may stay silent
/// before a sweep marks it unreachable: two seconds.
pub const UNREACHABLE_AFTER_NANOS: u64 = 2_000_000_000;

/// What the dispatcher knows of each worker, by worker id.
pub struct DispatcherView {
    /// The status each worker last reported.
    pub statuses: Map<i32, WorkerStatusEnum>,
    /// When each worker was last heard from, in nanoseconds of a monotonic clock.
    pub last_seen: Map<i32, u64>,
}

/// Shared state of the dispatcher's tasks.
pub struct DispatcherState {
    statuses: HashMap<i32, WorkerStatusEnum>,
    last_seen: HashMap<i32, u64>,
}

/// Nanoseconds from `then` to `now`; zero where `now` is not later, as
/// `Instant::duration_since` saturates.
pub open spec fn elapsed(now: u64, then: u64) -> int {
    if now >= then {
        now - then
    } else {
        0
    }
}

/// The worker is known, not offline, and silent for longer than the limit.
pub open spec fn is_stale(v: DispatcherView, id: i32, now: u64) -> bool {
    &&& v.statuses.contains_key(id)
    &&& v.statuses[id] != WorkerStatusEnum::Offline
    &&& v.last_seen.contains_key(id)
    &&& elapsed(now, v.last_seen[id]) > UNREACHABLE_AFTER_NANOS
}

/// The statuses after a sweep at `now`: every stale worker unreachable,
/// every other worker as it was.
pub open spec fn swept(v: DispatcherView, now: u64) -> Map<i32, WorkerStatusEnum> {
    Map::new(
        |id: i32| v.statuses.contains_key(id),
        |id: i32|
            if is_stale(v, id, now) {
                WorkerStatusEnum::Unreachable
            } else {
                v.statuses[id]
            },
    )
}

/// The elements of `prev` with `a` pushed are those of `prev` and `a`.
proof fn lemma_push_contains(prev: Seq<i32>, next: Seq<i32>, a: i32)
    requires
        next == prev.push(a),
    ensures
        forall|x: i32| #[trigger] next.contains(x) == (prev.contains(x) || x == a),
{
    assert forall|x: i32| #[trigger] next.contains(x) == (prev.contains(x) || x == a) by {
        if next.contains(x) {
            let j = choose|j: int| 0 <= j < next.len() && next[j] == x;
            if j < prev.len() {
                assert(prev[j] == x);
            }
        }
        if prev.contains(x) {
            let j = choose|j: int| 0 <= j < prev.len() && prev[j] == x;
            assert(next[j] == x);
        }
        if x == a {
            assert(next[prev.len() as int] == x);
        }
    }
}

impl View for DispatcherState {
    type V = DispatcherView;

    closed spec fn view(&self) -> DispatcherView {
        DispatcherView { statuses: self.statuses@, last_seen: self.last_seen@ }
    }
}

impl DispatcherState {
    /// Every worker with a status has a last-seen time, and the other way round.
    #[verifier::type_invariant]
    spec fn wf(self) -> bool {
        self.statuses@.dom() == self.last_seen@.dom()
    }

    /// An empty state.
    pub fn new() -> (s: DispatcherState)
        ensures
            s@.statuses == Map::<i32, WorkerStatusEnum>::empty(),
            s@.last_seen == Map::<i32, u64>::empty(),
    {
        DispatcherState { statuses: HashMap::new(), last_seen: HashMap::new() }
    }

    /// Moves the two maps out, leaving the state empty.
    fn take_maps(&mut self) -> (r: (HashMap<i32, WorkerStatusEnum>, HashMap<i32, u64>))
        ensures
            r.0@ == old(self)@.statuses,
            r.1@ == old(self)@.last_seen,
            r.0@.dom() == r.1@.dom(),
    {
        let mut taken = DispatcherState::new();
        std::mem::swap(self, &mut taken);
        proof {
            use_type_invariant(&taken);
        }
        let DispatcherState { statuses, last_seen } = taken;
        (statuses, last_seen)
    }

    /// Puts two maps with the same workers back.
    fn put_maps(&mut self, statuses: HashMap<i32, WorkerStatusEnum>, last_seen: HashMap<i32, u64>)
        requires
            statuses@.dom() == last_seen@.dom(),
        ensures
            final(self)@.statuses == statuses@,
            final(self)@.last_seen == last_seen@,
            final(self)@.statuses.dom() == final(self)@.last_seen.dom(),
    {
        *self = DispatcherState { statuses, last_seen };
    }

    /// The status last recorded for a worker.
    pub fn status_of(&self, id: i32) -> (r: Option<WorkerStatusEnum>)
        ensures
            r == (if self@.statuses.contains_key(id) {
                Some(self@.statuses[id])
            } else {
                None
            }),
    {
        match self.statuses.get(&id) {
            Some(st) => Some(*st),
            None => None,
        }
    }

    /// When a worker was last heard from.
    pub fn last_seen_of(&self, id: i32) -> (r: Option<u64>)
        ensures
            r == (if self@.last_seen.contains_key(id) {
                Some(self@.last_seen[id])
            } else {
                None
            }),
    {
        match self.last_seen.get(&id) {
            Some(t) => Some(*t),
            None => None,
        }
    }

    /// Loads the known workers at startup: each is offline and seen now.
    pub fn register_workers(&mut self, ids: &Vec<i32>, now: u64)
        ensures
            final(self)@.last_seen.dom() == final(self)@.statuses.dom(),
            forall|id: i32|
                #[trigger] final(self)@.statuses.contains_key(id) == (old(self)@.statuses.contains_key(id)
                    || ids@.contains(id)),
            forall|id: i32|
                ids@.contains(id) ==> #[trigger] final(self)@.statuses[id] == WorkerStatusEnum::Offline
                    && final(self)@.last_seen[id] == now,
            forall|id: i32|
                !ids@.contains(id) && old(self)@.statuses.contains_key(id) ==> {
                    &&& #[trigger] final(self)@.statuses[id] == old(self)@.statuses[id]
                    &&& final(self)@.last_seen[id] == old(self)@.last_seen[id]
                },
    {
        let ghost old_v = self@;
        let (mut statuses, mut last_seen) = self.take_maps();
        let mut i: usize = 0;
        while i < ids.len()
            invariant
                i <= ids.len(),
                statuses@.dom() == last_seen@.dom(),
                forall|id: i32|
                    #[trigger] statuses@.contains_key(id) == (old_v.statuses.contains_key(id)
                        || ids@.subrange(0, i as int).contains(id)),
                forall|id: i32|
                    ids@.subrange(0, i as int).contains(id) ==> #[trigger] statuses@[id]
                        == WorkerStatusEnum::Offline && last_seen@[id] == now,
                forall|id: i32|
                    !ids@.subrange(0, i as int).contains(id) && old_v.statuses.contains_key(id)
                        ==> #[trigger] statuses@[id] == old_v.statuses[id]
                        && last_seen@[id] == old_v.last_seen[id],
            decreases ids.len() - i,
        {
            let id = ids[i];
            let ghost prev_statuses = statuses@;
            statuses.insert(id, WorkerStatusEnum::Offline);
            last_seen.insert(id, now);
            proof {
                let prev = ids@.subrange(0, i as int);
                let next = ids@.subrange(0, i + 1);
                assert(next =~= prev.push(id));
                lemma_push_contains(prev, next, id);
                assert(statuses@.dom() =~= last_seen@.dom());
                assert forall|x: i32|
                    !next.contains(x) && old_v.statuses.contains_key(x) implies #[trigger] statuses@[x]
                        == old_v.statuses[x] && last_seen@[x] == old_v.last_seen[x] by {
                    assert(!prev.contains(x));
                    assert(x != id);
                    assert(prev_statuses[x] == old_v.statuses[x]);
                }
            }
            i = i + 1;
        }
        proof {
            assert(ids@.subrange(0, ids.len() as int) =~= ids@);
        }
        self.put_maps(statuses, last_seen);
    }

    /// Records a status report: the worker's status, and that it was seen now.
    pub fn record_status(&mut self, id: i32, status: WorkerStatusEnum, now: u64)
        ensures
            final(self)@.last_seen.dom() == final(self)@.statuses.dom(),
            final(self)@.statuses == old(self)@.statuses.insert(id, status),
            final(self)@.last_seen == old(self)@.last_seen.insert(id, now),
    {
        let (mut statuses, mut last_seen) = self.take_maps();
        statuses.insert(id, status);
        last_seen.insert(id, now);
        proof {
            assert(statuses@.dom() =~= last_seen@.dom());
        }
        self.put_maps(statuses, last_seen);
    }

    /// Handles a received datagram: a well-formed report is recorded and
    /// handed back; anything else is ignored.
    pub fn handle_datagram(&mut self, text: &str, now: u64) -> (r: Option<(i32, WorkerStatusEnum)>)
        ensures
            r == datagram_report(text@),
            final(self)@.last_seen.dom() == final(self)@.statuses.dom(),
            match r {
                Some((id, st)) => {
                    &&& final(self)@.statuses == old(self)@.statuses.insert(id, st)
                    &&& final(self)@.last_seen == old(self)@.last_seen.insert(id, now)
                },
                None => final(self)@ == old(self)@,
            },
    {
        proof {
            use_type_invariant(&*self);
        }
        let report = parse_heartbeat(text);
        match report {
            Some((id, st)) => {
                self.record_status(id, st, now);
            },
            None => {},
        }
        report
    }

    /// Marks every stale worker unreachable and returns the ids it marked,
    /// each once, in no particular order.
    pub fn sweep_unreachable(&mut self, now: u64) -> (marked: Vec<i32>)
        ensures
            final(self)@.last_seen.dom() == final(self)@.statuses.dom(),
            final(self)@.statuses == swept(old(self)@, now),
            final(self)@.last_seen == old(self)@.last_seen,
            marked@.no_duplicates(),
            forall|id: i32| #[trigger] marked@.contains(id) <==> is_stale(old(self)@, id, now),
    {
        let ghost old_v = self@;
        let (mut statuses, last_seen) = self.take_maps();
        let mut keys: Vec<i32> = Vec::new();
        for k in it: statuses.keys()
            invariant
                keys@.len() == it.index(),
                forall|j: int| 0 <= j < it.index() ==> keys@[j] == *it.seq()[j],
                it.seq() == vstd::std_specs::iter::IteratorSpec::remaining(&vstd::std_specs::hash::spec_keys_iter(&statuses)),
        {
            keys.push(*k);
        }
        proof {
            let ks = vstd::std_specs::iter::IteratorSpec::remaining(&vstd::std_specs::hash::spec_keys_iter(&statuses));
            assert(keys@ =~= ks.unref());
            assert(keys@.to_set() == statuses@.dom());
            assert(keys@.no_duplicates());
        }
        let mut marked: Vec<i32> = Vec::new();
        let mut i: usize = 0;
        while i < keys.len()
            invariant
                i <= keys.len(),
                statuses@.dom() == last_seen@.dom(),
                last_seen@ == old_v.last_seen,
                statuses@.dom() == old_v.statuses.dom(),
                keys@.no_duplicates(),
                keys@.to_set() == old_v.statuses.dom(),
                forall|j: int| 0 <= j < i ==> #[trigger] statuses@[keys@[j]] == swept(old_v, now)[keys@[j]],
                forall|j: int| i <= j < keys.len() ==> #[trigger] statuses@[keys@[j]] == old_v.statuses[keys@[j]],
                marked@.no_duplicates(),
                forall|id: i32|
                    #[trigger] marked@.contains(id) <==> (is_stale(old_v, id, now)
                        && keys@.subrange(0, i as int).contains(id)),
            decreases keys.len() - i,
        {
            let id = keys[i];
            proof {
                assert(keys@.to_set().contains(id));
                assert(statuses@[id] == old_v.statuses[id]);
            }
            let st = match statuses.get(&id) {
                Some(x) => Some(*x),
                None => None,
            };
            let seen = match last_seen.get(&id) {
                Some(x) => Some(*x),
                None => None,
            };
            let ghost prev_statuses = statuses@;
            let ghost prev_marked = marked@;
            let ghost mut did_mark = false;
            match (st, seen) {
                (Some(st), Some(t)) => {
                    let silent: u64 = if now >= t {
                        now - t
                    } else {
                        0
                    };
                    if st != WorkerStatusEnum::Offline && silent > UNREACHABLE_AFTER_NANOS {
                        statuses.insert(id, WorkerStatusEnum::Unreachable);
                        marked.push(id);
                        proof {
                            did_mark = true;
                        }
                    }
                },
                _ => {},
            }
            proof {
                let prefix = keys@.subrange(0, i as int);
                let next = keys@.subrange(0, i + 1);
                assert(next =~= prefix.push(id));
                assert(!prefix.contains(id)) by {
                    if prefix.contains(id) {
                        let j = choose|j: int| 0 <= j < prefix.len() && prefix[j] == id;
                        assert(keys@[j] == keys@[i as int]);
                    }
                }
                lemma_push_contains(prefix, next, id);
                assert(did_mark == is_stale(old_v, id, now));
                assert(marked@ == if did_mark {
                    prev_marked.push(id)
                } else {
                    prev_marked
                });
                assert(!prev_marked.contains(id));
                assert forall|x: i32| #[trigger] marked@.contains(x) <==> (is_stale(old_v, x, now) && next.contains(x)) by {
                    if did_mark {
                        if marked@.contains(x) && x != id {
                            let j = choose|j: int| 0 <= j < marked@.len() && marked@[j] == x;
                            assert(prev_marked[j] == x);
                        }
                        if prev_marked.contains(x) {
                            let j = choose|j: int| 0 <= j < prev_marked.len() && prev_marked[j] == x;
                            assert(marked@[j] == x);
                        }
                        if x == id {
                            assert(marked@[marked@.len() - 1] == x);
                        }
                    }
                }
                assert forall|j: int| 0 <= j < i + 1 implies #[trigger] statuses@[keys@[j]] == swept(old_v, now)[keys@[j]] by {
                    if j < i {
                        assert(keys@[j] != id);
                        assert(prev_statuses[keys@[j]] == swept(old_v, now)[keys@[j]]);
                    }
                }
                assert forall|j: int| i + 1 <= j < keys.len() implies #[trigger] statuses@[keys@[j]] == old_v.statuses[keys@[j]] by {
                    assert(keys@[j] != id);
                    assert(prev_statuses[keys@[j]] == old_v.statuses[keys@[j]]);
                }
                assert(statuses@.dom() =~= old_v.statuses.dom());
                assert(statuses@.dom() =~= last_seen@.dom());
            }
            i = i + 1;
        }
        proof {
            assert(keys@.subrange(0, keys.len() as int) =~= keys@);
            assert forall|x: i32| #[trigger] keys@.contains(x) == old_v.statuses.contains_key(x) by {
                assert(keys@.to_set().contains(x) == keys@.contains(x));
            }
            assert forall|x: i32| old_v.statuses.contains_key(x) implies #[trigger] statuses@[x] == swept(old_v, now)[x] by {
                assert(keys@.contains(x));
                let j = choose|j: int| 0 <= j < keys.len() && keys@[j] == x;
                assert(statuses@[keys@[j]] == swept(old_v, now)[keys@[j]]);
            }
            assert(statuses@ =~= swept(old_v, now));
        }
        self.put_maps(statuses, last_seen);
        marked
    }
}

/// After a sweep, every worker still silent beyond the limit and not
/// offline is marked unreachable: no idle or busy worker is left stale.
pub proof fn sweep_leaves_no_stale_live_worker(v: DispatcherView, now: u64, id: i32)
    ensures
        is_stale(DispatcherView { statuses: swept(v, now), last_seen: v.last_seen }, id, now)
            ==> swept(v, now)[id] == WorkerStatusEnum::Unreachable,
{
}

/// A sweep never changes an offline worker.
pub proof fn sweep_keeps_offline(v: DispatcherView, now: u64, id: i32)
    requires
        v.statuses.contains_key(id),
        v.statuses[id] == WorkerStatusEnum::Offline,
    ensures
        swept(v, now)[id] == WorkerStatusEnum::Offline,
{
}

/// A second sweep at the same time changes nothing more.
pub proof fn sweep_is_idempotent(v: DispatcherView, now: u64)
    ensures
        swept(DispatcherView { statuses: swept(v, now), last_seen: v.last_seen }, now) == swept(
            v,
            now,
        ),
{
    let w = DispatcherView { statuses: swept(v, now), last_seen: v.last_seen };
    assert(swept(w, now) =~= swept(v, now));
}

/// A worker that has just reported is not stale.
pub proof fn report_makes_fresh(v: DispatcherView, id: i32, status: WorkerStatusEnum, now: u64)
    ensures
        !is_stale(
            DispatcherView {
                statuses: v.statuses.insert(id, status),
                last_seen: v.last_seen.insert(id, now),
            },
            id,
            now,
        ),
{
}

/// A sweep at `now` marks a known worker unreachable exactly where it is
/// idle, busy or already unreachable and has been silent for more than two
/// seconds; any other worker keeps its status, and no worker is added.
pub proof fn sweep_marks_after_two_seconds(v: DispatcherView, now: u64, id: i32)
    requires
        v.statuses.contains_key(id),
        v.last_seen.contains_key(id),
    ensures
        swept(v, now).dom() == v.statuses.dom(),
        (v.statuses[id] != WorkerStatusEnum::Offline && now > v.last_seen[id] + 2_000_000_000)
            ==> swept(v, now)[id] == WorkerStatusEnum::Unreachable,
        !(v.statuses[id] != WorkerStatusEnum::Offline && now > v.last_seen[id] + 2_000_000_000)
            ==> swept(v, now)[id] == v.statuses[id],
{
    assert(swept(v, now).dom() =~= v.statuses.dom());
}

} // verus!
