//! Entries without a thumbnail are collected and sent to the thumbnailer in
//! one batch once no new one has come for a while.
use vstd::prelude::*;

verus! {

/// How long, in milliseconds, no new entry must arrive before a batch is sent.
pub const THUMBNAIL_DEBOUNCE_MS: u64 = 1000;

/// The abstract state: the items waiting for a thumbnail, keyed by URI, and
/// the time at which the pending batch is due, if one is.
pub struct BatchModel {
    pub pending: Map<Seq<char>, u64>,
    pub deadline: Option<u64>,
}

/// When a batch armed at `now` falls due.
pub open spec fn deadline_after(now: u64) -> u64 {
    if now + THUMBNAIL_DEBOUNCE_MS <= u64::MAX {
        (now + THUMBNAIL_DEBOUNCE_MS) as u64
    } else {
        u64::MAX
    }
}

/// An entry without a thumbnail was seen: it is recorded, replacing what
/// was recorded under its URI, and the timer starts again.
pub open spec fn observe_step(m: BatchModel, uri: Seq<char>, item: u64, now: u64) -> BatchModel {
    BatchModel { pending: m.pending.insert(uri, item), deadline: Some(deadline_after(now)) }
}

/// Whether the pending batch is due at `now`.
pub open spec fn due(m: BatchModel, now: u64) -> bool {
    match m.deadline {
        Some(d) => now >= d,
        None => false,
    }
}

/// The timer is checked at `now`: when due, it is disarmed. The pending
/// items stay until results come back.
pub open spec fn poll_step(m: BatchModel, now: u64) -> BatchModel {
    if due(m, now) {
        BatchModel { pending: m.pending, deadline: None }
    } else {
        m
    }
}

/// Results applied in order: each URI still pending is removed, and where the
/// result carries a path, its item and the path are handed out.
pub open spec fn apply_results(m: Map<Seq<char>, u64>, rs: Seq<(Seq<char>, Option<Seq<char>>)>) -> (
    Map<Seq<char>, u64>,
    Seq<(u64, Seq<char>)>,
)
    decreases rs.len(),
{
    if rs.len() == 0 {
        (m, Seq::empty())
    } else {
        let (m1, out1) = apply_results(m, rs.drop_last());
        let k = rs.last().0;
        if m1.contains_key(k) {
            let out2 = match rs.last().1 {
                Some(p) => out1.push((m1[k], p)),
                None => out1,
            };
            (m1.remove(k), out2)
        } else {
            (m1, out1)
        }
    }
}

/// The views of thumbnailer results.
pub open spec fn result_views(rs: Seq<(String, Option<String>)>) -> Seq<(Seq<char>, Option<Seq<char>>)> {
    rs.map_values(
        |r: (String, Option<String>)|
            (
                r.0@,
                match r.1 {
                    Some(p) => Some(p@),
                    None => None,
                },
            ),
    )
}

/// The views of (item, path) pairs.
pub open spec fn assignment_views(v: Seq<(u64, String)>) -> Seq<(u64, Seq<char>)> {
    v.map_values(|a: (u64, String)| (a.0, a.1@))
}

/// The views of a sequence of strings.
pub open spec fn key_views(v: Seq<String>) -> Seq<Seq<char>> {
    v.map_values(|s: String| s@)
}

/// A result for a URI that is not pending changes nothing and hands out nothing.
pub proof fn lemma_absent_result_is_noop(m: Map<Seq<char>, u64>, k: Seq<char>, p: Option<Seq<char>>)
    requires
        !m.contains_key(k),
    ensures
        apply_results(m, seq![(k, p)]) == (m, Seq::<(u64, Seq<char>)>::empty()),
{
    let rs = seq![(k, p)];
    assert(rs.drop_last() =~= Seq::<(Seq<char>, Option<Seq<char>>)>::empty());
    assert(apply_results(m, rs.drop_last()) == (m, Seq::<(u64, Seq<char>)>::empty()));
    assert(rs.last() == (k, p));
}

/// Results whose URIs are none of them pending change nothing.
pub proof fn lemma_results_for_absent_keys(m: Map<Seq<char>, u64>, rs: Seq<(Seq<char>, Option<Seq<char>>)>)
    requires
        forall|j: int| 0 <= j < rs.len() ==> !m.contains_key(#[trigger] rs[j].0),
    ensures
        apply_results(m, rs) == (m, Seq::<(u64, Seq<char>)>::empty()),
    decreases rs.len(),
{
    if rs.len() > 0 {
        let pre = rs.drop_last();
        assert forall|j: int| 0 <= j < pre.len() implies !m.contains_key(#[trigger] pre[j].0) by {
            assert(pre[j] == rs[j]);
        }
        lemma_results_for_absent_keys(m, pre);
        assert(!m.contains_key(rs[rs.len() - 1].0));
    }
}

/// After results are applied, none of their URIs is pending, and nothing
/// new has become pending.
pub proof fn lemma_results_remove_keys(m: Map<Seq<char>, u64>, rs: Seq<(Seq<char>, Option<Seq<char>>)>)
    ensures
        forall|j: int| 0 <= j < rs.len() ==> !apply_results(m, rs).0.contains_key(#[trigger] rs[j].0),
        apply_results(m, rs).0.dom().subset_of(m.dom()),
    decreases rs.len(),
{
    if rs.len() > 0 {
        let pre = rs.drop_last();
        lemma_results_remove_keys(m, pre);
        assert forall|j: int| 0 <= j < rs.len() implies !apply_results(m, rs).0.contains_key(
            #[trigger] rs[j].0,
        ) by {
            if j < rs.len() - 1 {
                assert(rs[j] == pre[j]);
            }
        }
    }
}

/// Results delivered twice, or late, are no-ops the second time: applying
/// the same results again leaves the pending set as it is and hands out
/// nothing.
pub proof fn lemma_replayed_results_are_noop(m: Map<Seq<char>, u64>, rs: Seq<(Seq<char>, Option<Seq<char>>)>)
    ensures
        apply_results(apply_results(m, rs).0, rs) == (apply_results(m, rs).0, Seq::<(u64, Seq<char>)>::empty()),
{
    lemma_results_remove_keys(m, rs);
    lemma_results_for_absent_keys(apply_results(m, rs).0, rs);
}

/// What can happen to the batcher: an entry without a thumbnail is seen, or
/// the timer is checked.
pub enum BatchEvent {
    Observe { now: u64, uri: Seq<char>, item: u64 },
    Poll { now: u64 },
}

/// The time at which an event happens.
pub open spec fn event_time(e: BatchEvent) -> u64 {
    match e {
        BatchEvent::Observe { now, .. } => now,
        BatchEvent::Poll { now } => now,
    }
}

/// One event: the new state, and the URIs sent if a batch went out.
pub open spec fn step(m: BatchModel, e: BatchEvent) -> (BatchModel, Option<Set<Seq<char>>>) {
    match e {
        BatchEvent::Observe { now, uri, item } => (observe_step(m, uri, item, now), None),
        BatchEvent::Poll { now } => {
            if due(m, now) {
                (poll_step(m, now), Some(m.pending.dom()))
            } else {
                (m, None)
            }
        },
    }
}

/// Events in order: the final state, and the batches sent.
pub open spec fn run(m: BatchModel, evs: Seq<BatchEvent>) -> (BatchModel, Seq<Set<Seq<char>>>)
    decreases evs.len(),
{
    if evs.len() == 0 {
        (m, Seq::empty())
    } else {
        let (m1, sent) = run(m, evs.drop_last());
        let (m2, batch) = step(m1, evs.last());
        match batch {
            Some(b) => (m2, sent.push(b)),
            None => (m2, sent),
        }
    }
}

/// The URIs of all entries seen in `evs`.
pub open spec fn observed_keys(evs: Seq<BatchEvent>) -> Set<Seq<char>>
    decreases evs.len(),
{
    if evs.len() == 0 {
        Set::empty()
    } else {
        match evs.last() {
            BatchEvent::Observe { uri, .. } => observed_keys(evs.drop_last()).insert(uri),
            BatchEvent::Poll { .. } => observed_keys(evs.drop_last()),
        }
    }
}

/// The time of the last entry seen in `evs`.
pub open spec fn last_observe_time(evs: Seq<BatchEvent>) -> u64
    decreases evs.len(),
{
    if evs.len() == 0 {
        0
    } else {
        match evs.last() {
            BatchEvent::Observe { now, .. } => now,
            BatchEvent::Poll { .. } => last_observe_time(evs.drop_last()),
        }
    }
}

/// A burst: it starts with an entry being seen, and every later event comes
/// less than the debounce window after the last entry seen before it. Times
/// stay a window short of the largest `u64`.
pub open spec fn is_burst(evs: Seq<BatchEvent>) -> bool {
    &&& evs.len() > 0
    &&& evs[0] is Observe
    &&& forall|j: int|
        0 < j < evs.len() ==> event_time(#[trigger] evs[j]) < last_observe_time(evs.subrange(0, j))
            + THUMBNAIL_DEBOUNCE_MS
    &&& forall|j: int| 0 <= j < evs.len() ==> event_time(#[trigger] evs[j]) + THUMBNAIL_DEBOUNCE_MS <= u64::MAX
}

proof fn lemma_burst_state(m: BatchModel, evs: Seq<BatchEvent>)
    requires
        is_burst(evs),
    ensures
        run(m, evs).1.len() == 0,
        run(m, evs).0.pending.dom() == m.pending.dom().union(observed_keys(evs)),
        last_observe_time(evs) + THUMBNAIL_DEBOUNCE_MS <= u64::MAX,
        run(m, evs).0.deadline == Some((last_observe_time(evs) + THUMBNAIL_DEBOUNCE_MS) as u64),
    decreases evs.len(),
{
    let pre = evs.drop_last();
    let last = evs.len() - 1;
    assert(evs.last() == evs[last]);
    assert(event_time(evs[last]) + THUMBNAIL_DEBOUNCE_MS <= u64::MAX);
    if evs.len() == 1 {
        assert(pre =~= Seq::<BatchEvent>::empty());
        assert(run(m, pre) == (m, Seq::<Set<Seq<char>>>::empty()));
        assert(observed_keys(pre) == Set::<Seq<char>>::empty());
        if let BatchEvent::Observe { now, uri, item } = evs[0] {
            assert(deadline_after(now) == now + THUMBNAIL_DEBOUNCE_MS);
            assert(m.pending.insert(uri, item).dom() =~= m.pending.dom().union(
                Set::<Seq<char>>::empty().insert(uri),
            ));
        }
    } else {
        assert forall|j: int| 0 < j < pre.len() implies event_time(#[trigger] pre[j]) < last_observe_time(
            pre.subrange(0, j),
        ) + THUMBNAIL_DEBOUNCE_MS by {
            assert(pre.subrange(0, j) =~= evs.subrange(0, j));
            assert(pre[j] == evs[j]);
        }
        assert forall|j: int| 0 <= j < pre.len() implies event_time(#[trigger] pre[j]) + THUMBNAIL_DEBOUNCE_MS <= u64::MAX by {
            assert(pre[j] == evs[j]);
        }
        assert(pre[0] == evs[0]);
        lemma_burst_state(m, pre);
        assert(evs.subrange(0, last) =~= pre);
        assert(event_time(evs[last]) < last_observe_time(pre) + THUMBNAIL_DEBOUNCE_MS);
        let m1 = run(m, pre).0;
        match evs[last] {
            BatchEvent::Observe { now, uri, item } => {
                assert(deadline_after(now) == now + THUMBNAIL_DEBOUNCE_MS);
                assert(m1.pending.insert(uri, item).dom() =~= m.pending.dom().union(
                    observed_keys(pre).insert(uri),
                ));
            },
            BatchEvent::Poll { now } => {
                assert(!due(m1, now));
            },
        }
    }
}

/// A burst of entries seen within less than the debounce window of each
/// other sends nothing while it lasts; a check of the timer once the window
/// has passed after the last of them sends exactly one batch, holding what
/// was pending before and every URI seen in the burst.
pub proof fn lemma_burst_sends_one_batch(m: BatchModel, evs: Seq<BatchEvent>, t: u64)
    requires
        is_burst(evs),
        t >= last_observe_time(evs) + THUMBNAIL_DEBOUNCE_MS,
    ensures
        run(m, evs).1.len() == 0,
        run(m, evs.push(BatchEvent::Poll { now: t })).1 == seq![
            m.pending.dom().union(observed_keys(evs)),
        ],
{
    lemma_burst_state(m, evs);
    let all = evs.push(BatchEvent::Poll { now: t });
    assert(all.drop_last() =~= evs);
    assert(run(m, all).1 =~= seq![m.pending.dom().union(observed_keys(evs))]);
}

/// The entries lacking a thumbnail, and the debounce timer.
pub struct ThumbnailBatcher {
    pending: Vec<(String, u64)>,
    deadline: Option<u64>,
    map: Ghost<Map<Seq<char>, u64>>,
}

impl ThumbnailBatcher {
    /// The abstract state.
    pub closed spec fn model(&self) -> BatchModel {
        BatchModel { pending: self.map@, deadline: self.deadline }
    }

    /// The pending list holds each URI once, and the map says what it holds.
    pub closed spec fn wf(&self) -> bool {
        &&& forall|i: int, j: int|
            0 <= i < j < self.pending@.len() ==> self.pending@[i].0@ != self.pending@[j].0@
        &&& forall|i: int|
            0 <= i < self.pending@.len() ==> #[trigger] self.map@.contains_key(self.pending@[i].0@)
                && self.map@[self.pending@[i].0@] == self.pending@[i].1
        &&& forall|k: Seq<char>|
            #[trigger] self.map@.contains_key(k) ==> exists|i: int|
                0 <= i < self.pending@.len() && self.pending@[i].0@ == k
    }

    /// Nothing pending, no timer armed.
    pub fn new() -> (r: ThumbnailBatcher)
        ensures
            r.wf(),
            r.model().pending == Map::<Seq<char>, u64>::empty(),
            r.model().deadline is None,
    {
        ThumbnailBatcher { pending: Vec::new(), deadline: None, map: Ghost(Map::empty()) }
    }

    fn find(&self, uri: &str) -> (r: Option<usize>)
        requires
            self.wf(),
        ensures
            match r {
                Some(i) => i < self.pending@.len() && self.pending@[i as int].0@ == uri@,
                None => !self.map@.contains_key(uri@),
            },
    {
        let mut i: usize = 0;
        while i < self.pending.len()
            invariant
                i <= self.pending@.len(),
                forall|j: int| 0 <= j < i ==> self.pending@[j].0@ != uri@,
            decreases self.pending.len() - i,
        {
            if crate::text::strings_equal(self.pending[i].0.as_str(), uri) {
                return Some(i);
            }
            i = i + 1;
        }
        None
    }

    /// An entry came into view. One that already has a valid thumbnail is
    /// ignored (`None`); another is recorded under its URI and the timer is
    /// armed anew, and the time at which it falls due is returned.
    pub fn observe(&mut self, uri: &String, item: u64, has_thumbnail: bool, now: u64) -> (r: Option<u64>)
        requires
            old(self).wf(),
        ensures
            final(self).wf(),
            has_thumbnail ==> final(self).model() == old(self).model() && r is None,
            !has_thumbnail ==> final(self).model() == observe_step(old(self).model(), uri@, item, now)
                && r == Some(deadline_after(now)),
    {
        if has_thumbnail {
            return None;
        }
        let ghost idx: int;
        match self.find(uri.as_str()) {
            Some(i) => {
                self.pending.set(i, (uri.clone(), item));
                proof {
                    idx = i as int;
                }
            },
            None => {
                self.pending.push((uri.clone(), item));
                proof {
                    idx = self.pending@.len() - 1;
                }
            },
        }
        assert(self.pending@[idx].0@ == uri@);
        self.map = Ghost(self.map@.insert(uri@, item));
        let d = now.saturating_add(THUMBNAIL_DEBOUNCE_MS);
        self.deadline = Some(d);
        proof {
            let ghost op = old(self).pending@;
            assert forall|i: int| 0 <= i < self.pending@.len() && i != idx implies #[trigger] self.pending@[i] == op[i] by {}
            assert forall|i: int, j: int|
                0 <= i < j < self.pending@.len() implies self.pending@[i].0@ != self.pending@[j].0@ by {
                if i != idx && j != idx {
                    assert(self.pending@[i] == op[i]);
                    assert(self.pending@[j] == op[j]);
                } else if i == idx {
                    assert(self.pending@[j] == op[j]);
                    if self.pending@[j].0@ == uri@ {
                        assert(old(self).map@.contains_key(op[j].0@));
                    }
                } else {
                    assert(self.pending@[i] == op[i]);
                    if self.pending@[i].0@ == uri@ {
                        assert(old(self).map@.contains_key(op[i].0@));
                    }
                }
            }
            assert forall|i: int|
                0 <= i < self.pending@.len() implies #[trigger] self.map@.contains_key(
                self.pending@[i].0@,
            ) && self.map@[self.pending@[i].0@] == self.pending@[i].1 by {
                if i != idx {
                    assert(self.pending@[i] == op[i]);
                    if op[i].0@ == uri@ {
                        assert(old(self).map@.contains_key(op[i].0@));
                    }
                }
            }
            assert forall|k: Seq<char>| #[trigger] self.map@.contains_key(k) implies exists|i: int|
                0 <= i < self.pending@.len() && self.pending@[i].0@ == k by {
                if k != uri@ {
                    let i = choose|i: int| 0 <= i < old(self).pending@.len() && old(self).pending@[i].0@ == k;
                    assert(self.pending@[i].0@ == k);
                } else {
                    assert(self.pending@[idx].0@ == k);
                }
            }
        }
        Some(d)
    }

    /// The URIs waiting for a thumbnail, each once.
    pub fn pending_keys(&self) -> (r: Vec<String>)
        requires
            self.wf(),
        ensures
            key_views(r@).no_duplicates(),
            key_views(r@).to_set() == self.model().pending.dom(),
    {
        let mut out: Vec<String> = Vec::new();
        let mut i: usize = 0;
        while i < self.pending.len()
            invariant
                self.wf(),
                i <= self.pending@.len(),
                key_views(out@) == self.pending@.subrange(0, i as int).map_values(|p: (String, u64)| p.0@),
            decreases self.pending.len() - i,
        {
            out.push(self.pending[i].0.clone());
            assert(self.pending@.subrange(0, i + 1).map_values(|p: (String, u64)| p.0@)
                =~= self.pending@.subrange(0, i as int).map_values(|p: (String, u64)| p.0@).push(self.pending@[i as int].0@));
            assert(key_views(out@) =~= self.pending@.subrange(0, i as int).map_values(|p: (String, u64)| p.0@).push(self.pending@[i as int].0@));
            i = i + 1;
        }
        assert(self.pending@.subrange(0, i as int) =~= self.pending@);
        let ghost ks = key_views(out@);
        assert(ks.to_set() =~= self.model().pending.dom()) by {
            assert forall|k: Seq<char>| ks.to_set().contains(k) implies self.map@.contains_key(k) by {
                let j = choose|j: int| 0 <= j < ks.len() && ks[j] == k;
                assert(self.map@.contains_key(self.pending@[j].0@));
            }
            assert forall|k: Seq<char>| self.map@.contains_key(k) implies ks.to_set().contains(k) by {
                let j = choose|j: int| 0 <= j < self.pending@.len() && self.pending@[j].0@ == k;
                assert(ks[j] == k);
            }
        }
        out
    }

    /// Checks the timer at `now`. When the batch is due the timer is
    /// disarmed and the URIs to send are returned; else `None`.
    pub fn poll(&mut self, now: u64) -> (r: Option<Vec<String>>)
        requires
            old(self).wf(),
        ensures
            final(self).wf(),
            final(self).model() == poll_step(old(self).model(), now),
            r is Some <==> due(old(self).model(), now),
            r matches Some(v) ==> key_views(v@).no_duplicates() && key_views(v@).to_set()
                == old(self).model().pending.dom(),
    {
        match self.deadline {
            Some(d) => {
                if now >= d {
                    let keys = self.pending_keys();
                    self.deadline = None;
                    assert(self.pending@ == old(self).pending@);
                    assert(self.map@ == old(self).map@);
                    Some(keys)
                } else {
                    None
                }
            },
            None => None,
        }
    }

    fn remove_at(&mut self, j: usize) -> (item: u64)
        requires
            old(self).wf(),
            j < old(self).pending@.len(),
        ensures
            final(self).wf(),
            final(self).deadline == old(self).deadline,
            item == old(self).map@[old(self).pending@[j as int].0@],
            final(self).map@ == old(self).map@.remove(old(self).pending@[j as int].0@),
    {
        let ghost k = self.pending@[j as int].0@;
        let ghost old_pending = self.pending@;
        let (_, item) = self.pending.remove(j);
        self.map = Ghost(self.map@.remove(k));
        proof {
            assert forall|i: int| 0 <= i < self.pending@.len() implies self.pending@[i] == (if i
                < j {
                old_pending[i]
            } else {
                old_pending[i + 1]
            }) by {}
            assert forall|i: int|
                0 <= i < self.pending@.len() implies #[trigger] self.map@.contains_key(
                self.pending@[i].0@,
            ) && self.map@[self.pending@[i].0@] == self.pending@[i].1 by {
                let oi = if i < j {
                    i
                } else {
                    i + 1
                };
                assert(self.pending@[i] == old_pending[oi]);
                assert(old_pending[oi].0@ != k);
                assert(old(self).map@.contains_key(old_pending[oi].0@));
                assert(old(self).map@[old_pending[oi].0@] == old_pending[oi].1);
            }
            assert forall|q: Seq<char>| #[trigger] self.map@.contains_key(q) implies exists|i: int|
                0 <= i < self.pending@.len() && self.pending@[i].0@ == q by {
                let i = choose|i: int| 0 <= i < old_pending.len() && old_pending[i].0@ == q;
                if i < j {
                    assert(self.pending@[i].0@ == q);
                } else {
                    assert(i != j);
                    assert(self.pending@[i - 1].0@ == q);
                }
            }
        }
        item
    }

    /// Applies the thumbnailer's results in order: each URI still pending is
    /// removed from the pending set, and where its result carries a path, the
    /// item and the path are returned for the caller to show. A URI that is
    /// not pending changes nothing.
    pub fn apply_results(&mut self, results: &Vec<(String, Option<String>)>) -> (r: Vec<(u64, String)>)
        requires
            old(self).wf(),
        ensures
            final(self).wf(),
            final(self).model().deadline == old(self).model().deadline,
            (final(self).model().pending, assignment_views(r@)) == apply_results(
                old(self).model().pending,
                result_views(results@),
            ),
    {
        let ghost m0 = self.map@;
        let ghost rs = result_views(results@);
        let mut out: Vec<(u64, String)> = Vec::new();
        let mut i: usize = 0;
        while i < results.len()
            invariant
                self.wf(),
                self.deadline == old(self).deadline,
                i <= results@.len(),
                rs == result_views(results@),
                (self.map@, assignment_views(out@)) == apply_results(m0, rs.subrange(0, i as int)),
            decreases results.len() - i,
        {
            let ghost m1 = self.map@;
            let ghost out1 = assignment_views(out@);
            assert(rs.subrange(0, i + 1).drop_last() =~= rs.subrange(0, i as int));
            match self.find(results[i].0.as_str()) {
                Some(j) => {
                    let item = self.remove_at(j);
                    match &results[i].1 {
                        Some(p) => {
                            out.push((item, p.clone()));
                            assert(assignment_views(out@) =~= out1.push((item, p@)));
                        },
                        None => {},
                    }
                },
                None => {},
            }
            i = i + 1;
        }
        assert(rs.subrange(0, i as int) =~= rs);
        out
    }

    /// Drops everything pending and disarms the timer.
    pub fn clear(&mut self)
        ensures
            final(self).wf(),
            final(self).model().pending == Map::<Seq<char>, u64>::empty(),
            final(self).model().deadline is None,
    {
        self.pending = Vec::new();
        self.deadline = None;
        self.map = Ghost(Map::empty());
    }
}

} // verus!
