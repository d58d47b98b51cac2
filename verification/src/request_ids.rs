//! The request identifiers of a client: a counter for fresh ones and a pool of
//! released ones that later requests reuse.
use std::collections::HashSet;
use vstd::prelude::*;
use vstd::std_specs::hash::spec_hash_keys_iter;
use vstd::std_specs::iter::IteratorSpec;

verus! {

broadcast use vstd::std_specs::hash::group_hash_axioms;

/// The abstract state of a request-identifier pool.
pub struct IdPoolView {
    /// The identifier that the counter hands out next.
    pub next: u32,
    /// Identifiers whose requests were answered; they may be handed out again.
    pub released: Set<u32>,
}

/// The value that follows `n` on a 32-bit counter that wraps around.
pub open spec fn successor(n: u32) -> u32 {
    if n == u32::MAX {
        0
    } else {
        (n + 1) as u32
    }
}

/// What handing out `id` does to a pool: a released identifier is reused when there is
/// one (which one is left open), otherwise the counter's value is used and the counter
/// advances.
pub open spec fn hands_out(pre: IdPoolView, post: IdPoolView, id: u32) -> bool {
    if pre.released.is_empty() {
        &&& id == pre.next
        &&& post.next == successor(pre.next)
        &&& post.released == pre.released
    } else {
        &&& pre.released.contains(id)
        &&& post.released == pre.released.remove(id)
        &&& post.next == pre.next
    }
}

/// What releasing `id` does to a pool.
pub open spec fn takes_back(pre: IdPoolView, post: IdPoolView, id: u32) -> bool {
    &&& post.released == pre.released.insert(id)
    &&& post.next == pre.next
}

/// Released identifiers are reused: when the pool holds no released identifier and
/// `id` is released, the next identifier handed out is `id`, and the pool is back to
/// where it was.
pub proof fn lemma_released_id_is_reused(
    p0: IdPoolView,
    p1: IdPoolView,
    p2: IdPoolView,
    id: u32,
    next: u32,
)
    requires
        p0.released.is_empty(),
        takes_back(p0, p1, id),
        hands_out(p1, p2, next),
    ensures
        next == id,
        p2 == p0,
{
    assert(p1.released.contains(id));
    assert(p2.released =~= p0.released);
}

/// With no identifier released, two identifiers handed out one after the other differ.
pub proof fn lemma_fresh_ids_differ(p0: IdPoolView, p1: IdPoolView, p2: IdPoolView, a: u32, b: u32)
    requires
        p0.released.is_empty(),
        hands_out(p0, p1, a),
        hands_out(p1, p2, b),
    ensures
        a != b,
{
}

/// An answered request frees its identifier: a request sent from a pool with nothing
/// released, whose identifier is released when its response arrives, leaves that
/// identifier as the only released one, and it is the next one handed out.
pub proof fn lemma_answered_request_frees_its_id(
    p0: IdPoolView,
    p1: IdPoolView,
    p2: IdPoolView,
    p3: IdPoolView,
    id: u32,
    next: u32,
)
    requires
        p0.released.is_empty(),
        hands_out(p0, p1, id),
        takes_back(p1, p2, id),
        hands_out(p2, p3, next),
    ensures
        p2.released == Set::<u32>::empty().insert(id),
        next == id,
        p3.released.is_empty(),
{
    assert(p2.released =~= Set::<u32>::empty().insert(id));
    assert(p2.released.contains(id));
    assert(p3.released =~= Set::<u32>::empty());
}

/// The pool `p` with the identifiers `outstanding` handed out and not yet released:
/// every identifier in use or released is at least 1 and below the counter, and no
/// released identifier is outstanding.
pub open spec fn pool_consistent(p: IdPoolView, outstanding: Set<u32>) -> bool {
    &&& p.next >= 1
    &&& forall|x: u32| #[trigger] outstanding.contains(x) ==> 1 <= x < p.next
    &&& forall|x: u32|
        #[trigger] p.released.contains(x) ==> 1 <= x < p.next && !outstanding.contains(x)
}

/// A new pool, with nothing handed out, is consistent.
pub proof fn lemma_new_pool_consistent(p: IdPoolView)
    requires
        p.next == 1,
        p.released == Set::<u32>::empty(),
    ensures
        pool_consistent(p, Set::empty()),
{
}

/// Handing out keeps a pool consistent while the counter has not reached `u32::MAX`:
/// the identifier handed out is at least 1 (never 0) and differs from every outstanding
/// one, and it joins them.
pub proof fn lemma_hands_out_distinct(
    p: IdPoolView,
    q: IdPoolView,
    outstanding: Set<u32>,
    id: u32,
)
    requires
        pool_consistent(p, outstanding),
        p.next < u32::MAX,
        hands_out(p, q, id),
    ensures
        id >= 1,
        !outstanding.contains(id),
        pool_consistent(q, outstanding.insert(id)),
{
}

/// Releasing an outstanding identifier keeps a pool consistent: it leaves the
/// outstanding ones and joins the released ones.
pub proof fn lemma_release_outstanding(
    p: IdPoolView,
    q: IdPoolView,
    outstanding: Set<u32>,
    id: u32,
)
    requires
        pool_consistent(p, outstanding),
        outstanding.contains(id),
        takes_back(p, q, id),
    ensures
        pool_consistent(q, outstanding.remove(id)),
{
}

/// One operation on a pool: handing out an identifier, or releasing one.
pub enum PoolStep {
    HandOut(u32),
    Release(u32),
}

/// The identifiers outstanding after these operations from a new pool: handed out and
/// not released since.
pub open spec fn outstanding_after(steps: Seq<PoolStep>) -> Set<u32>
    decreases steps.len(),
{
    if steps.len() == 0 {
        Set::empty()
    } else {
        let before = outstanding_after(steps.drop_last());
        match steps.last() {
            PoolStep::HandOut(id) => before.insert(id),
            PoolStep::Release(id) => before.remove(id),
        }
    }
}

/// Whether `step` takes the pool from `pre` to `post`, after the operations `before`:
/// a release gives back an outstanding identifier.
pub open spec fn step_taken(pre: IdPoolView, post: IdPoolView, before: Seq<PoolStep>, step: PoolStep) -> bool {
    match step {
        PoolStep::HandOut(id) => hands_out(pre, post, id),
        PoolStep::Release(id) => outstanding_after(before).contains(id) && takes_back(pre, post, id),
    }
}

/// Whether `states` is a run of a pool from `RequestIds::new` through `steps`, with only
/// outstanding identifiers released and the counter kept below `u32::MAX`.
pub open spec fn is_run(states: Seq<IdPoolView>, steps: Seq<PoolStep>) -> bool {
    &&& states.len() == steps.len() + 1
    &&& states[0].next == 1
    &&& states[0].released == Set::<u32>::empty()
    &&& forall|i: int|
        0 <= i < steps.len() ==> step_taken(states[i], states[i + 1], steps.take(i), #[trigger] steps[i])
    &&& forall|i: int| 0 <= i < states.len() ==> (#[trigger] states[i]).next < u32::MAX
}

proof fn lemma_run_prefix(states: Seq<IdPoolView>, steps: Seq<PoolStep>, k: int)
    requires
        is_run(states, steps),
        0 <= k < states.len(),
    ensures
        pool_consistent(states[k], outstanding_after(steps.take(k))),
    decreases k,
{
    if k == 0 {
        assert(steps.take(0) =~= Seq::<PoolStep>::empty());
    } else {
        lemma_run_prefix(states, steps, k - 1);
        let before = steps.take(k - 1);
        assert(steps.take(k).drop_last() =~= before);
        assert(steps.take(k).last() == steps[k - 1]);
        assert(step_taken(states[k - 1], states[k], before, steps[k - 1]));
        assert(states[k - 1].next < u32::MAX);
        match steps[k - 1] {
            PoolStep::HandOut(id) => {
                lemma_hands_out_distinct(states[k - 1], states[k], outstanding_after(before), id);
            },
            PoolStep::Release(id) => {
                lemma_release_outstanding(states[k - 1], states[k], outstanding_after(before), id);
            },
        }
    }
}

/// Over any run of a pool from its creation, in which only outstanding identifiers
/// are released and fewer than `u32::MAX` fresh ones are minted: every identifier
/// handed out is at least 1 (never 0) and differs from every identifier outstanding
/// at that moment, and at every point the released identifiers are outside the
/// outstanding ones and all identifiers used are below the counter.
pub proof fn lemma_run_keeps_ids_distinct(states: Seq<IdPoolView>, steps: Seq<PoolStep>)
    requires
        is_run(states, steps),
    ensures
        forall|i: int|
            0 <= i < states.len() ==> pool_consistent(
                #[trigger] states[i],
                outstanding_after(steps.take(i)),
            ),
        forall|i: int|
            0 <= i < steps.len() ==> ((#[trigger] steps[i]) matches PoolStep::HandOut(id) ==> id
                >= 1 && !outstanding_after(steps.take(i)).contains(id)),
{
    assert forall|i: int| 0 <= i < states.len() implies pool_consistent(
        #[trigger] states[i],
        outstanding_after(steps.take(i)),
    ) by {
        lemma_run_prefix(states, steps, i);
    }
    assert forall|i: int| 0 <= i < steps.len() implies ((#[trigger] steps[i]) matches PoolStep::HandOut(
        id,
    ) ==> id >= 1 && !outstanding_after(steps.take(i)).contains(id)) by {
        lemma_run_prefix(states, steps, i);
        assert(step_taken(states[i], states[i + 1], steps.take(i), steps[i]));
        assert(states[i].next < u32::MAX);
        if let PoolStep::HandOut(id) = steps[i] {
            lemma_hands_out_distinct(states[i], states[i + 1], outstanding_after(steps.take(i)), id);
        }
    }
}

/// Request identifiers of a client: a counter for fresh identifiers and the set of
/// identifiers released for reuse.
pub struct RequestIds {
    next_id: u32,
    released: HashSet<u32>,
}

impl View for RequestIds {
    type V = IdPoolView;

    closed spec fn view(&self) -> IdPoolView {
        IdPoolView { next: self.next_id, released: self.released@ }
    }
}

impl RequestIds {
    /// A pool whose counter starts at 1 and that holds no released identifier.
    pub fn new() -> (ids: Self)
        ensures
            ids@.next == 1,
            ids@.released == Set::<u32>::empty(),
    {
        RequestIds { next_id: 1, released: HashSet::new() }
    }

    /// Hands out an identifier for a new request: a released one if there is any,
    /// which is then no longer released; otherwise the counter's value, and the
    /// counter moves on (wrapping around at `u32::MAX`).
    pub fn generate_request_id(&mut self) -> (id: u32)
        ensures
            hands_out(old(self)@, final(self)@, id),
            !final(self)@.released.contains(id),
    {
        let mut first: Option<u32> = None;
        assert(spec_hash_keys_iter(&self.released).remaining().len() == 0
            ==> self.released@.is_empty()) by {
            let keys = spec_hash_keys_iter(&self.released).remaining();
            assert(keys.len() == 0 ==> keys.unref() =~= Seq::<u32>::empty());
            assert(keys.len() == 0 ==> self.released@ =~= Set::<u32>::empty());
        }
        for x in iter: self.released.iter()
            invariant_except_break
                first is None,
                iter.index() == 0,
                iter.seq().len() == 0 ==> self.released@.is_empty(),
            ensures
                first matches Some(v) ==> self.released@.contains(v),
                first is None ==> self.released@.is_empty(),
        {
            proof {
                let keys = spec_hash_keys_iter(&self.released).remaining();
                assert(keys.unref().to_set().contains(keys.unref()[iter.index()]));
            }
            first = Some(*x);
            break;
        }
        match first {
            Some(id) => {
                self.released.remove(&id);
                id
            },
            None => {
                let id = self.next_id;
                self.next_id = self.next_id.wrapping_add(1);
                id
            },
        }
    }
}

impl RequestIds {
    /// Hands out the counter's value without looking at the released identifiers, and
    /// moves the counter on (wrapping around at `u32::MAX`).
    pub fn fresh_request_id(&mut self) -> (id: u32)
        ensures
            id == old(self)@.next,
            final(self)@.next == successor(old(self)@.next),
            final(self)@.released == old(self)@.released,
    {
        let id = self.next_id;
        self.next_id = self.next_id.wrapping_add(1);
        id
    }
}

/// Gives `id` back to the pool so that a later request may reuse it.
pub fn release_id(ids: &mut RequestIds, id: u32)
    ensures
        takes_back(old(ids)@, final(ids)@, id),
{
    ids.released.insert(id);
}

} // verus!
