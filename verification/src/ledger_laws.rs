use vstd::prelude::*;
use crate::ledger::{
    granted_lease, lease_index, lease_of, lemma_lease_index_bounds, live_leases, release_spec,
    reserve_spec, slots_total, valid_reservation, DecisionView, LeaseView, LedgerView,
};

verus! {

/// Every lease that is live at `now_ms` is one of the given leases, and
/// expires after `now_ms`.
pub proof fn lemma_live_leases_members(s: Seq<LeaseView>, now_ms: i64)
    ensures
        forall|x: LeaseView| #[trigger]
            live_leases(s, now_ms).contains(x) ==> s.contains(x) && x.expires_ms > now_ms,
        slots_total(live_leases(s, now_ms)) <= slots_total(s),
    decreases s.len(),
{
    if s.len() > 0 {
        let rest = s.drop_last();
        lemma_live_leases_members(rest, now_ms);
        assert(live_leases(rest, now_ms).push(s.last()).drop_last() =~= live_leases(rest, now_ms));
        assert forall|x: LeaseView| #[trigger]
            live_leases(s, now_ms).contains(x) implies s.contains(x) && x.expires_ms > now_ms by {
            if live_leases(rest, now_ms).contains(x) {
                let j = choose|j: int| 0 <= j < rest.len() && rest[j] == x;
                assert(s[j] == x);
            } else {
                assert(s[s.len() - 1] == x);
            }
        }
    }
}

/// A sequence without a lease of `owner` keeps none among its live leases.
pub proof fn lemma_live_leases_keep_owner_absent(s: Seq<LeaseView>, owner: Seq<char>, now_ms: i64)
    requires
        lease_index(s, owner) is None,
    ensures
        lease_index(live_leases(s, now_ms), owner) is None,
{
    let live = live_leases(s, now_ms);
    lemma_lease_index_bounds(s, owner);
    lemma_live_leases_members(s, now_ms);
    lemma_lease_index_bounds(live, owner);
    if lease_index(live, owner) is Some {
        let i = lease_index(live, owner)->0;
        assert(live.contains(live[i]));
        let j = choose|j: int| 0 <= j < s.len() && s[j] == live[i];
        assert(s[j].owner != owner);
    }
}

/// The slots of a sequence of leases without one of them.
pub proof fn lemma_slots_total_remove(s: Seq<LeaseView>, i: int)
    requires
        0 <= i < s.len(),
    ensures
        slots_total(s.remove(i)) + s[i].slots == slots_total(s),
    decreases s.len(),
{
    if i == s.len() - 1 {
        assert(s.remove(i) =~= s.drop_last());
    } else {
        lemma_slots_total_remove(s.drop_last(), i);
        assert(s.remove(i) =~= s.drop_last().remove(i).push(s.last()));
        assert(s.remove(i).drop_last() =~= s.drop_last().remove(i));
    }
}

/// The first lease of an owner in a sequence that ends with that owner's
/// lease, and holds no other, is the last one.
pub proof fn lemma_lease_index_push(s: Seq<LeaseView>, x: LeaseView)
    requires
        lease_index(s, x.owner) is None,
    ensures
        lease_index(s.push(x), x.owner) == Some(s.len() as int),
{
    assert(s.push(x).drop_last() =~= s);
}

/// The live leases of a sequence that ends with a lease still live at
/// `now_ms`.
pub proof fn lemma_live_leases_push(s: Seq<LeaseView>, x: LeaseView, now_ms: i64)
    requires
        x.expires_ms > now_ms,
    ensures
        live_leases(s.push(x), now_ms) == live_leases(s, now_ms).push(x),
{
    assert(s.push(x).drop_last() =~= s);
}

/// A reservation never leaves more slots held than the resource has: a
/// granted lease fits in what the live leases left free, and a ledger
/// within its capacity stays so, whatever is decided. The capacity itself
/// never changes.
pub proof fn law_reserve_within_capacity(
    l: LedgerView,
    owner: &str,
    resource: &str,
    slots: u32,
    now_ms: i64,
    ttl_ms: i64,
)
    ensures
        ({
            let (d, post) = reserve_spec(l, owner, resource, slots, now_ms, ttl_ms);
            &&& post.capacity == l.capacity
            &&& d is Granted ==> slots_total(post.active) <= l.capacity
            &&& slots_total(l.active) <= l.capacity ==> slots_total(post.active) <= l.capacity
        }),
{
    let live = live_leases(l.active, now_ms);
    lemma_live_leases_members(l.active, now_ms);
    if valid_reservation(owner, resource, slots, now_ms, ttl_ms) && lease_of(live, owner@) is None {
        let lease = granted_lease(l, owner, resource, slots, now_ms, ttl_ms);
        assert(live.push(lease).drop_last() =~= live);
    }
}

/// Releasing never adds held slots, so a resource within its capacity stays
/// so.
pub proof fn law_release_within_capacity(
    active: Seq<LeaseView>,
    owner: Seq<char>,
    generation: i64,
    now_ms: i64,
)
    ensures
        slots_total(release_spec(active, owner, generation, now_ms).1) <= slots_total(active),
{
    lemma_lease_index_bounds(active, owner);
    if let Some(i) = lease_index(active, owner) {
        lemma_slots_total_remove(active, i);
    }
}

/// Generations only grow: a granted lease carries the ledger's next
/// generation, which the ledger then keeps; and when no active lease is
/// newer than the ledger's generation, the granted lease is newer than
/// every other active lease, and no active lease is newer than the
/// ledger's generation afterwards.
pub proof fn law_reserve_fresh_generation(
    l: LedgerView,
    owner: &str,
    resource: &str,
    slots: u32,
    now_ms: i64,
    ttl_ms: i64,
)
    ensures
        ({
            let (d, post) = reserve_spec(l, owner, resource, slots, now_ms, ttl_ms);
            &&& post.generation >= l.generation
            &&& d matches DecisionView::Granted(lease) ==> {
                &&& lease.generation == l.generation + 1
                &&& post.generation == lease.generation
                &&& post.active.last() == lease
            }
            &&& (forall|i: int| 0 <= i < l.active.len() ==> (#[trigger] l.active[i]).generation
                <= l.generation) ==> {
                &&& forall|i: int| 0 <= i < post.active.len() ==> (#[trigger] post.active[i]).generation
                    <= post.generation
                &&& d matches DecisionView::Granted(lease) ==> forall|i: int|
                    0 <= i < post.active.len() - 1 ==> (#[trigger] post.active[i]).generation
                        < lease.generation
            }
        }),
{
    let live = live_leases(l.active, now_ms);
    lemma_live_leases_members(l.active, now_ms);
    if forall|i: int| 0 <= i < l.active.len() ==> (#[trigger] l.active[i]).generation
        <= l.generation {
        assert forall|i: int| 0 <= i < live.len() implies (#[trigger] live[i]).generation
            <= l.generation by {
            assert(live.contains(live[i]));
        }
    }
}

/// Asking again, before the granted lease expires, gives the same lease
/// back when the same slots are asked for, and is refused as conflicting
/// when other slots are.
pub proof fn law_reserve_replay(
    l: LedgerView,
    owner: &str,
    resource: &str,
    slots: u32,
    now_ms: i64,
    ttl_ms: i64,
    again_slots: u32,
    again_ms: i64,
    again_ttl_ms: i64,
)
    requires
        reserve_spec(l, owner, resource, slots, now_ms, ttl_ms).0 is Granted,
        valid_reservation(owner, resource, again_slots, again_ms, again_ttl_ms),
        again_ms < now_ms + ttl_ms,
    ensures
        ({
            let (d, post) = reserve_spec(l, owner, resource, slots, now_ms, ttl_ms);
            let lease = granted_lease(l, owner, resource, slots, now_ms, ttl_ms);
            let again = reserve_spec(post, owner, resource, again_slots, again_ms, again_ttl_ms).0;
            &&& again_slots == slots ==> again == DecisionView::Duplicate(lease)
            &&& again_slots != slots ==> again == DecisionView::Refused(
                "conflicting_reservation"@,
            )
        }),
{
    let live = live_leases(l.active, now_ms);
    let lease = granted_lease(l, owner, resource, slots, now_ms, ttl_ms);
    lemma_live_leases_push(live, lease, again_ms);
    lemma_live_leases_keep_owner_absent(live, owner@, again_ms);
    lemma_lease_index_push(live_leases(live, again_ms), lease);
}

/// After a grant, releasing at the granted generation before the lease
/// expires releases it, and a second release finds nothing left; another
/// generation is stale; and at or after the expiry the lease is reported
/// expired.
pub proof fn law_release_after_grant(
    l: LedgerView,
    owner: &str,
    resource: &str,
    slots: u32,
    now_ms: i64,
    ttl_ms: i64,
    generation: i64,
    release_ms: i64,
    second_generation: i64,
    second_ms: i64,
)
    requires
        reserve_spec(l, owner, resource, slots, now_ms, ttl_ms).0 is Granted,
    ensures
        ({
            let post = reserve_spec(l, owner, resource, slots, now_ms, ttl_ms).1;
            let lease = granted_lease(l, owner, resource, slots, now_ms, ttl_ms);
            let (answer, left) = release_spec(post.active, owner@, generation, release_ms);
            &&& generation != lease.generation ==> answer == "stale_generation"@ && left
                == post.active
            &&& generation == lease.generation && release_ms >= lease.expires_ms ==> answer
                == "expired_lease"@ && left == post.active
            &&& generation == lease.generation && release_ms < lease.expires_ms ==> {
                &&& answer == "released"@
                &&& left == live_leases(l.active, now_ms)
                &&& release_spec(left, owner@, second_generation, second_ms).0
                    == "already_released"@
            }
        }),
{
    let live = live_leases(l.active, now_ms);
    let lease = granted_lease(l, owner, resource, slots, now_ms, ttl_ms);
    lemma_lease_index_push(live, lease);
    assert(live.push(lease).remove(live.len() as int) =~= live);
}

/// No two leases of the sequence belong to the same owner.
pub open spec fn owners_distinct(s: Seq<LeaseView>) -> bool {
    forall|i: int, j: int| 0 <= i < j < s.len() ==> (#[trigger] s[i]).owner != (#[trigger] s[j]).owner
}

proof fn lemma_live_leases_owners_distinct(s: Seq<LeaseView>, now_ms: i64)
    requires
        owners_distinct(s),
    ensures
        owners_distinct(live_leases(s, now_ms)),
    decreases s.len(),
{
    if s.len() > 0 {
        let rest = s.drop_last();
        assert(owners_distinct(rest)) by {
            assert forall|i: int, j: int| 0 <= i < j < rest.len() implies (#[trigger] rest[i]).owner
                != (#[trigger] rest[j]).owner by {
                assert(rest[i] == s[i] && rest[j] == s[j]);
            }
        }
        lemma_live_leases_owners_distinct(rest, now_ms);
        if s.last().expires_ms > now_ms {
            let live = live_leases(rest, now_ms);
            lemma_live_leases_members(rest, now_ms);
            assert forall|i: int| 0 <= i < live.len() implies (#[trigger] live[i]).owner
                != s.last().owner by {
                assert(live.contains(live[i]));
                let k = choose|k: int| 0 <= k < rest.len() && rest[k] == live[i];
                assert(s[k] == rest[k]);
            }
            let out = live.push(s.last());
            assert(out.drop_last() =~= live);
            assert forall|i: int, j: int| 0 <= i < j < out.len() implies (#[trigger] out[i]).owner
                != (#[trigger] out[j]).owner by {
                if j == out.len() - 1 {
                    assert(out[i] == live[i]);
                } else {
                    assert(out[i] == live[i] && out[j] == live[j]);
                }
            }
        }
    }
}

/// An owner never holds two active leases of a resource: reserving and
/// releasing keep the owners of the active leases distinct.
pub proof fn law_one_lease_per_owner(
    l: LedgerView,
    owner: &str,
    resource: &str,
    slots: u32,
    now_ms: i64,
    ttl_ms: i64,
    generation: i64,
)
    requires
        owners_distinct(l.active),
    ensures
        owners_distinct(reserve_spec(l, owner, resource, slots, now_ms, ttl_ms).1.active),
        owners_distinct(release_spec(l.active, owner@, generation, now_ms).1),
{
    let live = live_leases(l.active, now_ms);
    lemma_live_leases_owners_distinct(l.active, now_ms);
    if valid_reservation(owner, resource, slots, now_ms, ttl_ms) && lease_of(live, owner@) is None {
        let lease = granted_lease(l, owner, resource, slots, now_ms, ttl_ms);
        lemma_lease_index_bounds(live, owner@);
        let out = live.push(lease);
        assert forall|i: int, j: int| 0 <= i < j < out.len() implies (#[trigger] out[i]).owner
            != (#[trigger] out[j]).owner by {
            if j == out.len() - 1 {
                assert(out[i] == live[i]);
            } else {
                assert(out[i] == live[i] && out[j] == live[j]);
            }
        }
    }
    lemma_lease_index_bounds(l.active, owner@);
    if let Some(k) = lease_index(l.active, owner@) {
        let out = l.active.remove(k);
        assert forall|i: int, j: int| 0 <= i < j < out.len() implies (#[trigger] out[i]).owner
            != (#[trigger] out[j]).owner by {
            let a = if i < k { i } else { i + 1 };
            let b = if j < k { j } else { j + 1 };
            assert(out[i] == l.active[a] && out[j] == l.active[b]);
        }
    }
}

} // verus!
