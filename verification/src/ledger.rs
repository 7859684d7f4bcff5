use vstd::prelude::*;
use vstd::string::*;
use crate::labels::{is_safe_label, safe_label};

verus! {

/// A reservation of `slots` capacity slots of `resource` held by `owner`.
#[derive(Debug, Clone, PartialEq, Eq)]
pub struct Lease {
    pub owner: String,
    pub resource: String,
    pub slots: u32,
    pub generation: i64,
    pub created_ms: i64,
    pub expires_ms: i64,
}

/// The answer to a reservation request.
#[derive(Debug, PartialEq, Eq)]
pub enum Decision {
    Granted(Lease),
    Duplicate(Lease),
    Refused(&'static str),
}

/// A lease as plain values.
pub struct LeaseView {
    pub owner: Seq<char>,
    pub resource: Seq<char>,
    pub slots: u32,
    pub generation: i64,
    pub created_ms: i64,
    pub expires_ms: i64,
}

/// A decision as plain values.
pub enum DecisionView {
    Granted(LeaseView),
    Duplicate(LeaseView),
    Refused(Seq<char>),
}

impl View for Lease {
    type V = LeaseView;

    open spec fn view(&self) -> LeaseView {
        LeaseView {
            owner: self.owner@,
            resource: self.resource@,
            slots: self.slots,
            generation: self.generation,
            created_ms: self.created_ms,
            expires_ms: self.expires_ms,
        }
    }
}

impl View for Decision {
    type V = DecisionView;

    open spec fn view(&self) -> DecisionView {
        match self {
            Decision::Granted(l) => DecisionView::Granted(l@),
            Decision::Duplicate(l) => DecisionView::Duplicate(l@),
            Decision::Refused(r) => DecisionView::Refused(r@),
        }
    }
}

impl Lease {
    /// A field-by-field copy of the lease.
    pub fn copy(&self) -> (res: Lease)
        ensures
            res@ == self@,
    {
        Lease {
            owner: self.owner.clone(),
            resource: self.resource.clone(),
            slots: self.slots,
            generation: self.generation,
            created_ms: self.created_ms,
            expires_ms: self.expires_ms,
        }
    }
}

/// The views of a sequence of leases.
pub open spec fn lease_views(s: Seq<Lease>) -> Seq<LeaseView> {
    s.map_values(|l: Lease| l@)
}

/// The leases that are still live at `now_ms`: those that expire after it,
/// in their order.
pub open spec fn live_leases(s: Seq<LeaseView>, now_ms: i64) -> Seq<LeaseView>
    decreases s.len(),
{
    if s.len() == 0 {
        s
    } else if s.last().expires_ms > now_ms {
        live_leases(s.drop_last(), now_ms).push(s.last())
    } else {
        live_leases(s.drop_last(), now_ms)
    }
}

/// The slots that a sequence of leases holds together.
pub open spec fn slots_total(s: Seq<LeaseView>) -> nat
    decreases s.len(),
{
    if s.len() == 0 {
        0
    } else {
        slots_total(s.drop_last()) + s.last().slots as nat
    }
}

/// The position of the first lease of `owner` in `s`, if there is one.
pub open spec fn lease_index(s: Seq<LeaseView>, owner: Seq<char>) -> Option<int>
    decreases s.len(),
{
    if s.len() == 0 {
        None
    } else {
        match lease_index(s.drop_last(), owner) {
            Some(i) => Some(i),
            None => if s.last().owner == owner {
                Some(s.len() - 1)
            } else {
                None
            },
        }
    }
}

/// The first lease of `owner` in `s`, if there is one.
pub open spec fn lease_of(s: Seq<LeaseView>, owner: Seq<char>) -> Option<LeaseView> {
    match lease_index(s, owner) {
        Some(i) => Some(s[i]),
        None => None,
    }
}

/// The first lease of an owner, where there is one, is a lease of that
/// owner, and it stands within the sequence.
pub proof fn lemma_lease_index_bounds(s: Seq<LeaseView>, owner: Seq<char>)
    ensures
        lease_index(s, owner) matches Some(i) ==> 0 <= i < s.len() && s[i].owner == owner,
        lease_index(s, owner) is None ==> forall|j: int|
            0 <= j < s.len() ==> (#[trigger] s[j]).owner != owner,
    decreases s.len(),
{
    if s.len() > 0 {
        lemma_lease_index_bounds(s.drop_last(), owner);
        if lease_index(s, owner) is None {
            assert forall|j: int| 0 <= j < s.len() implies (#[trigger] s[j]).owner != owner by {
                if j < s.len() - 1 {
                    assert(s[j] == s.drop_last()[j]);
                }
            }
        }
    }
}

proof fn lemma_views_take_step(s: Seq<Lease>, i: int)
    requires
        0 <= i < s.len(),
    ensures
        lease_views(s).take(i + 1).drop_last() =~= lease_views(s).take(i),
        lease_views(s).take(i + 1).last() == s[i]@,
        lease_views(s).take(i + 1).len() == i + 1,
{
}

/// The leases of `active` that are live at `now_ms`, in their order.
pub fn live_at(active: &Vec<Lease>, now_ms: i64) -> (res: Vec<Lease>)
    ensures
        lease_views(res@) == live_leases(lease_views(active@), now_ms),
{
    let mut res: Vec<Lease> = Vec::new();
    let mut i: usize = 0;
    while i < active.len()
        invariant
            0 <= i <= active@.len(),
            lease_views(res@) =~= live_leases(lease_views(active@).take(i as int), now_ms),
        decreases active@.len() - i,
    {
        proof {
            lemma_views_take_step(active@, i as int);
        }
        if active[i].expires_ms > now_ms {
            res.push(active[i].copy());
        }
        i = i + 1;
    }
    assert(lease_views(active@).take(active@.len() as int) =~= lease_views(active@));
    res
}

/// The index of the first lease of `owner` in `active`, if there is one.
pub fn find_lease(active: &Vec<Lease>, owner: &str) -> (res: Option<usize>)
    ensures
        match res {
            Some(i) => lease_index(lease_views(active@), owner@) == Some(i as int),
            None => lease_index(lease_views(active@), owner@) is None,
        },
{
    let wanted = owner.to_owned();
    let mut i: usize = 0;
    while i < active.len()
        invariant
            wanted@ == owner@,
            0 <= i <= active@.len(),
            lease_index(lease_views(active@).take(i as int), owner@) is None,
        decreases active@.len() - i,
    {
        proof {
            lemma_views_take_step(active@, i as int);
        }
        if active[i].owner == wanted {
            proof {
                lemma_lease_index_prefix(lease_views(active@), i + 1, owner@);
            }
            return Some(i);
        }
        i = i + 1;
    }
    assert(lease_views(active@).take(active@.len() as int) =~= lease_views(active@));
    None
}

/// Once a prefix holds a lease of `owner`, the whole sequence gives that
/// same first lease.
pub proof fn lemma_lease_index_prefix(s: Seq<LeaseView>, n: int, owner: Seq<char>)
    requires
        0 <= n <= s.len(),
        lease_index(s.take(n), owner) is Some,
    ensures
        lease_index(s, owner) == lease_index(s.take(n), owner),
    decreases s.len() - n,
{
    if n < s.len() {
        assert(s.take(n + 1).drop_last() =~= s.take(n));
        lemma_lease_index_prefix(s, n + 1, owner);
    } else {
        assert(s.take(n) =~= s);
    }
}

/// The slots that the live leases of `live` hold, counted exactly up to
/// `u32::MAX` and as some larger number beyond.
pub fn held_slots(live: &Vec<Lease>) -> (res: u64)
    ensures
        slots_total(lease_views(live@)) <= u32::MAX ==> res == slots_total(lease_views(live@)),
        slots_total(lease_views(live@)) > u32::MAX ==> res > u32::MAX,
        res <= 2 * (u32::MAX as u64),
{
    let mut total: u64 = 0;
    let mut i: usize = 0;
    while i < live.len()
        invariant
            0 <= i <= live@.len(),
            total <= 2 * (u32::MAX as u64),
            slots_total(lease_views(live@).take(i as int)) <= u32::MAX ==> total == slots_total(
                lease_views(live@).take(i as int),
            ),
            slots_total(lease_views(live@).take(i as int)) > u32::MAX ==> total > u32::MAX,
        decreases live@.len() - i,
    {
        proof {
            lemma_views_take_step(live@, i as int);
        }
        if total <= u32::MAX as u64 {
            total = total + live[i].slots as u64;
        }
        i = i + 1;
    }
    assert(lease_views(live@).take(live@.len() as int) =~= lease_views(live@));
    total
}

/// One resource of the capacity ledger: its configured capacity, the last
/// generation it handed out, and its active leases.
pub struct ResourceLedger {
    pub capacity: u32,
    pub generation: i64,
    pub active: Vec<Lease>,
}

/// A resource of the ledger as plain values.
pub struct LedgerView {
    pub capacity: u32,
    pub generation: i64,
    pub active: Seq<LeaseView>,
}

impl View for ResourceLedger {
    type V = LedgerView;

    open spec fn view(&self) -> LedgerView {
        LedgerView {
            capacity: self.capacity,
            generation: self.generation,
            active: lease_views(self.active@),
        }
    }
}

/// A request that names its owner and resource by safe labels, asks for
/// at least one slot, for a positive time to live, and whose expiry fits
/// in an `i64`.
pub open spec fn valid_reservation(
    owner: &str,
    resource: &str,
    slots: u32,
    now_ms: i64,
    ttl_ms: i64,
) -> bool {
    &&& is_safe_label(owner.spec_bytes())
    &&& is_safe_label(resource.spec_bytes())
    &&& slots != 0
    &&& ttl_ms > 0
    &&& now_ms + ttl_ms <= i64::MAX
}

/// Tells whether a reservation request is well formed (see
/// `valid_reservation`).
pub fn reservation_is_valid(
    owner: &str,
    resource: &str,
    slots: u32,
    now_ms: i64,
    ttl_ms: i64,
) -> (res: bool)
    ensures
        res == valid_reservation(owner, resource, slots, now_ms, ttl_ms),
{
    safe_label(owner) && safe_label(resource) && slots != 0 && ttl_ms > 0 && now_ms.checked_add(
        ttl_ms,
    ).is_some()
}

/// The lease granted to a request, at the ledger's next generation.
pub open spec fn granted_lease(
    l: LedgerView,
    owner: &str,
    resource: &str,
    slots: u32,
    now_ms: i64,
    ttl_ms: i64,
) -> LeaseView {
    LeaseView {
        owner: owner@,
        resource: resource@,
        slots,
        generation: (l.generation + 1) as i64,
        created_ms: now_ms,
        expires_ms: (now_ms + ttl_ms) as i64,
    }
}

/// What a reservation request decides, and the ledger it leaves behind.
/// A malformed request is refused and changes nothing. Otherwise the leases
/// that have expired at `now_ms` are dropped first; an owner that already
/// holds a live lease gets it back when it asks for the same slots and is
/// refused otherwise; a request that does not fit in what the live leases
/// leave free is refused; a ledger whose generation cannot grow refuses;
/// and otherwise a new lease is granted at the next generation.
pub open spec fn reserve_spec(
    l: LedgerView,
    owner: &str,
    resource: &str,
    slots: u32,
    now_ms: i64,
    ttl_ms: i64,
) -> (DecisionView, LedgerView) {
    if !valid_reservation(owner, resource, slots, now_ms, ttl_ms) {
        (DecisionView::Refused("invalid_request"@), l)
    } else {
        let live = live_leases(l.active, now_ms);
        let kept = LedgerView { active: live, ..l };
        match lease_of(live, owner@) {
            Some(existing) => if existing.slots == slots {
                (DecisionView::Duplicate(existing), kept)
            } else {
                (DecisionView::Refused("conflicting_reservation"@), kept)
            },
            None => if slots_total(live) + slots > l.capacity {
                (DecisionView::Refused("insufficient_capacity"@), kept)
            } else if l.generation == i64::MAX {
                (DecisionView::Refused("generation_exhausted"@), kept)
            } else {
                let lease = granted_lease(l, owner, resource, slots, now_ms, ttl_ms);
                (
                    DecisionView::Granted(lease),
                    LedgerView { generation: lease.generation, active: live.push(lease), ..l },
                )
            },
        }
    }
}

/// What releasing the lease of `owner` at `generation` answers, and the
/// active leases it leaves. The owner's first active lease decides: one of
/// another generation is stale, one that has expired at `now_ms` stays as
/// it is, and otherwise it is released; an owner without an active lease
/// has nothing left to release.
pub open spec fn release_spec(
    active: Seq<LeaseView>,
    owner: Seq<char>,
    generation: i64,
    now_ms: i64,
) -> (Seq<char>, Seq<LeaseView>) {
    match lease_index(active, owner) {
        None => ("already_released"@, active),
        Some(i) => if active[i].generation != generation {
            ("stale_generation"@, active)
        } else if active[i].expires_ms <= now_ms {
            ("expired_lease"@, active)
        } else {
            ("released"@, active.remove(i))
        },
    }
}

impl ResourceLedger {
    /// Decides a reservation request against this resource and records its
    /// effect (see `reserve_spec`).
    pub fn reserve(
        &mut self,
        owner: &str,
        resource: &str,
        slots: u32,
        now_ms: i64,
        ttl_ms: i64,
    ) -> (res: Decision)
        ensures
            (res@, final(self)@) == reserve_spec(old(self)@, owner, resource, slots, now_ms, ttl_ms),
    {
        proof {
            reveal_strlit("invalid_request");
            reveal_strlit("conflicting_reservation");
            reveal_strlit("insufficient_capacity");
            reveal_strlit("generation_exhausted");
        }
        if !reservation_is_valid(owner, resource, slots, now_ms, ttl_ms) {
            return Decision::Refused("invalid_request");
        }
        let live = live_at(&self.active, now_ms);
        self.active = live;
        match find_lease(&self.active, owner) {
            Some(i) => {
                proof {
                    lemma_lease_index_bounds(lease_views(self.active@), owner@);
                }
                let existing = self.active[i].copy();
                if existing.slots == slots {
                    return Decision::Duplicate(existing);
                } else {
                    return Decision::Refused("conflicting_reservation");
                }
            },
            None => {},
        }
        let used = held_slots(&self.active);
        if slots as u64 + used > self.capacity as u64 {
            return Decision::Refused("insufficient_capacity");
        }
        if self.generation == i64::MAX {
            return Decision::Refused("generation_exhausted");
        }
        let next = self.generation + 1;
        let lease = Lease {
            owner: owner.to_owned(),
            resource: resource.to_owned(),
            slots,
            generation: next,
            created_ms: now_ms,
            expires_ms: now_ms + ttl_ms,
        };
        self.generation = next;
        let ghost live_views = lease_views(self.active@);
        self.active.push(lease.copy());
        assert(lease_views(self.active@) =~= live_views.push(lease@));
        Decision::Granted(lease)
    }
}

/// Releases the lease of `owner` at `generation` from `active` (see
/// `release_spec`).
pub fn release_from(active: &mut Vec<Lease>, owner: &str, generation: i64, now_ms: i64) -> (res:
    &'static str)
    ensures
        (res@, lease_views(final(active)@)) == release_spec(
            lease_views(old(active)@),
            owner@,
            generation,
            now_ms,
        ),
{
    proof {
        reveal_strlit("already_released");
        reveal_strlit("stale_generation");
        reveal_strlit("expired_lease");
        reveal_strlit("released");
        lemma_lease_index_bounds(lease_views(active@), owner@);
    }
    match find_lease(active, owner) {
        None => "already_released",
        Some(i) => {
            if active[i].generation != generation {
                "stale_generation"
            } else if active[i].expires_ms <= now_ms {
                "expired_lease"
            } else {
                let ghost before = active@;
                active.remove(i);
                assert(lease_views(active@) =~= lease_views(before).remove(i as int));
                "released"
            }
        },
    }
}

} // verus!
