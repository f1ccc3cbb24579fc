use crate::text::{decimal, push_decimal};
use vstd::prelude::*;

verus! {

/// The number of node slots that a worker scans for: slots 0 through 1023. The node field
/// of an id holds only 5 bits (`generator::FIELD_LIMIT`), so a slot of 32 or more cannot
/// become a node id: `Generator::new` does not accept it, and a server that claims one
/// refuses to start rather than let it spill into the datacenter field.
pub const SLOT_COUNT: u32 = 1024;

/// The time to live, in seconds, of the lease that a worker asks the store for.
pub const LEASE_TTL_SECONDS: i64 = 15;

/// The name of the lock that stands for node slot `slot`.
pub open spec fn lock_name_of(slot: nat) -> Seq<char> {
    "id-gen-worker-"@ + decimal(slot)
}

/// What a worker does next while it claims a node slot.
#[derive(Debug, Clone, Copy, PartialEq, Eq, Structural)]
pub enum ScanAction {
    /// Ask the store for the lock of this slot, scoped to the worker's lease.
    TryLock(u32),
    /// The store granted this slot's lock: it is the worker's node id.
    Claimed(u32),
    /// The store refused every slot.
    Exhausted,
}

/// The slot scan of a worker: the slot it is at, and whether the store granted it.
pub ghost struct ScanView {
    pub next_slot: nat,
    pub claimed: bool,
}

impl ScanView {
    pub open spec fn valid(self) -> bool {
        self.next_slot <= SLOT_COUNT && (self.claimed ==> self.next_slot < SLOT_COUNT)
    }

    pub open spec fn action(self) -> ScanAction {
        if self.claimed {
            ScanAction::Claimed(self.next_slot as u32)
        } else if self.next_slot < SLOT_COUNT {
            ScanAction::TryLock(self.next_slot as u32)
        } else {
            ScanAction::Exhausted
        }
    }

    /// The scan after the store answered the lock request for the current slot.
    pub open spec fn after(self, acquired: bool) -> ScanView {
        if self.claimed || self.next_slot >= SLOT_COUNT {
            self
        } else if acquired {
            ScanView { claimed: true, ..self }
        } else {
            ScanView { next_slot: self.next_slot + 1, ..self }
        }
    }
}

/// Claims a node slot for this process: it asks for the slots' locks in ascending order,
/// with no delay between refusals, and keeps the first that the store grants.
pub struct LeaseWorker {
    next_slot: u32,
    claimed: bool,
}

impl View for LeaseWorker {
    type V = ScanView;

    closed spec fn view(&self) -> ScanView {
        ScanView { next_slot: self.next_slot as nat, claimed: self.claimed }
    }
}

impl LeaseWorker {
    pub fn new() -> (r: Self)
        ensures
            r@ == (ScanView { next_slot: 0, claimed: false }),
            r@.valid(),
    {
        LeaseWorker { next_slot: 0, claimed: false }
    }

    pub fn action(&self) -> (r: ScanAction)
        requires
            self@.valid(),
        ensures
            r == self@.action(),
    {
        if self.claimed {
            ScanAction::Claimed(self.next_slot)
        } else if self.next_slot < SLOT_COUNT {
            ScanAction::TryLock(self.next_slot)
        } else {
            ScanAction::Exhausted
        }
    }

    /// Takes the store's answer to the lock request for the current slot. Once a slot is
    /// claimed, or every slot refused, answers change nothing.
    pub fn record(&mut self, acquired: bool)
        requires
            old(self)@.valid(),
        ensures
            final(self)@ == old(self)@.after(acquired),
            final(self)@.valid(),
    {
        if self.claimed || self.next_slot >= SLOT_COUNT {
            return;
        }
        if acquired {
            self.claimed = true;
        } else {
            self.next_slot = self.next_slot + 1;
        }
    }
}

/// The name of the lock for node slot `slot`: `id-gen-worker-` followed by the slot number.
pub fn lock_name(slot: u32) -> (r: String)
    ensures
        r@ == lock_name_of(slot as nat),
{
    proof { reveal_strlit("id-gen-worker-"); }
    let mut name = String::from_str("id-gen-worker-");
    push_decimal(&mut name, slot);
    name
}

/// What the lease renewal loop observed in one keep-alive round.
#[derive(Debug, Clone, Copy, PartialEq, Eq, Structural)]
pub enum KeepAliveEvent {
    /// The store renewed the lease with this time to live, in seconds.
    Renewed(i64),
    /// The response stream closed without a message.
    NoMessage,
    /// The keep-alive request failed.
    Failed,
}

/// What the lease renewal loop does after a keep-alive round.
#[derive(Debug, Clone, Copy, PartialEq, Eq, Structural)]
pub enum RenewalAction {
    /// Sleep this many seconds, then renew again.
    Sleep(u64),
    /// Renew again at once.
    Retry,
    /// The lease is lost: stop renewing and stop issuing ids under this node slot.
    Stop,
}

pub open spec fn renewal_action_of(event: KeepAliveEvent) -> RenewalAction {
    match event {
        KeepAliveEvent::Renewed(ttl) => if ttl > 0 {
            RenewalAction::Sleep((ttl / 3) as u64)
        } else {
            RenewalAction::Stop
        },
        KeepAliveEvent::NoMessage => RenewalAction::Retry,
        KeepAliveEvent::Failed => RenewalAction::Stop,
    }
}

/// Decides the next step of the renewal loop: after a renewal it sleeps a third of the new
/// time to live; a round without a message is retried; a failure, or a time to live that
/// is not positive (the store no longer knows the lease), ends the loop.
pub fn renewal_action(event: KeepAliveEvent) -> (r: RenewalAction)
    ensures
        r == renewal_action_of(event),
{
    match event {
        KeepAliveEvent::Renewed(ttl) => if ttl > 0 {
            RenewalAction::Sleep((ttl / 3) as u64)
        } else {
            RenewalAction::Stop
        },
        KeepAliveEvent::NoMessage => RenewalAction::Retry,
        KeepAliveEvent::Failed => RenewalAction::Stop,
    }
}

/// The slot that a scan claims against a store in which the slots of `held` are locked by
/// live leases of other workers: the lowest slot from `from` on that is not held.
pub open spec fn first_free(held: Set<int>, from: int) -> Option<int>
    decreases SLOT_COUNT - from,
{
    if from < 0 || from >= SLOT_COUNT {
        None
    } else if !held.contains(from) {
        Some(from)
    } else {
        first_free(held, from + 1)
    }
}

pub open spec fn claimed_slot(held: Set<int>) -> Option<int> {
    first_free(held, 0)
}

proof fn lemma_first_free(held: Set<int>, from: int, n: int)
    requires
        0 <= from <= n < SLOT_COUNT,
        forall|i: int| from <= i < n ==> held.contains(i),
        !held.contains(n),
    ensures
        first_free(held, from) == Some(n),
    decreases n - from,
{
    if from < n {
        lemma_first_free(held, from + 1, n);
    }
}

proof fn lemma_first_free_is_free(held: Set<int>, from: int)
    requires
        0 <= from,
    ensures
        first_free(held, from) matches Some(s) ==> {
            &&& from <= s < SLOT_COUNT
            &&& !held.contains(s)
            &&& forall|i: int| from <= i < s ==> held.contains(i)
        },
    decreases SLOT_COUNT - from,
{
    if from < SLOT_COUNT && held.contains(from) {
        lemma_first_free_is_free(held, from + 1);
    }
}

/// The scan `v` has been answered by a store whose locked slots are `held`: every slot
/// below the current one was refused, and a claimed slot was free.
pub open spec fn answered_by(v: ScanView, held: Set<int>) -> bool {
    &&& forall|i: int| 0 <= i < v.next_slot ==> held.contains(i)
    &&& v.claimed ==> !held.contains(v.next_slot as int)
}

/// A worker that asks a store, slot after slot, claims the lowest slot that no live lease
/// holds, and is exhausted only when every slot is held: a fresh scan agrees with the store,
/// each answer of the store keeps it so, and then its action follows from the store's state.
pub proof fn lemma_scan_follows_store(v: ScanView, held: Set<int>)
    requires
        v.valid(),
        answered_by(v, held),
    ensures
        answered_by(ScanView { next_slot: 0, claimed: false }, held),
        answered_by(v.after(!held.contains(v.next_slot as int)), held),
        v.action() matches ScanAction::Claimed(s) ==> claimed_slot(held) == Some(s as int),
        v.action() is Exhausted ==> claimed_slot(held) is None,
{
    if v.claimed {
        lemma_first_free(held, 0, v.next_slot as int);
    }
    if v.action() is Exhausted {
        lemma_first_free_is_free(held, 0);
    }
}

/// Two workers never claim one slot while the first one's lease lives: once the first
/// holds slot `a`, a second scan claims another slot, or none. A third worker, while both
/// leases live, claims neither slot; after the first lease expires it claims `a` again.
pub proof fn lemma_slot_exclusive(held: Set<int>, a: int, b: int)
    requires
        claimed_slot(held) == Some(a),
        claimed_slot(held.insert(a)) == Some(b),
    ensures
        a != b,
        claimed_slot(held.insert(a).insert(b)) != Some(a),
        claimed_slot(held.insert(a).insert(b)) != Some(b),
        claimed_slot(held.insert(b)) == Some(a),
{
    lemma_first_free_is_free(held, 0);
    lemma_first_free_is_free(held.insert(a), 0);
    lemma_first_free_is_free(held.insert(a).insert(b), 0);
    lemma_first_free(held.insert(b), 0, a);
}

} // verus!
