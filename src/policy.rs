//! The shared blocklist: a bounded table from IPv4 address to flag.
use std::collections::HashMap;
use vstd::prelude::*;

verus! {

broadcast use vstd::std_specs::hash::group_hash_axioms;

/// Number of entries each blocklist table is created with.
pub const POLICY_CAPACITY: usize = 1024;

/// Why an update of the blocklist was refused.
#[derive(Debug, Clone, Copy, PartialEq, Eq, Structural)]
pub enum PolicyError {
    /// The table already holds as many addresses as it was created for.
    CapacityExceeded,
}

/// Whether inserting `addr` into table `m` of the given capacity succeeds:
/// an address already present is updated in place, a new one needs room.
pub open spec fn insert_fits(m: Map<u32, u32>, capacity: nat, addr: u32) -> bool {
    m.contains_key(addr) || m.len() < capacity
}

/// The table after inserting each of `addrs` in turn with flag 0, starting empty.
pub open spec fn blocked_after(addrs: Seq<u32>) -> Map<u32, u32>
    decreases addrs.len(),
{
    if addrs.len() == 0 {
        Map::empty()
    } else {
        blocked_after(addrs.drop_last()).insert(addrs.last(), 0)
    }
}

/// A blocklist of IPv4 addresses (host order). Presence of a key means "blocked".
pub struct PolicyStore {
    entries: HashMap<u32, u32>,
    capacity: usize,
}

impl View for PolicyStore {
    type V = Map<u32, u32>;

    closed spec fn view(&self) -> Map<u32, u32> {
        self.entries@
    }
}

impl PolicyStore {
    /// The number of entries the table was created for.
    pub closed spec fn capacity(&self) -> nat {
        self.capacity as nat
    }

    /// The table is finite and holds no more entries than its capacity.
    pub closed spec fn wf(&self) -> bool {
        &&& self.entries@.dom().finite()
        &&& self.entries@.len() <= self.capacity
    }

    /// An empty table for `capacity` entries.
    pub fn new(capacity: usize) -> (r: PolicyStore)
        ensures
            r.wf(),
            r@ == Map::<u32, u32>::empty(),
            r.capacity() == capacity,
    {
        PolicyStore { entries: HashMap::new(), capacity }
    }

    /// An empty table of the standard capacity.
    pub fn with_default_capacity() -> (r: PolicyStore)
        ensures
            r.wf(),
            r@ == Map::<u32, u32>::empty(),
            r.capacity() == POLICY_CAPACITY,
    {
        PolicyStore::new(POLICY_CAPACITY)
    }

    /// Whether `addr` is blocked.
    pub fn lookup(&self, addr: u32) -> (r: bool)
        ensures
            r == self@.contains_key(addr),
    {
        self.entries.contains_key(&addr)
    }

    /// Number of addresses held.
    pub fn len(&self) -> (r: usize)
        requires
            self.wf(),
        ensures
            r == self@.len(),
    {
        self.entries.len()
    }

    /// Blocks `addr` with `flag`. A new address beyond the capacity is refused and
    /// leaves the table as it was.
    pub fn insert(&mut self, addr: u32, flag: u32) -> (r: Result<(), PolicyError>)
        requires
            old(self).wf(),
        ensures
            final(self).wf(),
            final(self).capacity() == old(self).capacity(),
            r is Ok <==> insert_fits(old(self)@, old(self).capacity(), addr),
            r is Ok ==> final(self)@ == old(self)@.insert(addr, flag),
            r is Err ==> final(self)@ == old(self)@ && r == Err::<(), PolicyError>(
                PolicyError::CapacityExceeded,
            ),
    {
        if !self.entries.contains_key(&addr) && self.entries.len() >= self.capacity {
            return Err(PolicyError::CapacityExceeded);
        }
        self.entries.insert(addr, flag);
        assert(self.entries@.dom() =~= old(self).entries@.dom().insert(addr));
        Ok(())
    }

    /// Unblocks `addr`; returns whether it was blocked.
    pub fn remove(&mut self, addr: u32) -> (r: bool)
        requires
            old(self).wf(),
        ensures
            final(self).wf(),
            final(self).capacity() == old(self).capacity(),
            final(self)@ == old(self)@.remove(addr),
            r == old(self)@.contains_key(addr),
    {
        let removed = self.entries.remove(&addr);
        assert(self.entries@.dom() =~= old(self).entries@.dom().remove(addr));
        removed.is_some()
    }

    /// A table of the standard capacity holding each of `addrs` with flag 0.
    /// Fails when the addresses, without repeats, are more than the capacity.
    pub fn from_addresses(addrs: &[u32]) -> (r: Result<PolicyStore, PolicyError>)
        ensures
            r is Ok <==> addrs@.to_set().len() <= POLICY_CAPACITY,
            r matches Ok(s) ==> s.wf() && s@ == blocked_after(addrs@) && s.capacity()
                == POLICY_CAPACITY,
    {
        let mut store = PolicyStore::with_default_capacity();
        let mut i: usize = 0;
        proof { lemma_blocked_after_domain(addrs@.take(0)); }
        while i < addrs.len()
            invariant
                0 <= i <= addrs@.len(),
                store.wf(),
                store.capacity() == POLICY_CAPACITY,
                store@ == blocked_after(addrs@.take(i as int)),
                store@.dom() == addrs@.take(i as int).to_set(),
            decreases addrs@.len() - i,
        {
            let a = addrs[i];
            let ghost prefix = addrs@.take(i as int);
            let ghost next = addrs@.take(i + 1);
            assert(next.drop_last() =~= prefix);
            assert(next.last() == a);
            match store.insert(a, 0) {
                Ok(()) => {},
                Err(e) => {
                    proof {
                        assert(prefix.to_set().len() == POLICY_CAPACITY);
                        lemma_set_grows(addrs@, i as int);
                    }
                    return Err(e);
                },
            }
            i = i + 1;
            proof {
                lemma_blocked_after_domain(next);
            }
        }
        assert(addrs@.take(i as int) =~= addrs@);
        proof { lemma_blocked_after_domain(addrs@); }
        Ok(store)
    }
}

/// The keys of `blocked_after(addrs)` are exactly the elements of `addrs`.
pub proof fn lemma_blocked_after_domain(addrs: Seq<u32>)
    ensures
        blocked_after(addrs).dom() == addrs.to_set(),
        blocked_after(addrs).dom().finite(),
    decreases addrs.len(),
{
    if addrs.len() > 0 {
        lemma_blocked_after_domain(addrs.drop_last());
        assert(addrs.to_set() =~= addrs.drop_last().to_set().insert(addrs.last())) by {
            assert forall|x: u32| addrs.to_set().contains(x) implies addrs.drop_last().to_set().insert(addrs.last()).contains(x) by {
                let j = choose|j: int| 0 <= j < addrs.len() && addrs[j] == x;
                if j < addrs.len() - 1 {
                    assert(addrs.drop_last()[j] == x);
                }
            }
            assert forall|x: u32| addrs.drop_last().to_set().insert(addrs.last()).contains(x) implies addrs.to_set().contains(x) by {
                if x != addrs.last() {
                    let j = choose|j: int| 0 <= j < addrs.len() - 1 && addrs.drop_last()[j] == x;
                    assert(addrs[j] == x);
                }
            }
        }
        assert(blocked_after(addrs).dom() =~= blocked_after(addrs.drop_last()).dom().insert(addrs.last()));
    } else {
        assert(blocked_after(addrs).dom() =~= addrs.to_set());
    }
}

/// When the `i`-th address is new to the first `i`, the set of all addresses is larger
/// than the set of those first `i`.
proof fn lemma_set_grows(addrs: Seq<u32>, i: int)
    requires
        0 <= i < addrs.len(),
        !addrs.take(i).to_set().contains(addrs[i]),
    ensures
        addrs.to_set().len() > addrs.take(i).to_set().len(),
{
    let small = addrs.take(i).to_set();
    let big = small.insert(addrs[i]);
    assert(big.subset_of(addrs.to_set())) by {
        assert forall|x: u32| big.contains(x) implies addrs.to_set().contains(x) by {
            if x != addrs[i] {
                let j = choose|j: int| 0 <= j < i && addrs.take(i)[j] == x;
                assert(addrs[j] == x);
            }
        }
    }
    vstd::seq_lib::seq_to_set_is_finite(addrs);
    vstd::seq_lib::seq_to_set_is_finite(addrs.take(i));
    vstd::set::axiom_set_insert_len(small, addrs[i]);
    vstd::set_lib::lemma_len_subset(big, addrs.to_set());
}

/// Membership law: after inserting `addrs`, an address is blocked exactly when it
/// was one of them.
pub proof fn lemma_membership(addrs: Seq<u32>, a: u32)
    ensures
        blocked_after(addrs).contains_key(a) <==> addrs.contains(a),
{
    lemma_blocked_after_domain(addrs);
}

/// Capacity law: into a table of capacity `capacity`, `capacity + 1` distinct
/// addresses are inserted in turn; the first `capacity` inserts succeed and the last
/// one is refused.
pub proof fn lemma_capacity_boundary(addrs: Seq<u32>, capacity: nat)
    requires
        addrs.no_duplicates(),
        addrs.len() == capacity + 1,
    ensures
        forall|i: int|
            0 <= i < capacity ==> insert_fits(
                #[trigger] blocked_after(addrs.take(i)),
                capacity,
                addrs[i],
            ),
        !insert_fits(blocked_after(addrs.take(capacity as int)), capacity, addrs[capacity as int]),
{
    assert forall|i: int| 0 <= i <= capacity implies #[trigger] blocked_after(addrs.take(i)).len() == i
        && !blocked_after(addrs.take(i)).contains_key(addrs[i]) by {
        lemma_distinct_prefix(addrs, i);
    }
    lemma_distinct_prefix(addrs, capacity as int);
}

proof fn lemma_distinct_prefix(addrs: Seq<u32>, i: int)
    requires
        addrs.no_duplicates(),
        0 <= i < addrs.len(),
    ensures
        blocked_after(addrs.take(i)).len() == i,
        !blocked_after(addrs.take(i)).contains_key(addrs[i]),
    decreases i,
{
    let p = addrs.take(i);
    lemma_blocked_after_domain(p);
    if i > 0 {
        lemma_distinct_prefix(addrs, i - 1);
        assert(p.drop_last() =~= addrs.take(i - 1));
        lemma_blocked_after_domain(addrs.take(i - 1));
    }
    if p.to_set().contains(addrs[i]) {
        let j = choose|j: int| 0 <= j < i && p[j] == addrs[i];
        assert(addrs[j] == addrs[i]);
    }
}

} // verus!
