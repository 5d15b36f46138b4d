//! The resource ledger: five non-negative quantities with component-wise
//! comparison, credit and debit.

use vstd::prelude::*;
use crate::fixed::{
    fixed_add, fixed_mul, fixed_sub, spec_add, spec_mul, spec_sub, Fixed, FIXED_MAX,
};

verus! {

/// The five resources of the economy.
#[derive(Debug, Clone, Copy, PartialEq, Eq)]
pub struct Resources {
    pub compute: Fixed,
    pub bandwidth: Fixed,
    pub storage: Fixed,
    pub reputation: Fixed,
    pub crypto: Fixed,
}

impl Resources {
    /// The ledger that holds nothing.
    pub open spec fn spec_zero() -> Resources {
        Resources { compute: 0, bandwidth: 0, storage: 0, reputation: 0, crypto: 0 }
    }

    /// Every resource of `self` covers that of `cost`.
    pub open spec fn spec_can_afford(self, cost: Resources) -> bool {
        &&& self.compute >= cost.compute
        &&& self.bandwidth >= cost.bandwidth
        &&& self.storage >= cost.storage
        &&& self.reputation >= cost.reputation
        &&& self.crypto >= cost.crypto
    }

    /// The ledger after `other` was credited, resource by resource.
    pub open spec fn spec_plus(self, other: Resources) -> Resources {
        Resources {
            compute: spec_add(self.compute, other.compute),
            bandwidth: spec_add(self.bandwidth, other.bandwidth),
            storage: spec_add(self.storage, other.storage),
            reputation: spec_add(self.reputation, other.reputation),
            crypto: spec_add(self.crypto, other.crypto),
        }
    }

    /// The ledger after `cost` was debited, resource by resource.
    pub open spec fn spec_minus(self, cost: Resources) -> Resources {
        Resources {
            compute: spec_sub(self.compute, cost.compute),
            bandwidth: spec_sub(self.bandwidth, cost.bandwidth),
            storage: spec_sub(self.storage, cost.storage),
            reputation: spec_sub(self.reputation, cost.reputation),
            crypto: spec_sub(self.crypto, cost.crypto),
        }
    }

    /// The ledger with every resource scaled by a multiplier.
    pub open spec fn spec_scaled(self, multiplier: Fixed) -> Resources {
        Resources {
            compute: spec_mul(self.compute, multiplier),
            bandwidth: spec_mul(self.bandwidth, multiplier),
            storage: spec_mul(self.storage, multiplier),
            reputation: spec_mul(self.reputation, multiplier),
            crypto: spec_mul(self.crypto, multiplier),
        }
    }

    /// No resource is above the ceiling.
    pub open spec fn in_range(self) -> bool {
        &&& self.compute <= FIXED_MAX
        &&& self.bandwidth <= FIXED_MAX
        &&& self.storage <= FIXED_MAX
        &&& self.reputation <= FIXED_MAX
        &&& self.crypto <= FIXED_MAX
    }

    /// A ledger that holds nothing.
    pub fn zero() -> (r: Resources)
        ensures
            r == Resources::spec_zero(),
    {
        Resources { compute: 0, bandwidth: 0, storage: 0, reputation: 0, crypto: 0 }
    }

    /// The ledger with every resource scaled by a multiplier.
    pub fn scaled(&self, multiplier: Fixed) -> (r: Resources)
        ensures
            r == self.spec_scaled(multiplier),
            r.in_range(),
    {
        Resources {
            compute: fixed_mul(self.compute, multiplier),
            bandwidth: fixed_mul(self.bandwidth, multiplier),
            storage: fixed_mul(self.storage, multiplier),
            reputation: fixed_mul(self.reputation, multiplier),
            crypto: fixed_mul(self.crypto, multiplier),
        }
    }

    /// Whether no resource is above the ceiling.
    pub fn is_in_range(&self) -> (within: bool)
        ensures
            within == self.in_range(),
    {
        self.compute <= FIXED_MAX && self.bandwidth <= FIXED_MAX && self.storage <= FIXED_MAX
            && self.reputation <= FIXED_MAX && self.crypto <= FIXED_MAX
    }

    /// Whether every resource held covers the corresponding cost.
    pub fn can_afford(&self, cost: &Resources) -> (ok: bool)
        ensures
            ok == self.spec_can_afford(*cost),
    {
        self.compute >= cost.compute && self.bandwidth >= cost.bandwidth && self.storage
            >= cost.storage && self.reputation >= cost.reputation && self.crypto >= cost.crypto
    }

    /// Debits `cost`, resource by resource. A resource that does not cover
    /// its cost is left at zero; one of which nothing is asked is left as
    /// it is.
    pub fn subtract(&mut self, cost: &Resources)
        ensures
            *final(self) == old(self).spec_minus(*cost),
            old(self).in_range() ==> final(self).in_range(),
    {
        self.compute = fixed_sub(self.compute, cost.compute);
        self.bandwidth = fixed_sub(self.bandwidth, cost.bandwidth);
        self.storage = fixed_sub(self.storage, cost.storage);
        self.reputation = fixed_sub(self.reputation, cost.reputation);
        self.crypto = fixed_sub(self.crypto, cost.crypto);
    }

    /// Credits `other`, resource by resource. A resource to which nothing
    /// is credited is left as it is.
    pub fn add(&mut self, other: &Resources)
        ensures
            *final(self) == old(self).spec_plus(*other),
            old(self).in_range() ==> final(self).in_range(),
    {
        self.compute = fixed_add(self.compute, other.compute);
        self.bandwidth = fixed_add(self.bandwidth, other.bandwidth);
        self.storage = fixed_add(self.storage, other.storage);
        self.reputation = fixed_add(self.reputation, other.reputation);
        self.crypto = fixed_add(self.crypto, other.crypto);
    }
}

impl Default for Resources {
    fn default() -> (r: Resources)
        ensures
            r == Resources::spec_zero(),
    {
        Resources::zero()
    }
}

/// Debiting a cost that the ledger covers takes exactly the cost away, and
/// crediting it again restores the ledger.
pub proof fn lemma_debit_then_credit(held: Resources, cost: Resources)
    requires
        held.in_range(),
        held.spec_can_afford(cost),
    ensures
        held.spec_minus(cost).compute == held.compute - cost.compute,
        held.spec_minus(cost).bandwidth == held.bandwidth - cost.bandwidth,
        held.spec_minus(cost).storage == held.storage - cost.storage,
        held.spec_minus(cost).reputation == held.reputation - cost.reputation,
        held.spec_minus(cost).crypto == held.crypto - cost.crypto,
        held.spec_minus(cost).spec_plus(cost) == held,
{
}

} // verus!
