//! Processor/controller pairing for one plugin lifecycle.
//!
//! Hosts create the processor and the controller of one plugin instance
//! separately. Each live runtime is registered with a claim per role; a new
//! processor (or controller) takes the first runtime whose processor (or
//! controller) claim is free, so a processor and a controller created in
//! turn share one runtime, and two instances of one role never do.

use vstd::prelude::*;

verus! {

/// Class role requesting a shared runtime.
#[derive(Clone, Copy, Debug, PartialEq, Eq, Structural)]
pub enum SharedRole {
    /// The audio processor.
    Processor,
    /// The edit controller.
    Controller,
}

/// The other role of a processor/controller pair.
pub open spec fn other_role(role: SharedRole) -> SharedRole {
    match role {
        SharedRole::Processor => SharedRole::Controller,
        SharedRole::Controller => SharedRole::Processor,
    }
}

/// Which roles hold a claim on one registered runtime.
#[derive(Clone, Copy, Debug, PartialEq, Eq, Structural)]
pub struct RoleClaims {
    /// A processor uses the runtime.
    pub processor_claimed: bool,
    /// A controller uses the runtime.
    pub controller_claimed: bool,
}

impl RoleClaims {
    /// Whether `role` holds a claim.
    pub open spec fn spec_claimed(self, role: SharedRole) -> bool {
        match role {
            SharedRole::Processor => self.processor_claimed,
            SharedRole::Controller => self.controller_claimed,
        }
    }

    /// The claims with the claim of `role` set to `claimed`.
    pub open spec fn spec_with(self, role: SharedRole, claimed: bool) -> Self {
        match role {
            SharedRole::Processor => RoleClaims { processor_claimed: claimed, ..self },
            SharedRole::Controller => RoleClaims { controller_claimed: claimed, ..self },
        }
    }

    /// Claims of a runtime just created for `role`: that role only.
    pub open spec fn spec_fresh(role: SharedRole) -> Self {
        RoleClaims {
            processor_claimed: role == SharedRole::Processor,
            controller_claimed: role == SharedRole::Controller,
        }
    }

    /// Whether `role` holds a claim.
    pub fn claimed(&self, role: SharedRole) -> (claimed: bool)
        ensures
            claimed == self.spec_claimed(role),
    {
        match role {
            SharedRole::Processor => self.processor_claimed,
            SharedRole::Controller => self.controller_claimed,
        }
    }

    /// The claims with the claim of `role` set to `claimed`.
    pub fn with(self, role: SharedRole, claimed: bool) -> (claims: Self)
        ensures
            claims == self.spec_with(role, claimed),
    {
        match role {
            SharedRole::Processor => RoleClaims { processor_claimed: claimed, ..self },
            SharedRole::Controller => RoleClaims { controller_claimed: claimed, ..self },
        }
    }

    /// Claims of a runtime just created for `role`.
    pub fn fresh(role: SharedRole) -> (claims: Self)
        ensures
            claims == Self::spec_fresh(role),
    {
        match role {
            SharedRole::Processor => RoleClaims { processor_claimed: true, controller_claimed: false },
            SharedRole::Controller => RoleClaims { processor_claimed: false, controller_claimed: true },
        }
    }
}

/// Every registered runtime has a claim by `role`.
pub open spec fn all_claimed(claims: Seq<RoleClaims>, role: SharedRole) -> bool {
    forall|k: int| 0 <= k < claims.len() ==> #[trigger] claims[k].spec_claimed(role)
}

/// `index` is the first registered runtime without a claim by `role`.
pub open spec fn is_first_unclaimed(claims: Seq<RoleClaims>, role: SharedRole, index: int) -> bool {
    &&& 0 <= index < claims.len()
    &&& !claims[index].spec_claimed(role)
    &&& forall|k: int| 0 <= k < index ==> #[trigger] claims[k].spec_claimed(role)
}

/// Registered runtimes, each with its handle and its role claims.
pub struct SharedRegistry<H> {
    handles: Vec<H>,
    claims: Vec<RoleClaims>,
}

impl<H> SharedRegistry<H> {
    /// Handles and claims run in step.
    pub closed spec fn wf(&self) -> bool {
        self.handles@.len() == self.claims@.len()
    }

    /// The registered handles, oldest first.
    pub closed spec fn spec_handles(&self) -> Seq<H> {
        self.handles@
    }

    /// The claims of each registered runtime, in the order of the handles.
    pub closed spec fn spec_claims(&self) -> Seq<RoleClaims> {
        self.claims@
    }

    /// An empty registry.
    pub fn new() -> (registry: Self)
        ensures
            registry.wf(),
            registry.spec_handles() == Seq::<H>::empty(),
            registry.spec_claims() == Seq::<RoleClaims>::empty(),
    {
        SharedRegistry { handles: Vec::new(), claims: Vec::new() }
    }

    /// Number of registered runtimes.
    pub fn len(&self) -> (len: usize)
        requires
            self.wf(),
        ensures
            len == self.spec_claims().len(),
            len == self.spec_handles().len(),
    {
        self.claims.len()
    }

    /// Handle of runtime `index`.
    pub fn handle(&self, index: usize) -> (handle: &H)
        requires
            self.wf(),
            index < self.spec_handles().len(),
        ensures
            *handle == self.spec_handles()[index as int],
    {
        &self.handles[index]
    }

    /// Claims of runtime `index`.
    pub fn claims_at(&self, index: usize) -> (claims: RoleClaims)
        requires
            self.wf(),
            index < self.spec_claims().len(),
        ensures
            claims == self.spec_claims()[index as int],
    {
        self.claims[index]
    }

    /// Claim the first runtime that `role` has not claimed and return its
    /// index; `None`, with nothing changed, when `role` has claimed them all.
    pub fn claim_first_unclaimed(&mut self, role: SharedRole) -> (index: Option<usize>)
        requires
            old(self).wf(),
        ensures
            final(self).wf(),
            final(self).spec_handles() == old(self).spec_handles(),
            match index {
                Some(i) => {
                    &&& is_first_unclaimed(old(self).spec_claims(), role, i as int)
                    &&& final(self).spec_claims() == old(self).spec_claims().update(
                        i as int,
                        old(self).spec_claims()[i as int].spec_with(role, true),
                    )
                },
                None => {
                    &&& all_claimed(old(self).spec_claims(), role)
                    &&& final(self).spec_claims() == old(self).spec_claims()
                },
            },
    {
        let len = self.claims.len();
        let mut i: usize = 0;
        while i < len
            invariant
                i <= len,
                len == self.claims@.len(),
                self.handles@ == old(self).handles@,
                self.claims@ == old(self).claims@,
                old(self).wf(),
                forall|k: int| 0 <= k < i ==> #[trigger] self.claims@[k].spec_claimed(role),
            decreases len - i,
        {
            if !self.claims[i].claimed(role) {
                let updated = self.claims[i].with(role, true);
                self.claims.set(i, updated);
                return Some(i);
            }
            i = i + 1;
        }
        None
    }

    /// Register a runtime just created for `role`; returns its index.
    pub fn register(&mut self, handle: H, role: SharedRole) -> (index: usize)
        requires
            old(self).wf(),
            old(self).spec_claims().len() < usize::MAX,
        ensures
            final(self).wf(),
            index == old(self).spec_claims().len(),
            final(self).spec_handles() == old(self).spec_handles().push(handle),
            final(self).spec_claims() == old(self).spec_claims().push(RoleClaims::spec_fresh(role)),
    {
        let index = self.claims.len();
        self.handles.push(handle);
        self.claims.push(RoleClaims::fresh(role));
        index
    }

    /// Drop the claim of `role` on runtime `index`.
    pub fn release(&mut self, index: usize, role: SharedRole)
        requires
            old(self).wf(),
            index < old(self).spec_claims().len(),
        ensures
            final(self).wf(),
            final(self).spec_handles() == old(self).spec_handles(),
            final(self).spec_claims() == old(self).spec_claims().update(
                index as int,
                old(self).spec_claims()[index as int].spec_with(role, false),
            ),
    {
        let updated = self.claims[index].with(role, false);
        self.claims.set(index, updated);
    }

    /// Forget runtime `index` (its runtime is gone).
    pub fn remove(&mut self, index: usize) -> (handle: H)
        requires
            old(self).wf(),
            index < old(self).spec_claims().len(),
        ensures
            final(self).wf(),
            handle == old(self).spec_handles()[index as int],
            final(self).spec_handles() == old(self).spec_handles().remove(index as int),
            final(self).spec_claims() == old(self).spec_claims().remove(index as int),
    {
        self.claims.remove(index);
        self.handles.remove(index)
    }
}

/// Pairing: when every registered runtime already has a claim by the other
/// role, a runtime just registered for `role` is the first one that the
/// other role can claim, so the next instance of the other role shares it.
pub proof fn lemma_fresh_runtime_pairs(claims: Seq<RoleClaims>, role: SharedRole)
    requires
        all_claimed(claims, other_role(role)),
    ensures
        is_first_unclaimed(claims.push(RoleClaims::spec_fresh(role)), other_role(role), claims.len() as int),
{
    let pushed = claims.push(RoleClaims::spec_fresh(role));
    assert forall|k: int| 0 <= k < claims.len() implies #[trigger] pushed[k].spec_claimed(other_role(role)) by {
        assert(pushed[k] == claims[k]);
    }
}

/// Exclusivity: a claim is only ever taken on a runtime whose claim by
/// that role is free, so two instances of one role never share a runtime.
pub proof fn lemma_claim_takes_free_slot(claims: Seq<RoleClaims>, role: SharedRole, index: int)
    requires
        is_first_unclaimed(claims, role, index),
    ensures
        !claims[index].spec_claimed(role),
        claims[index].spec_with(role, true).spec_claimed(role),
        claims[index].spec_with(role, true).spec_claimed(other_role(role)) == claims[index].spec_claimed(
            other_role(role),
        ),
{
}

/// Releasing a claim just taken gives back the claims as they were.
pub proof fn lemma_claim_release_roundtrip(claims: RoleClaims, role: SharedRole)
    requires
        !claims.spec_claimed(role),
    ensures
        claims.spec_with(role, true).spec_with(role, false) == claims,
{
}

/// Where a new instance of `role` lands, with the claims afterwards: the
/// first runtime whose `role` claim is free, now claimed; or, when `role`
/// has claimed them all, a new runtime registered for `role` at the end.
pub open spec fn spec_acquire(claims: Seq<RoleClaims>, role: SharedRole) -> (Seq<RoleClaims>, int) {
    if exists|i: int| is_first_unclaimed(claims, role, i) {
        let i = choose|i: int| is_first_unclaimed(claims, role, i);
        (claims.update(i, claims[i].spec_with(role, true)), i)
    } else {
        (claims.push(RoleClaims::spec_fresh(role)), claims.len() as int)
    }
}

/// There is at most one first unclaimed runtime.
proof fn lemma_first_unclaimed_unique(claims: Seq<RoleClaims>, role: SharedRole, i: int, j: int)
    requires
        is_first_unclaimed(claims, role, i),
        is_first_unclaimed(claims, role, j),
    ensures
        i == j,
{
    if i < j {
        assert(claims[i].spec_claimed(role));
    } else if j < i {
        assert(claims[j].spec_claimed(role));
    }
}

/// Acquisition is what the registry's operations do: claiming the first
/// free runtime when there is one (`claim_first_unclaimed` returns it), and
/// registering a new runtime otherwise (`claim_first_unclaimed` returns
/// `None`, then `register`).
pub proof fn lemma_acquire_steps(claims: Seq<RoleClaims>, role: SharedRole)
    ensures
        forall|i: int|
            is_first_unclaimed(claims, role, i) ==> spec_acquire(claims, role) == (claims.update(
                i,
                claims[i].spec_with(role, true),
            ), i),
        all_claimed(claims, role) ==> spec_acquire(claims, role) == (claims.push(
            RoleClaims::spec_fresh(role),
        ), claims.len() as int),
{
    assert forall|i: int| is_first_unclaimed(claims, role, i) implies spec_acquire(claims, role) == (
    claims.update(i, claims[i].spec_with(role, true)), i) by {
        let k = choose|k: int| is_first_unclaimed(claims, role, k);
        lemma_first_unclaimed_unique(claims, role, i, k);
    }
    if all_claimed(claims, role) {
        assert(!exists|i: int| is_first_unclaimed(claims, role, i)) by {
            assert forall|i: int| !is_first_unclaimed(claims, role, i) by {
                if 0 <= i < claims.len() {
                    assert(claims[i].spec_claimed(role));
                }
            }
        }
    }
}

/// Pairing through acquisition: starting where every runtime is claimed by
/// both roles (an empty registry, for one), an instance of `role` gets a new
/// runtime, the next instance of the other role gets that same runtime, and
/// a further instance of `role` gets a different one.
pub proof fn lemma_acquire_pairs(claims: Seq<RoleClaims>, role: SharedRole)
    requires
        all_claimed(claims, role),
        all_claimed(claims, other_role(role)),
    ensures
        ({
            let (after_first, first) = spec_acquire(claims, role);
            let (after_second, second) = spec_acquire(after_first, other_role(role));
            let third = spec_acquire(after_second, role).1;
            first == second && third != first
        }),
{
    let other = other_role(role);
    lemma_acquire_steps(claims, role);
    let s1 = claims.push(RoleClaims::spec_fresh(role));
    let n = claims.len() as int;
    lemma_fresh_runtime_pairs(claims, role);
    lemma_acquire_steps(s1, other);
    let s2 = s1.update(n, s1[n].spec_with(other, true));
    assert(spec_acquire(s1, other) == (s2, n));
    assert forall|k: int| 0 <= k < s2.len() implies #[trigger] s2[k].spec_claimed(role) by {
        if k < n {
            assert(s2[k] == claims[k]);
        }
    }
    lemma_acquire_steps(s2, role);
    assert(spec_acquire(s2, role).1 == n + 1);
}

} // verus!
