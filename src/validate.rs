//! Checking that a release has been applied on chain.
use vstd::prelude::*;
use crate::compare::{entry_consistent, spec_is_comparable, OnChainValue};
use crate::model::{EntryKind, Proposal, ReleaseConfig, ReleaseEntry};

verus! {

/// An entry whose on-chain value is not the one it asks for: its kind and
/// where it stands, so that the expected and the observed value can be shown.
#[derive(Clone, Copy, Debug, PartialEq, Eq, Structural)]
pub struct Mismatch {
    pub kind: EntryKind,
    pub proposal: usize,
    pub entry: usize,
}

/// Whether an entry passes validation against what was read for it: entries
/// that cannot be read back always pass, the others need a value read and
/// equal to theirs.
pub open spec fn entry_validated(entry: ReleaseEntry, default_gas: Seq<u8>, observed: Option<OnChainValue>) -> bool {
    spec_is_comparable(entry) ==> (observed matches Some(o) && entry_consistent(entry, default_gas, o))
}

/// One observation slot per entry of every proposal.
pub open spec fn observations_fit(proposals: Seq<Proposal>, observed: Seq<Vec<Option<OnChainValue>>>) -> bool {
    &&& observed.len() == proposals.len()
    &&& forall|p: int| 0 <= p < proposals.len() ==> #[trigger] observed[p]@.len() == proposals[p].update_sequence@.len()
}

pub open spec fn validated_at(proposals: Seq<Proposal>, default_gas: Seq<u8>, observed: Seq<Vec<Option<OnChainValue>>>, p: int, e: int) -> bool {
    entry_validated(proposals[p].update_sequence@[e], default_gas, observed[p]@[e])
}

/// Whether (p, e) comes before (q, f) in declaration order.
pub open spec fn before(p: int, e: int, q: int, f: int) -> bool {
    p < q || (p == q && e < f)
}

/// The outcome validation owes: success iff every entry passes; otherwise
/// the first entry, in declaration order, that does not.
pub open spec fn validation_outcome(
    proposals: Seq<Proposal>,
    default_gas: Seq<u8>,
    observed: Seq<Vec<Option<OnChainValue>>>,
    r: Result<(), Mismatch>,
) -> bool {
    match r {
        Ok(_) => forall|p: int, e: int| 0 <= p < proposals.len() && 0 <= e < proposals[p].update_sequence@.len()
            ==> #[trigger] validated_at(proposals, default_gas, observed, p, e),
        Err(m) => {
            &&& m.proposal < proposals.len()
            &&& m.entry < proposals[m.proposal as int].update_sequence@.len()
            &&& !validated_at(proposals, default_gas, observed, m.proposal as int, m.entry as int)
            &&& m.kind == proposals[m.proposal as int].update_sequence@[m.entry as int].spec_kind()
            &&& forall|p: int, e: int| 0 <= p < proposals.len() && 0 <= e < proposals[p].update_sequence@.len()
                && before(p, e, m.proposal as int, m.entry as int)
                ==> #[trigger] validated_at(proposals, default_gas, observed, p, e)
        },
    }
}

impl ReleaseEntry {
    /// Validates one entry against what was read for it.
    pub fn validate_upgrade(&self, default_gas: &Vec<u8>, observed: Option<&OnChainValue>) -> (r: bool)
        ensures
            r == entry_validated(*self, default_gas@, match observed {
                Some(o) => Some(*o),
                None => None,
            }),
    {
        if !self.is_comparable() {
            return true;
        }
        match observed {
            Some(o) => self.is_consistent(default_gas, o),
            None => false,
        }
    }
}

impl ReleaseConfig {
    /// Validates every entry of every proposal, in order, against what was
    /// read from the chain for it; fails on the first that disagrees.
    pub fn validate_upgrade(&self, default_gas: &Vec<u8>, observed: &Vec<Vec<Option<OnChainValue>>>) -> (r: Result<(), Mismatch>)
        requires
            observations_fit(self.proposals@, observed@),
        ensures
            validation_outcome(self.proposals@, default_gas@, observed@, r),
    {
        let ghost ps = self.proposals@;
        let mut p: usize = 0;
        while p < self.proposals.len()
            invariant
                ps == self.proposals@,
                observations_fit(ps, observed@),
                p <= ps.len(),
                forall|q: int, e: int| 0 <= q < p && 0 <= e < ps[q].update_sequence@.len()
                    ==> #[trigger] validated_at(ps, default_gas@, observed@, q, e),
            decreases ps.len() - p,
        {
            let entries = &self.proposals[p].update_sequence;
            let obs = &observed[p];
            assert(obs@.len() == entries@.len());
            let mut e: usize = 0;
            while e < entries.len()
                invariant
                    ps == self.proposals@,
                    observations_fit(ps, observed@),
                    p < ps.len(),
                    entries@ == ps[p as int].update_sequence@,
                    obs@ == observed@[p as int]@,
                    obs@.len() == entries@.len(),
                    e <= entries@.len(),
                    forall|q: int, f: int| 0 <= q < p && 0 <= f < ps[q].update_sequence@.len()
                        ==> #[trigger] validated_at(ps, default_gas@, observed@, q, f),
                    forall|f: int| 0 <= f < e ==> #[trigger] validated_at(ps, default_gas@, observed@, p as int, f),
                decreases entries@.len() - e,
            {
                let ok = match &obs[e] {
                    Some(o) => entries[e].validate_upgrade(default_gas, Some(o)),
                    None => entries[e].validate_upgrade(default_gas, None),
                };
                if !ok {
                    let m = Mismatch { kind: entries[e].kind(), proposal: p, entry: e };
                    assert forall|q: int, f: int| 0 <= q < ps.len() && 0 <= f < ps[q].update_sequence@.len()
                        && before(q, f, p as int, e as int)
                        implies #[trigger] validated_at(ps, default_gas@, observed@, q, f) by {
                        if q == p {
                            assert(validated_at(ps, default_gas@, observed@, p as int, f));
                        }
                    }
                    return Err(m);
                }
                e = e + 1;
            }
            assert forall|q: int, f: int| 0 <= q < p + 1 && 0 <= f < ps[q].update_sequence@.len()
                implies #[trigger] validated_at(ps, default_gas@, observed@, q, f) by {
                if q == p {
                    assert(validated_at(ps, default_gas@, observed@, p as int, f));
                }
            }
            p = p + 1;
        }
        Ok(())
    }
}

/// A release whose every entry agrees with the chain validates.
pub proof fn lemma_matching_release_passes(
    proposals: Seq<Proposal>,
    default_gas: Seq<u8>,
    observed: Seq<Vec<Option<OnChainValue>>>,
    r: Result<(), Mismatch>,
)
    requires
        validation_outcome(proposals, default_gas, observed, r),
        forall|q: int, f: int| 0 <= q < proposals.len() && 0 <= f < proposals[q].update_sequence@.len()
            ==> #[trigger] validated_at(proposals, default_gas, observed, q, f),
    ensures
        r is Ok,
{
    if let Err(m) = r {
        assert(validated_at(proposals, default_gas, observed, m.proposal as int, m.entry as int));
    }
}

/// When exactly one entry of a release disagrees with the chain, validation
/// fails and names that entry and its kind.
pub proof fn lemma_single_divergence_named(
    proposals: Seq<Proposal>,
    default_gas: Seq<u8>,
    observed: Seq<Vec<Option<OnChainValue>>>,
    p: int,
    e: int,
    r: Result<(), Mismatch>,
)
    requires
        validation_outcome(proposals, default_gas, observed, r),
        0 <= p < proposals.len(),
        0 <= e < proposals[p].update_sequence@.len(),
        !validated_at(proposals, default_gas, observed, p, e),
        forall|q: int, f: int| 0 <= q < proposals.len() && 0 <= f < proposals[q].update_sequence@.len()
            && !(q == p && f == e) ==> #[trigger] validated_at(proposals, default_gas, observed, q, f),
    ensures
        r matches Err(m) && m.proposal == p && m.entry == e
            && m.kind == proposals[p].update_sequence@[e].spec_kind(),
{
    if r is Ok {
        assert(validated_at(proposals, default_gas, observed, p, e));
    }
}

} // verus!
