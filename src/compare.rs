//! Comparing desired configuration with what a live network reports.
use vstd::prelude::*;
use crate::model::{EntryKind, Features, ReleaseEntry};

verus! {

/// A value read from the chain for one config kind.
#[derive(Clone, Debug)]
pub enum OnChainValue {
    /// A config resource, by its canonical encoding.
    Encoded(Vec<u8>),
    /// The major version number.
    Version(u64),
    /// The feature bitmap: flag `f` is bit `f % 8` of byte `f / 8`.
    FeatureBits(Vec<u8>),
}

/// Whether `flag` is set in an on-chain feature bitmap.
pub open spec fn flag_enabled(bits: Seq<u8>, flag: u64) -> bool {
    (flag / 8) < bits.len() && bits[(flag / 8) as int] & (1u8 << ((flag % 8) as u8)) != 0
}

/// Whether the bitmap disagrees with any flag the release enables or disables.
pub open spec fn features_modified(enabled: Seq<u64>, disabled: Seq<u64>, bits: Seq<u8>) -> bool {
    (exists|i: int| 0 <= i < enabled.len() && !flag_enabled(bits, #[trigger] enabled[i]))
    || (exists|i: int| 0 <= i < disabled.len() && flag_enabled(bits, #[trigger] disabled[i]))
}

/// Reads one flag of an on-chain feature bitmap.
pub fn is_enabled(bits: &Vec<u8>, flag: u64) -> (r: bool)
    ensures
        r == flag_enabled(bits@, flag),
{
    let byte_index = flag / 8;
    if byte_index < bits.len() as u64 {
        let bit_mask: u8 = 1u8 << ((flag % 8) as u8);
        bits[byte_index as usize] & bit_mask != 0
    } else {
        false
    }
}

impl Features {
    /// True iff some flag this release lists diverges from the bitmap. One
    /// divergent flag is enough: the whole list is then asserted again.
    pub fn has_modified(&self, on_chain: &Vec<u8>) -> (r: bool)
        ensures
            r == features_modified(self.enabled@, self.disabled@, on_chain@),
    {
        let mut i: usize = 0;
        while i < self.enabled.len()
            invariant
                i <= self.enabled@.len(),
                forall|j: int| 0 <= j < i ==> flag_enabled(on_chain@, #[trigger] self.enabled@[j]),
            decreases self.enabled@.len() - i,
        {
            if !is_enabled(on_chain, self.enabled[i]) {
                return true;
            }
            i = i + 1;
        }
        let mut k: usize = 0;
        while k < self.disabled.len()
            invariant
                k <= self.disabled@.len(),
                forall|j: int| 0 <= j < self.enabled@.len() ==> flag_enabled(on_chain@, #[trigger] self.enabled@[j]),
                forall|j: int| 0 <= j < k ==> !flag_enabled(on_chain@, #[trigger] self.disabled@[j]),
            decreases self.disabled@.len() - k,
        {
            if is_enabled(on_chain, self.disabled[k]) {
                return true;
            }
            k = k + 1;
        }
        false
    }
}

/// Whether an observed value is the one this entry asks for. Framework
/// releases and raw scripts leave no marker on chain and always agree.
pub open spec fn entry_consistent(entry: ReleaseEntry, default_gas: Seq<u8>, observed: OnChainValue) -> bool {
    match entry {
        ReleaseEntry::Framework(_) => true,
        ReleaseEntry::RawScript(_) => true,
        ReleaseEntry::CustomGas(v) => observed matches OnChainValue::Encoded(o) && o@ == v@,
        ReleaseEntry::DefaultGas => observed matches OnChainValue::Encoded(o) && o@ == default_gas,
        ReleaseEntry::Version(m) => observed matches OnChainValue::Version(o) && o == m,
        ReleaseEntry::FeatureFlag(f) => observed matches OnChainValue::FeatureBits(b)
            && !features_modified(f.enabled@, f.disabled@, b@),
        ReleaseEntry::Consensus(v) => observed matches OnChainValue::Encoded(o) && o@ == v@,
        ReleaseEntry::Execution(v) => observed matches OnChainValue::Encoded(o) && o@ == v@,
    }
}

/// Whether an entry's desired value can be read back from the chain.
pub open spec fn spec_is_comparable(entry: ReleaseEntry) -> bool {
    !(entry is Framework || entry is RawScript)
}

/// Whether an entry must produce scripts: always without a live network,
/// otherwise exactly when the chain disagrees with it.
pub open spec fn spec_needs_update(entry: ReleaseEntry, default_gas: Seq<u8>, observed: Option<OnChainValue>) -> bool {
    match observed {
        None => true,
        Some(o) => !entry_consistent(entry, default_gas, o),
    }
}

/// Byte-wise equality of two encodings.
pub fn bytes_equal(a: &Vec<u8>, b: &Vec<u8>) -> (r: bool)
    ensures
        r == (a@ == b@),
{
    if a.len() != b.len() {
        return false;
    }
    let mut i: usize = 0;
    while i < a.len()
        invariant
            a@.len() == b@.len(),
            i <= a@.len(),
            forall|j: int| 0 <= j < i ==> a@[j] == b@[j],
        decreases a@.len() - i,
    {
        if a[i] != b[i] {
            return false;
        }
        i = i + 1;
    }
    assert(a@ =~= b@);
    true
}

/// Compares a desired config encoding with what was read from the chain;
/// false when nothing was read.
pub fn fetch_and_equals(expected: &Vec<u8>, observed: Option<&OnChainValue>) -> (r: bool)
    ensures
        r == (observed matches Some(OnChainValue::Encoded(o)) && o@ == expected@),
{
    match observed {
        Some(OnChainValue::Encoded(o)) => bytes_equal(o, expected),
        _ => false,
    }
}

impl ReleaseEntry {
    /// Whether this entry's value can be read back from the chain.
    pub fn is_comparable(&self) -> (r: bool)
        ensures
            r == spec_is_comparable(*self),
    {
        match self {
            ReleaseEntry::Framework(_) => false,
            ReleaseEntry::RawScript(_) => false,
            _ => true,
        }
    }

    /// Whether `observed` is the value this entry asks for.
    pub fn is_consistent(&self, default_gas: &Vec<u8>, observed: &OnChainValue) -> (r: bool)
        ensures
            r == entry_consistent(*self, default_gas@, *observed),
    {
        match self {
            ReleaseEntry::Framework(_) => true,
            ReleaseEntry::RawScript(_) => true,
            ReleaseEntry::CustomGas(v) => fetch_and_equals(v, Some(observed)),
            ReleaseEntry::DefaultGas => fetch_and_equals(default_gas, Some(observed)),
            ReleaseEntry::Version(m) => match observed {
                OnChainValue::Version(o) => *o == *m,
                _ => false,
            },
            ReleaseEntry::FeatureFlag(f) => match observed {
                OnChainValue::FeatureBits(b) => !f.has_modified(b),
                _ => false,
            },
            ReleaseEntry::Consensus(v) => fetch_and_equals(v, Some(observed)),
            ReleaseEntry::Execution(v) => fetch_and_equals(v, Some(observed)),
        }
    }

    /// Whether this entry must produce scripts, given what was read from a
    /// live network (`None` when there is none).
    pub fn needs_update(&self, default_gas: &Vec<u8>, observed: Option<&OnChainValue>) -> (r: bool)
        ensures
            r == spec_needs_update(*self, default_gas@, match observed {
                Some(o) => Some(*o),
                None => None,
            }),
    {
        match observed {
            None => true,
            Some(o) => !self.is_consistent(default_gas, o),
        }
    }
}

} // verus!
