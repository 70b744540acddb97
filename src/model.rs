//! The release model: proposals, their execution modes and change entries.
use vstd::prelude::*;

verus! {

/// How a proposal is executed on chain.
#[derive(Clone, Copy, Debug, PartialEq, Eq, Structural)]
pub enum ExecutionMode {
    /// Several scripts run in sequence, each committing to the hash of the next.
    MultiStep,
    /// One governance proposal per script, no chaining.
    SingleStep,
    /// Scripts run by the root signer of a test network.
    RootSigner,
}

/// Whether scripts of this mode are tagged for a test network's root signer.
pub open spec fn spec_is_testnet(mode: ExecutionMode) -> bool {
    mode == ExecutionMode::RootSigner
}

/// Whether scripts of this mode are chained by hash.
pub open spec fn spec_is_multi_step(mode: ExecutionMode) -> bool {
    mode == ExecutionMode::MultiStep
}

impl ExecutionMode {
    /// The two flags a generator receives: (testnet, chained).
    pub fn flags(&self) -> (r: (bool, bool))
        ensures
            r.0 == spec_is_testnet(*self),
            r.1 == spec_is_multi_step(*self),
    {
        match self {
            ExecutionMode::MultiStep => (false, true),
            ExecutionMode::SingleStep => (false, false),
            ExecutionMode::RootSigner => (true, false),
        }
    }
}

/// The kind of a change entry, used to name the entry in errors.
#[derive(Clone, Copy, Debug, PartialEq, Eq, Structural)]
pub enum EntryKind {
    Framework,
    CustomGas,
    DefaultGas,
    Version,
    FeatureFlag,
    Consensus,
    Execution,
    RawScript,
}

/// A framework release: which bytecode version to build and from which commit.
#[derive(Clone, Debug)]
pub struct FrameworkReleaseConfig {
    pub bytecode_version: u32,
    pub git_hash: Option<String>,
}

/// The feature flags a release wants enabled and disabled, by numeric id.
#[derive(Clone, Debug)]
pub struct Features {
    pub enabled: Vec<u64>,
    pub disabled: Vec<u64>,
}

/// One desired change. Config payloads that the chain stores as typed
/// resources are held by their canonical (BCS) encoding, so structural
/// equality of two values is equality of their encodings.
#[derive(Clone, Debug)]
pub enum ReleaseEntry {
    Framework(FrameworkReleaseConfig),
    CustomGas(Vec<u8>),
    DefaultGas,
    Version(u64),
    FeatureFlag(Features),
    Consensus(Vec<u8>),
    Execution(Vec<u8>),
    RawScript(String),
}

impl ReleaseEntry {
    pub open spec fn spec_kind(&self) -> EntryKind {
        match self {
            ReleaseEntry::Framework(_) => EntryKind::Framework,
            ReleaseEntry::CustomGas(_) => EntryKind::CustomGas,
            ReleaseEntry::DefaultGas => EntryKind::DefaultGas,
            ReleaseEntry::Version(_) => EntryKind::Version,
            ReleaseEntry::FeatureFlag(_) => EntryKind::FeatureFlag,
            ReleaseEntry::Consensus(_) => EntryKind::Consensus,
            ReleaseEntry::Execution(_) => EntryKind::Execution,
            ReleaseEntry::RawScript(_) => EntryKind::RawScript,
        }
    }

    /// The kind of this entry.
    pub fn kind(&self) -> (r: EntryKind)
        ensures
            r == self.spec_kind(),
    {
        match self {
            ReleaseEntry::Framework(_) => EntryKind::Framework,
            ReleaseEntry::CustomGas(_) => EntryKind::CustomGas,
            ReleaseEntry::DefaultGas => EntryKind::DefaultGas,
            ReleaseEntry::Version(_) => EntryKind::Version,
            ReleaseEntry::FeatureFlag(_) => EntryKind::FeatureFlag,
            ReleaseEntry::Consensus(_) => EntryKind::Consensus,
            ReleaseEntry::Execution(_) => EntryKind::Execution,
            ReleaseEntry::RawScript(_) => EntryKind::RawScript,
        }
    }
}

/// Human-readable metadata published beside a proposal.
#[derive(Clone, Debug)]
pub struct ProposalMetadata {
    pub title: String,
    pub description: String,
    pub source_code_url: String,
    pub discussion_url: String,
}

pub open spec fn spec_default_url() -> Seq<char> {
    "https://github.com/aptos-labs/aptos-core"@
}

/// The URL used for the source and discussion links when none is given.
pub fn default_url() -> (r: String)
    ensures
        r@ == spec_default_url(),
{
    String::from_str("https://github.com/aptos-labs/aptos-core")
}

impl ProposalMetadata {
    /// Metadata titled and described "default", linking to the default URL.
    pub fn default() -> (r: ProposalMetadata)
        ensures
            r.title@ == "default"@,
            r.description@ == "default"@,
            r.source_code_url@ == spec_default_url(),
            r.discussion_url@ == spec_default_url(),
    {
        ProposalMetadata {
            title: String::from_str("default"),
            description: String::from_str("default"),
            source_code_url: default_url(),
            discussion_url: default_url(),
        }
    }
}

/// A named, ordered set of changes submitted together.
#[derive(Clone, Debug)]
pub struct Proposal {
    pub name: String,
    pub metadata: ProposalMetadata,
    pub execution_mode: ExecutionMode,
    pub update_sequence: Vec<ReleaseEntry>,
}

/// A release: its name (a path segment of the output), the endpoint of a
/// live network if any, and its proposals in order.
#[derive(Clone, Debug)]
pub struct ReleaseConfig {
    pub name: String,
    pub remote_endpoint: Option<String>,
    pub proposals: Vec<Proposal>,
}

impl ReleaseConfig {
    /// The release used when no document is given: a raw script proposal, a
    /// framework upgrade, the default gas schedule, and one multi-step
    /// proposal of feature flags, consensus and execution configs and a raw
    /// script. The values that only the chain's own libraries know are
    /// passed in: the default feature flags and the encodings of the default
    /// consensus config and of the execution config to install.
    pub fn default_release(default_features: Vec<u64>, consensus: Vec<u8>, execution: Vec<u8>) -> (r: ReleaseConfig)
        ensures
            r.name@ == "TestingConfig"@,
            r.remote_endpoint is None,
            r.proposals@.len() == 4,
            r.proposals@[0].name@ == "custom"@,
            r.proposals@[0].execution_mode == ExecutionMode::SingleStep,
            r.proposals@[0].update_sequence@.len() == 1,
            r.proposals@[0].update_sequence@[0] matches ReleaseEntry::RawScript(p) && p@ == "data/proposals/empty.move"@,
            r.proposals@[1].name@ == "framework"@,
            r.proposals@[1].execution_mode == ExecutionMode::MultiStep,
            r.proposals@[1].update_sequence@.len() == 1,
            r.proposals@[1].update_sequence@[0] matches ReleaseEntry::Framework(f) && f.bytecode_version == 6
                && f.git_hash is None,
            r.proposals@[2].name@ == "gas"@,
            r.proposals@[2].execution_mode == ExecutionMode::MultiStep,
            r.proposals@[2].update_sequence@.len() == 1,
            r.proposals@[2].update_sequence@[0] is DefaultGas,
            r.proposals@[3].name@ == "feature_flags"@,
            r.proposals@[3].execution_mode == ExecutionMode::MultiStep,
            r.proposals@[3].update_sequence@.len() == 4,
            r.proposals@[3].update_sequence@[0] matches ReleaseEntry::FeatureFlag(f)
                && f.enabled@ == default_features@ && f.disabled@.len() == 0,
            r.proposals@[3].update_sequence@[1] matches ReleaseEntry::Consensus(c) && c@ == consensus@,
            r.proposals@[3].update_sequence@[2] matches ReleaseEntry::Execution(e) && e@ == execution@,
            r.proposals@[3].update_sequence@[3] matches ReleaseEntry::RawScript(p)
                && p@ == "data/proposals/empty_multi_step.move"@,
            forall|i: int| 0 <= i < 4 ==> (#[trigger] r.proposals@[i]).metadata.title@ == "default"@
                && r.proposals@[i].metadata.description@ == "default"@
                && r.proposals@[i].metadata.source_code_url@ == spec_default_url()
                && r.proposals@[i].metadata.discussion_url@ == spec_default_url(),
    {
        let custom = Proposal {
            execution_mode: ExecutionMode::SingleStep,
            metadata: ProposalMetadata::default(),
            name: String::from_str("custom"),
            update_sequence: vec![ReleaseEntry::RawScript(String::from_str("data/proposals/empty.move"))],
        };
        let framework = Proposal {
            execution_mode: ExecutionMode::MultiStep,
            metadata: ProposalMetadata::default(),
            name: String::from_str("framework"),
            update_sequence: vec![ReleaseEntry::Framework(FrameworkReleaseConfig { bytecode_version: 6, git_hash: None })],
        };
        let gas = Proposal {
            execution_mode: ExecutionMode::MultiStep,
            metadata: ProposalMetadata::default(),
            name: String::from_str("gas"),
            update_sequence: vec![ReleaseEntry::DefaultGas],
        };
        let flags = Proposal {
            execution_mode: ExecutionMode::MultiStep,
            metadata: ProposalMetadata::default(),
            name: String::from_str("feature_flags"),
            update_sequence: vec![
                ReleaseEntry::FeatureFlag(Features { enabled: default_features, disabled: Vec::new() }),
                ReleaseEntry::Consensus(consensus),
                ReleaseEntry::Execution(execution),
                ReleaseEntry::RawScript(String::from_str("data/proposals/empty_multi_step.move")),
            ],
        };
        ReleaseConfig {
            name: String::from_str("TestingConfig"),
            remote_endpoint: None,
            proposals: vec![custom, framework, gas, flags],
        }
    }
}

} // verus!
