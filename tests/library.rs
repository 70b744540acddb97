use release_builder::compare::{fetch_and_equals, is_enabled, OnChainValue};
use release_builder::layout::{metadata_path, proposal_dir, release_dirs, script_file_name, strip_extension};
use release_builder::model::{
    default_url, EntryKind, ExecutionMode, Features, Proposal, ProposalMetadata, ReleaseConfig, ReleaseEntry,
};
use release_builder::script::{append_script_hash, file_name, get_execution_hash, raw_script_text, vector_literal};
use release_builder::text::to_hex;
use release_builder::tool::{Cli, Command, CommonArgs, SelectedPackageArgs};
use release_builder::validate::Mismatch;

fn strings(v: &[&str]) -> Vec<String> {
    v.iter().map(|s| s.to_string()).collect()
}

#[test]
fn default_url_points_at_the_repository() {
    assert_eq!(default_url(), "https://github.com/aptos-labs/aptos-core");
    let m = ProposalMetadata::default();
    assert_eq!(m.title, "default");
    assert_eq!(m.description, "default");
    assert_eq!(m.source_code_url, default_url());
    assert_eq!(m.discussion_url, default_url());
}

#[test]
fn execution_mode_flags() {
    assert_eq!(ExecutionMode::MultiStep.flags(), (false, true));
    assert_eq!(ExecutionMode::SingleStep.flags(), (false, false));
    assert_eq!(ExecutionMode::RootSigner.flags(), (true, false));
}

#[test]
fn default_release_layout() {
    let r = ReleaseConfig::default_release(vec![1, 2, 3], vec![7], vec![8]);
    assert_eq!(r.name, "TestingConfig");
    assert!(r.remote_endpoint.is_none());
    let names: Vec<&str> = r.proposals.iter().map(|p| p.name.as_str()).collect();
    assert_eq!(names, vec!["custom", "framework", "gas", "feature_flags"]);
    assert_eq!(r.proposals[0].execution_mode, ExecutionMode::SingleStep);
    assert_eq!(r.proposals[3].execution_mode, ExecutionMode::MultiStep);
    let kinds: Vec<EntryKind> = r.proposals[3].update_sequence.iter().map(|e| e.kind()).collect();
    assert_eq!(kinds, vec![EntryKind::FeatureFlag, EntryKind::Consensus, EntryKind::Execution, EntryKind::RawScript]);
}

#[test]
fn feature_bits() {
    let bits = vec![0b0000_0101u8, 0b1000_0000];
    assert!(is_enabled(&bits, 0));
    assert!(!is_enabled(&bits, 1));
    assert!(is_enabled(&bits, 2));
    assert!(is_enabled(&bits, 15));
    assert!(!is_enabled(&bits, 16));
    assert!(!is_enabled(&bits, u64::MAX));
}

#[test]
fn has_modified_on_any_single_flag() {
    let f = Features { enabled: vec![0, 2], disabled: vec![1] };
    assert!(!f.has_modified(&vec![0b101]));
    assert!(f.has_modified(&vec![0b100]));
    assert!(f.has_modified(&vec![0b111]));
    assert!(f.has_modified(&vec![]));
    let none = Features { enabled: vec![], disabled: vec![] };
    assert!(!none.has_modified(&vec![]));
}

#[test]
fn comparisons() {
    assert!(fetch_and_equals(&vec![1, 2], Some(&OnChainValue::Encoded(vec![1, 2]))));
    assert!(!fetch_and_equals(&vec![1, 2], Some(&OnChainValue::Encoded(vec![1]))));
    assert!(!fetch_and_equals(&vec![1, 2], None));
    assert!(!fetch_and_equals(&vec![], Some(&OnChainValue::Version(0))));
    let v = ReleaseEntry::Version(3);
    assert!(v.needs_update(&vec![], None));
    assert!(!v.needs_update(&vec![], Some(&OnChainValue::Version(3))));
    assert!(v.needs_update(&vec![], Some(&OnChainValue::Version(4))));
    assert!(!ReleaseEntry::DefaultGas.needs_update(&vec![5], Some(&OnChainValue::Encoded(vec![5]))));
    assert!(ReleaseEntry::RawScript("a".to_string()).needs_update(&vec![], None));
}

#[test]
fn byte_vector_literal() {
    assert_eq!(vector_literal(&vec![]), "vector[]");
    assert_eq!(vector_literal(&vec![0, 7, 42, 255]), "vector[0u8,7u8,42u8,255u8,]");
}

#[test]
fn execution_hash_of_nothing_is_the_empty_vector() {
    assert_eq!(get_execution_hash(&vec![], vec![1]), b"vector::empty<u8>()".to_vec());
    let produced = vec![("a".to_string(), "b".to_string())];
    assert_eq!(get_execution_hash(&produced, vec![9, 9]), vec![9, 9]);
}

#[test]
fn file_names_of_paths() {
    assert_eq!(file_name("data/proposals/empty.move"), Some("empty.move".to_string()));
    assert_eq!(file_name("x.move"), Some("x.move".to_string()));
    assert_eq!(file_name("dir/"), Some("dir".to_string()));
    assert_eq!(file_name("a/b/."), Some("b".to_string()));
    assert_eq!(file_name("a//b"), Some("b".to_string()));
    assert_eq!(file_name("a/.."), None);
    assert_eq!(file_name("/"), None);
    assert_eq!(file_name(""), None);
    assert_eq!(file_name("."), None);
}

#[test]
fn raw_script_rendering() {
    let t = "a {{ script_hash }} b {{script_hash}}".to_string();
    assert_eq!(raw_script_text(&t, ExecutionMode::MultiStep, &vec![1, 2]), Some("a vector[1u8,2u8,] b vector[1u8,2u8,]".to_string()));
    assert_eq!(raw_script_text(&t, ExecutionMode::SingleStep, &vec![1, 2]), Some(t.clone()));
    assert_eq!(raw_script_text(&t, ExecutionMode::RootSigner, &vec![1, 2]), Some(t.clone()));
    let plain = "no placeholder here".to_string();
    assert_eq!(raw_script_text(&plain, ExecutionMode::MultiStep, &vec![3]), Some(plain.clone()));
    assert_eq!(raw_script_text(&"{{#if}".to_string(), ExecutionMode::MultiStep, &vec![3]), None);
}

#[test]
fn script_hash_header() {
    assert_eq!(to_hex(&vec![0x00, 0xab, 0x10, 0xff]), "00ab10ff");
    assert_eq!(append_script_hash(&"body".to_string(), &vec![0x0f, 0xa0]), "// Script hash: 0fa0 \nbody");
}

#[test]
fn output_layout() {
    assert_eq!(release_dirs("out", "rel"), strings(&["out/sources", "out/sources/rel", "out/metadata", "out/metadata/rel"]));
    assert_eq!(proposal_dir("out", "rel", "gas"), "out/sources/rel/gas");
    assert_eq!(metadata_path("out", "rel", "gas"), "out/metadata/rel/gas.json");
    assert_eq!(script_file_name(0, "gas_schedule"), "0-gas_schedule.move");
    assert_eq!(script_file_name(12, "empty.move"), "12-empty.move");
    assert_eq!(script_file_name(3, "a.b.c"), "3-a.b.move");
    assert_eq!(strip_extension("noext"), "noext");
}

#[test]
fn a_second_run_creates_the_same_first_directory() {
    assert_eq!(release_dirs("root", "one")[0], release_dirs("root", "two")[0]);
}

fn common(args: &[&str], packages: &[&str]) -> CommonArgs {
    CommonArgs { package_args: SelectedPackageArgs { package: strings(packages) }, args: strings(args) }
}

#[test]
fn args_split_at_the_first_separator() {
    assert_eq!(common(&["a", "--", "b", "--", "c"], &[]).args(), (strings(&["a"]), strings(&["b", "--", "c"])));
    assert_eq!(common(&["a", "b"], &[]).args(), (strings(&["a", "b"]), vec![]));
    assert_eq!(common(&["--"], &[]).args(), (vec![], vec![]));
    assert_eq!(common(&[], &[]).args(), (vec![], vec![]));
}

#[test]
fn subcommand_names() {
    assert_eq!(Command::Check(common(&[], &[])).command(), "check");
    assert_eq!(Command::Fmt(common(&[], &[])).command(), "fmt");
    assert_eq!(Command::Nextest(common(&[], &[])).command(), "nextest");
    assert_eq!(Command::Test(common(&[], &[])).command(), "test");
    assert_eq!(Command::Xclippy(common(&[], &[])).command(), "xclippy");
    assert_eq!(Command::Test(common(&["x"], &["p"])).command_args().args, strings(&["x"]));
}

#[test]
fn cargo_arguments_name_each_package() {
    let cli = Cli { cmd: Command::Check(common(&["--all-targets", "--", "--nocapture"], &[])) };
    let (direct, pass) = cli.cargo_args(&strings(&["alpha", "beta"]));
    assert_eq!(direct, strings(&["--all-targets", "-p", "alpha", "-p", "beta"]));
    assert_eq!(pass, strings(&["--nocapture"]));
}

fn proposal(entries: Vec<ReleaseEntry>) -> Proposal {
    Proposal {
        name: "p".to_string(),
        metadata: ProposalMetadata::default(),
        execution_mode: ExecutionMode::MultiStep,
        update_sequence: entries,
    }
}

fn release() -> ReleaseConfig {
    ReleaseConfig {
        name: "r".to_string(),
        remote_endpoint: Some("http://localhost:8080".to_string()),
        proposals: vec![
            proposal(vec![ReleaseEntry::RawScript("s.move".to_string()), ReleaseEntry::Version(4)]),
            proposal(vec![
                ReleaseEntry::DefaultGas,
                ReleaseEntry::FeatureFlag(Features { enabled: vec![1], disabled: vec![0] }),
                ReleaseEntry::Execution(vec![3, 3]),
            ]),
        ],
    }
}

fn chain_state() -> Vec<Vec<Option<OnChainValue>>> {
    vec![
        vec![None, Some(OnChainValue::Version(4))],
        vec![
            Some(OnChainValue::Encoded(vec![6])),
            Some(OnChainValue::FeatureBits(vec![0b10])),
            Some(OnChainValue::Encoded(vec![3, 3])),
        ],
    ]
}

#[test]
fn validation_passes_on_matching_chain() {
    assert_eq!(release().validate_upgrade(&vec![6], &chain_state()), Ok(()));
}

#[test]
fn validation_names_the_one_divergent_entry() {
    let mut s = chain_state();
    s[1][1] = Some(OnChainValue::FeatureBits(vec![0b11]));
    assert_eq!(
        release().validate_upgrade(&vec![6], &s),
        Err(Mismatch { kind: EntryKind::FeatureFlag, proposal: 1, entry: 1 })
    );
    let mut s = chain_state();
    s[0][1] = Some(OnChainValue::Version(5));
    assert_eq!(
        release().validate_upgrade(&vec![6], &s),
        Err(Mismatch { kind: EntryKind::Version, proposal: 0, entry: 1 })
    );
    let s = chain_state();
    assert_eq!(
        release().validate_upgrade(&vec![7], &s),
        Err(Mismatch { kind: EntryKind::DefaultGas, proposal: 1, entry: 0 })
    );
    let mut s = chain_state();
    s[1][2] = None;
    assert_eq!(
        release().validate_upgrade(&vec![6], &s),
        Err(Mismatch { kind: EntryKind::Execution, proposal: 1, entry: 2 })
    );
}

#[test]
fn exempt_entries_always_validate() {
    assert!(ReleaseEntry::RawScript("a".to_string()).validate_upgrade(&vec![], None));
    assert!(ReleaseEntry::Version(1).validate_upgrade(&vec![], Some(&OnChainValue::Version(1))));
    assert!(!ReleaseEntry::Version(1).validate_upgrade(&vec![], None));
}

use release_builder::layout::{proposal_ops, release_ops, FsOp};
use std::collections::HashSet;

/// Runs steps against a set of existing directories; returns whether all
/// succeeded and the files written.
fn simulate(existing: &mut HashSet<String>, ops: &[FsOp]) -> (bool, Vec<String>) {
    let mut written = vec![];
    for op in ops {
        match op {
            FsOp::CreateDir(d) => {
                if !existing.insert(d.clone()) {
                    return (false, written);
                }
            },
            FsOp::WriteFile(p, _) => written.push(p.clone()),
        }
    }
    (true, written)
}

fn whole_run(release: &str) -> Vec<FsOp> {
    let scripts = vec![("gas".to_string(), "body".to_string())];
    let mut ops = release_ops("out", release);
    ops.extend(proposal_ops("out", release, "p", &scripts, &vec![vec![0xab]], "{}".to_string()));
    ops
}

#[test]
fn proposal_plan_writes_numbered_scripts_then_metadata() {
    let scripts = vec![("gas".to_string(), "a".to_string()), ("v.move".to_string(), "b".to_string())];
    let ops = proposal_ops("out", "rel", "p", &scripts, &vec![vec![1], vec![2]], "{}".to_string());
    assert_eq!(ops.len(), 4);
    assert!(matches!(&ops[0], FsOp::CreateDir(d) if d == "out/sources/rel/p"));
    assert!(matches!(&ops[1], FsOp::WriteFile(p, c) if p == "out/sources/rel/p/0-gas.move" && c == "// Script hash: 01 \na"));
    assert!(matches!(&ops[2], FsOp::WriteFile(p, c) if p == "out/sources/rel/p/1-v.move" && c == "// Script hash: 02 \nb"));
    assert!(matches!(&ops[3], FsOp::WriteFile(p, c) if p == "out/metadata/rel/p.json" && c == "{}"));
}

#[test]
fn second_run_into_same_root_writes_nothing() {
    let mut fs = HashSet::new();
    let (ok, written) = simulate(&mut fs, &whole_run("one"));
    assert!(ok);
    assert_eq!(written.len(), 2);
    let (ok, written) = simulate(&mut fs, &whole_run("two"));
    assert!(!ok);
    assert!(written.is_empty());
}
