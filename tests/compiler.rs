use release_builder::compare::OnChainValue;
use release_builder::compiler::{Action, CompileError, Event, Failure, ProposalCompiler};
use release_builder::model::{EntryKind, ExecutionMode, Features, FrameworkReleaseConfig, ReleaseEntry};
use release_builder::script::vector_literal;

/// A stand-in digest: the text's length and its first byte.
fn digest(text: &str) -> Vec<u8> {
    vec![text.len() as u8, text.bytes().next().unwrap_or(0)]
}

/// Drives a compiler to the end, answering each action: generators produce
/// one script whose text records the entry index and the chain hash.
fn run(
    compiler: &mut ProposalCompiler,
    observe: &dyn Fn(EntryKind) -> OnChainValue,
    scripts: &dyn Fn(&str) -> Option<String>,
    generated: &mut Vec<(usize, Vec<u8>)>,
) -> Action {
    let mut action = compiler.start();
    loop {
        let event = match &action {
            Action::Observe(kind) => Event::Observed(observe(*kind)),
            Action::ReadScript(path) => match scripts(path) {
                Some(text) => Event::ScriptRead(text),
                None => Event::Failed(Failure::MissingFile(path.clone())),
            },
            Action::Hash(text) => Event::Hashed(digest(text)),
            Action::Generate { index, chain_hash, .. } => {
                generated.push((*index, chain_hash.clone()));
                Event::Generated(vec![(
                    format!("step{}", index),
                    format!("entry {} chain {:?}", index, chain_hash),
                )])
            },
            Action::Finished(_) | Action::Aborted(_, _) => return action,
        };
        action = compiler.advance(event);
    }
}

fn empty_vector() -> Vec<u8> {
    b"vector::empty<u8>()".to_vec()
}

fn no_live(_: EntryKind) -> OnChainValue {
    OnChainValue::Version(0)
}

fn no_scripts(_: &str) -> Option<String> {
    None
}

fn chain_of(text: &str) -> String {
    text.split(" chain ").nth(1).unwrap().to_string()
}

#[test]
fn multi_step_scripts_commit_to_their_successor() {
    let entries = vec![
        ReleaseEntry::Version(7),
        ReleaseEntry::CustomGas(vec![1, 2, 3]),
        ReleaseEntry::Consensus(vec![9]),
    ];
    let mut c = ProposalCompiler::new(ExecutionMode::MultiStep, entries, vec![], false);
    let mut generated = vec![];
    let result = run(&mut c, &no_live, &no_scripts, &mut generated);
    let scripts = match result {
        Action::Finished(s) => s,
        other => panic!("unexpected {:?}", other),
    };
    assert_eq!(scripts.len(), 3);
    // Execution order follows declaration order.
    assert_eq!(scripts[0].0, "step0");
    assert_eq!(scripts[1].0, "step1");
    assert_eq!(scripts[2].0, "step2");
    // Entries were generated last first.
    assert_eq!(generated.iter().map(|g| g.0).collect::<Vec<_>>(), vec![2, 1, 0]);
    for i in 0..2 {
        assert_eq!(chain_of(&scripts[i].1), format!("{:?}", digest(&scripts[i + 1].1)));
    }
    assert_eq!(chain_of(&scripts[2].1), format!("{:?}", empty_vector()));
}

#[test]
fn single_step_and_root_signer_scripts_are_unchained() {
    for mode in [ExecutionMode::SingleStep, ExecutionMode::RootSigner] {
        let entries = vec![
            ReleaseEntry::Consensus(vec![9]),
            ReleaseEntry::Version(3),
            ReleaseEntry::DefaultGas,
        ];
        let mut c = ProposalCompiler::new(mode, entries, vec![5], false);
        let mut generated = vec![];
        let result = run(&mut c, &no_live, &no_scripts, &mut generated);
        match result {
            Action::Finished(s) => {
                assert_eq!(s.len(), 3);
                assert_eq!(s[0].0, "step0");
                assert_eq!(s[2].0, "step2");
            },
            other => panic!("unexpected {:?}", other),
        }
        assert_eq!(generated.iter().map(|g| g.0).collect::<Vec<_>>(), vec![0, 1, 2]);
        assert!(generated.iter().all(|g| g.1.is_empty()));
    }
}

#[test]
fn root_signer_generators_get_the_testnet_flag() {
    let mut c = ProposalCompiler::new(ExecutionMode::RootSigner, vec![ReleaseEntry::Version(1)], vec![], false);
    match c.start() {
        Action::Generate { index, is_testnet, chain_hash } => {
            assert_eq!(index, 0);
            assert!(is_testnet);
            assert!(chain_hash.is_empty());
        },
        other => panic!("unexpected {:?}", other),
    }
    let mut c = ProposalCompiler::new(ExecutionMode::MultiStep, vec![ReleaseEntry::Version(1)], vec![], false);
    match c.start() {
        Action::Generate { is_testnet, chain_hash, .. } => {
            assert!(!is_testnet);
            assert_eq!(chain_hash, empty_vector());
        },
        other => panic!("unexpected {:?}", other),
    }
}

#[test]
fn matching_live_state_produces_nothing() {
    let entries = vec![ReleaseEntry::Version(7), ReleaseEntry::CustomGas(vec![1, 2])];
    let mut c = ProposalCompiler::new(ExecutionMode::SingleStep, entries, vec![], true);
    let observe = |k: EntryKind| match k {
        EntryKind::Version => OnChainValue::Version(7),
        _ => OnChainValue::Encoded(vec![1, 2]),
    };
    let mut generated = vec![];
    match run(&mut c, &observe, &no_scripts, &mut generated) {
        Action::Finished(s) => assert!(s.is_empty()),
        other => panic!("unexpected {:?}", other),
    }
    assert!(generated.is_empty());
}

#[test]
fn divergent_live_state_produces_what_no_network_does() {
    let entries = || vec![ReleaseEntry::Version(7), ReleaseEntry::CustomGas(vec![1, 2])];
    let observe = |k: EntryKind| match k {
        EntryKind::Version => OnChainValue::Version(6),
        _ => OnChainValue::Encoded(vec![1, 3]),
    };
    let mut live = ProposalCompiler::new(ExecutionMode::MultiStep, entries(), vec![], true);
    let mut g1 = vec![];
    let a = run(&mut live, &observe, &no_scripts, &mut g1);
    let mut offline = ProposalCompiler::new(ExecutionMode::MultiStep, entries(), vec![], false);
    let mut g2 = vec![];
    let b = run(&mut offline, &no_live, &no_scripts, &mut g2);
    match (a, b) {
        (Action::Finished(x), Action::Finished(y)) => {
            assert_eq!(x, y);
            assert_eq!(x.len(), 2);
        },
        other => panic!("unexpected {:?}", other),
    }
    assert_eq!(g1, g2);
}

#[test]
fn default_gas_compares_with_the_current_schedule() {
    let mut c = ProposalCompiler::new(ExecutionMode::SingleStep, vec![ReleaseEntry::DefaultGas], vec![4, 4], true);
    assert!(matches!(c.start(), Action::Observe(EntryKind::DefaultGas)));
    match c.advance(Event::Observed(OnChainValue::Encoded(vec![4, 4]))) {
        Action::Finished(s) => assert!(s.is_empty()),
        other => panic!("unexpected {:?}", other),
    }
}

#[test]
fn one_divergent_flag_regenerates_the_whole_feature_entry() {
    let f = Features { enabled: vec![1, 2, 9], disabled: vec![4] };
    let mut c = ProposalCompiler::new(ExecutionMode::SingleStep, vec![ReleaseEntry::FeatureFlag(f)], vec![], true);
    assert!(matches!(c.start(), Action::Observe(EntryKind::FeatureFlag)));
    // Flags 1 and 2 are on, flag 9 is off, flag 4 is off.
    match c.advance(Event::Observed(OnChainValue::FeatureBits(vec![0b0000_0110, 0]))) {
        Action::Generate { index, .. } => assert_eq!(index, 0),
        other => panic!("unexpected {:?}", other),
    }
}

#[test]
fn features_agreeing_with_chain_are_skipped() {
    let f = Features { enabled: vec![1, 2, 9], disabled: vec![4] };
    let mut c = ProposalCompiler::new(ExecutionMode::SingleStep, vec![ReleaseEntry::FeatureFlag(f)], vec![], true);
    c.start();
    match c.advance(Event::Observed(OnChainValue::FeatureBits(vec![0b0000_0110, 0b0000_0010]))) {
        Action::Finished(s) => assert!(s.is_empty()),
        other => panic!("unexpected {:?}", other),
    }
}

#[test]
fn raw_script_in_multi_step_gets_the_hash_literal() {
    let entries = vec![
        ReleaseEntry::RawScript("data/proposals/first.move".to_string()),
        ReleaseEntry::Version(2),
    ];
    let scripts = |p: &str| -> Option<String> {
        if p.ends_with("first.move") {
            Some("script { let h = {{ script_hash }}; let again = {{ script_hash }}; }".to_string())
        } else {
            None
        }
    };
    let mut c = ProposalCompiler::new(ExecutionMode::MultiStep, entries, vec![], false);
    let mut generated = vec![];
    match run(&mut c, &no_live, &scripts, &mut generated) {
        Action::Finished(s) => {
            assert_eq!(s.len(), 2);
            assert_eq!(s[0].0, "first.move");
            let lit = vector_literal(&digest(&s[1].1));
            assert_eq!(s[0].1, format!("script {{ let h = {}; let again = {}; }}", lit, lit));
        },
        other => panic!("unexpected {:?}", other),
    }
}

#[test]
fn raw_script_as_first_multi_step_renders_the_empty_marker() {
    let mut c = ProposalCompiler::new(
        ExecutionMode::MultiStep,
        vec![ReleaseEntry::RawScript("x/only.move".to_string())],
        vec![],
        false,
    );
    assert!(matches!(c.start(), Action::ReadScript(ref p) if p == "x/only.move"));
    match c.advance(Event::ScriptRead("a {{script_hash}} b".to_string())) {
        Action::Finished(s) => {
            assert_eq!(s, vec![("only.move".to_string(), format!("a {} b", vector_literal(&empty_vector())))]);
        },
        other => panic!("unexpected {:?}", other),
    }
}

#[test]
fn raw_script_outside_multi_step_is_unchanged() {
    let text = "script { {{ script_hash }} }".to_string();
    let mut c = ProposalCompiler::new(
        ExecutionMode::SingleStep,
        vec![ReleaseEntry::RawScript("a/b/c.move".to_string())],
        vec![],
        true,
    );
    assert!(matches!(c.start(), Action::ReadScript(_)));
    match c.advance(Event::ScriptRead(text.clone())) {
        Action::Finished(s) => assert_eq!(s, vec![("c.move".to_string(), text)]),
        other => panic!("unexpected {:?}", other),
    }
}

#[test]
fn raw_script_without_file_name_fails() {
    let mut c = ProposalCompiler::new(
        ExecutionMode::SingleStep,
        vec![ReleaseEntry::RawScript("scripts/..".to_string())],
        vec![],
        false,
    );
    match c.start() {
        Action::Aborted(EntryKind::RawScript, CompileError::MissingFileName(p)) => assert_eq!(p, "scripts/.."),
        other => panic!("unexpected {:?}", other),
    }
}

#[test]
fn missing_raw_script_fails() {
    let mut c = ProposalCompiler::new(
        ExecutionMode::SingleStep,
        vec![ReleaseEntry::RawScript("gone.move".to_string())],
        vec![],
        false,
    );
    let mut generated = vec![];
    match run(&mut c, &no_live, &no_scripts, &mut generated) {
        Action::Aborted(EntryKind::RawScript, CompileError::Outside(Failure::MissingFile(p))) => {
            assert_eq!(p, "gone.move")
        },
        other => panic!("unexpected {:?}", other),
    }
}

#[test]
fn malformed_template_fails() {
    let mut c = ProposalCompiler::new(
        ExecutionMode::MultiStep,
        vec![ReleaseEntry::RawScript("bad.move".to_string())],
        vec![],
        false,
    );
    c.start();
    match c.advance(Event::ScriptRead("script {{#if}".to_string())) {
        Action::Aborted(EntryKind::RawScript, CompileError::TemplateRender) => {},
        other => panic!("unexpected {:?}", other),
    }
}

#[test]
fn failures_abort_with_the_entry_kind() {
    let mut c = ProposalCompiler::new(ExecutionMode::SingleStep, vec![ReleaseEntry::Consensus(vec![1])], vec![], true);
    c.start();
    match c.advance(Event::Failed(Failure::Network("timeout".to_string()))) {
        Action::Aborted(EntryKind::Consensus, CompileError::Outside(Failure::Network(m))) => assert_eq!(m, "timeout"),
        other => panic!("unexpected {:?}", other),
    }
    assert!(!c.is_waiting());
}

#[test]
fn unexpected_events_abort() {
    let mut c = ProposalCompiler::new(ExecutionMode::SingleStep, vec![ReleaseEntry::Version(1)], vec![], true);
    c.start();
    match c.advance(Event::Hashed(vec![1])) {
        Action::Aborted(EntryKind::Version, CompileError::UnexpectedEvent) => {},
        other => panic!("unexpected {:?}", other),
    }
}

#[test]
fn framework_entries_are_never_compared() {
    let fw = FrameworkReleaseConfig { bytecode_version: 6, git_hash: None };
    let mut c = ProposalCompiler::new(ExecutionMode::MultiStep, vec![ReleaseEntry::Framework(fw)], vec![], true);
    match c.start() {
        Action::Generate { index, chain_hash, .. } => {
            assert_eq!(index, 0);
            assert_eq!(chain_hash, empty_vector());
        },
        other => panic!("unexpected {:?}", other),
    }
    // A generator may produce several scripts for one entry.
    match c.advance(Event::Generated(vec![
        ("a".to_string(), "1".to_string()),
        ("b".to_string(), "2".to_string()),
    ])) {
        Action::Finished(s) => {
            assert_eq!(s, vec![("b".to_string(), "2".to_string()), ("a".to_string(), "1".to_string())]);
        },
        other => panic!("unexpected {:?}", other),
    }
}

#[test]
fn empty_proposal_finishes_at_once() {
    let mut c = ProposalCompiler::new(ExecutionMode::MultiStep, vec![], vec![], true);
    match c.start() {
        Action::Finished(s) => assert!(s.is_empty()),
        other => panic!("unexpected {:?}", other),
    }
}

#[test]
fn hashed_digest_goes_to_the_next_generator() {
    let entries = vec![ReleaseEntry::Version(1), ReleaseEntry::Version(2)];
    let mut c = ProposalCompiler::new(ExecutionMode::MultiStep, entries, vec![], false);
    assert!(matches!(c.start(), Action::Generate { index: 1, .. }));
    match c.advance(Event::Generated(vec![("v2".to_string(), "two".to_string())])) {
        Action::Hash(t) => assert_eq!(t, "two"),
        other => panic!("unexpected {:?}", other),
    }
    match c.advance(Event::Hashed(vec![7, 7])) {
        Action::Generate { index, chain_hash, .. } => {
            assert_eq!(index, 0);
            assert_eq!(chain_hash, vec![7, 7]);
        },
        other => panic!("unexpected {:?}", other),
    }
}

#[test]
fn next_raw_script_without_name_fails_after_a_finished_entry() {
    let entries = vec![ReleaseEntry::Version(1), ReleaseEntry::RawScript("/".to_string())];
    let mut c = ProposalCompiler::new(ExecutionMode::SingleStep, entries, vec![], false);
    c.start();
    match c.advance(Event::Generated(vec![("v".to_string(), "x".to_string())])) {
        Action::Aborted(EntryKind::RawScript, CompileError::MissingFileName(p)) => assert_eq!(p, "/"),
        other => panic!("unexpected {:?}", other),
    }
}
