//! The proposal compiler, as a state machine. The caller performs each
//! action it asks for (a read of on-chain state, a file read, a content
//! hash, a generator run) and hands back the outcome as an event.
use vstd::prelude::*;
use crate::compare::{
    entry_consistent, features_modified, flag_enabled, spec_is_comparable, spec_needs_update,
    OnChainValue,
};
use crate::model::{
    spec_is_multi_step, spec_is_testnet, EntryKind, ExecutionMode, Features, ReleaseEntry,
};
use crate::script::{
    empty_vector_bytes, empty_vector_marker, file_name, file_name_of, raw_script_text,
    spec_raw_script_text, unchained_marker,
};

verus! {

/// A script produced for a proposal: its name and its text.
pub type Artifact = (String, String);

/// A failure of the work the caller does for the compiler.
#[derive(Clone, Debug)]
pub enum Failure {
    /// A raw script file could not be read.
    MissingFile(String),
    /// Reading on-chain state failed.
    Network(String),
    /// The content hash of a script could not be computed.
    HashComputation(String),
    /// A generator failed.
    Generation(String),
}

/// Why the compilation of a proposal stopped.
#[derive(Clone, Debug)]
pub enum CompileError {
    /// A raw script path has no file name.
    MissingFileName(String),
    /// A raw script is not a well-formed template.
    TemplateRender,
    /// An event arrived that does not answer the last action.
    UnexpectedEvent,
    /// The caller reported a failure of an action.
    Outside(Failure),
}

/// What the compiler asks its caller to do next.
#[derive(Debug)]
pub enum Action {
    /// Read the on-chain value of this kind and answer `Observed`.
    Observe(EntryKind),
    /// Read the raw script at this path and answer `ScriptRead`.
    ReadScript(String),
    /// Compute the content hash of this script text and answer `Hashed`.
    Hash(String),
    /// Run the generator of the entry at `index`, with the testnet flag and
    /// the chain hash given, and answer `Generated`.
    Generate { index: usize, is_testnet: bool, chain_hash: Vec<u8> },
    /// All entries are done: the scripts, in execution order.
    Finished(Vec<Artifact>),
    /// Compilation stopped on an entry of this kind.
    Aborted(EntryKind, CompileError),
}

/// The outcome of an action.
#[derive(Debug)]
pub enum Event {
    Observed(OnChainValue),
    ScriptRead(String),
    Hashed(Vec<u8>),
    Generated(Vec<Artifact>),
    Failed(Failure),
}

/// Where the compiler stands within the current entry.
#[derive(Debug)]
pub enum Phase {
    Idle,
    Observing,
    /// Waiting for a raw script whose file name is held.
    ReadingScript(String),
    /// Waiting for the hash of the last script; holds a raw script's name and
    /// template when it is a raw script that waits for it.
    Hashing(Option<(String, String)>),
    /// Waiting for a generator run handed this chain hash.
    Generating(Vec<u8>),
    Finished,
    Aborted,
}

/// Compiles the entries of one proposal.
pub struct ProposalCompiler {
    pub mode: ExecutionMode,
    pub entries: Vec<ReleaseEntry>,
    /// The canonical encoding of the current default gas schedule.
    pub default_gas: Vec<u8>,
    /// Whether a live network is there to compare against.
    pub live: bool,
    /// How many entries, in visiting order, are done.
    pub done: usize,
    pub phase: Phase,
    /// The scripts produced so far, in the order they were produced.
    pub produced: Vec<Artifact>,
    /// Every script produced, in order; kept when the result is handed out.
    pub record: Ghost<Seq<Artifact>>,
    /// The chain hash each recorded script was produced with.
    pub embedded: Ghost<Seq<Seq<u8>>>,
    /// Whether each recorded script is the first of its entry.
    pub starts: Ghost<Seq<bool>>,
    /// Each hash asked for: the script text and the digest that came back.
    pub hashed: Ghost<Seq<(Seq<char>, Seq<u8>)>>,
}

/// The position in `entries` of the entry visited `k`-th: multi-step
/// proposals are walked from the last entry back.
pub open spec fn visit_index(mode: ExecutionMode, n: int, k: int) -> int {
    if spec_is_multi_step(mode) { n - 1 - k } else { k }
}

/// The scripts in execution order: produced order, reversed for multi-step.
pub open spec fn execution_order(mode: ExecutionMode, produced: Seq<Artifact>) -> Seq<Artifact> {
    if spec_is_multi_step(mode) { produced.reverse() } else { produced }
}

/// The chain value a script produced after `produced` commits to: in a
/// multi-step proposal the empty-vector expression when nothing came before
/// and a digest reported for the last script's text otherwise; outside
/// multi-step proposals no bytes.
pub open spec fn chain_value_ok(
    mode: ExecutionMode,
    produced: Seq<Artifact>,
    hashed: Seq<(Seq<char>, Seq<u8>)>,
    chain: Seq<u8>,
) -> bool {
    if spec_is_multi_step(mode) {
        if produced.len() == 0 {
            chain == empty_vector_marker()
        } else {
            hashed.contains((produced.last().1@, chain))
        }
    } else {
        chain == unchained_marker()
    }
}

/// Whether an event answers what a phase waits for.
pub open spec fn answers(phase: Phase, event: Event) -> bool {
    ||| event is Failed
    ||| (phase is Observing && event is Observed)
    ||| (phase is ReadingScript && event is ScriptRead)
    ||| (phase is Hashing && event is Hashed)
    ||| (phase is Generating && event is Generated)
}

/// After a raw script step: either rendering failed and compilation stopped,
/// or the script named `name` was recorded at position `at` with the text
/// that `content` renders to under `chain`, and that chain value.
pub open spec fn raw_script_step(
    next: ProposalCompiler,
    a: Action,
    at: int,
    name: String,
    content: String,
    chain: Seq<u8>,
) -> bool {
    ||| (a matches Action::Aborted(k, e) && k == EntryKind::RawScript && e is TemplateRender
        && spec_raw_script_text(content@, next.mode, chain) is None)
    ||| (next.record@.len() == at + 1 && next.record@[at].0 == name
        && spec_raw_script_text(content@, next.mode, chain) == Some(next.record@[at].1@)
        && next.embedded@[at] == chain && next.begins_entry(a))
}

/// Every recorded script carries the chain value it was produced with: the
/// first script of each entry a value that `chain_value_ok` admits for what
/// came before it, the others that of the script before them.
pub open spec fn chain_links(
    mode: ExecutionMode,
    record: Seq<Artifact>,
    embedded: Seq<Seq<u8>>,
    starts: Seq<bool>,
    hashed: Seq<(Seq<char>, Seq<u8>)>,
) -> bool {
    &&& embedded.len() == record.len()
    &&& starts.len() == record.len()
    &&& forall|k: int| 0 <= k < record.len() ==> if #[trigger] starts[k] {
        chain_value_ok(mode, record.subrange(0, k), hashed, embedded[k])
    } else {
        k > 0 && embedded[k] == embedded[k - 1]
    }
}

impl ProposalCompiler {
    pub open spec fn n(&self) -> int {
        self.entries@.len() as int
    }

    /// The entry being worked on.
    pub open spec fn current(&self) -> ReleaseEntry {
        self.entries@[visit_index(self.mode, self.n(), self.done as int)]
    }

    /// The first action for the entry at `done` (or the end): a raw script
    /// is read when its path has a file name and fails with
    /// `MissingFileName` otherwise; a comparable entry is first observed when
    /// a live network is there; every other entry goes on to its chain value.
    pub open spec fn begins_entry(&self, a: Action) -> bool {
        if self.done == self.n() {
            a is Finished
        } else if self.current() is RawScript {
            let q = self.current()->RawScript_0;
            if file_name_of(q@) is Some {
                a is ReadScript && a->ReadScript_0@ == q@
            } else {
                &&& a is Aborted
                &&& a->Aborted_0 == EntryKind::RawScript
                &&& a->Aborted_1 is MissingFileName
                &&& a->Aborted_1->MissingFileName_0@ == q@
            }
        } else if self.live && spec_is_comparable(self.current()) {
            a is Observe && a->Observe_0 == self.current().spec_kind()
        } else {
            self.requests_chain(a)
        }
    }

    /// Asking for the chain value: the hash of the last script in a
    /// multi-step proposal that has one, else the generator at once.
    pub open spec fn requests_chain(&self, a: Action) -> bool {
        if spec_is_multi_step(self.mode) && self.record@.len() > 0 {
            a is Hash
        } else {
            a is Generate
        }
    }

    pub open spec fn waiting(&self) -> bool {
        !(self.phase is Idle || self.phase is Finished || self.phase is Aborted)
    }

    pub open spec fn wf(&self) -> bool {
        &&& self.done <= self.n()
        &&& self.waiting() ==> self.done < self.n()
        &&& !(self.phase is Finished) ==> self.produced@ == self.record@
        &&& chain_links(self.mode, self.record@, self.embedded@, self.starts@, self.hashed@)
        &&& (self.phase is Observing ==> self.live && spec_is_comparable(self.current()))
        &&& (self.phase matches Phase::ReadingScript(n) ==> self.current() is RawScript
            && file_name_of(self.current()->RawScript_0@) == Some(n@))
        &&& (self.phase matches Phase::Hashing(pending) ==> {
            &&& spec_is_multi_step(self.mode)
            &&& self.produced@.len() > 0
            &&& (pending is Some <==> self.current() is RawScript)
            &&& (pending is Some ==> file_name_of(self.current()->RawScript_0@) == Some(pending->Some_0.0@))
        })
        &&& (self.phase matches Phase::Generating(chain) ==> {
            &&& chain_value_ok(self.mode, self.produced@, self.hashed@, chain@)
            &&& !(self.current() is RawScript)
        })
    }

    /// A compiler for `entries` under `mode`, before its first action.
    pub fn new(mode: ExecutionMode, entries: Vec<ReleaseEntry>, default_gas: Vec<u8>, live: bool) -> (r: Self)
        ensures
            r.wf(),
            r.phase is Idle,
            r.mode == mode,
            r.entries@ == entries@,
            r.default_gas@ == default_gas@,
            r.live == live,
            r.done == 0,
            r.record@.len() == 0,
            r.hashed@.len() == 0,
    {
        ProposalCompiler {
            mode,
            entries,
            default_gas,
            live,
            done: 0,
            phase: Phase::Idle,
            produced: Vec::new(),
            record: Ghost(Seq::empty()),
            embedded: Ghost(Seq::empty()),
            starts: Ghost(Seq::empty()),
            hashed: Ghost(Seq::empty()),
        }
    }

    fn current_index(&self) -> (r: usize)
        requires
            self.done < self.n(),
        ensures
            r == visit_index(self.mode, self.n(), self.done as int),
    {
        match self.mode {
            ExecutionMode::MultiStep => self.entries.len() - 1 - self.done,
            _ => self.done,
        }
    }
}


/// A copy of a byte string.
pub fn copy_bytes(v: &Vec<u8>) -> (r: Vec<u8>)
    ensures
        r@ == v@,
{
    let mut r: Vec<u8> = Vec::new();
    let mut i: usize = 0;
    while i < v.len()
        invariant
            i <= v@.len(),
            r@ == v@.subrange(0, i as int),
        decreases v@.len() - i,
    {
        r.push(v[i]);
        assert(r@ =~= v@.subrange(0, i + 1));
        i = i + 1;
    }
    assert(v@.subrange(0, v@.len() as int) =~= v@);
    r
}

/// The elements of `v` in reverse order.
pub fn reversed<T>(v: Vec<T>) -> (r: Vec<T>)
    ensures
        r@ == v@.reverse(),
{
    let ghost orig = v@;
    let mut v = v;
    let mut r: Vec<T> = Vec::new();
    while v.len() > 0
        invariant
            v@ == orig.subrange(0, v@.len() as int),
            r@.len() == orig.len() - v@.len(),
            forall|j: int| 0 <= j < r@.len() ==> r@[j] == orig[orig.len() - 1 - j],
        decreases v@.len(),
    {
        let x = v.pop().unwrap();
        r.push(x);
        assert(v@ =~= orig.subrange(0, v@.len() as int));
    }
    assert(r@ =~= orig.reverse());
    r
}

impl ProposalCompiler {
    /// What an action promises, read against the compiler after it.
    pub open spec fn action_ok(&self, a: Action) -> bool {
        match a {
            Action::Observe(k) => {
                &&& self.phase is Observing
                &&& self.live
                &&& spec_is_comparable(self.current())
                &&& k == self.current().spec_kind()
            },
            Action::ReadScript(p) => {
                &&& self.phase is ReadingScript
                &&& self.current() matches ReleaseEntry::RawScript(q) && p@ == q@
                &&& file_name_of(p@) is Some
            },
            Action::Hash(t) => {
                &&& self.phase is Hashing
                &&& spec_is_multi_step(self.mode)
                &&& self.record@.len() > 0
                &&& t@ == self.record@.last().1@
            },
            Action::Generate { index, is_testnet, chain_hash } => {
                &&& self.phase matches Phase::Generating(c) && c@ == chain_hash@
                &&& index == visit_index(self.mode, self.n(), self.done as int)
                &&& !(self.current() is RawScript)
                &&& is_testnet == spec_is_testnet(self.mode)
                &&& chain_value_ok(self.mode, self.record@, self.hashed@, chain_hash@)
            },
            Action::Finished(v) => {
                &&& self.phase is Finished
                &&& self.done == self.n()
                &&& v@ == execution_order(self.mode, self.record@)
            },
            Action::Aborted(k, e) => {
                &&& self.phase is Aborted
                &&& self.done < self.n()
                &&& k == self.current().spec_kind()
                &&& (e matches CompileError::MissingFileName(p) ==> self.current() matches ReleaseEntry::RawScript(q)
                    && p@ == q@ && file_name_of(q@) is None)
                &&& (e is TemplateRender ==> self.current() is RawScript && spec_is_multi_step(self.mode))
            },
        }
    }

    /// What never changes, and what only grows, from `self` to `next`.
    pub open spec fn evolves_to(&self, next: &Self) -> bool {
        &&& next.mode == self.mode
        &&& next.entries@ == self.entries@
        &&& next.default_gas@ == self.default_gas@
        &&& next.live == self.live
        &&& self.done <= next.done
        &&& self.record@ =~= next.record@.subrange(0, self.record@.len() as int)
        &&& self.record@.len() <= next.record@.len()
        &&& self.hashed@ =~= next.hashed@.subrange(0, self.hashed@.len() as int)
        &&& self.hashed@.len() <= next.hashed@.len()
    }

    /// Hands out the scripts in execution order and finishes.
    fn finish(&mut self) -> (a: Action)
        requires
            old(self).wf(),
            old(self).phase is Idle,
            old(self).done == old(self).n(),
        ensures
            final(self).wf(),
            old(self).evolves_to(final(self)),
            final(self).record@ == old(self).record@,
            final(self).hashed@ == old(self).hashed@,
            final(self).embedded@ == old(self).embedded@,
            final(self).action_ok(a),
            a is Finished,
    {
        let mut out: Vec<Artifact> = Vec::new();
        std::mem::swap(&mut out, &mut self.produced);
        self.phase = Phase::Finished;
        match self.mode {
            ExecutionMode::MultiStep => Action::Finished(reversed(out)),
            _ => Action::Finished(out),
        }
    }

    /// Starts on the entry at `done`: asks for what it needs first.
    fn next_action(&mut self) -> (a: Action)
        requires
            old(self).wf(),
            old(self).phase is Idle,
        ensures
            final(self).wf(),
            old(self).evolves_to(final(self)),
            final(self).done == old(self).done,
            final(self).record@ == old(self).record@,
            final(self).hashed@ == old(self).hashed@,
            final(self).embedded@ == old(self).embedded@,
            final(self).action_ok(a),
            final(self).begins_entry(a),
    decreases old(self).n() - old(self).done, 2nat,
    {
        if self.done == self.entries.len() {
            return self.finish();
        }
        let idx = self.current_index();
        let kind = self.entries[idx].kind();
        if let ReleaseEntry::RawScript(path) = &self.entries[idx] {
            match file_name(path.as_str()) {
                None => {
                    let p = path.clone();
                    self.phase = Phase::Aborted;
                    Action::Aborted(kind, CompileError::MissingFileName(p))
                },
                Some(name) => {
                    let p = path.clone();
                    self.phase = Phase::ReadingScript(name);
                    Action::ReadScript(p)
                },
            }
        } else if self.live && self.entries[idx].is_comparable() {
            self.phase = Phase::Observing;
            Action::Observe(kind)
        } else {
            self.request_chain(None)
        }
    }

    /// Asks for the hash of the last script when chaining needs it, else
    /// goes on with the chain value at hand.
    fn request_chain(&mut self, pending: Option<(String, String)>) -> (a: Action)
        requires
            old(self).wf(),
            old(self).phase is Idle || old(self).phase is Observing || old(self).phase is ReadingScript,
            old(self).done < old(self).n(),
            pending is Some <==> old(self).current() is RawScript,
            pending is Some ==> file_name_of(old(self).current()->RawScript_0@) == Some(pending->Some_0.0@),
        ensures
            final(self).wf(),
            old(self).evolves_to(final(self)),
            final(self).action_ok(a),
            pending is None ==> old(self).requests_chain(a),
            a is Aborted && final(self).done == old(self).done ==> final(self).record@ == old(self).record@,
            pending is None ==> (a is Hash || a is Generate) && final(self).done == old(self).done
                && final(self).record@ == old(self).record@ && final(self).hashed@ == old(self).hashed@
                && final(self).embedded@ == old(self).embedded@,
            pending is Some && spec_is_multi_step(old(self).mode) && old(self).record@.len() > 0
                ==> a is Hash && final(self).record@ == old(self).record@ && final(self).done == old(self).done,
            pending is Some && !(spec_is_multi_step(old(self).mode) && old(self).record@.len() > 0)
                ==> raw_script_step(*final(self), a, old(self).record@.len() as int, pending->Some_0.0,
                    pending->Some_0.1, if spec_is_multi_step(old(self).mode) {
                        empty_vector_marker()
                    } else {
                        unchained_marker()
                    }),
        decreases old(self).n() - old(self).done, 1nat,
    {
        if self.mode == ExecutionMode::MultiStep && self.produced.len() > 0 {
            let last = self.produced.len() - 1;
            let t = self.produced[last].1.clone();
            self.phase = Phase::Hashing(pending);
            Action::Hash(t)
        } else {
            let chain = match self.mode {
                ExecutionMode::MultiStep => empty_vector_bytes(),
                _ => Vec::new(),
            };
            self.phase = Phase::Idle;
            self.use_chain(chain, pending)
        }
    }

    /// Produces the current entry's scripts with chain value `chain`: renders
    /// a raw script at once, or asks for the generator of any other entry.
    fn use_chain(&mut self, chain: Vec<u8>, pending: Option<(String, String)>) -> (a: Action)
        requires
            old(self).wf(),
            old(self).phase is Idle,
            old(self).done < old(self).n(),
            pending is Some <==> old(self).current() is RawScript,
            chain_value_ok(old(self).mode, old(self).produced@, old(self).hashed@, chain@),
        ensures
            final(self).wf(),
            old(self).evolves_to(final(self)),
            final(self).action_ok(a),
            pending is None ==> a is Generate && a->chain_hash@ == chain@
                && a->index == visit_index(old(self).mode, old(self).n(), old(self).done as int)
                && final(self).done == old(self).done
                && final(self).record@ == old(self).record@ && final(self).hashed@ == old(self).hashed@
                && final(self).embedded@ == old(self).embedded@,
            pending matches Some(p) ==> raw_script_step(*final(self), a, old(self).record@.len() as int,
                p.0, p.1, chain@),
            a is Aborted && final(self).done == old(self).done ==> final(self).record@ == old(self).record@,
        decreases old(self).n() - old(self).done, 0nat,
    {
        match pending {
            None => {
                let index = self.current_index();
                let (is_testnet, _) = self.mode.flags();
                let c = copy_bytes(&chain);
                self.phase = Phase::Generating(c);
                Action::Generate { index, is_testnet, chain_hash: chain }
            },
            Some((name, template)) => {
                let kind = ReleaseEntry::kind(&self.entries[self.current_index()]);
                match raw_script_text(&template, self.mode, &chain) {
                    None => {
                        self.phase = Phase::Aborted;
                        Action::Aborted(kind, CompileError::TemplateRender)
                    },
                    Some(text) => {
                        proof {
                            lemma_links_push(self.mode, self.record@, self.embedded@, self.starts@,
                                self.hashed@, (name, text), chain@, true);
                        }
                        self.produced.push((name, text));
                        self.record = Ghost(self.record@.push((name, text)));
                        self.embedded = Ghost(self.embedded@.push(chain@));
                        self.starts = Ghost(self.starts@.push(true));
                        let n = self.entries.len();
                        assert(self.done < n);
                        self.done = self.done + 1;
                        self.next_action()
                    },
                }
            },
        }
    }
}

impl ProposalCompiler {
    /// Whether the compiler waits for the outcome of an action.
    pub fn is_waiting(&self) -> (r: bool)
        ensures
            r == self.waiting(),
    {
        match self.phase {
            Phase::Idle | Phase::Finished | Phase::Aborted => false,
            _ => true,
        }
    }

    /// The first action of a fresh compiler. Without a live network every
    /// comparable entry goes straight to producing its scripts.
    pub fn start(&mut self) -> (a: Action)
        requires
            old(self).wf(),
            old(self).phase is Idle,
        ensures
            final(self).wf(),
            old(self).evolves_to(final(self)),
            final(self).action_ok(a),
            final(self).done == old(self).done,
            final(self).record@ == old(self).record@,
            final(self).begins_entry(a),
    {
        self.next_action()
    }

    /// Takes the outcome of the last action and returns the next action.
    pub fn advance(&mut self, event: Event) -> (a: Action)
        requires
            old(self).wf(),
            old(self).waiting(),
        ensures
            final(self).wf(),
            old(self).evolves_to(final(self)),
            final(self).action_ok(a),
            event is Failed ==> (a matches Action::Aborted(k, e) && k == old(self).current().spec_kind()
                && e == CompileError::Outside(event->Failed_0)),
            old(self).phase is Observing && event is Observed
                && !spec_needs_update(old(self).current(), old(self).default_gas@, Some(event->Observed_0))
                ==> final(self).record@ == old(self).record@ && final(self).done == old(self).done + 1
                    && final(self).begins_entry(a),
            old(self).phase is Observing && event is Observed
                && spec_needs_update(old(self).current(), old(self).default_gas@, Some(event->Observed_0))
                ==> old(self).requests_chain(a) && final(self).record@ == old(self).record@
                    && final(self).done == old(self).done,
            old(self).phase is ReadingScript && event is ScriptRead && !spec_is_multi_step(old(self).mode)
                ==> final(self).record@ == old(self).record@.push(
                    (old(self).phase->ReadingScript_0, event->ScriptRead_0))
                    && final(self).done == old(self).done + 1 && final(self).begins_entry(a),
            old(self).phase is Generating && event is Generated
                ==> final(self).record@ == old(self).record@ + event->Generated_0@
                    && final(self).done == old(self).done + 1 && final(self).begins_entry(a),
            old(self).phase is Hashing && old(self).phase->Hashing_0 is None && event is Hashed
                ==> a is Generate && a->chain_hash@ == event->Hashed_0@
                    && a->index == visit_index(old(self).mode, old(self).n(), old(self).done as int)
                    && a->is_testnet == spec_is_testnet(old(self).mode)
                    && final(self).done == old(self).done && final(self).record@ == old(self).record@
                    && final(self).hashed@ == old(self).hashed@.push((old(self).record@.last().1@, event->Hashed_0@)),
            a is Aborted && a->Aborted_1 is Outside ==> event is Failed && a->Aborted_1->Outside_0 == event->Failed_0,
            a is Aborted && a->Aborted_1 is UnexpectedEvent ==> !answers(old(self).phase, event),
            a is Aborted && final(self).done == old(self).done ==> final(self).record@ == old(self).record@,
            old(self).phase is ReadingScript && event is ScriptRead && spec_is_multi_step(old(self).mode)
                && old(self).record@.len() == 0
                ==> raw_script_step(*final(self), a, 0, old(self).phase->ReadingScript_0,
                    event->ScriptRead_0, empty_vector_marker()),
            old(self).phase is ReadingScript && event is ScriptRead && spec_is_multi_step(old(self).mode)
                && old(self).record@.len() > 0
                ==> a is Hash && final(self).record@ == old(self).record@,
            old(self).phase is Hashing && old(self).phase->Hashing_0 is Some && event is Hashed
                ==> raw_script_step(*final(self), a, old(self).record@.len() as int,
                    old(self).phase->Hashing_0->Some_0.0, old(self).phase->Hashing_0->Some_0.1,
                    event->Hashed_0@),
    {
        let ghost pre = *self;
        let idx = self.current_index();
        let kind = self.entries[idx].kind();
        let mut phase = Phase::Idle;
        std::mem::swap(&mut phase, &mut self.phase);
        match (phase, event) {
            (_, Event::Failed(f)) => {
                self.phase = Phase::Aborted;
                Action::Aborted(kind, CompileError::Outside(f))
            },
            (Phase::Observing, Event::Observed(o)) => {
                if self.entries[idx].needs_update(&self.default_gas, Some(&o)) {
                    self.request_chain(None)
                } else {
                    let n = self.entries.len();
                    assert(self.done < n);
                    self.done = self.done + 1;
                    self.next_action()
                }
            },
            (Phase::ReadingScript(name), Event::ScriptRead(content)) => {
                match self.mode {
                    ExecutionMode::MultiStep => self.request_chain(Some((name, content))),
                    _ => {
                        proof {
                            lemma_links_push(self.mode, self.record@, self.embedded@, self.starts@,
                                self.hashed@, (name, content), unchained_marker(), true);
                        }
                        self.produced.push((name, content));
                        self.record = Ghost(self.record@.push((name, content)));
                        self.embedded = Ghost(self.embedded@.push(unchained_marker()));
                        self.starts = Ghost(self.starts@.push(true));
                        let n = self.entries.len();
                        assert(self.done < n);
                        self.done = self.done + 1;
                        self.next_action()
                    },
                }
            },
            (Phase::Hashing(pending), Event::Hashed(d)) => {
                let ghost h = (self.record@.last().1@, d@);
                proof {
                    lemma_links_log(self.mode, self.record@, self.embedded@, self.starts@, self.hashed@, h);
                    assert(self.hashed@.push(h)[self.hashed@.len() as int] == h);
                }
                self.hashed = Ghost(self.hashed@.push(h));
                self.use_chain(d, pending)
            },
            (Phase::Generating(chain), Event::Generated(v)) => {
                let ghost old_record = self.record@;
                let m = v.len();
                let ghost vv = v@;
                let mut rev = reversed(v);
                let mut i: usize = 0;
                assert(old_record + vv.subrange(0, 0) =~= old_record);
                while rev.len() > 0
                    invariant
                        self.wf(),
                        self.phase is Idle,
                        pre.evolves_to(self),
                        self.done == pre.done,
                        self.done < self.n(),
                        self.hashed@ == pre.hashed@,
                        chain_value_ok(self.mode, old_record, self.hashed@, chain@),
                        old_record == pre.record@,
                        i <= m,
                        rev@.len() == m - i,
                        m == vv.len(),
                        forall|j: int| 0 <= j < rev@.len() ==> rev@[j] == vv[m - 1 - j],
                        self.record@ == old_record + vv.subrange(0, i as int),
                        self.record@.len() == old_record.len() + i,
                        i > 0 ==> self.embedded@.last() == chain@,
                    decreases rev@.len(),
                {
                    let x = rev.pop().unwrap();
                    proof {
                        assert(x == vv[i as int]);
                        lemma_links_push(self.mode, self.record@, self.embedded@, self.starts@,
                            self.hashed@, x, chain@, i == 0);
                        assert(self.record@.push(x) =~= old_record + vv.subrange(0, i + 1));
                    }
                    self.produced.push(x);
                    self.record = Ghost(self.record@.push(x));
                    self.embedded = Ghost(self.embedded@.push(chain@));
                    self.starts = Ghost(self.starts@.push(i == 0));
                    i = i + 1;
                }
                assert(vv.subrange(0, m as int) =~= vv);
                let n = self.entries.len();
                assert(self.done < n);
                self.done = self.done + 1;
                self.next_action()
            },
            _ => {
                self.phase = Phase::Aborted;
                Action::Aborted(kind, CompileError::UnexpectedEvent)
            },
        }
    }
}

/// In a multi-step proposal whose entries each produced one script, the
/// script at position `i` of execution order was produced with a digest that
/// the hashing facility reported for the text of the script at `i + 1`, and
/// the last script with the `vector::empty<u8>()` expression.
pub proof fn lemma_multi_step_chain(c: ProposalCompiler, i: int)
    requires
        c.wf(),
        spec_is_multi_step(c.mode),
        forall|k: int| 0 <= k < c.starts@.len() ==> c.starts@[k],
        0 <= i < c.record@.len(),
    ensures
        i + 1 < c.record@.len() ==> c.hashed@.contains(
            (execution_order(c.mode, c.record@)[i + 1].1@, c.embedded@.reverse()[i])),
        i + 1 == c.record@.len() ==> c.embedded@.reverse()[i] == empty_vector_marker(),
{
    let len = c.record@.len() as int;
    let k = len - 1 - i;
    assert(c.starts@[k]);
    assert(chain_value_ok(c.mode, c.record@.subrange(0, k), c.hashed@, c.embedded@[k]));
    assert(c.embedded@.reverse()[i] == c.embedded@[k]);
    if k > 0 {
        assert(execution_order(c.mode, c.record@)[i + 1] == c.record@[k - 1]);
        assert(c.record@.subrange(0, k).last() == c.record@[k - 1]);
    }
}

/// Outside multi-step proposals every script is produced with no chain
/// bytes, whatever the order of the entries.
pub proof fn lemma_unchained(c: ProposalCompiler, k: int)
    requires
        c.wf(),
        !spec_is_multi_step(c.mode),
        0 <= k < c.record@.len(),
    ensures
        c.embedded@[k] == unchained_marker(),
    decreases k,
{
    if !c.starts@[k] {
        lemma_unchained(c, k - 1);
    }
}

/// A live value equal to an entry's desired one asks for no scripts; a
/// divergent one asks for them just as having no live network does.
pub proof fn lemma_live_state_decides(entry: ReleaseEntry, default_gas: Seq<u8>, observed: OnChainValue)
    ensures
        entry_consistent(entry, default_gas, observed) ==> !spec_needs_update(entry, default_gas, Some(observed)),
        !entry_consistent(entry, default_gas, observed) ==> spec_needs_update(entry, default_gas, Some(observed))
            == spec_needs_update(entry, default_gas, None),
{
}

/// A single enabled flag that is off on chain, or a single disabled flag
/// that is on, makes a feature entry need an update; its generator is then
/// handed the entry itself, with every flag it lists.
pub proof fn lemma_one_flag_diverges(f: Features, default_gas: Seq<u8>, bits: Vec<u8>, flag: u64)
    requires
        (f.enabled@.contains(flag) && !flag_enabled(bits@, flag))
        || (f.disabled@.contains(flag) && flag_enabled(bits@, flag)),
    ensures
        features_modified(f.enabled@, f.disabled@, bits@),
        spec_needs_update(ReleaseEntry::FeatureFlag(f), default_gas, Some(OnChainValue::FeatureBits(bits))),
{
    if f.enabled@.contains(flag) && !flag_enabled(bits@, flag) {
        let i = choose|i: int| 0 <= i < f.enabled@.len() && f.enabled@[i] == flag;
        assert(!flag_enabled(bits@, f.enabled@[i]));
    } else {
        let i = choose|i: int| 0 <= i < f.disabled@.len() && f.disabled@[i] == flag;
        assert(flag_enabled(bits@, f.disabled@[i]));
    }
}

/// Recording a script keeps the chain links, given a chain value fit for
/// what came before when it starts an entry, and that of the script before
/// it otherwise.
proof fn lemma_links_push(
    mode: ExecutionMode,
    record: Seq<Artifact>,
    embedded: Seq<Seq<u8>>,
    starts: Seq<bool>,
    hashed: Seq<(Seq<char>, Seq<u8>)>,
    a: Artifact,
    chain: Seq<u8>,
    first: bool,
)
    requires
        chain_links(mode, record, embedded, starts, hashed),
        first ==> chain_value_ok(mode, record, hashed, chain),
        !first ==> record.len() > 0 && chain == embedded.last(),
    ensures
        chain_links(mode, record.push(a), embedded.push(chain), starts.push(first), hashed),
{
    let r2 = record.push(a);
    let e2 = embedded.push(chain);
    let s2 = starts.push(first);
    assert forall|k: int| 0 <= k < r2.len() implies if #[trigger] s2[k] {
        chain_value_ok(mode, r2.subrange(0, k), hashed, e2[k])
    } else {
        k > 0 && e2[k] == e2[k - 1]
    } by {
        if k < record.len() {
            assert(r2.subrange(0, k) =~= record.subrange(0, k));
            assert(s2[k] == starts[k]);
        } else {
            assert(r2.subrange(0, k) =~= record);
        }
    }
}

/// Logging one more hash keeps the chain links and every chain value fit.
proof fn lemma_links_log(
    mode: ExecutionMode,
    record: Seq<Artifact>,
    embedded: Seq<Seq<u8>>,
    starts: Seq<bool>,
    hashed: Seq<(Seq<char>, Seq<u8>)>,
    h: (Seq<char>, Seq<u8>),
)
    requires
        chain_links(mode, record, embedded, starts, hashed),
    ensures
        chain_links(mode, record, embedded, starts, hashed.push(h)),
        forall|p: Seq<Artifact>, c: Seq<u8>| chain_value_ok(mode, p, hashed, c) ==> #[trigger] chain_value_ok(mode, p, hashed.push(h), c),
{
    assert forall|p: Seq<Artifact>, c: Seq<u8>| chain_value_ok(mode, p, hashed, c) implies #[trigger] chain_value_ok(mode, p, hashed.push(h), c) by {
        if spec_is_multi_step(mode) && p.len() > 0 {
            let i = choose|i: int| 0 <= i < hashed.len() && hashed[i] == (p.last().1@, c);
            assert(hashed.push(h)[i] == hashed[i]);
        }
    }
    assert forall|k: int| 0 <= k < record.len() implies if #[trigger] starts[k] {
        chain_value_ok(mode, record.subrange(0, k), hashed.push(h), embedded[k])
    } else {
        k > 0 && embedded[k] == embedded[k - 1]
    } by {
        if starts[k] {
            assert(chain_value_ok(mode, record.subrange(0, k), hashed, embedded[k]));
        }
    }
}

} // verus!
