//! Where a compiled release is written.
use vstd::prelude::*;
use crate::script::{append_script_hash, spec_with_hash_header};
use crate::text::{nat_text, push_nat};

verus! {

/// `dir/segment`.
pub open spec fn join(dir: Seq<char>, segment: Seq<char>) -> Seq<char> {
    dir + "/"@ + segment
}

/// The directories a compilation creates before any script, in order; each
/// must not exist yet.
pub open spec fn spec_release_dirs(base: Seq<char>, release: Seq<char>) -> Seq<Seq<char>> {
    seq![
        join(base, "sources"@),
        join(join(base, "sources"@), release),
        join(base, "metadata"@),
        join(join(base, "metadata"@), release),
    ]
}

fn joined(dir: &str, segment: &str) -> (r: String)
    ensures
        r@ == join(dir@, segment@),
{
    let mut s = String::from_str(dir);
    s.append("/");
    s.append(segment);
    s
}

/// The directories to create for a release, in order.
pub fn release_dirs(base: &str, release: &str) -> (r: Vec<String>)
    ensures
        r@.len() == 4,
        forall|i: int| 0 <= i < 4 ==> #[trigger] r@[i]@ == spec_release_dirs(base@, release@)[i],
{
    let sources = joined(base, "sources");
    let release_sources = joined(sources.as_str(), release);
    let metadata = joined(base, "metadata");
    let release_metadata = joined(metadata.as_str(), release);
    let r = vec![sources, release_sources, metadata, release_metadata];
    r
}

/// The directory that holds the scripts of one proposal.
pub fn proposal_dir(base: &str, release: &str, proposal: &str) -> (r: String)
    ensures
        r@ == join(join(join(base@, "sources"@), release@), proposal@),
{
    let sources = joined(base, "sources");
    let release_sources = joined(sources.as_str(), release);
    joined(release_sources.as_str(), proposal)
}

/// The metadata document of one proposal.
pub fn metadata_path(base: &str, release: &str, proposal: &str) -> (r: String)
    ensures
        r@ == join(join(join(base@, "metadata"@), release@), proposal@) + ".json"@,
{
    let metadata = joined(base, "metadata");
    let release_metadata = joined(metadata.as_str(), release);
    let mut r = joined(release_metadata.as_str(), proposal);
    r.append(".json");
    r
}

/// The part of `name` before its last `.`, or all of it when it has none.
pub open spec fn without_extension(name: Seq<char>) -> Seq<char>
    decreases name.len(),
{
    if name.len() == 0 {
        name
    } else if name.last() == '.' {
        name.drop_last()
    } else if without_extension(name.drop_last()) == name.drop_last() {
        name
    } else {
        without_extension(name.drop_last())
    }
}

/// The file name of the script at position `index` of execution order:
/// `<index>-<name>.move`, any extension of the name replaced by `move`.
pub open spec fn spec_script_file_name(index: nat, name: Seq<char>) -> Seq<char> {
    nat_text(index) + "-"@ + without_extension(name) + ".move"@
}

/// `name` without its extension.
pub fn strip_extension(name: &str) -> (r: &str)
    ensures
        r@ == without_extension(name@),
{
    let len = name.unicode_len();
    let mut i: usize = len;
    while i > 0 && name.get_char(i - 1) != '.'
        invariant
            i <= len,
            len == name@.len(),
            forall|j: int| i <= j < len ==> name@[j] != '.',
        decreases i,
    {
        i = i - 1;
    }
    if i == 0 {
        proof {
            lemma_no_dot(name@);
        }
        name
    } else {
        proof {
            lemma_last_dot(name@, i as int);
        }
        name.substring_char(0, i - 1)
    }
}

proof fn lemma_no_dot(s: Seq<char>)
    requires
        forall|j: int| 0 <= j < s.len() ==> s[j] != '.',
    ensures
        without_extension(s) == s,
    decreases s.len(),
{
    if s.len() > 0 {
        let d = s.drop_last();
        assert forall|j: int| 0 <= j < d.len() implies d[j] != '.' by {
            assert(d[j] == s[j]);
        }
        lemma_no_dot(d);
    }
}

proof fn lemma_last_dot(s: Seq<char>, i: int)
    requires
        0 < i <= s.len(),
        s[i - 1] == '.',
        forall|j: int| i <= j < s.len() ==> s[j] != '.',
    ensures
        without_extension(s) == s.subrange(0, i - 1),
    decreases s.len(),
{
    if i == s.len() {
        assert(s.drop_last() =~= s.subrange(0, i - 1));
    } else {
        let d = s.drop_last();
        assert(d[i - 1] == '.');
        assert forall|j: int| i <= j < d.len() implies d[j] != '.' by {
            assert(d[j] == s[j]);
        }
        lemma_last_dot(d, i);
        assert(d.subrange(0, i - 1) =~= s.subrange(0, i - 1));
        assert(d.subrange(0, i - 1).len() < d.len());
    }
}

/// The file name of a script, numbered by its place in execution order.
pub fn script_file_name(index: usize, name: &str) -> (r: String)
    ensures
        r@ == spec_script_file_name(index as nat, name@),
{
    let mut s = String::new();
    push_nat(&mut s, index);
    s.append("-");
    s.append(strip_extension(name));
    s.append(".move");
    s
}

/// One filesystem step of writing a release.
#[derive(Debug)]
pub enum FsOp {
    /// Create a directory; fails if it exists.
    CreateDir(String),
    /// Write a file: its path and contents.
    WriteFile(String, String),
}

/// Runs steps in order on a filesystem holding `existing` directories:
/// whether all succeed, and the paths of the files written before the run
/// stopped.
pub open spec fn run_ops(existing: Set<Seq<char>>, ops: Seq<FsOp>) -> (bool, Seq<Seq<char>>)
    decreases ops.len(),
{
    if ops.len() == 0 {
        (true, Seq::empty())
    } else {
        match ops[0] {
            FsOp::CreateDir(d) => if existing.contains(d@) {
                (false, Seq::empty())
            } else {
                run_ops(existing.insert(d@), ops.drop_first())
            },
            FsOp::WriteFile(p, _) => {
                let rest = run_ops(existing, ops.drop_first());
                (rest.0, seq![p@] + rest.1)
            },
        }
    }
}

/// The first steps of writing a release: its directories, in order.
pub fn release_ops(base: &str, release: &str) -> (r: Vec<FsOp>)
    ensures
        r@.len() == 4,
        forall|i: int| 0 <= i < 4 ==> (#[trigger] r@[i]) is CreateDir
            && r@[i]->CreateDir_0@ == spec_release_dirs(base@, release@)[i],
{
    let mut dirs = release_dirs(base, release);
    let d3 = dirs.pop().unwrap();
    let d2 = dirs.pop().unwrap();
    let d1 = dirs.pop().unwrap();
    let d0 = dirs.pop().unwrap();
    vec![FsOp::CreateDir(d0), FsOp::CreateDir(d1), FsOp::CreateDir(d2), FsOp::CreateDir(d3)]
}

/// The steps that write one compiled proposal: its directory, each script
/// under its numbered name behind its hash header, then its metadata.
pub fn proposal_ops(
    base: &str,
    release: &str,
    proposal: &str,
    scripts: &Vec<(String, String)>,
    digests: &Vec<Vec<u8>>,
    metadata_json: String,
) -> (r: Vec<FsOp>)
    requires
        digests@.len() == scripts@.len(),
    ensures
        r@.len() == scripts@.len() + 2,
        r@[0] is CreateDir && r@[0]->CreateDir_0@ == join(join(join(base@, "sources"@), release@), proposal@),
        forall|i: int| 0 <= i < scripts@.len() ==> (#[trigger] r@[i + 1]) is WriteFile
            && r@[i + 1]->WriteFile_0@ == join(join(join(join(base@, "sources"@), release@), proposal@),
                spec_script_file_name(i as nat, scripts@[i].0@))
            && r@[i + 1]->WriteFile_1@ == spec_with_hash_header(scripts@[i].1@, digests@[i]@),
        r@[scripts@.len() + 1int] is WriteFile
            && r@[scripts@.len() + 1int]->WriteFile_0@ == join(join(join(base@, "metadata"@), release@), proposal@) + ".json"@
            && r@[scripts@.len() + 1int]->WriteFile_1 == metadata_json,
{
    let dir = proposal_dir(base, release, proposal);
    let mut r: Vec<FsOp> = Vec::new();
    r.push(FsOp::CreateDir(dir.clone()));
    let mut i: usize = 0;
    while i < scripts.len()
        invariant
            i <= scripts@.len(),
            digests@.len() == scripts@.len(),
            dir@ == join(join(join(base@, "sources"@), release@), proposal@),
            r@.len() == i + 1,
            r@[0] is CreateDir && r@[0]->CreateDir_0@ == dir@,
            forall|j: int| 0 <= j < i ==> (#[trigger] r@[j + 1]) is WriteFile
                && r@[j + 1]->WriteFile_0@ == join(dir@, spec_script_file_name(j as nat, scripts@[j].0@))
                && r@[j + 1]->WriteFile_1@ == spec_with_hash_header(scripts@[j].1@, digests@[j]@),
        decreases scripts@.len() - i,
    {
        let name = script_file_name(i, scripts[i].0.as_str());
        let path = joined(dir.as_str(), name.as_str());
        let text = append_script_hash(&scripts[i].1, &digests[i]);
        r.push(FsOp::WriteFile(path, text));
        i = i + 1;
    }
    r.push(FsOp::WriteFile(metadata_path(base, release, proposal), metadata_json));
    r
}

/// Once a run has created its directories under `base`, any later run into
/// `base`, of whatever release, that starts with the release's directories
/// fails on the first of them and writes no file, whatever steps follow.
pub proof fn lemma_second_run_writes_nothing(
    base: Seq<char>,
    release: Seq<char>,
    existing: Set<Seq<char>>,
    first: Seq<FsOp>,
    rest: Seq<FsOp>,
)
    requires
        existing.contains(join(base, "sources"@)),
        first.len() == 4,
        forall|i: int| 0 <= i < 4 ==> (#[trigger] first[i]) is CreateDir
            && first[i]->CreateDir_0@ == spec_release_dirs(base, release)[i],
    ensures
        !run_ops(existing, first + rest).0,
        run_ops(existing, first + rest).1.len() == 0,
{
    assert((first + rest)[0] == first[0]);
    assert(first[0] is CreateDir);
}

} // verus!
