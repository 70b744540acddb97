//! The workspace helper: which cargo subcommand to run, with which
//! arguments, for which packages.
use vstd::prelude::*;

verus! {

/// Packages named on the command line.
#[derive(Clone, Debug)]
pub struct SelectedPackageArgs {
    pub package: Vec<String>,
}

/// The arguments every subcommand takes: selected packages, then arguments
/// for cargo, where those after a `--` are passed through to the tool cargo runs.
#[derive(Clone, Debug)]
pub struct CommonArgs {
    pub package_args: SelectedPackageArgs,
    pub args: Vec<String>,
}

/// A subcommand of the helper.
#[derive(Clone, Debug)]
pub enum Command {
    ChangedSince(CommonArgs),
    Check(CommonArgs),
    Fmt(CommonArgs),
    Nextest(CommonArgs),
    Test(CommonArgs),
    Xclippy(CommonArgs),
}

/// The helper's command line.
#[derive(Debug)]
pub struct Cli {
    pub cmd: Command,
}

/// Lists the packages a change affects.
#[derive(Debug)]
pub struct TestCommand {}

/// Whether an argument is the `--` separator.
pub open spec fn is_separator(s: Seq<char>) -> bool {
    s == "--"@
}

/// Whether some argument is `--`, and the first such is at `i`.
pub open spec fn first_separator(args: Seq<String>, i: int) -> bool {
    &&& 0 <= i < args.len()
    &&& is_separator(args[i]@)
    &&& forall|j: int| 0 <= j < i ==> !is_separator(#[trigger] args[j]@)
}

/// What `CommonArgs::args` returns: the arguments before the first `--` and
/// those after it; all of them and none when there is no `--`.
pub open spec fn split_ok(args: Seq<String>, r: (Seq<String>, Seq<String>)) -> bool {
    if exists|i: int| first_separator(args, i) {
        exists|i: int| first_separator(args, i) && r.0 == args.subrange(0, i) && r.1 == args.subrange(i + 1, args.len() as int)
    } else {
        r.0 == args && r.1.len() == 0
    }
}

/// The cargo subcommand a helper subcommand runs; `changed-since` runs none.
pub open spec fn spec_command_name(c: Command) -> Seq<char> {
    match c {
        Command::Check(_) => "check"@,
        Command::Fmt(_) => "fmt"@,
        Command::Nextest(_) => "nextest"@,
        Command::Test(_) => "test"@,
        Command::Xclippy(_) => "xclippy"@,
        Command::ChangedSince(_) => Seq::empty(),
    }
}

pub open spec fn spec_common_args(c: Command) -> CommonArgs {
    match c {
        Command::ChangedSince(a) => a,
        Command::Check(a) => a,
        Command::Fmt(a) => a,
        Command::Nextest(a) => a,
        Command::Test(a) => a,
        Command::Xclippy(a) => a,
    }
}

fn separator(s: &String) -> (r: bool)
    ensures
        r == is_separator(s@),
{
    proof {
        reveal_strlit("--");
    }
    let t = s.as_str();
    let r = t.unicode_len() == 2 && t.get_char(0) == '-' && t.get_char(1) == '-';
    if r {
        assert(s@ =~= "--"@);
    }
    r
}

fn copy_range(v: &Vec<String>, from: usize, to: usize) -> (r: Vec<String>)
    requires
        from <= to <= v@.len(),
    ensures
        r@ == v@.subrange(from as int, to as int),
{
    let mut r: Vec<String> = Vec::new();
    let mut i: usize = from;
    while i < to
        invariant
            from <= i <= to,
            to <= v@.len(),
            r@ == v@.subrange(from as int, i as int),
        decreases to - i,
    {
        r.push(v[i].clone());
        assert(r@ =~= v@.subrange(from as int, i + 1));
        i = i + 1;
    }
    r
}

impl Command {
    /// Whether the subcommand runs a cargo subcommand.
    pub open spec fn dispatches(&self) -> bool {
        !(self is ChangedSince)
    }

    /// The cargo subcommand to run.
    pub fn command(&self) -> (r: &'static str)
        requires
            self.dispatches(),
        ensures
            r@ == spec_command_name(*self),
    {
        match self {
            Command::Check(_) => "check",
            Command::Fmt(_) => "fmt",
            Command::Nextest(_) => "nextest",
            Command::Test(_) => "test",
            Command::Xclippy(_) => "xclippy",
            Command::ChangedSince(_) => "",
        }
    }

    /// The arguments of the subcommand.
    pub fn command_args(&self) -> (r: &CommonArgs)
        requires
            self.dispatches(),
        ensures
            *r == spec_common_args(*self),
    {
        match self {
            Command::ChangedSince(args) => args,
            Command::Check(args) => args,
            Command::Fmt(args) => args,
            Command::Nextest(args) => args,
            Command::Test(args) => args,
            Command::Xclippy(args) => args,
        }
    }
}

impl CommonArgs {
    /// Splits the arguments at the first `--`: those for cargo, and those
    /// passed through.
    pub fn args(&self) -> (r: (Vec<String>, Vec<String>))
        ensures
            split_ok(self.args@, (r.0@, r.1@)),
    {
        let n = self.args.len();
        let mut i: usize = 0;
        while i < n
            invariant
                n == self.args@.len(),
                i <= n,
                forall|j: int| 0 <= j < i ==> !is_separator(#[trigger] self.args@[j]@),
            decreases n - i,
        {
            if separator(&self.args[i]) {
                let left = copy_range(&self.args, 0, i);
                let right = copy_range(&self.args, i + 1, n);
                proof {
                    assert(first_separator(self.args@, i as int));
                    assert forall|k: int| first_separator(self.args@, k) implies k == i by {
                        if k < i {
                            assert(!is_separator(self.args@[k]@));
                        } else if k > i {
                            assert(!is_separator(self.args@[i as int]@));
                        }
                    }
                }
                return (left, right);
            }
            i = i + 1;
        }
        let all = copy_range(&self.args, 0, n);
        assert(self.args@.subrange(0, n as int) =~= self.args@);
        assert forall|k: int| !first_separator(self.args@, k) by {
            if 0 <= k < n {
                assert(!is_separator(self.args@[k]@));
            }
        }
        (all, Vec::new())
    }
}

/// The text of each argument.
pub open spec fn texts(s: Seq<String>) -> Seq<Seq<char>> {
    s.map_values(|x: String| x@)
}

/// `-p <name>` for each package name.
pub open spec fn package_flags(packages: Seq<Seq<char>>) -> Seq<Seq<char>>
    decreases packages.len(),
{
    if packages.len() == 0 {
        Seq::empty()
    } else {
        package_flags(packages.drop_last()) + seq!["-p"@, packages.last()]
    }
}

proof fn lemma_package_flags_len(packages: Seq<Seq<char>>)
    ensures
        package_flags(packages).len() == 2 * packages.len(),
    decreases packages.len(),
{
    if packages.len() > 0 {
        lemma_package_flags_len(packages.drop_last());
    }
}

impl Cli {
    /// The arguments for cargo: those before `--`, then `-p <name>` for each
    /// package; and the arguments passed through.
    pub fn cargo_args(&self, packages: &Vec<String>) -> (r: (Vec<String>, Vec<String>))
        requires
            self.cmd.dispatches(),
        ensures
            r.0@.len() >= 2 * packages@.len(),
            split_ok(spec_common_args(self.cmd).args@,
                (r.0@.subrange(0, r.0@.len() - 2 * packages@.len()), r.1@)),
            texts(r.0@) == texts(r.0@.subrange(0, r.0@.len() - 2 * packages@.len()))
                + package_flags(texts(packages@)),
    {
        let (mut direct, pass_through) = self.cmd.command_args().args();
        let ghost d = direct@;
        let mut k: usize = 0;
        while k < packages.len()
            invariant
                k <= packages@.len(),
                texts(direct@) == texts(d) + package_flags(texts(packages@.subrange(0, k as int))),
                d.len() <= direct@.len(),
                direct@.subrange(0, d.len() as int) == d,
            decreases packages@.len() - k,
        {
            let ghost before = direct@;
            direct.push(String::from_str("-p"));
            direct.push(packages[k].clone());
            proof {
                let ps = texts(packages@.subrange(0, k + 1));
                assert(ps.drop_last() =~= texts(packages@.subrange(0, k as int)));
                assert(ps.last() == packages@[k as int]@);
                assert(texts(direct@) =~= texts(before) + seq!["-p"@, packages@[k as int]@]);
                assert(direct@.subrange(0, d.len() as int) =~= before.subrange(0, d.len() as int));
            }
            k = k + 1;
        }
        assert(packages@.subrange(0, packages@.len() as int) =~= packages@);
        proof {
            lemma_package_flags_len(texts(packages@));
            assert(texts(direct@).len() == direct@.len());
        }
        (direct, pass_through)
    }
}

} // verus!
