//! The layout of the code repository, and the choices that its tooling makes
//! on what it finds there. Reading and writing the files is left to the caller.
use vstd::prelude::*;

verus! {

/// `relative` below `base`: appended after a separator, unless `base` is
/// empty or already ends in one.
pub open spec fn joined(base: Seq<char>, relative: Seq<char>) -> Seq<char> {
    if base.len() == 0 || base.last() == '/' {
        base + relative
    } else {
        base + seq!['/'] + relative
    }
}

/// Relies on `std::path::Path::join`: a relative path is appended to the
/// base, with a separator unless the base is empty or ends in one.
#[verifier::external_body]
fn join(base: &String, relative: &str) -> (r: String)
    requires
        relative@.len() > 0,
        relative@[0] != '/',
    ensures
        r@ == joined(base@, relative@),
{
    std::path::Path::new(base).join(relative).to_string_lossy().into_owned()
}

/// A checkout of the code repository, known by its root directory.
#[derive(Clone, Debug)]
pub struct Repository {
    root: String,
}

impl Repository {
    pub closed spec fn spec_root(&self) -> Seq<char> {
        self.root@
    }

    pub fn new(root: &str) -> (r: Repository)
        ensures
            r.spec_root() == root@,
    {
        Repository { root: root.to_owned() }
    }

    pub fn root(&self) -> (r: &String)
        ensures
            r@ == self.spec_root(),
    {
        &self.root
    }

    /// The directory that holds the crates.
    pub fn crates_directory(&self) -> (r: String)
        ensures
            r@ == joined(self.spec_root(), "crates"@),
    {
        proof {
            reveal_strlit("crates");
        }
        join(&self.root, "crates")
    }

    /// The directory that holds the parameter files.
    pub fn parameters_root(&self) -> (r: String)
        ensures
            r@ == joined(self.spec_root(), "etc/parameters"@),
    {
        proof {
            reveal_strlit("etc/parameters");
        }
        join(&self.root, "etc/parameters")
    }
}

/// `i` is the last of the latest times.
pub open spec fn is_latest(times: Seq<u128>, i: int) -> bool {
    &&& 0 <= i < times.len()
    &&& forall|j: int| 0 <= j < times.len() ==> times[j] <= times[i]
    &&& forall|j: int| i < j < times.len() ==> times[j] < times[i]
}

/// Of files modified at the given times, the index of the most recently
/// modified one (the last such, where several share that time), or `None`
/// where there is no file.
pub fn latest_index(modified_times: &Vec<u128>) -> (r: Option<usize>)
    ensures
        r is None <==> modified_times@.len() == 0,
        r is Some ==> is_latest(modified_times@, r->0 as int),
{
    if modified_times.len() == 0 {
        return None;
    }
    let mut best: usize = 0;
    let mut i: usize = 1;
    while i < modified_times.len()
        invariant
            1 <= i <= modified_times@.len(),
            is_latest(modified_times@.subrange(0, i as int), best as int),
        decreases modified_times@.len() - i,
    {
        if modified_times[i] >= modified_times[best] {
            best = i;
        }
        i = i + 1;
    }
    assert(modified_times@.subrange(0, i as int) =~= modified_times@);
    Some(best)
}

/// The identifiers of a robot's body and head.
#[derive(Clone, Debug)]
pub struct HardwareIds {
    pub body_id: String,
    pub head_id: String,
}

/// The cargo subcommands that the tooling runs.
#[derive(Clone, Copy, Debug, PartialEq, Eq, Structural)]
pub enum CargoAction {
    Build,
    Check,
    Clippy,
    Run,
}

impl CargoAction {
    pub open spec fn spec_name(self) -> Seq<char> {
        match self {
            CargoAction::Build => "build"@,
            CargoAction::Check => "check"@,
            CargoAction::Clippy => "clippy"@,
            CargoAction::Run => "run"@,
        }
    }

    /// The subcommand as cargo spells it.
    pub fn name(&self) -> (r: &'static str)
        ensures
            r@ == self.spec_name(),
    {
        match self {
            CargoAction::Build => "build",
            CargoAction::Check => "check",
            CargoAction::Clippy => "clippy",
            CargoAction::Run => "run",
        }
    }

    /// The arguments that follow `--`: clippy is run to deny warnings.
    pub fn extra_arguments(&self) -> (r: &'static str)
        ensures
            r@ == if *self == CargoAction::Clippy {
                "--deny warnings "@
            } else {
                ""@
            },
    {
        match self {
            CargoAction::Clippy => "--deny warnings ",
            _ => "",
        }
    }
}

} // verus!
