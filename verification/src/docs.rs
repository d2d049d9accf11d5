//! The decisions behind the offline documentation build: which interpreter
//! versions the lockfile pins, where their sources live, and where the
//! generated documentation goes.  Reading the lockfile, walking the
//! filesystem and running the book builder stay with the host; everything
//! that selects and assembles is here.

use vstd::prelude::*;
use crate::factory::BackendVariant;
use crate::text;

verus! {

/// One package entry of a lockfile: its name, its version, and where it
/// came from, if recorded.
pub struct LockPackage {
    pub name: String,
    pub version: String,
    pub source: Option<String>,
}

/// The interpreter package, taken from a git source.
pub open spec fn spec_is_git_gluon(p: LockPackage) -> bool {
    &&& p.name@ == "gluon"@
    &&& match p.source {
        Some(src) => text::spec_contains(src@, "git"@),
        None => false,
    }
}

/// The interpreter package, taken from the package registry.
pub open spec fn spec_is_registry_gluon(p: LockPackage) -> bool {
    &&& p.name@ == "gluon"@
    &&& match p.source {
        Some(src) => text::spec_contains(src@, "crates.io"@),
        None => false,
    }
}

/// The first package in `s` satisfying `pred`.
pub open spec fn spec_first_match(
    s: Seq<LockPackage>,
    pred: spec_fn(LockPackage) -> bool,
) -> Option<LockPackage>
    decreases s.len(),
{
    if s.len() == 0 {
        None
    } else if pred(s[0]) {
        Some(s[0])
    } else {
        spec_first_match(s.subrange(1, s.len() as int), pred)
    }
}

/// The development interpreter's revision according to the lockfile: the
/// fragment after the last `#` of the git source of the first `gluon`
/// package that came from git.
pub open spec fn spec_git_master_version(s: Seq<LockPackage>) -> Option<Seq<char>> {
    match spec_first_match(s, |p: LockPackage| spec_is_git_gluon(p)) {
        Some(p) => match p.source {
            Some(src) => Some(text::spec_suffix_after_last(src@, '#')),
            None => None,
        },
        None => None,
    }
}

/// The released interpreter's version according to the lockfile: the
/// version of the first `gluon` package that came from the registry.
pub open spec fn spec_crates_io_version(s: Seq<LockPackage>) -> Option<Seq<char>> {
    match spec_first_match(s, |p: LockPackage| spec_is_registry_gluon(p)) {
        Some(p) => Some(p.version@),
        None => None,
    }
}

/// Whether this package is the git-sourced interpreter.
fn is_git_gluon(p: &LockPackage) -> (r: bool)
    ensures
        r == spec_is_git_gluon(*p),
{
    text::str_eq(p.name.as_str(), "gluon") && match &p.source {
        Some(src) => text::str_contains(src.as_str(), "git"),
        None => false,
    }
}

/// Whether this package is the registry-sourced interpreter.
fn is_registry_gluon(p: &LockPackage) -> (r: bool)
    ensures
        r == spec_is_registry_gluon(*p),
{
    text::str_eq(p.name.as_str(), "gluon") && match &p.source {
        Some(src) => text::str_contains(src.as_str(), "crates.io"),
        None => false,
    }
}

/// The development interpreter's git revision, read off the lockfile's
/// packages: `None` when the lockfile pins no git-sourced interpreter.
pub fn git_master_version(packages: &Vec<LockPackage>) -> (r: Option<String>)
    ensures
        match spec_git_master_version(packages@) {
            Some(v) => r matches Some(t) && t@ == v,
            None => r is None,
        },
{
    let mut i: usize = 0;
    proof {
        assert(packages@.subrange(0, packages@.len() as int) =~= packages@);
    }
    while i < packages.len()
        invariant
            i <= packages@.len(),
            spec_first_match(packages@, |p: LockPackage| spec_is_git_gluon(p))
                == spec_first_match(
                packages@.subrange(i as int, packages@.len() as int),
                |p: LockPackage| spec_is_git_gluon(p),
            ),
        decreases packages@.len() - i,
    {
        proof {
            let rest = packages@.subrange(i as int, packages@.len() as int);
            assert(rest[0] == packages@[i as int]);
            assert(rest.subrange(1, rest.len() as int) =~= packages@.subrange(
                i + 1,
                packages@.len() as int,
            ));
        }
        if is_git_gluon(&packages[i]) {
            match &packages[i].source {
                Some(src) => {
                    let suffix = text::suffix_after_last(src.as_str(), '#');
                    return Some(String::from_str(suffix));
                },
                None => {
                    // unreachable: a git-sourced package records its source
                },
            }
        }
        i = i + 1;
    }
    None
}

/// The released interpreter's version, read off the lockfile's packages:
/// `None` when the lockfile pins no registry-sourced interpreter.
pub fn crates_io_version(packages: &Vec<LockPackage>) -> (r: Option<String>)
    ensures
        match spec_crates_io_version(packages@) {
            Some(v) => r matches Some(t) && t@ == v,
            None => r is None,
        },
{
    let mut i: usize = 0;
    proof {
        assert(packages@.subrange(0, packages@.len() as int) =~= packages@);
    }
    while i < packages.len()
        invariant
            i <= packages@.len(),
            spec_first_match(packages@, |p: LockPackage| spec_is_registry_gluon(p))
                == spec_first_match(
                packages@.subrange(i as int, packages@.len() as int),
                |p: LockPackage| spec_is_registry_gluon(p),
            ),
        decreases packages@.len() - i,
    {
        proof {
            let rest = packages@.subrange(i as int, packages@.len() as int);
            assert(rest[0] == packages@[i as int]);
            assert(rest.subrange(1, rest.len() as int) =~= packages@.subrange(
                i + 1,
                packages@.len() as int,
            ));
        }
        if is_registry_gluon(&packages[i]) {
            return Some(packages[i].version.clone());
        }
        i = i + 1;
    }
    None
}

/// The glob pattern under which the development interpreter's git checkout
/// lives in the build cache: keyed by the first seven characters of its
/// revision.
pub fn gluon_git_pattern(cargo_home: &str, master_version: &str) -> (r: String)
    requires
        master_version@.len() >= 7,
    ensures
        r@ == cargo_home@ + "/git/checkouts/gluon-*/"@ + master_version@.subrange(0, 7),
{
    let short = master_version.substring_char(0, 7);
    String::from_str(cargo_home).concat("/git/checkouts/gluon-*/").concat(short)
}

/// The glob pattern under which the released interpreter's registry source
/// lives in the build cache.
pub fn gluon_crates_io_pattern(cargo_home: &str, version: &str) -> (r: String)
    ensures
        r@ == cargo_home@ + "/registry/src/*/gluon-"@ + version@ + "/"@,
{
    String::from_str(cargo_home).concat("/registry/src/*/gluon-").concat(version).concat("/")
}

/// Where one variant's generated documentation goes.
pub fn doc_output_dir(variant: BackendVariant) -> (r: String)
    ensures
        variant is Master ==> r@ == "target/dist/doc/nightly"@,
        variant is Stable ==> r@ == "target/dist/doc/crates_io"@,
{
    match variant {
        BackendVariant::Master => String::from_str("target/dist/doc/nightly"),
        BackendVariant::Stable => String::from_str("target/dist/doc/crates_io"),
    }
}

/// The source link base for one interpreter version's documentation.
pub fn gluon_src_url(version: &str) -> (r: String)
    ensures
        r@ == "https://github.com/gluon-lang/gluon/blob/"@ + version@,
{
    String::from_str("https://github.com/gluon-lang/gluon/blob/").concat(version)
}

/// The arguments the book builder is invoked with: build the book at
/// `book_dir` into `dest_dir`.
pub fn book_build_args(book_dir: &str, dest_dir: &str) -> (r: Vec<String>)
    ensures
        r@.len() == 4,
        r@[0]@ == "build"@,
        r@[1]@ == "--dest-dir"@,
        r@[2]@ == dest_dir@,
        r@[3]@ == book_dir@,
{
    let mut r: Vec<String> = Vec::new();
    r.push(String::from_str("build"));
    r.push(String::from_str("--dest-dir"));
    r.push(String::from_str(dest_dir));
    r.push(String::from_str(book_dir));
    r
}

} // verus!
