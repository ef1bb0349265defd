//! What the build tool is asked, and what is picked from its answer.
//!
//! The command lines of `cargo` are put together here, and the package and
//! binaries of a workflow are chosen from the metadata that `cargo` reports.
//! Running `cargo` is left to the caller.

use crate::text::{same_text, text_of};
use vstd::prelude::*;

verus! {

/// The characters of each text of a list.
pub open spec fn texts(list: Seq<String>) -> Seq<Seq<char>> {
    Seq::new(list.len(), |i: int| list[i]@)
}

/// The characters of a text that may be missing.
pub open spec fn str_of(text: Option<&str>) -> Option<Seq<char>> {
    match text {
        Some(t) => Some(t@),
        None => None,
    }
}

/// How a workflow is compiled.
#[derive(Debug, Clone, Copy, PartialEq, Eq)]
pub enum Mode {
    /// Without optimizations.
    Debug,
    /// With optimizations.
    Release,
}

impl Mode {
    /// The directory, below the target directory, that holds what was
    /// compiled in this mode.
    pub open spec fn spec_dir(self) -> Seq<char> {
        match self {
            Mode::Debug => "debug"@,
            Mode::Release => "release"@,
        }
    }

    /// The directory, below the target directory, that holds what was
    /// compiled in this mode.
    pub fn dir(&self) -> (dir: &'static str)
        ensures
            dir@ == self.spec_dir(),
    {
        match self {
            Mode::Debug => "debug",
            Mode::Release => "release",
        }
    }
}

/// The words that name a value on a command line: the option and the value,
/// or nothing where there is no value.
pub open spec fn option_words(option: Seq<char>, value: Option<Seq<char>>) -> Seq<Seq<char>> {
    match value {
        Some(v) => seq![option, v],
        None => seq![],
    }
}

/// The words that ask for each of the `bins` in turn.
pub open spec fn bin_words(bins: Seq<Seq<char>>) -> Seq<Seq<char>>
    decreases bins.len(),
{
    if bins.len() == 0 {
        seq![]
    } else {
        bin_words(bins.drop_last()) + seq!["--bin"@, bins.last()]
    }
}

/// The arguments of `cargo init` for a binary package at `path`, named
/// `name` where a name is given.
pub open spec fn init_spec(path: Seq<char>, name: Option<Seq<char>>) -> Seq<Seq<char>> {
    seq!["init"@] + option_words("--name"@, name) + seq!["--bin"@, path]
}

/// The arguments of `cargo build`: the package, the mode, the binaries and
/// the target, in this order, each only where it is asked for.
pub open spec fn build_spec(
    mode: Mode,
    package: Option<Seq<char>>,
    bins: Seq<Seq<char>>,
    target: Option<Seq<char>>,
) -> Seq<Seq<char>> {
    seq!["build"@] + option_words("--package"@, package) + (match mode {
        Mode::Release => seq!["--release"@],
        Mode::Debug => seq![],
    }) + bin_words(bins) + option_words("--target"@, target)
}

/// Puts the option and its value behind `args`, where there is a value.
fn push_option(args: &mut Vec<String>, option: &str, value: Option<&str>)
    ensures
        texts(final(args)@) == texts(old(args)@) + option_words(option@, str_of(value)),
{
    match value {
        Some(v) => {
            args.push(option.to_owned());
            args.push(v.to_owned());
            assert(texts(args@) =~= texts(old(args)@) + seq![option@, v@]);
        },
        None => {
            assert(texts(args@) =~= texts(old(args)@) + Seq::<Seq<char>>::empty());
        },
    }
}

/// The arguments of a `cargo init` command.
pub fn init(path: &str, name: Option<&str>) -> (args: Vec<String>)
    ensures
        texts(args@) == init_spec(path@, str_of(name)),
{
    let mut args: Vec<String> = Vec::new();
    args.push("init".to_owned());
    assert(texts(args@) =~= seq!["init"@]);
    push_option(&mut args, "--name", name);
    let ghost before = texts(args@);
    args.push("--bin".to_owned());
    args.push(path.to_owned());
    assert(texts(args@) =~= before + seq!["--bin"@, path@]);
    args
}

/// The arguments of a `cargo build` command.
pub fn build(mode: Mode, package: Option<&str>, bins: &Vec<String>, target: Option<&str>) -> (args:
    Vec<String>)
    ensures
        texts(args@) == build_spec(mode, str_of(package), texts(bins@), str_of(target)),
{
    let mut args: Vec<String> = Vec::new();
    args.push("build".to_owned());
    assert(texts(args@) =~= seq!["build"@]);
    push_option(&mut args, "--package", package);
    let ghost before = texts(args@);
    match mode {
        Mode::Release => {
            args.push("--release".to_owned());
            assert(texts(args@) =~= before + seq!["--release"@]);
        },
        Mode::Debug => {
            assert(texts(args@) =~= before + Seq::<Seq<char>>::empty());
        },
    }
    let ghost head = texts(args@);
    let mut i: usize = 0;
    assert(texts(bins@).take(0) =~= Seq::<Seq<char>>::empty());
    assert(texts(args@) =~= head + bin_words(texts(bins@).take(0)));
    while i < bins.len()
        invariant
            i <= bins@.len(),
            texts(args@) == head + bin_words(texts(bins@).take(i as int)),
        decreases bins@.len() - i,
    {
        let ghost so_far = texts(args@);
        args.push("--bin".to_owned());
        args.push(bins[i].clone());
        proof {
            let next = texts(bins@).take(i + 1);
            assert(next.drop_last() =~= texts(bins@).take(i as int));
            assert(next.last() == bins@[i as int]@);
            assert(texts(args@) =~= so_far + seq!["--bin"@, bins@[i as int]@]);
            assert(texts(args@) =~= head + bin_words(next));
        }
        i += 1;
    }
    assert(texts(bins@).take(i as int) =~= texts(bins@));
    push_option(&mut args, "--target", target);
    args
}

/// Something that `cargo` compiles from a package.
#[derive(Debug, Clone, PartialEq, Eq)]
pub struct Target {
    /// The name of the target.
    pub name: String,
    /// What the target is compiled to: `bin`, `lib` and the like.
    pub kinds: Vec<String>,
}

/// A package of the workspace, as `cargo` reports it.
#[derive(Debug, Clone, PartialEq, Eq)]
pub struct Package {
    /// The name of the package.
    pub name: String,
    /// What `cargo` calls the package.
    pub id: String,
    /// The directory that holds the manifest of the package.
    pub manifest_dir: String,
    /// What is compiled from the package.
    pub targets: Vec<Target>,
}

/// What is known of the package of a workflow.
#[derive(Debug, Clone, PartialEq, Eq)]
pub struct Metadata {
    /// The root directory of the workspace.
    pub workspace_dir: String,
    /// The directory that holds the manifest of the package.
    pub manifest_dir: String,
    /// The directory that `cargo` compiles to.
    pub target_dir: String,
    /// The name of the package.
    pub package_name: String,
    /// The names of the binaries of the package.
    pub binary_names: Vec<String>,
}

/// Why no package could be picked.
#[derive(Debug, Clone, Copy, PartialEq, Eq)]
pub enum MetadataError {
    /// No package has the name that was asked for.
    PackageNotFound,
    /// No package was asked for, and the workspace has no root package.
    NoRootPackage,
    /// The package has no binary.
    NoBinary,
}

impl Target {
    /// Whether the target is compiled to a binary.
    pub open spec fn is_binary(self) -> bool {
        exists|k: int| 0 <= k < self.kinds@.len() && (#[trigger] self.kinds@[k])@ == "bin"@
    }

    /// Whether the target is compiled to a binary.
    pub fn binary(&self) -> (binary: bool)
        ensures
            binary == self.is_binary(),
    {
        let mut k: usize = 0;
        while k < self.kinds.len()
            invariant
                k <= self.kinds@.len(),
                forall|j: int| 0 <= j < k ==> (#[trigger] self.kinds@[j])@ != "bin"@,
            decreases self.kinds@.len() - k,
        {
            if same_text(self.kinds[k].as_str(), "bin") {
                return true;
            }
            k += 1;
        }
        false
    }
}

/// The names of the binaries among the `targets`, in their order.
pub open spec fn binaries_of(targets: Seq<Target>) -> Seq<Seq<char>>
    decreases targets.len(),
{
    if targets.len() == 0 {
        seq![]
    } else if targets.last().is_binary() {
        binaries_of(targets.drop_last()) + seq![targets.last().name@]
    } else {
        binaries_of(targets.drop_last())
    }
}

/// Where the first package stands that is the one asked for: the one named
/// `name` where a name is given, else the one that `cargo` calls `root`.
pub open spec fn is_wanted(package: Package, name: Option<Seq<char>>, root: Option<Seq<char>>) -> bool {
    match name {
        Some(n) => package.name@ == n,
        None => match root {
            Some(r) => package.id@ == r,
            None => false,
        },
    }
}

/// The place of the first of the `packages` that is the one asked for.
pub open spec fn first_wanted(
    packages: Seq<Package>,
    name: Option<Seq<char>>,
    root: Option<Seq<char>>,
    at: int,
) -> bool {
    &&& 0 <= at < packages.len()
    &&& is_wanted(packages[at], name, root)
    &&& forall|j: int| 0 <= j < at ==> !is_wanted(#[trigger] packages[j], name, root)
}

/// No package is the one asked for.
pub open spec fn none_wanted(
    packages: Seq<Package>,
    name: Option<Seq<char>>,
    root: Option<Seq<char>>,
) -> bool {
    forall|j: int| 0 <= j < packages.len() ==> !is_wanted(#[trigger] packages[j], name, root)
}

/// The error that says that no package is the one asked for.
pub open spec fn missing_package(name: Option<Seq<char>>) -> MetadataError {
    match name {
        Some(_) => MetadataError::PackageNotFound,
        None => MetadataError::NoRootPackage,
    }
}

/// The place of the first of the `packages` that is the one asked for.
fn find_package(packages: &Vec<Package>, name: Option<&str>, root: &Option<String>) -> (found:
    Option<usize>)
    ensures
        match found {
            Some(at) => first_wanted(packages@, str_of(name), text_of(*root), at as int),
            None => none_wanted(packages@, str_of(name), text_of(*root)),
        },
{
    let mut i: usize = 0;
    while i < packages.len()
        invariant
            i <= packages@.len(),
            forall|j: int|
                0 <= j < i ==> !is_wanted(#[trigger] packages@[j], str_of(name), text_of(*root)),
        decreases packages@.len() - i,
    {
        let wanted = match name {
            Some(n) => same_text(packages[i].name.as_str(), n),
            None => match root {
                Some(r) => same_text(packages[i].id.as_str(), r.as_str()),
                None => false,
            },
        };
        if wanted {
            return Some(i);
        }
        i += 1;
    }
    None
}

/// The names of the binaries among the `targets`, in their order.
pub fn binary_names(targets: &Vec<Target>) -> (names: Vec<String>)
    ensures
        texts(names@) == binaries_of(targets@),
{
    let mut names: Vec<String> = Vec::new();
    let mut i: usize = 0;
    assert(targets@.take(0) =~= Seq::<Target>::empty());
    assert(texts(names@) =~= binaries_of(targets@.take(0)));
    while i < targets.len()
        invariant
            i <= targets@.len(),
            texts(names@) == binaries_of(targets@.take(i as int)),
        decreases targets@.len() - i,
    {
        let ghost so_far = texts(names@);
        proof {
            let next = targets@.take(i + 1);
            assert(next.drop_last() =~= targets@.take(i as int));
            assert(next.last() == targets@[i as int]);
        }
        if targets[i].binary() {
            names.push(targets[i].name.clone());
            assert(texts(names@) =~= so_far + seq![targets@[i as int].name@]);
        }
        i += 1;
    }
    assert(targets@.take(i as int) =~= targets@);
    names
}

/// Picks the package of a workflow from what `cargo metadata` reports: the
/// first package named `package` where a name is given, else the root
/// package of the workspace; with it the names of its binaries.
pub fn metadata(
    packages: &Vec<Package>,
    root: &Option<String>,
    workspace_dir: &str,
    target_dir: &str,
    package: Option<&str>,
) -> (picked: Result<Metadata, MetadataError>)
    ensures
        match picked {
            Ok(m) => exists|at: int|
                {
                    &&& #[trigger] first_wanted(packages@, str_of(package), text_of(*root), at)
                    &&& m.package_name@ == packages@[at].name@
                    &&& m.manifest_dir@ == packages@[at].manifest_dir@
                    &&& texts(m.binary_names@) == binaries_of(packages@[at].targets@)
                    &&& m.workspace_dir@ == workspace_dir@
                    &&& m.target_dir@ == target_dir@
                },
            Err(error) => none_wanted(packages@, str_of(package), text_of(*root)) && error
                == missing_package(str_of(package)),
        },
{
    match find_package(packages, package, root) {
        None => match package {
            Some(_) => Err(MetadataError::PackageNotFound),
            None => Err(MetadataError::NoRootPackage),
        },
        Some(at) => {
            let chosen = &packages[at];
            let m = Metadata {
                workspace_dir: workspace_dir.to_owned(),
                manifest_dir: chosen.manifest_dir.clone(),
                target_dir: target_dir.to_owned(),
                package_name: chosen.name.clone(),
                binary_names: binary_names(&chosen.targets),
            };
            assert(first_wanted(packages@, str_of(package), text_of(*root), at as int));
            Ok(m)
        },
    }
}

/// The name of the first binary of the root package of the workspace.
pub fn binary_name(packages: &Vec<Package>, root: &Option<String>) -> (name: Result<
    String,
    MetadataError,
>)
    ensures
        match name {
            Ok(n) => exists|at: int|
                {
                    &&& #[trigger] first_wanted(packages@, None, text_of(*root), at)
                    &&& binaries_of(packages@[at].targets@).len() > 0
                    &&& n@ == binaries_of(packages@[at].targets@)[0]
                },
            Err(MetadataError::NoRootPackage) => none_wanted(packages@, None, text_of(*root)),
            Err(MetadataError::NoBinary) => exists|at: int|
                {
                    &&& #[trigger] first_wanted(packages@, None, text_of(*root), at)
                    &&& binaries_of(packages@[at].targets@).len() == 0
                },
            Err(MetadataError::PackageNotFound) => false,
        },
{
    match find_package(packages, None, root) {
        None => Err(MetadataError::NoRootPackage),
        Some(at) => {
            assert(first_wanted(packages@, None, text_of(*root), at as int));
            let names = binary_names(&packages[at].targets);
            if names.len() == 0 {
                Err(MetadataError::NoBinary)
            } else {
                assert(texts(names@)[0] == names@[0]@);
                Ok(names[0].clone())
            }
        },
    }
}

} // verus!
