//! Laying out a workflow on disk: what goes where, and under which name.

use crate::cache::paths::{join, join_spec};
use crate::cargo::{str_of, texts, Mode};
use crate::plist::{entry_trees, trees, Plist, Tree};
use crate::text::same_text;
use vstd::prelude::*;
use vstd::string::StringExecFns;

verus! {

/// The directory, below that of the manifest, that holds the workflow.
pub const WORKFLOW_DIR: &'static str = "workflow";

/// Where, below the directory that Alfred syncs, the workflows lie.
pub const WORKFLOWS_DIR: &'static str = "Alfred.alfredpreferences/workflows";

/// What many workflow packages end their name with, and their archives do
/// not.
pub const PACKAGE_SUFFIX: &'static str = "-alfred-workflow";

/// What the name of a linked workflow starts with.
pub const LINK_PREFIX: &'static str = "user.workflow.";

/// What the line starts with that keeps the binary of a workflow out of
/// version control.
pub const IGNORE_PREFIX: &'static str = "/workflow/";

/// What describes a workflow to Alfred.
#[derive(Debug, Clone, PartialEq, Eq)]
pub struct WorkflowInfo {
    /// The bundle id.
    pub bundle_id: String,
    /// The name shown to the user.
    pub name: String,
    /// The binary that the script filter runs.
    pub bin_name: String,
    /// Who made the workflow.
    pub author: String,
    /// What the workflow does.
    pub description: String,
    /// The keyword that brings the workflow up.
    pub keyword: String,
}

impl WorkflowInfo {
    /// The description of the workflow of the package `package_name`: the
    /// workflow and its binary are named after the package.
    pub fn new(
        package_name: &str,
        bundle_id: String,
        author: String,
        description: String,
        keyword: String,
    ) -> (info: WorkflowInfo)
        ensures
            info.name@ == package_name@,
            info.bin_name@ == package_name@,
            info.bundle_id == bundle_id,
            info.author == author,
            info.description == description,
            info.keyword == keyword,
    {
        WorkflowInfo {
            bundle_id,
            name: package_name.to_owned(),
            bin_name: package_name.to_owned(),
            author,
            description,
            keyword,
        }
    }
}

/// The directory that holds the workflow of the package whose manifest lies
/// in `manifest_dir`.
pub fn workflow_directory(manifest_dir: &str) -> (dir: String)
    ensures
        dir@ == join_spec(manifest_dir@, WORKFLOW_DIR@),
{
    join(manifest_dir, WORKFLOW_DIR)
}

/// The directory of Alfred's workflows, where Alfred syncs to `sync_dir`.
pub fn workflows_directory(sync_dir: &str) -> (dir: String)
    ensures
        dir@ == join_spec(sync_dir@, WORKFLOWS_DIR@),
{
    join(sync_dir, WORKFLOWS_DIR)
}

/// Where `cargo` puts what it compiles in `mode`: below the target
/// directory, and below the directory of the target where one is compiled
/// for.
pub open spec fn source_directory_spec(
    target_dir: Seq<char>,
    target: Option<Seq<char>>,
    mode: Mode,
) -> Seq<char> {
    match target {
        Some(t) => join_spec(join_spec(target_dir, t), mode.spec_dir()),
        None => join_spec(target_dir, mode.spec_dir()),
    }
}

/// The directory that holds the compiled binaries.
pub fn source_directory(target_dir: &str, target: Option<&str>, mode: Mode) -> (dir: String)
    ensures
        dir@ == source_directory_spec(target_dir@, str_of(target), mode),
{
    match target {
        Some(t) => {
            let below = join(target_dir, t);
            join(below.as_str(), mode.dir())
        },
        None => join(target_dir, mode.dir()),
    }
}

/// Whether `name` is one of the `bins`.
pub open spec fn is_among(name: Seq<char>, bins: Seq<Seq<char>>) -> bool {
    exists|k: int| 0 <= k < bins.len() && #[trigger] bins[k] == name
}

/// The binaries to install: all of the package where none is asked for,
/// else those of the package that are asked for; in the order of the
/// package.
pub open spec fn select_binaries_spec(names: Seq<Seq<char>>, bins: Seq<Seq<char>>) -> Seq<
    Seq<char>,
>
    decreases names.len(),
{
    if names.len() == 0 {
        seq![]
    } else if bins.len() == 0 || is_among(names.last(), bins) {
        select_binaries_spec(names.drop_last(), bins) + seq![names.last()]
    } else {
        select_binaries_spec(names.drop_last(), bins)
    }
}

/// Whether `name` is one of the `bins`.
pub fn contains(bins: &Vec<String>, name: &str) -> (found: bool)
    ensures
        found == is_among(name@, texts(bins@)),
{
    let mut k: usize = 0;
    while k < bins.len()
        invariant
            k <= bins@.len(),
            forall|j: int| 0 <= j < k ==> (#[trigger] texts(bins@)[j]) != name@,
        decreases bins@.len() - k,
    {
        if same_text(bins[k].as_str(), name) {
            assert(texts(bins@)[k as int] == name@);
            return true;
        }
        k += 1;
    }
    false
}

/// The binaries of a package that are to be installed.
pub fn select_binaries(binary_names: &Vec<String>, bins: &Vec<String>) -> (selected: Vec<String>)
    ensures
        texts(selected@) == select_binaries_spec(texts(binary_names@), texts(bins@)),
{
    let ghost names = texts(binary_names@);
    let mut selected: Vec<String> = Vec::new();
    let mut i: usize = 0;
    assert(names.take(0) =~= Seq::<Seq<char>>::empty());
    assert(texts(selected@) =~= select_binaries_spec(names.take(0), texts(bins@)));
    while i < binary_names.len()
        invariant
            i <= binary_names@.len(),
            names == texts(binary_names@),
            texts(selected@) == select_binaries_spec(names.take(i as int), texts(bins@)),
        decreases binary_names@.len() - i,
    {
        let ghost so_far = texts(selected@);
        proof {
            let next = names.take(i + 1);
            assert(next.drop_last() =~= names.take(i as int));
            assert(next.last() == binary_names@[i as int]@);
        }
        if bins.len() == 0 || contains(bins, binary_names[i].as_str()) {
            selected.push(binary_names[i].clone());
            assert(texts(selected@) =~= so_far + seq![binary_names@[i as int]@]);
        }
        i += 1;
    }
    assert(names.take(i as int) =~= names);
    selected
}

/// The name of a package without the suffix, where it ends with it.
pub open spec fn without_suffix(name: Seq<char>, suffix: Seq<char>) -> Seq<char> {
    if name.len() >= suffix.len() && name.subrange(name.len() - suffix.len(), name.len() as int)
        == suffix {
        name.subrange(0, name.len() - suffix.len())
    } else {
        name
    }
}

/// The name under which the workflow of a package is packed: that of the
/// package, less the suffix that workflow packages tend to have.
pub fn archive_stem(package_name: &str) -> (stem: String)
    ensures
        stem@ == without_suffix(package_name@, PACKAGE_SUFFIX@),
{
    let len = package_name.unicode_len();
    let suffix_len = PACKAGE_SUFFIX.unicode_len();
    if len >= suffix_len {
        let tail = package_name.substring_char(len - suffix_len, len);
        if same_text(tail, PACKAGE_SUFFIX) {
            return package_name.substring_char(0, len - suffix_len).to_owned();
        }
    }
    package_name.to_owned()
}

/// The name of the link to a workflow that has the unique id `uid`.
pub fn link_name(uid: &str) -> (name: String)
    ensures
        name@ == LINK_PREFIX@ + uid@,
{
    let mut name = LINK_PREFIX.to_owned();
    name.append(uid);
    name
}

/// The line that keeps the binary of the workflow of a package out of
/// version control.
pub fn ignore_line(package_name: &str) -> (line: String)
    ensures
        line@ == IGNORE_PREFIX@ + package_name@,
{
    let mut line = IGNORE_PREFIX.to_owned();
    line.append(package_name);
    line
}

/// What is to be done about the link to a workflow.
#[derive(Debug, Clone, Copy, PartialEq, Eq)]
pub enum LinkPlan {
    /// There is a link: it stays.
    Keep,
    /// There is a link: it is removed and a new one made.
    Replace,
    /// There is no link: one is made.
    Create,
}

/// What is to be done about the link: an existing link stays unless a new
/// one is forced.
pub open spec fn link_plan_spec(linked: bool, force: bool) -> LinkPlan {
    if !linked {
        LinkPlan::Create
    } else if force {
        LinkPlan::Replace
    } else {
        LinkPlan::Keep
    }
}

/// Decides what is to be done about the link to a workflow.
pub fn link_plan(linked: bool, force: bool) -> (plan: LinkPlan)
    ensures
        plan == link_plan_spec(linked, force),
{
    if !linked {
        LinkPlan::Create
    } else if force {
        LinkPlan::Replace
    } else {
        LinkPlan::Keep
    }
}

/// A place on Alfred's canvas.
pub open spec fn position_spec(x: int, y: int) -> Tree {
    Tree::Dictionary(seq![("xpos"@, Tree::Integer(x)), ("ypos"@, Tree::Integer(y))])
}

/// The object that puts what it is given on the clipboard.
pub open spec fn clipboard_spec(uid: Seq<char>) -> Tree {
    Tree::Dictionary(
        seq![
            ("uid"@, Tree::Text(uid)),
            ("type"@, Tree::Text("alfred.workflow.output.clipboard"@)),
            ("config"@, Tree::Dictionary(seq![("clipboardtext"@, Tree::Text("{query}"@))])),
        ],
    )
}

/// How the script filter runs the binary of the workflow: on its keyword,
/// with or without an argument, at once from the first character typed, a
/// run that is under way giving way to the next.
pub open spec fn script_filter_config_spec(info: WorkflowInfo) -> Tree {
    Tree::Dictionary(
        seq![
            ("keyword"@, Tree::Text(info.keyword@)),
            ("withspace"@, Tree::Boolean(true)),
            ("argumenttype"@, Tree::Integer(1)),
            ("title"@, Tree::Text("Search"@)),
            ("runningsubtext"@, Tree::Text("Loading..."@)),
            ("type"@, Tree::Integer(8)),
            ("scriptfile"@, Tree::Text(info.bin_name@)),
            ("queuemode"@, Tree::Integer(2)),
            ("queuedelayimmediatelyinitially"@, Tree::Boolean(true)),
            ("argumenttreatemptyqueryasnil"@, Tree::Boolean(true)),
        ],
    )
}

/// The object that runs the binary of the workflow as a script filter.
pub open spec fn script_filter_spec(info: WorkflowInfo, uid: Seq<char>) -> Tree {
    Tree::Dictionary(
        seq![
            ("uid"@, Tree::Text(uid)),
            ("type"@, Tree::Text("alfred.workflow.input.scriptfilter"@)),
            ("config"@, script_filter_config_spec(info)),
        ],
    )
}

/// The description of a workflow for Alfred: a script filter, known as
/// `filter`, whose result goes to the clipboard by way of an object known as
/// `clipboard`.
pub open spec fn info_plist_spec(info: WorkflowInfo, filter: Seq<char>, clipboard: Seq<char>) -> Tree {
    Tree::Dictionary(
        seq![
            ("name"@, Tree::Text(info.name@)),
            ("description"@, Tree::Text(info.description@)),
            ("bundleid"@, Tree::Text(info.bundle_id@)),
            ("createdby"@, Tree::Text(info.author@)),
            (
                "connections"@,
                Tree::Dictionary(
                    seq![
                        (
                            filter,
                            Tree::Array(
                                seq![
                                    Tree::Dictionary(
                                        seq![("destinationuid"@, Tree::Text(clipboard))],
                                    ),
                                ],
                            ),
                        ),
                    ],
                ),
            ),
            (
                "uidata"@,
                Tree::Dictionary(
                    seq![(filter, position_spec(50, 50)), (clipboard, position_spec(225, 50))],
                ),
            ),
            (
                "objects"@,
                Tree::Array(seq![clipboard_spec(clipboard), script_filter_spec(info, filter)]),
            ),
        ],
    )
}

fn position(x: i64, y: i64) -> (plist: Plist)
    ensures
        plist.tree() == position_spec(x as int, y as int),
{
    let entries = vec![
        Plist::entry("xpos", Plist::integer(x)),
        Plist::entry("ypos", Plist::integer(y)),
    ];
    assert(entry_trees(entries@) =~= seq![
        ("xpos"@, Tree::Integer(x as int)),
        ("ypos"@, Tree::Integer(y as int)),
    ]);
    Plist::dictionary(entries)
}

fn clipboard_output(uid: &str) -> (plist: Plist)
    ensures
        plist.tree() == clipboard_spec(uid@),
{
    let config = vec![Plist::entry("clipboardtext", Plist::text("{query}"))];
    assert(entry_trees(config@) =~= seq![("clipboardtext"@, Tree::Text("{query}"@))]);
    let entries = vec![
        Plist::entry("uid", Plist::text(uid)),
        Plist::entry("type", Plist::text("alfred.workflow.output.clipboard")),
        Plist::entry("config", Plist::dictionary(config)),
    ];
    assert(entry_trees(entries@) =~= clipboard_spec(uid@)->Dictionary_0);
    Plist::dictionary(entries)
}

fn script_filter(info: &WorkflowInfo, uid: &str) -> (plist: Plist)
    ensures
        plist.tree() == script_filter_spec(*info, uid@),
{
    let config = vec![
        Plist::entry("keyword", Plist::text(info.keyword.as_str())),
        Plist::entry("withspace", Plist::boolean(true)),
        Plist::entry("argumenttype", Plist::integer(1)),
        Plist::entry("title", Plist::text("Search")),
        Plist::entry("runningsubtext", Plist::text("Loading...")),
        Plist::entry("type", Plist::integer(8)),
        Plist::entry("scriptfile", Plist::text(info.bin_name.as_str())),
        Plist::entry("queuemode", Plist::integer(2)),
        Plist::entry("queuedelayimmediatelyinitially", Plist::boolean(true)),
        Plist::entry("argumenttreatemptyqueryasnil", Plist::boolean(true)),
    ];
    assert(entry_trees(config@) =~= script_filter_config_spec(*info)->Dictionary_0);
    let entries = vec![
        Plist::entry("uid", Plist::text(uid)),
        Plist::entry("type", Plist::text("alfred.workflow.input.scriptfilter")),
        Plist::entry("config", Plist::dictionary(config)),
    ];
    assert(entry_trees(entries@) =~= script_filter_spec(*info, uid@)->Dictionary_0);
    Plist::dictionary(entries)
}

/// Builds an Alfred workflow `info.plist`: a script filter that runs the
/// binary of the workflow, and a clipboard output that takes its result.
///
/// `filter` and `clipboard` are the ids under which Alfred is to know the
/// two objects.
pub fn build_info_plist(info: &WorkflowInfo, filter: &str, clipboard: &str) -> (plist: Plist)
    ensures
        plist@ == info_plist_spec(*info, filter@, clipboard@),
{
    let destination = vec![Plist::entry("destinationuid", Plist::text(clipboard))];
    assert(entry_trees(destination@) =~= seq![("destinationuid"@, Tree::Text(clipboard@))]);
    let destinations = vec![Plist::dictionary(destination)];
    assert(trees(destinations@) =~= seq![
        Tree::Dictionary(seq![("destinationuid"@, Tree::Text(clipboard@))]),
    ]);
    let connections = vec![Plist::entry(filter, Plist::array(destinations))];
    assert(entry_trees(connections@) =~= seq![
        (
            filter@,
            Tree::Array(seq![Tree::Dictionary(seq![("destinationuid"@, Tree::Text(clipboard@))])]),
        ),
    ]);
    let uidata = vec![
        Plist::entry(filter, position(50, 50)),
        Plist::entry(clipboard, position(225, 50)),
    ];
    assert(entry_trees(uidata@) =~= seq![
        (filter@, position_spec(50, 50)),
        (clipboard@, position_spec(225, 50)),
    ]);
    let objects = vec![clipboard_output(clipboard), script_filter(info, filter)];
    assert(trees(objects@) =~= seq![clipboard_spec(clipboard@), script_filter_spec(*info, filter@)]);
    let entries = vec![
        Plist::entry("name", Plist::text(info.name.as_str())),
        Plist::entry("description", Plist::text(info.description.as_str())),
        Plist::entry("bundleid", Plist::text(info.bundle_id.as_str())),
        Plist::entry("createdby", Plist::text(info.author.as_str())),
        Plist::entry("connections", Plist::dictionary(connections)),
        Plist::entry("uidata", Plist::dictionary(uidata)),
        Plist::entry("objects", Plist::array(objects)),
    ];
    assert(entry_trees(entries@) =~= info_plist_spec(*info, filter@, clipboard@)->Dictionary_0);
    Plist::dictionary(entries)
}

} // verus!
