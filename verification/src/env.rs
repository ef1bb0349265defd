//! The variables that Alfred hands to a workflow.
//!
//! An [`Environment`] holds the variables of a process as plain text. It is
//! filled once, by whoever can read the process environment, and everything
//! here reads from it.

use crate::text::{parse_u32, parse_u32_spec, same_text, text_of};
use vstd::prelude::*;

verus! {

/// The values that a list of variables gives: of two variables with one
/// name, the one that stands first counts.
pub open spec fn values_of(vars: Seq<(String, String)>) -> Map<Seq<char>, Seq<char>>
    decreases vars.len(),
{
    if vars.len() == 0 {
        Map::empty()
    } else {
        values_of(vars.drop_first()).insert(vars[0].0@, vars[0].1@)
    }
}

/// A name that no variable before `at` has, and the variable at `at` has,
/// is given the value of that variable.
proof fn lemma_first_of_name_counts(vars: Seq<(String, String)>, name: Seq<char>, at: int)
    requires
        0 <= at < vars.len(),
        vars[at].0@ == name,
        forall|j: int| 0 <= j < at ==> (#[trigger] vars[j]).0@ != name,
    ensures
        values_of(vars).contains_key(name),
        values_of(vars)[name] == vars[at].1@,
    decreases at,
{
    if at > 0 {
        let rest = vars.drop_first();
        assert forall|j: int| 0 <= j < at - 1 implies (#[trigger] rest[j]).0@ != name by {
            assert(rest[j] == vars[j + 1]);
        }
        lemma_first_of_name_counts(rest, name, at - 1);
    }
}

/// A name that no variable has is given no value.
proof fn lemma_unknown_name_has_no_value(vars: Seq<(String, String)>, name: Seq<char>)
    requires
        forall|j: int| 0 <= j < vars.len() ==> (#[trigger] vars[j]).0@ != name,
    ensures
        !values_of(vars).contains_key(name),
    decreases vars.len(),
{
    if vars.len() > 0 {
        let rest = vars.drop_first();
        assert forall|j: int| 0 <= j < rest.len() implies (#[trigger] rest[j]).0@ != name by {
            assert(rest[j] == vars[j + 1]);
        }
        lemma_unknown_name_has_no_value(rest, name);
        assert(vars[0].0@ != name);
    }
}

/// The variables of a process, by name.
#[derive(Debug, Clone)]
pub struct Environment {
    vars: Vec<(String, String)>,
}

impl View for Environment {
    type V = Map<Seq<char>, Seq<char>>;

    closed spec fn view(&self) -> Map<Seq<char>, Seq<char>> {
        values_of(self.vars@)
    }
}

impl Environment {
    /// An environment without variables.
    pub fn new() -> (env: Environment)
        ensures
            env@ == Map::<Seq<char>, Seq<char>>::empty(),
    {
        Environment { vars: Vec::new() }
    }

    /// Gives the variable `name` the value `value`, in place of any value it
    /// had.
    pub fn set(&mut self, name: &str, value: &str)
        ensures
            final(self)@ == old(self)@.insert(name@, value@),
    {
        let ghost before = self.vars@;
        self.vars.insert(0, (name.to_owned(), value.to_owned()));
        assert(self.vars@.drop_first() =~= before);
    }

    /// The value of the variable `name`, where there is one.
    pub fn get(&self, name: &str) -> (value: Option<String>)
        ensures
            text_of(value) == (if self@.contains_key(name@) {
                Some(self@[name@])
            } else {
                None
            }),
    {
        let mut i: usize = 0;
        while i < self.vars.len()
            invariant
                i <= self.vars@.len(),
                forall|j: int| 0 <= j < i ==> (#[trigger] self.vars@[j]).0@ != name@,
            decreases self.vars@.len() - i,
        {
            if same_text(self.vars[i].0.as_str(), name) {
                proof {
                    lemma_first_of_name_counts(self.vars@, name@, i as int);
                }
                return Some(self.vars[i].1.clone());
            }
            i += 1;
        }
        proof {
            lemma_unknown_name_has_no_value(self.vars@, name@);
        }
        None
    }
}

/// The variable that says whether the debug panel is open.
pub const DEBUG: &'static str = "alfred_debug";

/// The variable that holds the directory of the preferences.
pub const PREFERENCES: &'static str = "alfred_preferences";

/// The variable that holds the version of Alfred.
pub const VERSION: &'static str = "alfred_version";

/// The variable that holds the build number of Alfred.
pub const VERSION_BUILD: &'static str = "alfred_version_build";

/// The variable that holds the bundle id of the workflow.
pub const WORKFLOW_BUNDLE_ID: &'static str = "alfred_workflow_bundleid";

/// The variable that holds the name of the workflow.
pub const WORKFLOW_NAME: &'static str = "alfred_workflow_name";

/// The variable that holds the unique id of the workflow.
pub const WORKFLOW_UID: &'static str = "alfred_workflow_uid";

/// The variable that holds the version of the workflow.
pub const WORKFLOW_VERSION: &'static str = "alfred_workflow_version";

/// The variable that holds the directory for volatile workflow data.
pub const WORKFLOW_CACHE: &'static str = "alfred_workflow_cache";

/// The variable that holds the directory for lasting workflow data.
pub const WORKFLOW_DATA: &'static str = "alfred_workflow_data";

/// What the variable `key` says: its value, unless it is missing or empty.
pub open spec fn var_spec(env: Map<Seq<char>, Seq<char>>, key: Seq<char>) -> Option<Seq<char>> {
    if env.contains_key(key) && env[key].len() > 0 {
        Some(env[key])
    } else {
        None
    }
}

/// The value of the variable `key`. An empty value counts as none.
pub fn var(env: &Environment, key: &str) -> (value: Option<String>)
    ensures
        text_of(value) == var_spec(env@, key@),
{
    match env.get(key) {
        Some(value) => if value.as_str().unicode_len() == 0 {
            None
        } else {
            Some(value)
        },
        None => None,
    }
}

/// Whether the user currently has the debug panel open.
pub fn is_debug(env: &Environment) -> (debug: bool)
    ensures
        debug == (var_spec(env@, DEBUG@) == Some("1"@)),
{
    match var(env, DEBUG) {
        Some(value) => same_text(value.as_str(), "1"),
        None => false,
    }
}

/// The location of the `Alfred.alfredpreferences` directory.
pub fn preferences(env: &Environment) -> (path: Option<String>)
    ensures
        text_of(path) == var_spec(env@, PREFERENCES@),
{
    var(env, PREFERENCES)
}

/// The Alfred version that is currently running.
pub fn version(env: &Environment) -> (version: Option<String>)
    ensures
        text_of(version) == var_spec(env@, VERSION@),
{
    var(env, VERSION)
}

/// The Alfred build version that is currently running: none where the
/// variable is missing, empty, or not a number.
pub fn version_build(env: &Environment) -> (build: Option<u32>)
    ensures
        build == match var_spec(env@, VERSION_BUILD@) {
            Some(text) => parse_u32_spec(text),
            None => None,
        },
{
    match var(env, VERSION_BUILD) {
        Some(text) => parse_u32(text.as_str()),
        None => None,
    }
}

/// The bundle ID of the currently running workflow.
pub fn workflow_bundle_id(env: &Environment) -> (id: Option<String>)
    ensures
        text_of(id) == var_spec(env@, WORKFLOW_BUNDLE_ID@),
{
    var(env, WORKFLOW_BUNDLE_ID)
}

/// The name of the currently running workflow.
pub fn workflow_name(env: &Environment) -> (name: Option<String>)
    ensures
        text_of(name) == var_spec(env@, WORKFLOW_NAME@),
{
    var(env, WORKFLOW_NAME)
}

/// The unique ID of the currently running workflow.
pub fn workflow_uid(env: &Environment) -> (uid: Option<String>)
    ensures
        text_of(uid) == var_spec(env@, WORKFLOW_UID@),
{
    var(env, WORKFLOW_UID)
}

/// The version of the currently running workflow.
pub fn workflow_version(env: &Environment) -> (version: Option<String>)
    ensures
        text_of(version) == var_spec(env@, WORKFLOW_VERSION@),
{
    var(env, WORKFLOW_VERSION)
}

/// The recommended directory for volatile workflow data.
pub fn workflow_cache(env: &Environment) -> (path: Option<String>)
    ensures
        text_of(path) == var_spec(env@, WORKFLOW_CACHE@),
{
    var(env, WORKFLOW_CACHE)
}

/// The recommended directory for non-volatile workflow data.
pub fn workflow_data(env: &Environment) -> (path: Option<String>)
    ensures
        text_of(path) == var_spec(env@, WORKFLOW_DATA@),
{
    var(env, WORKFLOW_DATA)
}

} // verus!
