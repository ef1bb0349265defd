//! Where the files of one key lie.
//!
//! Every key has a directory of its own below the root of the cache. The
//! directory is what a refresh locks, and it holds the entry file and, while
//! a refresh writes, the staging file beside it.

use vstd::prelude::*;
use vstd::string::StringExecFns;

verus! {

/// The character that separates the parts of a path.
pub const SEPARATOR: char = '/';

/// The name of the file that holds the entry of a key.
pub const ENTRY_FILE: &'static str = "data.json";

/// The name of the file that a refresh writes before it takes the place of
/// the entry file.
pub const STAGING_FILE: &'static str = "data.tmp";

/// Whether a path starts at the root of the file system.
pub open spec fn is_absolute(path: Seq<char>) -> bool {
    path.len() > 0 && path[0] == SEPARATOR
}

/// Whether a separator has to stand between `base` and what follows it.
pub open spec fn needs_separator(base: Seq<char>) -> bool {
    base.len() > 0 && base[base.len() - 1] != SEPARATOR
}

/// The path of `child` seen from `base`: an absolute `child` stands for
/// itself, any other is put behind `base`, with one separator between the two
/// unless `base` is empty or brings its own.
pub open spec fn join_spec(base: Seq<char>, child: Seq<char>) -> Seq<char> {
    if is_absolute(child) {
        child
    } else if needs_separator(base) {
        base + seq![SEPARATOR] + child
    } else {
        base + child
    }
}

/// The path of `child` seen from `base`.
pub fn join(base: &str, child: &str) -> (path: String)
    ensures
        path@ == join_spec(base@, child@),
{
    let child_len = child.unicode_len();
    if child_len > 0 && child.get_char(0) == SEPARATOR {
        return child.to_owned();
    }
    let base_len = base.unicode_len();
    let mut path = base.to_owned();
    if base_len > 0 && base.get_char(base_len - 1) != SEPARATOR {
        proof {
            reveal_strlit("/");
        }
        path.append("/");
        assert(path@ =~= base@ + seq![SEPARATOR]);
    }
    path.append(child);
    path
}

/// Two keys that are not absolute paths never share a directory: what is
/// locked and stored for one of them is apart from what is for the other.
pub proof fn law_keys_have_directories_apart(root: Seq<char>, one: Seq<char>, other: Seq<char>)
    requires
        !is_absolute(one),
        !is_absolute(other),
        one != other,
    ensures
        join_spec(root, one) != join_spec(root, other),
{
    let head = if needs_separator(root) {
        root + seq![SEPARATOR]
    } else {
        root
    };
    assert(join_spec(root, one) =~= head + one);
    assert(join_spec(root, other) =~= head + other);
    if head + one == head + other {
        assert((head + one).subrange(head.len() as int, (head + one).len() as int) =~= one);
        assert((head + other).subrange(head.len() as int, (head + other).len() as int) =~= other);
    }
}

/// The paths that belong to one key.
#[derive(Debug, Clone, PartialEq, Eq)]
pub struct Layout {
    /// The directory of the key: what a refresh locks.
    pub directory: String,
    /// The file that holds the entry.
    pub entry: String,
    /// The file that a refresh writes and then renames to `entry`.
    pub staging: String,
}

impl Layout {
    /// The paths are those of `key` in a cache rooted at `root`.
    pub open spec fn is_for(self, root: Seq<char>, key: Seq<char>) -> bool {
        &&& self.directory@ == join_spec(root, key)
        &&& self.entry@ == join_spec(self.directory@, ENTRY_FILE@)
        &&& self.staging@ == join_spec(self.directory@, STAGING_FILE@)
    }

    /// The paths of `key` in a cache rooted at `root`.
    pub fn of(root: &str, key: &str) -> (layout: Layout)
        ensures
            layout.is_for(root@, key@),
    {
        let directory = join(root, key);
        let entry = join(directory.as_str(), ENTRY_FILE);
        let staging = join(directory.as_str(), STAGING_FILE);
        Layout { directory, entry, staging }
    }

    /// The staging file is never the entry file, nor the directory either
    /// of them: what is written while a refresh runs cannot be taken for the
    /// entry.
    pub proof fn law_paths_are_distinct(self, root: Seq<char>, key: Seq<char>)
        requires
            self.is_for(root, key),
        ensures
            self.staging@ != self.entry@,
            self.staging@ != self.directory@,
            self.entry@ != self.directory@,
    {
        reveal_strlit("data.json");
        reveal_strlit("data.tmp");
        let dir = self.directory@;
        assert(!is_absolute(ENTRY_FILE@));
        assert(!is_absolute(STAGING_FILE@));
        assert(self.entry@.len() == self.staging@.len() + 1);
        assert(self.staging@.len() > dir.len());
    }
}

} // verus!
