//! Property lists, as far as the description of a workflow needs them.

use vstd::prelude::*;

verus! {

/// A value of a property list.
#[derive(Debug, PartialEq, Eq)]
pub enum Plist {
    /// A text.
    Text(String),
    /// A whole number.
    Integer(i64),
    /// A truth value.
    Boolean(bool),
    /// Values in a row.
    Array(Vec<Plist>),
    /// Values by key, in the order in which they were put.
    Dictionary(Vec<(String, Plist)>),
}

/// What a property list holds: texts by their characters, rows and
/// dictionaries by what they hold in turn.
#[verifier::ext_equal]
pub enum Tree {
    /// A text.
    Text(Seq<char>),
    /// A whole number.
    Integer(int),
    /// A truth value.
    Boolean(bool),
    /// Values in a row.
    Array(Seq<Tree>),
    /// Values by key, in the order in which they were put.
    Dictionary(Seq<(Seq<char>, Tree)>),
}

/// What the values of a row hold.
pub open spec fn trees(values: Seq<Plist>) -> Seq<Tree> {
    Seq::new(values.len(), |i: int| values[i].tree())
}

/// What the entries of a dictionary hold.
pub open spec fn entry_trees(entries: Seq<(String, Plist)>) -> Seq<(Seq<char>, Tree)> {
    Seq::new(entries.len(), |i: int| (entries[i].0@, entries[i].1.tree()))
}

impl Plist {
    /// What the value holds.
    pub open spec fn tree(self) -> Tree
        decreases self,
    {
        match self {
            Plist::Text(text) => Tree::Text(text@),
            Plist::Integer(number) => Tree::Integer(number as int),
            Plist::Boolean(truth) => Tree::Boolean(truth),
            Plist::Array(values) => Tree::Array(
                Seq::new(
                    values@.len(),
                    |i: int|
                        if 0 <= i < values@.len() {
                            values@[i].tree()
                        } else {
                            Tree::Boolean(false)
                        },
                ),
            ),
            Plist::Dictionary(entries) => Tree::Dictionary(
                Seq::new(
                    entries@.len(),
                    |i: int|
                        if 0 <= i < entries@.len() {
                            (entries@[i].0@, entries@[i].1.tree())
                        } else {
                            (Seq::empty(), Tree::Boolean(false))
                        },
                ),
            ),
        }
    }

    /// A text.
    pub fn text(text: &str) -> (plist: Plist)
        ensures
            plist.tree() == Tree::Text(text@),
    {
        Plist::Text(text.to_owned())
    }

    /// A whole number.
    pub fn integer(number: i64) -> (plist: Plist)
        ensures
            plist.tree() == Tree::Integer(number as int),
    {
        Plist::Integer(number)
    }

    /// A truth value.
    pub fn boolean(truth: bool) -> (plist: Plist)
        ensures
            plist.tree() == Tree::Boolean(truth),
    {
        Plist::Boolean(truth)
    }

    /// The row of the `values`.
    pub fn array(values: Vec<Plist>) -> (plist: Plist)
        ensures
            plist.tree() == Tree::Array(trees(values@)),
    {
        let plist = Plist::Array(values);
        assert(plist.tree()->Array_0 =~= trees(values@));
        plist
    }

    /// The dictionary of the `entries`.
    pub fn dictionary(entries: Vec<(String, Plist)>) -> (plist: Plist)
        ensures
            plist.tree() == Tree::Dictionary(entry_trees(entries@)),
    {
        let plist = Plist::Dictionary(entries);
        assert(plist.tree()->Dictionary_0 =~= entry_trees(entries@));
        plist
    }

    /// The entry of a dictionary that gives `key` the value `value`.
    pub fn entry(key: &str, value: Plist) -> (entry: (String, Plist))
        ensures
            entry.0@ == key@,
            entry.1 == value,
    {
        (key.to_owned(), value)
    }
}

impl View for Plist {
    type V = Tree;

    open spec fn view(&self) -> Tree {
        self.tree()
    }
}

} // verus!
