//! The list of commit types and where new types and scopes are kept.
//!
//! Types are kept as one entry per name in a directory, scopes as lines of
//! a log file. This module decides names, order and layout; reading and
//! writing the files is the caller's part.

use vstd::prelude::*;
use vstd::string::StringExecFns;

verus! {

/// The characters of each string in turn.
pub open spec fn names(v: Seq<String>) -> Seq<Seq<char>> {
    Seq::new(v.len(), |i: int| v[i]@)
}

/// The built-in types, in the order in which they are offered.
pub open spec fn default_type_names() -> Seq<Seq<char>> {
    seq!["feat"@, "fix"@, "docs"@, "style"@, "refactor"@, "test"@, "chore"@]
}

/// The names that a directory listing holds, or `None` where there is no
/// listing because the directory could not be read.
pub open spec fn listed_names(listing: Option<Vec<String>>) -> Option<Seq<Seq<char>>> {
    match listing {
        Some(found) => Some(names(found@)),
        None => None,
    }
}

/// The types to offer for the names found in the type directory: the names
/// as they come, or the built-in types where the directory could not be
/// read or holds nothing.
pub open spec fn type_names(listed: Option<Seq<Seq<char>>>) -> Seq<Seq<char>> {
    match listed {
        Some(found) if found.len() > 0 => found,
        _ => default_type_names(),
    }
}

/// Where the directory could not be read or holds nothing, the types on
/// offer are exactly the seven built-in ones, in their fixed order.
pub proof fn lemma_defaults_when_nothing_listed(listed: Option<Seq<Seq<char>>>)
    requires
        listed matches Some(found) ==> found.len() == 0,
    ensures
        type_names(listed) == default_type_names(),
        type_names(listed).len() == 7,
        type_names(listed)[0] == "feat"@,
        type_names(listed)[1] == "fix"@,
        type_names(listed)[2] == "docs"@,
        type_names(listed)[3] == "style"@,
        type_names(listed)[4] == "refactor"@,
        type_names(listed)[5] == "test"@,
        type_names(listed)[6] == "chore"@,
{
}

/// Where the directory holds entries, the types on offer are the names of
/// those entries, in the order of the listing.
pub proof fn lemma_listed_types_are_kept(found: Seq<Seq<char>>)
    requires
        found.len() > 0,
    ensures
        type_names(Some(found)) == found,
{
}

/// The seven built-in types.
pub fn default_types() -> (types: Vec<String>)
    ensures
        names(types@) == default_type_names(),
        types@.len() == 7,
{
    let mut types: Vec<String> = Vec::new();
    types.push(String::from_str("feat"));
    types.push(String::from_str("fix"));
    types.push(String::from_str("docs"));
    types.push(String::from_str("style"));
    types.push(String::from_str("refactor"));
    types.push(String::from_str("test"));
    types.push(String::from_str("chore"));
    types
}

/// The types to offer, given the names found in the type directory, or
/// `None` where the directory could not be read. The result is never empty.
pub fn load_types(listing: Option<Vec<String>>) -> (types: Vec<String>)
    ensures
        names(types@) == type_names(listed_names(listing)),
        types@.len() > 0,
{
    match listing {
        Some(found) => {
            if found.len() > 0 {
                found
            } else {
                default_types()
            }
        },
        None => default_types(),
    }
}

/// The directory that holds everything the form persists.
pub open spec fn preform_dir_name() -> Seq<char> {
    ".pre-form-git"@
}

/// The directory with one entry per type.
pub open spec fn components_dir_name() -> Seq<char> {
    preform_dir_name() + seq!['/'] + "components"@
}

/// The log file with one line per scope.
pub open spec fn scopes_file_name() -> Seq<char> {
    preform_dir_name() + seq!['/'] + "scopes.txt"@
}

/// Path of the directory that holds everything the form persists,
/// relative to the working directory.
pub fn preform_dir() -> (path: String)
    ensures
        path@ == preform_dir_name(),
{
    String::from_str(".pre-form-git")
}

/// Path of the directory in which each type is an entry.
pub fn components_dir() -> (path: String)
    ensures
        path@ == components_dir_name(),
{
    proof {
        reveal_strlit("/");
    }
    let mut path = preform_dir();
    path.append("/");
    path.append("components");
    path
}

/// Path of the file to which each new scope is appended.
pub fn scopes_file() -> (path: String)
    ensures
        path@ == scopes_file_name(),
{
    proof {
        reveal_strlit("/");
    }
    let mut path = preform_dir();
    path.append("/");
    path.append("scopes.txt");
    path
}

/// Path of the entry that marks `name` as a type: the name inside the
/// type directory.
pub fn type_marker(name: &str) -> (path: String)
    ensures
        path@ == components_dir_name() + seq!['/'] + name@,
{
    proof {
        reveal_strlit("/");
    }
    let mut path = components_dir();
    path.append("/");
    path.append(name);
    path
}

/// The line that records `name` in the scope log: the name and a newline.
pub fn scope_entry(name: &str) -> (line: String)
    ensures
        line@ == name@ + seq!['\n'],
{
    proof {
        reveal_strlit("\n");
    }
    let mut line = String::from_str(name);
    line.append("\n");
    line
}

} // verus!
