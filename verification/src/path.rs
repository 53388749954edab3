//! Where the document is kept.
//!
//! The document is the file `tasks.json` in the directory `.hypr-visr` below
//! the user's home directory. Paths are texts with `/` between their
//! components.

use vstd::prelude::*;
use vstd::string::StrSliceExecFns;
use vstd::string::StringExecFns;

verus! {

/// The name of the directory that holds the document.
pub open spec fn dir_name() -> Seq<char> {
    ".hypr-visr"@
}

/// The name of the document's file.
pub open spec fn file_name() -> Seq<char> {
    "tasks.json"@
}

/// The path of the entry `name` in the directory `base`: the two joined by
/// one separator, which is left out where `base` is empty or already ends
/// in one.
pub open spec fn child(base: Seq<char>, name: Seq<char>) -> Seq<char> {
    if base.len() > 0 && base.last() != '/' {
        base + seq!['/'] + name
    } else {
        base + name
    }
}

/// The directory that holds the document, for a home directory.
pub open spec fn data_dir_of(home: Seq<char>) -> Seq<char> {
    child(home, dir_name())
}

/// The path of the document, for a home directory.
pub open spec fn data_path_of(home: Seq<char>) -> Seq<char> {
    child(data_dir_of(home), file_name())
}

/// Joins a directory and the name of an entry in it.
fn join(base: &str, name: &str) -> (path: String)
    ensures
        path@ == child(base@, name@),
{
    let len = base.unicode_len();
    let mut path = String::from_str(base);
    if len > 0 && base.get_char(len - 1) != '/' {
        proof {
            reveal_strlit("/");
            assert("/"@ =~= seq!['/']);
        }
        path.append("/");
    }
    path.append(name);
    path
}

/// The directory that holds the document. The caller creates it, with any
/// missing parents, before it reads or writes the document.
pub fn get_data_dir(home: &str) -> (dir: String)
    ensures
        dir@ == data_dir_of(home@),
{
    join(home, ".hypr-visr")
}

/// The path of the document.
pub fn get_data_path(home: &str) -> (path: String)
    ensures
        path@ == data_path_of(home@),
        home@.len() > 0 && home@.last() != '/' ==> path@ == home@ + "/.hypr-visr/tasks.json"@,
{
    let dir = get_data_dir(home);
    proof {
        lemma_data_path_below_home(home@);
    }
    join(dir.as_str(), "tasks.json")
}

/// The document lies at `.hypr-visr/tasks.json` below the home directory.
pub proof fn lemma_data_path_below_home(home: Seq<char>)
    ensures
        data_path_of(home) == data_dir_of(home) + "/tasks.json"@,
        home.len() > 0 && home.last() != '/' ==> {
            &&& data_dir_of(home) == home + "/.hypr-visr"@
            &&& data_path_of(home) == home + "/.hypr-visr/tasks.json"@
        },
        home.len() == 0 || home.last() == '/' ==> {
            &&& data_dir_of(home) == home + ".hypr-visr"@
            &&& data_path_of(home) == home + ".hypr-visr/tasks.json"@
        },
{
    reveal_strlit(".hypr-visr");
    reveal_strlit("tasks.json");
    reveal_strlit("/tasks.json");
    reveal_strlit("/.hypr-visr");
    reveal_strlit("/.hypr-visr/tasks.json");
    reveal_strlit(".hypr-visr/tasks.json");
    let dir = data_dir_of(home);
    assert(dir.len() > 0 && dir.last() == 'r');
    assert(data_path_of(home) =~= dir + "/tasks.json"@);
    if home.len() > 0 && home.last() != '/' {
        assert(dir =~= home + "/.hypr-visr"@);
        assert(data_path_of(home) =~= home + "/.hypr-visr/tasks.json"@);
    } else {
        assert(dir =~= home + ".hypr-visr"@);
        assert(data_path_of(home) =~= home + ".hypr-visr/tasks.json"@);
    }
}

} // verus!
