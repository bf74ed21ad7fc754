//! Where saves are kept and what their tables are called.
use crate::ident::{uuid_text, uuid_to_string};
use crate::db::{DEFAULT_DB, SAVE_DIR};
use crate::text::concat;
use vstd::prelude::*;

verus! {

broadcast use vstd::string::group_string_axioms;

/// `dir` joined with `file` as `Path::join` does on Unix: an absolute
/// `file` replaces the directory; otherwise a `/` separates them.
pub open spec fn joined(dir: Seq<char>, file: Seq<char>) -> Seq<char> {
    if file.len() > 0 && file[0] == '/' {
        file
    } else {
        dir + "/"@ + file
    }
}

/// The path of a save database: the named file, or the default one, in
/// the save directory.
pub open spec fn save_path_spec(db_name: Option<Seq<char>>) -> Seq<char> {
    let file = match db_name {
        Some(f) => f,
        None => DEFAULT_DB@,
    };
    joined(SAVE_DIR@, file)
}

/// The path of a save database, as text.
pub fn get_save_path(db_name: Option<&str>) -> (r: String)
    ensures
        r@ == save_path_spec(
            match db_name {
                Some(f) => Some(f@),
                None => None,
            },
        ),
{
    let file = match db_name {
        Some(f) => f,
        None => DEFAULT_DB,
    };
    let absolute = !file.is_empty() && crate::text::chars_of(file)[0] == '/';
    if absolute {
        file.to_owned()
    } else {
        let dir = concat(SAVE_DIR, "/");
        concat(dir.as_str(), file)
    }
}

/// The file name of a throwaway test database: `test_`, the id's text,
/// `.db`.
pub fn test_db_path(id: u128) -> (r: String)
    ensures
        r@ == "test_"@ + uuid_text(id) + ".db"@,
{
    let text = uuid_to_string(id);
    let r = concat("test_", text.as_str());
    concat(r.as_str(), ".db")
}

} // verus!
