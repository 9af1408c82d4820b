use std::path::Path;
use vstd::prelude::*;

verus! {

/// The final component of a path, as `Path::file_name` finds it (none where the path ends in
/// `..` or is a root). It cuts at the separators of the platform the library is built for.
pub uninterp spec fn path_file_name(path: Seq<char>) -> Option<Seq<char>>;

/// The final component of `path` (`Path::file_name`, taken as text); only named here.
#[verifier::external_body]
fn file_name_of(path: &str) -> (r: Option<String>)
    ensures
        match r {
            Some(n) => path_file_name(path@) == Some(n@),
            None => path_file_name(path@) is None,
        },
{
    Path::new(path).file_name().and_then(|n| n.to_str()).map(String::from)
}

/// The name shown for a file that has none.
pub open spec fn no_name() -> Seq<char> {
    "[No Name]"@
}

/// The name shown for a buffer stored at `path`.
pub open spec fn shown_file_name(path: Option<String>) -> Seq<char> {
    match path {
        Some(p) => match path_file_name(p@) {
            Some(n) => n,
            None => no_name(),
        },
        None => no_name(),
    }
}

/// Where a buffer is stored, if anywhere.
#[derive(Debug)]
pub struct FileInfo {
    pub path: Option<String>,
}

impl Default for FileInfo {
    fn default() -> (r: Self)
        ensures
            r.path is None,
    {
        FileInfo { path: None }
    }
}

impl FileInfo {
    /// The file at `file_name`.
    pub fn from(file_name: &str) -> (r: Self)
        ensures
            r.path matches Some(p) && p@ == file_name@,
    {
        Self { path: Some(file_name.to_owned()) }
    }

    /// The name of the file without its directories, or `[No Name]`.
    pub fn display_name(&self) -> (r: String)
        ensures
            r@ == shown_file_name(self.path),
    {
        match &self.path {
            Some(p) => match file_name_of(p.as_str()) {
                Some(n) => n,
                None => "[No Name]".to_owned(),
            },
            None => "[No Name]".to_owned(),
        }
    }
}

} // verus!
