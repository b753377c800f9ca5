//! Resolution of the fixed on-disk location of the persisted document:
//! the file `Litask Data.json` inside the user's documents directory.

use vstd::prelude::*;

verus! {

/// The name of the single file the store reads and writes.
pub open spec fn data_file_name() -> Seq<char> {
    "Litask Data.json"@
}

/// The separator placed between the documents directory and the file name.
pub open spec fn path_separator() -> Seq<char> {
    "/"@
}

/// The error reported when the platform gives no documents directory.
pub open spec fn no_documents_dir_error() -> Seq<char> {
    "No documents dir"@
}

/// The full path of the data file inside the documents directory `dir`.
pub open spec fn data_path_in(dir: Seq<char>) -> Seq<char> {
    dir + path_separator() + data_file_name()
}

/// Where the persisted document lives: the documents directory that holds it
/// and the full path of the data file itself.
pub struct DataFilePath {
    /// The documents directory; a save creates it before writing.
    pub dir: String,
    /// The full path of the data file inside `dir`.
    pub full: String,
}

impl DataFilePath {
    /// The full path is exactly the directory followed by the fixed file name.
    pub open spec fn wf(self) -> bool {
        self.full@ == data_path_in(self.dir@)
    }
}

/// Builds the data file's location inside the given documents directory, or
/// reports that no documents directory could be determined.
pub fn resolve_data_path(docs_dir: Option<String>) -> (r: Result<DataFilePath, String>)
    ensures
        docs_dir matches Some(dir) ==> (r matches Ok(p) && p.dir@ == dir@ && p.wf()),
        docs_dir is None ==> (r matches Err(e) && e@ == no_documents_dir_error()),
{
    match docs_dir {
        Some(dir) => {
            let mut full = dir.clone();
            full.append("/");
            full.append("Litask Data.json");
            Ok(DataFilePath { dir, full })
        },
        None => Err(String::from_str("No documents dir")),
    }
}

/// Relies on dirs::document_dir: the platform's per-user documents
/// directory, when the platform defines one. The answer depends on the
/// user's environment, so nothing is assumed of it.
#[verifier::external_body]
fn document_dir() -> Option<String> {
    dirs::document_dir().map(|p| p.to_string_lossy().into_owned())
}

/// Resolves the full path of the data file: the platform's documents
/// directory with the fixed file name appended, or an error when no
/// documents directory can be determined.
pub fn data_file_path() -> (r: Result<DataFilePath, String>)
    ensures
        r matches Ok(p) ==> p.wf(),
        r matches Err(e) ==> e@ == no_documents_dir_error(),
{
    resolve_data_path(document_dir())
}

} // verus!
