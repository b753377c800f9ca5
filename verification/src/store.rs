//! What saving and loading mean for the one file the store owns, and the
//! decision the load makes around the host's read of that file.

use vstd::prelude::*;

verus! {

/// The canonical empty document handed out while no file has been saved yet.
pub open spec fn empty_document() -> Seq<char> {
    "{\"tasks\":[],\"projects\":[]}"@
}

/// The empty document as text.
pub fn empty_document_text() -> (s: String)
    ensures
        s@ == empty_document(),
{
    String::from_str("{\"tasks\":[],\"projects\":[]}")
}

/// The data file as it stands on disk: whether its parent directory exists,
/// and the file's text where the file itself does.
pub struct FileState {
    /// Whether the documents directory currently exists.
    pub dir_exists: bool,
    /// The text of the data file, or `None` while no file has been written.
    pub contents: Option<String>,
}

/// The mathematical view of a `FileState`.
pub struct FileStateView {
    /// Whether the documents directory currently exists.
    pub dir_exists: bool,
    /// The text of the data file, or `None` while no file has been written.
    pub contents: Option<Seq<char>>,
}

impl View for FileState {
    type V = FileStateView;

    open spec fn view(&self) -> FileStateView {
        FileStateView {
            dir_exists: self.dir_exists,
            contents: match self.contents {
                Some(text) => Some(text@),
                None => None,
            },
        }
    }
}

/// The effect of a successful save: afterwards the documents directory exists
/// and the file holds exactly the saved text, whatever stood there before.
pub open spec fn save_effect(state: FileStateView, content: Seq<char>) -> FileStateView {
    FileStateView { dir_exists: true, contents: Some(content) }
}

/// What a load returns: the file's text when the file exists, the canonical
/// empty document when it does not. A load never changes the state.
pub open spec fn load_result(state: FileStateView) -> Seq<char> {
    match state.contents {
        Some(text) => text,
        None => empty_document(),
    }
}

/// Applies a save to a file state: afterwards the directory exists and the
/// file holds exactly `content`.
pub fn apply_save(state: &mut FileState, content: String)
    ensures
        final(state)@ == save_effect(old(state)@, content@),
{
    state.dir_exists = true;
    state.contents = Some(content);
}

/// Reads a file state as a load does: the file's text when the file is
/// present, the canonical empty document otherwise. The state is not touched.
pub fn apply_load(state: &FileState) -> (r: String)
    ensures
        r@ == load_result(state@),
{
    match &state.contents {
        Some(text) => text.clone(),
        None => empty_document_text(),
    }
}

/// What the host's attempt to read the data file produced: the file's text,
/// an absent file, or another failure described as text.
pub enum ReadOutcome {
    /// The file exists and was read in full.
    Found(String),
    /// The file does not exist yet.
    Missing,
    /// The read failed for another reason (permissions, device error, ...).
    Failed(String),
}

/// Turns the host's read of the data file into the load's answer: the file's
/// text when it was read, the canonical empty document when the file is
/// absent, and the failure itself in every other case.
pub fn complete_load(read: ReadOutcome) -> (r: Result<String, String>)
    ensures
        read matches ReadOutcome::Found(text) ==> (r matches Ok(out) && out@ == text@),
        read is Missing ==> (r matches Ok(out) && out@ == empty_document()),
        read matches ReadOutcome::Failed(err) ==> (r matches Err(out) && out@ == err@),
{
    match read {
        ReadOutcome::Found(text) => Ok(text),
        ReadOutcome::Missing => Ok(empty_document_text()),
        ReadOutcome::Failed(err) => Err(err),
    }
}

/// Round trip: after a save of any text, from any prior state, a load
/// returns exactly that text.
pub proof fn lemma_save_then_load(state: FileStateView, content: Seq<char>)
    ensures
        load_result(save_effect(state, content)) == content,
{
}

/// Missing-file default: while no file exists, a load returns exactly the
/// canonical empty document.
pub proof fn lemma_load_of_missing_file(state: FileStateView)
    requires
        state.contents is None,
    ensures
        load_result(state) == empty_document(),
{
}

/// A later save fully replaces an earlier one: saving twice leaves the file
/// exactly as a single save of the later text would.
pub proof fn lemma_save_replaces(state: FileStateView, first: Seq<char>, second: Seq<char>)
    ensures
        save_effect(save_effect(state, first), second) == save_effect(state, second),
{
}

/// Directory creation: a save goes through from any state, one without the
/// documents directory included; afterwards the directory exists and the file
/// holds the saved text.
pub proof fn lemma_save_creates_directory(state: FileStateView, content: Seq<char>)
    ensures
        save_effect(state, content).dir_exists,
        load_result(save_effect(state, content)) == content,
{
}

} // verus!
