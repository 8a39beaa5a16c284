use vstd::prelude::*;
use crate::git::FileState;

verus! {

/// A one-line text prompt: what was entered.
pub struct InputWindow {
    pub text: String,
}

impl InputWindow {
    /// A prompt with nothing entered.
    pub fn new() -> (r: InputWindow)
        ensures
            r.text@ == Seq::<char>::empty(),
    {
        InputWindow { text: String::new() }
    }
}

/// The commit graph view: its search term.
pub struct LogWindow {
    pub term: String,
}

impl LogWindow {
    /// A graph view with no search term.
    pub fn new() -> (r: LogWindow)
        ensures
            r.term@ == Seq::<char>::empty(),
    {
        LogWindow { term: String::new() }
    }
}

/// The changes of one commit: the commit and the search term.
pub struct CommitDiffWindow {
    pub commit_hash: String,
    pub term: String,
}

impl CommitDiffWindow {
    /// The view of the changes of `commit_hash`, with no search term.
    pub fn new(commit_hash: &str) -> (r: CommitDiffWindow)
        ensures
            r.commit_hash@ == commit_hash@,
            r.term@ == Seq::<char>::empty(),
    {
        CommitDiffWindow { commit_hash: String::from_str(commit_hash), term: String::new() }
    }
}

/// The changes of one file: its path, its state and the search term.
pub struct DiffWindow {
    pub path: String,
    pub file_state: FileState,
    pub term: String,
}

impl DiffWindow {
    /// The view of the changes of the file at `path` in state `file_state`,
    /// with no search term.
    pub fn new(path: &str, file_state: FileState) -> (r: DiffWindow)
        ensures
            r.path@ == path@,
            r.file_state == file_state,
            r.term@ == Seq::<char>::empty(),
    {
        DiffWindow { path: String::from_str(path), file_state, term: String::new() }
    }
}

/// A yes/no question with what to do on each answer.
pub struct PromptWindow<TYes, TNo> {
    pub message: String,
    pub on_yes: TYes,
    pub on_no: TNo,
}

impl<TYes, TNo> PromptWindow<TYes, TNo> {
    /// The question `message`, doing `on_yes` or `on_no`.
    pub fn new(message: &str, on_yes: TYes, on_no: TNo) -> (r: PromptWindow<TYes, TNo>)
        ensures
            r.message@ == message@,
            r.on_yes == on_yes,
            r.on_no == on_no,
    {
        PromptWindow { message: String::from_str(message), on_yes, on_no }
    }
}

} // verus!
