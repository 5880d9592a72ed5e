use vstd::prelude::*;

verus! {

/// Why the notifier cannot go on.
#[derive(Debug)]
pub enum NotifierError {
    /// A required setting is absent; `variable` names it.
    Config { variable: String },
    /// The server answered with a nonzero status; `text` is its diagnostic.
    ServerReported { status: u32, text: String },
    /// No folder of the response matches the target-folder selector.
    FolderNotFound,
}

} // verus!
