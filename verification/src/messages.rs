//! The payload that the producer sends and the consumer handles.

use crate::identifiers::{is_uuid_text, new_uuid_text};
use vstd::prelude::*;

verus! {

/// A note that there is something to process.
#[derive(Debug, PartialEq, Eq)]
pub struct LogInfo {
    pub message: String,
    pub extra: String,
}

/// A note as a value of the model.
pub struct LogInfoView {
    pub message: Seq<char>,
    pub extra: Seq<char>,
}

impl LogInfoView {
    /// The note that announces the piece of work with the identifier `id`.
    pub open spec fn announcing(id: Seq<char>) -> LogInfoView {
        LogInfoView { message: "New message to process."@, extra: "The unique id is: "@ + id }
    }
}

impl View for LogInfo {
    type V = LogInfoView;

    open spec fn view(&self) -> LogInfoView {
        LogInfoView { message: self.message@, extra: self.extra@ }
    }
}

impl LogInfo {
    /// The note that announces the piece of work with the identifier `id`.
    pub fn with_id(id: &str) -> (note: LogInfo)
        ensures
            note@ == LogInfoView::announcing(id@),
    {
        LogInfo {
            message: String::from_str("New message to process."),
            extra: String::from_str("The unique id is: ").concat(id),
        }
    }

    /// A note that announces a piece of work under a freshly drawn UUID.
    pub fn new_random() -> (note: LogInfo)
        ensures
            exists|id: Seq<char>| is_uuid_text(id) && note@ == #[trigger] LogInfoView::announcing(id),
    {
        let id = new_uuid_text();
        let note = LogInfo::with_id(id.as_str());
        assert(is_uuid_text(id@) && note@ == LogInfoView::announcing(id@));
        note
    }
}

} // verus!
