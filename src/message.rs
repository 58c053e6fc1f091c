use vstd::prelude::*;

verus! {

/// Requests between the collection list and the record view.
pub enum Message {
    ApplyCollectionsFilter,
    CancelFilteringCollectionMode,
    FilterFromSelectingCollectionMode,
    SelectCollection(String),
    LoadMoreData,
}

impl Message {
    /// Whether handling this message starts a fetch, so that a loading
    /// indicator is due.
    pub fn should_trigger_loading(&self) -> (r: bool)
        ensures
            r == (self is SelectCollection || self is LoadMoreData),
    {
        match self {
            Message::SelectCollection(_) | Message::LoadMoreData => true,
            _ => false,
        }
    }

    /// The text of the loading indicator for a message that starts a fetch.
    pub fn loading_message(&self) -> (r: Option<&'static str>)
        ensures
            self is SelectCollection ==> r == Some("Fetching Data..."),
            self is LoadMoreData ==> r == Some("Loading More Data..."),
            !(self is SelectCollection || self is LoadMoreData) ==> r is None,
    {
        match self {
            Message::SelectCollection(_) => Some("Fetching Data..."),
            Message::LoadMoreData => Some("Loading More Data..."),
            _ => None,
        }
    }
}

} // verus!
