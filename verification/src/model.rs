//! The data model: one discovered search hit and its mathematical view.

use vstd::prelude::*;
use vstd::string::StringExecFns;

verus! {

/// Mathematical view of one search hit.
pub ghost struct ResultModel {
    pub title: Seq<char>,
    pub url: Seq<char>,
    pub content: Option<Seq<char>>,
}

/// One discovered search hit: a display title, the decoded destination URL, and
/// the page markup once a fetch has been attempted. `content` is absent only
/// until the content fetcher has run; a failed fetch records a placeholder.
pub struct SearchResult {
    pub title: String,
    pub url: String,
    pub content: Option<String>,
}

impl View for SearchResult {
    type V = ResultModel;

    open spec fn view(&self) -> ResultModel {
        ResultModel { title: self.title@, url: self.url@, content: self.content.deep_view() }
    }
}

/// The views of a sequence of search hits.
pub open spec fn models(rs: Seq<SearchResult>) -> Seq<ResultModel> {
    rs.map_values(|r: SearchResult| r@)
}

/// The placeholder recorded as a result's content when fetching it failed.
pub open spec fn failure_note(err: Seq<char>) -> Seq<char> {
    "Failed to fetch content: "@ + err
}

/// The content recorded for a fetch outcome: the page markup on success, the
/// failure placeholder on failure.
pub open spec fn recorded_content(outcome: Result<Seq<char>, Seq<char>>) -> Seq<char> {
    match outcome {
        Ok(markup) => markup,
        Err(err) => failure_note(err),
    }
}

impl SearchResult {
    /// A freshly extracted hit: no content fetch has been attempted yet.
    pub fn new(title: String, url: String) -> (r: SearchResult)
        ensures
            r@ == (ResultModel { title: title@, url: url@, content: None::<Seq<char>> }),
    {
        SearchResult { title, url, content: None }
    }

    /// Record the outcome of a content fetch. Afterwards content is never absent:
    /// a failure leaves the fixed placeholder text followed by the error detail.
    pub fn record_content(&mut self, outcome: Result<String, String>)
        ensures
            final(self)@.title == old(self)@.title,
            final(self)@.url == old(self)@.url,
            final(self)@.content == Some(
                recorded_content(
                    match outcome {
                        Ok(markup) => Ok::<Seq<char>, Seq<char>>(markup@),
                        Err(err) => Err::<Seq<char>, Seq<char>>(err@),
                    },
                ),
            ),
    {
        match outcome {
            Ok(markup) => {
                self.content = Some(markup);
            },
            Err(err) => {
                let mut note = String::from_str("Failed to fetch content: ");
                note.append(err.as_str());
                self.content = Some(note);
            },
        }
    }
}

} // verus!
