//! The run orchestration: search once, fetch each hit's page in order, write the
//! archive once. A failed search is fatal and nothing is written; a failed fetch
//! only leaves that hit the failure placeholder and the run moves on; the write
//! is directed exactly once, after every fetch has been attempted.

use crate::model::{recorded_content, SearchResult};
use vstd::pervasive::unreached;
use vstd::prelude::*;
use vstd::string::StringExecFns;

verus! {

/// The closed set of failure kinds a run can end with. A fetch failure is not
/// here: it is converted to data (the hit's placeholder content), never raised.
pub enum RunError {
    /// The browser process or its tab could not be created; nothing was done.
    Launch { detail: String },
    /// A readiness signal never appeared within the allotted retries.
    Navigation { selector: String, attempts: u8 },
    /// The archive folder or file could not be written.
    Io { detail: String },
}

/// The user-visible message for each failure kind.
pub open spec fn run_error_text(e: RunError) -> Seq<char> {
    match e {
        RunError::Launch { detail } => "failed to launch the browser: "@ + detail@,
        RunError::Navigation { selector, attempts } => "navigation failed: readiness signal '"@
            + selector@ + "' never appeared"@,
        RunError::Io { detail } => "could not write the archive: "@ + detail@,
    }
}

impl RunError {
    /// The message reported for this failure.
    pub fn describe(&self) -> (m: String)
        ensures
            m@ == run_error_text(*self),
    {
        match self {
            RunError::Launch { detail } => {
                let mut m = String::from_str("failed to launch the browser: ");
                m.append(detail.as_str());
                m
            },
            RunError::Navigation { selector, attempts: _ } => {
                let mut m = String::from_str("navigation failed: readiness signal '");
                m.append(selector.as_str());
                m.append("' never appeared");
                m
            },
            RunError::Io { detail } => {
                let mut m = String::from_str("could not write the archive: ");
                m.append(detail.as_str());
                m
            },
        }
    }
}

/// Where a run stands. There are no reverse transitions.
pub enum RunPhase {
    /// Awaiting the search outcome.
    Searching,
    /// Awaiting the fetch outcome for the hit at this position.
    Fetching { idx: usize },
    /// Awaiting the archive write outcome.
    Writing,
    /// The archive was written.
    Done,
    /// The run failed: the search or the write failed.
    Failed,
}

/// What the driver must do next.
pub enum RunDirective {
    DoSearch,
    DoFetch { idx: usize },
    DoWrite,
    ReportSuccess,
    ReportFailure,
}

/// The orchestrator state: the query, the hits found so far, and the phase.
pub struct RunMachine {
    pub query: String,
    pub results: Vec<SearchResult>,
    pub phase: RunPhase,
}

impl RunMachine {
    /// Hits before the fetch position have content recorded, those at or past it
    /// none yet; once the write is directed, every hit has content — a fetch
    /// failure leaves a placeholder, never a hole.
    pub open spec fn wf(self) -> bool {
        &&& (self.phase is Searching ==> self.results@.len() == 0)
        &&& (self.phase matches RunPhase::Fetching { idx } ==> idx < self.results@.len() && (
        forall|k: int| 0 <= k < idx ==> (#[trigger] self.results@[k])@.content is Some) && (forall|
            k: int,
        | idx <= k < self.results@.len() ==> (#[trigger] self.results@[k])@.content is None))
        &&& ((self.phase is Writing || self.phase is Done) ==> forall|k: int|
            0 <= k < self.results@.len() ==> (#[trigger] self.results@[k])@.content is Some)
    }

    /// The action awaited in each phase.
    pub open spec fn spec_directive(self) -> RunDirective {
        match self.phase {
            RunPhase::Searching => RunDirective::DoSearch,
            RunPhase::Fetching { idx } => RunDirective::DoFetch { idx },
            RunPhase::Writing => RunDirective::DoWrite,
            RunPhase::Done => RunDirective::ReportSuccess,
            RunPhase::Failed => RunDirective::ReportFailure,
        }
    }

    /// A fresh run for a query: the search is awaited first.
    pub fn start(query: String) -> (m: RunMachine)
        ensures
            m.wf(),
            m.query == query,
            m.results@.len() == 0,
            m.phase is Searching,
    {
        RunMachine { query, results: Vec::new(), phase: RunPhase::Searching }
    }

    /// What the driver must do next.
    pub fn directive(&self) -> (d: RunDirective)
        ensures
            d == self.spec_directive(),
    {
        match &self.phase {
            RunPhase::Searching => RunDirective::DoSearch,
            RunPhase::Fetching { idx } => RunDirective::DoFetch { idx: *idx },
            RunPhase::Writing => RunDirective::DoWrite,
            RunPhase::Done => RunDirective::ReportSuccess,
            RunPhase::Failed => RunDirective::ReportFailure,
        }
    }

    /// Record a successful search. With no hits there is nothing to fetch and
    /// the archive — with its empty list — is still written next.
    pub fn on_search_ok(&mut self, found: Vec<SearchResult>)
        requires
            old(self).wf(),
            old(self).phase is Searching,
            forall|k: int| 0 <= k < found@.len() ==> (#[trigger] found@[k])@.content is None,
        ensures
            final(self).wf(),
            final(self).query == old(self).query,
            final(self).results == found,
            found@.len() == 0 ==> final(self).phase is Writing,
            found@.len() > 0 ==> final(self).phase == (RunPhase::Fetching { idx: 0 }),
    {
        let has_any = found.len() > 0;
        self.results = found;
        self.phase = if has_any {
            RunPhase::Fetching { idx: 0 }
        } else {
            RunPhase::Writing
        };
    }

    /// Record a failed search: fatal, the run moves straight to the failed
    /// state, whose only directive is the failure report — no fetch and no
    /// write is ever directed after it.
    pub fn on_search_failed(&mut self)
        requires
            old(self).wf(),
            old(self).phase is Searching,
        ensures
            final(self).wf(),
            final(self).query == old(self).query,
            final(self).results@.len() == 0,
            final(self).phase is Failed,
            final(self).spec_directive() is ReportFailure,
    {
        self.phase = RunPhase::Failed;
    }

    /// Record one fetch outcome, in discovery order. A failure never ends the
    /// run: the hit's content becomes the failure placeholder and the run moves
    /// on — the next directive is another fetch or the write, never a report.
    pub fn on_fetch(&mut self, outcome: Result<String, String>)
        requires
            old(self).wf(),
            old(self).phase matches RunPhase::Fetching { .. },
        ensures
            final(self).wf(),
            final(self).query == old(self).query,
            final(self).results@.len() == old(self).results@.len(),
            ({
                let idx = old(self).phase->idx as int;
                &&& final(self).results@[idx]@.title == old(self).results@[idx]@.title
                &&& final(self).results@[idx]@.url == old(self).results@[idx]@.url
                &&& final(self).results@[idx]@.content == Some(
                    recorded_content(
                        match outcome {
                            Ok(markup) => Ok::<Seq<char>, Seq<char>>(markup@),
                            Err(err) => Err::<Seq<char>, Seq<char>>(err@),
                        },
                    ),
                )
                &&& (forall|k: int|
                    0 <= k < old(self).results@.len() && k != idx ==> final(self).results@[k]
                        == old(self).results@[k])
                &&& (idx + 1 < old(self).results@.len() ==> final(self).phase == (RunPhase::Fetching {
                    idx: (idx + 1) as usize,
                }))
                &&& (idx + 1 == old(self).results@.len() ==> final(self).phase is Writing)
            }),
            final(self).spec_directive() is DoFetch || final(self).spec_directive() is DoWrite,
    {
        let idx: usize = match &self.phase {
            RunPhase::Fetching { idx } => *idx,
            _ => unreached(),
        };
        let title = self.results[idx].title.clone();
        let url = self.results[idx].url.clone();
        let mut hit = SearchResult { title, url, content: None };
        hit.record_content(outcome);
        self.results.set(idx, hit);
        let n = self.results.len();
        proof {
            assert(idx == old(self).phase->idx);
            assert(idx < n);
        }
        self.phase = if idx + 1 < n {
            RunPhase::Fetching { idx: idx + 1 }
        } else {
            RunPhase::Writing
        };
    }

    /// Record the archive write outcome: success ends the run well; a write
    /// failure is fatal and reported.
    pub fn on_write(&mut self, ok: bool)
        requires
            old(self).wf(),
            old(self).phase is Writing,
        ensures
            final(self).wf(),
            final(self).query == old(self).query,
            final(self).results == old(self).results,
            ok ==> final(self).phase is Done,
            !ok ==> final(self).phase is Failed,
    {
        self.phase = if ok {
            RunPhase::Done
        } else {
            RunPhase::Failed
        };
    }
}

} // verus!
