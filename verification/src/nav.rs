//! The navigation-retry protocol: bounded attempts to load a page, readiness
//! polling via an element selector, and fixed pauses between attempts and after
//! readiness. The decisions are verified here; issuing the browser commands,
//! polling, and sleeping are the driving caller's part.

use vstd::prelude::*;
use vstd::string::StringExecFns;

verus! {

/// Policy and target of one navigation: the destination URL, the selector whose
/// presence signals readiness, the attempt bound, and the two pauses.
pub struct NavPlan {
    pub url: String,
    pub ready_selector: String,
    pub max_attempts: u8,
    pub retry_wait_ms: u64,
    pub settle_ms: u64,
}

impl NavPlan {
    /// A plan is usable when at least one attempt is allowed.
    pub open spec fn wf(self) -> bool {
        self.max_attempts >= 1
    }
}

/// The plan for loading a search-results page: readiness is an anchor of the
/// result class, five attempts, one second between attempts, one second for
/// client-side rendering to settle.
pub fn search_nav_plan(url: String) -> (p: NavPlan)
    ensures
        p.wf(),
        p.url == url,
        p.ready_selector@ == "a.result__a"@,
        p.max_attempts == 5,
        p.retry_wait_ms == 1000,
        p.settle_ms == 1000,
{
    NavPlan {
        url,
        ready_selector: String::from_str("a.result__a"),
        max_attempts: 5,
        retry_wait_ms: 1000,
        settle_ms: 1000,
    }
}

/// The plan for loading an arbitrary result page: readiness is the document
/// body — the only marker every page offers — four attempts, a longer pause
/// between attempts, and a longer settle for script-heavy pages.
pub fn content_nav_plan(url: String) -> (p: NavPlan)
    ensures
        p.wf(),
        p.url == url,
        p.ready_selector@ == "body"@,
        p.max_attempts == 4,
        p.retry_wait_ms == 1500,
        p.settle_ms == 3000,
{
    NavPlan {
        url,
        ready_selector: String::from_str("body"),
        max_attempts: 4,
        retry_wait_ms: 1500,
        settle_ms: 3000,
    }
}

/// What the caller observed in one navigation attempt.
pub enum NavEvent {
    /// Issuing the navigation failed outright.
    IssueFailed,
    /// The readiness selector was found on the loaded page.
    ReadySeen,
    /// The page loaded but the readiness selector never appeared.
    ReadyMissing,
}

/// What the controller tells the caller to do after an attempt.
pub enum NavDirective {
    /// Navigation succeeded: pause this long for rendering to settle, then read.
    Settle { ms: u64 },
    /// Pause this long, then perform the next attempt.
    PauseAndRetry { ms: u64 },
    /// The readiness signal never appeared within the attempt bound.
    GiveUp { attempts: u8 },
}

/// Progress of one navigation.
pub enum NavPhase {
    Running,
    Succeeded,
    GivenUp,
}

/// The failure reported when navigation is given up: it names the readiness
/// signal that never appeared and how many attempts were allowed.
pub struct NavError {
    pub selector: String,
    pub attempts: u8,
}

/// The retry controller for one navigation. The caller performs one attempt
/// (issue navigation, best-effort acknowledgment, poll for the selector)
/// whenever the controller is running, and records what it observed.
pub struct NavController {
    pub plan: NavPlan,
    pub attempts_made: u8,
    pub phase: NavPhase,
}

impl NavController {
    /// Attempts stay within the bound: a running controller has an attempt left,
    /// and the controller gives up exactly when the bound is exhausted.
    pub open spec fn wf(self) -> bool {
        &&& self.plan.wf()
        &&& self.attempts_made <= self.plan.max_attempts
        &&& (self.phase is Running ==> self.attempts_made < self.plan.max_attempts)
        &&& (self.phase is GivenUp ==> self.attempts_made == self.plan.max_attempts)
    }

    /// A fresh controller, ready for the first attempt.
    pub fn start(plan: NavPlan) -> (c: NavController)
        requires
            plan.wf(),
        ensures
            c.wf(),
            c.plan == plan,
            c.attempts_made == 0,
            c.phase is Running,
    {
        NavController { plan, attempts_made: 0, phase: NavPhase::Running }
    }

    /// Whether another attempt is to be performed.
    pub fn running(&self) -> (b: bool)
        ensures
            b == (self.phase is Running),
    {
        match self.phase {
            NavPhase::Running => true,
            _ => false,
        }
    }

    /// Record what one attempt observed. Navigation succeeds as soon as the
    /// readiness selector is seen once; anything else is retried, with a pause,
    /// until the attempt bound is exhausted.
    pub fn record(&mut self, event: NavEvent) -> (d: NavDirective)
        requires
            old(self).wf(),
            old(self).phase is Running,
        ensures
            final(self).wf(),
            final(self).plan == old(self).plan,
            final(self).attempts_made == old(self).attempts_made + 1,
            (final(self).phase is Succeeded) == (event is ReadySeen),
            event is ReadySeen ==> d == (NavDirective::Settle { ms: old(self).plan.settle_ms }),
            !(event is ReadySeen) && old(self).attempts_made + 1 < old(self).plan.max_attempts
                ==> final(self).phase is Running && d == (NavDirective::PauseAndRetry {
                ms: old(self).plan.retry_wait_ms,
            }),
            !(event is ReadySeen) && old(self).attempts_made + 1 == old(self).plan.max_attempts
                ==> final(self).phase is GivenUp && d == (NavDirective::GiveUp {
                attempts: old(self).plan.max_attempts,
            }),
    {
        self.attempts_made = self.attempts_made + 1;
        match event {
            NavEvent::ReadySeen => {
                self.phase = NavPhase::Succeeded;
                NavDirective::Settle { ms: self.plan.settle_ms }
            },
            _ => {
                if self.attempts_made < self.plan.max_attempts {
                    NavDirective::PauseAndRetry { ms: self.plan.retry_wait_ms }
                } else {
                    self.phase = NavPhase::GivenUp;
                    NavDirective::GiveUp { attempts: self.attempts_made }
                }
            },
        }
    }

    /// The error for a navigation that was given up.
    pub fn failure(&self) -> (e: NavError)
        requires
            self.wf(),
            self.phase is GivenUp,
        ensures
            e.selector@ == self.plan.ready_selector@,
            e.attempts == self.plan.max_attempts,
    {
        NavError { selector: self.plan.ready_selector.clone(), attempts: self.attempts_made }
    }
}

} // verus!
