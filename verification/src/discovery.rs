//! The bookkeeping of a discovery run: when to crawl on, which probes to
//! start, what to hand to the sink, and when to report that the run is over.
//!
//! The run itself is the driver's: it performs what `next` names and tells
//! the `Discovery` what came of it.

use crate::crawl::QueryState;
use crate::endpoint::Server;
use crate::error::DiscoveryError;
use crate::info::{ServerInfo, ServerInfoView};
use crate::probe::{ProbeOutcome, ProbeOutcomeView};
use vstd::prelude::*;

verus! {

/// What the driver of a run does next.
#[derive(Clone, Copy, Debug, PartialEq, Eq)]
pub enum Action {
    /// Ask the directory for its next page.
    Crawl,
    /// The crawl is over: wait for one of the probes under way to end.
    Await,
    /// Report that the run is over, with how the crawl ended.
    Complete(Result<(), DiscoveryError>),
    /// The end of the run was reported: nothing is left to do.
    Idle,
}

/// The state of a run.
#[derive(Debug)]
pub struct Discovery {
    status: Option<Result<(), DiscoveryError>>,
    outstanding: usize,
    reported: bool,
}

/// What a `Discovery` holds, as plain values.
pub struct DiscoveryView {
    /// How the crawl ended; `None` while it runs.
    pub status: Option<Result<(), DiscoveryError>>,
    /// The number of probes that were started and have not ended.
    pub outstanding: nat,
    /// Whether the end of the run was reported.
    pub reported: bool,
}

impl DiscoveryView {
    /// The end of a run is reported only after the crawl ended and every
    /// probe that was started has ended.
    pub open spec fn wf(self) -> bool {
        self.reported ==> self.status is Some && self.outstanding == 0
    }

    /// The state once a request to cancel was seen or not: a request ends a
    /// crawl that still runs, without an error.
    pub open spec fn observe(self, cancelled: bool) -> DiscoveryView {
        if cancelled && self.status is None {
            DiscoveryView { status: Some(Ok(())), ..self }
        } else {
            self
        }
    }

    /// What the driver does next.
    pub open spec fn action(self, cancelled: bool) -> Action {
        if self.reported {
            Action::Idle
        } else {
            match self.observe(cancelled).status {
                None => Action::Crawl,
                Some(status) => if self.outstanding > 0 {
                    Action::Await
                } else {
                    Action::Complete(status)
                },
            }
        }
    }

    /// The state after the driver was told what to do next.
    pub open spec fn after_next(self, cancelled: bool) -> DiscoveryView {
        if self.reported {
            self
        } else {
            let seen = self.observe(cancelled);
            DiscoveryView { reported: seen.status is Some && seen.outstanding == 0, ..seen }
        }
    }

    /// Whether a probe is started now: only while the crawl runs and no
    /// request to cancel is seen.
    pub open spec fn admits_probe(self, cancelled: bool) -> bool {
        !cancelled && self.status is None
    }

    /// The state after a probe was asked for.
    pub open spec fn after_start(self, cancelled: bool) -> DiscoveryView {
        if self.admits_probe(cancelled) {
            DiscoveryView { outstanding: self.outstanding + 1, ..self }
        } else if self.reported {
            self
        } else {
            self.observe(cancelled)
        }
    }

    /// The state after the crawl ended with `status`. Only the first end of
    /// a crawl counts.
    pub open spec fn after_crawl(self, status: Result<(), DiscoveryError>) -> DiscoveryView {
        if self.status is None {
            DiscoveryView { status: Some(status), ..self }
        } else {
            self
        }
    }

    /// The state after one probe ended, however it ended.
    pub open spec fn after_probe(self) -> DiscoveryView
        recommends
            self.outstanding > 0,
    {
        DiscoveryView { outstanding: (self.outstanding - 1) as nat, ..self }
    }
}

/// How a step of the crawl ends the crawl, if it does: a failed step ends it
/// with its error, a step without a page ends it without one, and a step
/// with a page does not end it.
pub open spec fn step_end<A>(
    outcome: Result<Option<(Vec<Server>, QueryState<A>)>, DiscoveryError>,
) -> Option<Result<(), DiscoveryError>> {
    match outcome {
        Err(e) => Some(Err(e)),
        Ok(None) => Some(Ok(())),
        Ok(Some(_)) => None,
    }
}

/// The page that a step of the crawl brought, if it brought one.
pub open spec fn step_page<A>(
    outcome: Result<Option<(Vec<Server>, QueryState<A>)>, DiscoveryError>,
) -> Option<(Vec<Server>, QueryState<A>)> {
    match outcome {
        Ok(Some(page)) => Some(page),
        _ => None,
    }
}

/// What the sink gets of a probe: the record of one that succeeded, nothing
/// of one that failed.
pub open spec fn delivery(outcome: ProbeOutcomeView) -> Option<ServerInfoView> {
    match outcome {
        ProbeOutcomeView::Success(info) => Some(info),
        ProbeOutcomeView::Failed(_) => None,
    }
}

/// A delivery with the record taken by its view.
pub open spec fn delivery_view(r: Option<ServerInfo>) -> Option<ServerInfoView> {
    match r {
        Some(info) => Some(info@),
        None => None,
    }
}

impl View for Discovery {
    type V = DiscoveryView;

    closed spec fn view(&self) -> DiscoveryView {
        DiscoveryView {
            status: self.status,
            outstanding: self.outstanding as nat,
            reported: self.reported,
        }
    }
}

impl Discovery {
    /// A run at its start: the crawl runs, no probe is under way.
    pub fn new() -> (r: Discovery)
        ensures
            r@ == (DiscoveryView { status: None, outstanding: 0, reported: false }),
            r@.wf(),
    {
        Discovery { status: None, outstanding: 0, reported: false }
    }

    /// How the crawl ended; `None` while it runs.
    pub fn status(&self) -> (r: Option<Result<(), DiscoveryError>>)
        ensures
            r == self@.status,
    {
        self.status
    }

    /// The number of probes that were started and have not ended.
    pub fn outstanding(&self) -> (r: usize)
        ensures
            r == self@.outstanding,
    {
        self.outstanding
    }

    /// Whether the end of the run was reported.
    pub fn is_reported(&self) -> (r: bool)
        ensures
            r == self@.reported,
    {
        self.reported
    }

    /// Names what the driver does next, given whether a request to cancel
    /// was made. The end of the run is named once: after that the answer is
    /// `Idle`.
    pub fn next(&mut self, cancelled: bool) -> (r: Action)
        requires
            old(self)@.wf(),
        ensures
            r == old(self)@.action(cancelled),
            final(self)@ == old(self)@.after_next(cancelled),
            final(self)@.wf(),
    {
        if self.reported {
            return Action::Idle;
        }
        if cancelled && self.status.is_none() {
            self.status = Some(Ok(()));
        }
        match self.status {
            None => Action::Crawl,
            Some(status) => {
                if self.outstanding > 0 {
                    Action::Await
                } else {
                    self.reported = true;
                    Action::Complete(status)
                }
            },
        }
    }

    /// Records that the crawl ended with `status`.
    pub fn crawl_ended(&mut self, status: Result<(), DiscoveryError>)
        requires
            old(self)@.wf(),
        ensures
            final(self)@ == old(self)@.after_crawl(status),
            final(self)@.wf(),
    {
        if self.status.is_none() {
            self.status = Some(status);
        }
    }

    /// Records what a step of the crawl came to, and hands on the page it
    /// brought with the state that follows, if it brought one.
    pub fn crawl_stepped<A>(
        &mut self,
        outcome: Result<Option<(Vec<Server>, QueryState<A>)>, DiscoveryError>,
    ) -> (r: Option<(Vec<Server>, QueryState<A>)>)
        requires
            old(self)@.wf(),
        ensures
            r == step_page(outcome),
            final(self)@ == (match step_end(outcome) {
                Some(status) => old(self)@.after_crawl(status),
                None => old(self)@,
            }),
            final(self)@.wf(),
    {
        match outcome {
            Err(e) => {
                self.crawl_ended(Err(e));
                None
            },
            Ok(None) => {
                self.crawl_ended(Ok(()));
                None
            },
            Ok(Some(page)) => Some(page),
        }
    }

    /// Decides whether the probe of one more endpoint is started, given
    /// whether a request to cancel was made, and counts it if so.
    pub fn start_probe(&mut self, cancelled: bool) -> (r: bool)
        requires
            old(self)@.wf(),
            old(self)@.outstanding < usize::MAX,
        ensures
            r == old(self)@.admits_probe(cancelled),
            final(self)@ == old(self)@.after_start(cancelled),
            final(self)@.wf(),
    {
        if self.status.is_some() {
            return false;
        }
        if cancelled {
            self.status = Some(Ok(()));
            return false;
        }
        self.outstanding = self.outstanding + 1;
        true
    }

    /// Records that one probe ended, and gives what the sink gets of it.
    pub fn probe_resolved(&mut self, outcome: ProbeOutcome) -> (r: Option<ServerInfo>)
        requires
            old(self)@.wf(),
            old(self)@.outstanding > 0,
        ensures
            delivery_view(r) == delivery(outcome@),
            final(self)@ == old(self)@.after_probe(),
            final(self)@.wf(),
    {
        self.outstanding = self.outstanding - 1;
        match outcome {
            ProbeOutcome::Success(info) => Some(info),
            ProbeOutcome::Failed(_) => None,
        }
    }
}

/// The end of a run is reported once, and only when the crawl has ended and
/// no probe is under way; it carries how the crawl ended. After it nothing
/// changes any more.
pub proof fn lemma_reports_once(state: DiscoveryView, cancelled: bool, later: bool)
    requires
        state.wf(),
    ensures
        state.action(cancelled) is Complete <==> !state.reported && state.outstanding == 0
            && state.observe(cancelled).status is Some,
        state.action(cancelled) is Complete ==> {
            &&& Some(state.action(cancelled)->Complete_0) == state.observe(cancelled).status
            &&& state.after_next(cancelled).reported
            &&& state.after_next(cancelled).action(later) == Action::Idle
            &&& state.after_next(cancelled).after_next(later) == state.after_next(cancelled)
        },
        !(state.action(cancelled) is Complete) ==> state.after_next(cancelled).reported
            == state.reported,
{
}

/// Once the end of a run was reported nothing changes the state any more:
/// no request for the next action, no probe asked for, no end of a crawl.
/// No probe can end then, since none is under way.
pub proof fn lemma_reported_is_final(
    state: DiscoveryView,
    cancelled: bool,
    status: Result<(), DiscoveryError>,
)
    requires
        state.wf(),
        state.reported,
    ensures
        state.action(cancelled) == Action::Idle,
        state.after_next(cancelled) == state,
        state.after_start(cancelled) == state,
        !state.admits_probe(cancelled),
        state.after_crawl(status) == state,
        state.outstanding == 0,
{
}

/// A crawl that fails is reported as failed, whether or not a request to
/// cancel is seen afterwards: once the probes under way have ended, the
/// report carries the crawl's error.
pub proof fn lemma_failed_crawl_is_reported(
    state: DiscoveryView,
    error: DiscoveryError,
    cancelled: bool,
)
    requires
        state.wf(),
        state.status is None,
    ensures
        state.after_crawl(Err(error)).status == Some(Err::<(), DiscoveryError>(error)),
        state.after_crawl(Err(error)).after_next(cancelled).status == Some(
            Err::<(), DiscoveryError>(error),
        ),
        state.after_crawl(Err(error)).action(cancelled) == (if state.outstanding > 0 {
            Action::Await
        } else {
            Action::Complete(Err(error))
        }),
{
}

/// One thing that happens to a run.
pub enum Event {
    /// The driver asked what to do next, having seen a request to cancel or not.
    Next(bool),
    /// The crawl ended.
    CrawlEnded(Result<(), DiscoveryError>),
    /// A probe was asked for, a request to cancel seen or not.
    ProbeAsked(bool),
    /// A probe ended.
    ProbeEnded,
}

/// The state after one event.
pub open spec fn after_event(state: DiscoveryView, event: Event) -> DiscoveryView {
    match event {
        Event::Next(cancelled) => state.after_next(cancelled),
        Event::CrawlEnded(status) => state.after_crawl(status),
        Event::ProbeAsked(cancelled) => state.after_start(cancelled),
        Event::ProbeEnded => state.after_probe(),
    }
}

/// The state of a run after the events of `history`, from its start.
pub open spec fn state_after(history: Seq<Event>) -> DiscoveryView
    decreases history.len(),
{
    if history.len() == 0 {
        DiscoveryView { status: None, outstanding: 0, reported: false }
    } else {
        after_event(state_after(history.drop_last()), history.last())
    }
}

/// True when in `history` a probe only ends while one is under way.
pub open spec fn possible(history: Seq<Event>) -> bool
    decreases history.len(),
{
    history.len() == 0 || (possible(history.drop_last()) && (history.last() is ProbeEnded
        ==> state_after(history.drop_last()).outstanding > 0))
}

/// How often the driver was told in `history` to report the end of the run.
pub open spec fn reports(history: Seq<Event>) -> nat
    decreases history.len(),
{
    if history.len() == 0 {
        0
    } else {
        let before = state_after(history.drop_last());
        let now: nat = match history.last() {
            Event::Next(cancelled) => if before.action(cancelled) is Complete {
                1
            } else {
                0
            },
            _ => 0,
        };
        reports(history.drop_last()) + now
    }
}

/// Whatever happens to a run, in whatever order, its end is reported at most
/// once, and was reported exactly when the state says so; and then the crawl
/// has ended and no probe is under way.
pub proof fn lemma_one_report_per_run(history: Seq<Event>)
    requires
        possible(history),
    ensures
        state_after(history).wf(),
        reports(history) <= 1,
        reports(history) == 1 <==> state_after(history).reported,
    decreases history.len(),
{
    if history.len() > 0 {
        lemma_one_report_per_run(history.drop_last());
    }
}

/// How a probe ends never changes how the run ends: the status of the crawl
/// is the same before and after, and a started probe holds the report back
/// until it has ended.
pub proof fn lemma_probes_do_not_fail_the_run(state: DiscoveryView, cancelled: bool)
    requires
        state.wf(),
        state.outstanding > 0,
    ensures
        state.after_probe().status == state.status,
        state.after_probe().wf(),
        !(state.action(cancelled) is Complete),
{
}

/// Once the crawl has ended no probe is started and no page is asked for,
/// and its status stays what it was.
pub proof fn lemma_ended_crawl_stays_ended(
    state: DiscoveryView,
    cancelled: bool,
    status: Result<(), DiscoveryError>,
)
    requires
        state.wf(),
        state.status is Some,
    ensures
        !state.admits_probe(cancelled),
        state.action(cancelled) != Action::Crawl,
        state.after_start(cancelled) == state,
        state.after_crawl(status) == state,
        state.after_next(cancelled).status == state.status,
{
}

/// A request to cancel stops new work at once: no page is asked for and no
/// probe is started, and the run ends without an error if the crawl had not
/// ended before.
pub proof fn lemma_cancel_stops_new_work(state: DiscoveryView)
    requires
        state.wf(),
    ensures
        !state.admits_probe(true),
        state.action(true) != Action::Crawl,
        state.after_start(true).outstanding == state.outstanding,
        state.status is None ==> state.after_next(true).status == Some(
            Ok::<(), DiscoveryError>(()),
        ),
{
}

} // verus!
