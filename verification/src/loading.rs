use vstd::prelude::*;

verus! {

/// How many times a connectivity probe tries before it gives up.
pub const PROBE_ATTEMPTS: u32 = 3;

/// What a connectivity probe does next.
#[derive(Clone, Copy, Debug, PartialEq, Eq, Structural)]
pub enum ProbeStep {
    /// Send a request to the test URL now.
    Attempt,
    /// Wait one second, then send a request.
    SleepThenAttempt,
    /// Stop: whether the source answered.
    Done(bool),
}

/// A connectivity probe: up to three requests to a source's test URL, one
/// second apart, until one answers with a non-empty body.
#[derive(Debug)]
pub struct Probe {
    /// Requests sent so far.
    pub attempts: u32,
}

/// One step of the probe after a request: done on an answer, done after the
/// third failure, otherwise wait and retry.
pub open spec fn probe_step(attempts: u32, answered: bool) -> ProbeStep {
    if answered {
        ProbeStep::Done(true)
    } else if attempts + 1 < 3 {
        ProbeStep::SleepThenAttempt
    } else {
        ProbeStep::Done(false)
    }
}

impl Probe {
    /// A probe of a test URL (the source selector's probe gives up at once on
    /// an empty URL).
    pub fn start(url_is_empty: bool) -> (r: (Probe, ProbeStep))
        ensures
            r.0.attempts == 0,
            r.1 == (if url_is_empty { ProbeStep::Done(false) } else { ProbeStep::Attempt }),
    {
        if url_is_empty {
            (Probe { attempts: 0 }, ProbeStep::Done(false))
        } else {
            (Probe { attempts: 0 }, ProbeStep::Attempt)
        }
    }

    /// The outcome of a request: `answered` when it returned a non-empty body.
    pub fn on_result(&mut self, answered: bool) -> (r: ProbeStep)
        requires
            old(self).attempts < PROBE_ATTEMPTS,
        ensures
            final(self).attempts == old(self).attempts + 1,
            r == probe_step(old(self).attempts, answered),
    {
        self.attempts = self.attempts + 1;
        if answered {
            ProbeStep::Done(true)
        } else if self.attempts < PROBE_ATTEMPTS {
            ProbeStep::SleepThenAttempt
        } else {
            ProbeStep::Done(false)
        }
    }
}

/// The outcome of a probe whose requests had the given outcomes (from the
/// `made`-th request on), or `None` when the outcomes run out first.
pub open spec fn probe_outcome(made: u32, outcomes: Seq<bool>) -> Option<bool>
    decreases outcomes.len(),
{
    if outcomes.len() == 0 || made >= 3 {
        None
    } else {
        match probe_step(made, outcomes[0]) {
            ProbeStep::Done(v) => Some(v),
            _ => probe_outcome((made + 1) as u32, outcomes.drop_first()),
        }
    }
}

/// A probe decides within three requests, and reports success exactly when
/// one of its first three requests was answered.
pub proof fn lemma_probe_decides_within_three(outcomes: Seq<bool>)
    requires
        outcomes.len() >= 3,
    ensures
        probe_outcome(0, outcomes) == Some(outcomes[0] || outcomes[1] || outcomes[2]),
        probe_outcome(0, outcomes) == probe_outcome(0, outcomes.take(3)),
{
    let t = outcomes.take(3);
    assert(outcomes.drop_first()[0] == outcomes[1]);
    assert(outcomes.drop_first().drop_first()[0] == outcomes[2]);
    assert(t.drop_first()[0] == outcomes[1]);
    assert(t.drop_first().drop_first()[0] == outcomes[2]);
    reveal_with_fuel(probe_outcome, 4);
}

/// Result of the start-up connectivity check.
#[derive(Clone, Copy, Debug, PartialEq, Eq, Structural)]
pub enum NetStatus {
    Checking,
    Connected,
    Failed,
}

/// What the loading window shows.
#[derive(Clone, Copy, Debug, PartialEq, Eq, Structural)]
pub enum LoadingView {
    /// The main window, which the loading window hands everything to.
    Shell,
    /// The connection error with a close button.
    Failure,
    /// The title with a spinner.
    Spinner,
}

/// State of the loading window.
#[derive(Debug)]
pub struct LoadingState {
    /// Whether the connectivity check still runs.
    pub is_loading: bool,
    pub status: NetStatus,
}

/// Loading is over and the connection did not fail.
pub open spec fn spec_done(s: LoadingState) -> bool {
    !s.is_loading && s.status != NetStatus::Failed
}

/// The connection failed.
pub open spec fn spec_failed(s: LoadingState) -> bool {
    s.status == NetStatus::Failed
}

impl LoadingState {
    /// The check has just started.
    pub fn new() -> (r: LoadingState)
        ensures
            r.is_loading,
            r.status == NetStatus::Checking,
    {
        LoadingState { is_loading: true, status: NetStatus::Checking }
    }

    /// The probe finished: records the outcome. Returns whether to wait one
    /// second before `finish` (after a success, so the spinner is seen).
    pub fn probe_finished(&mut self, success: bool) -> (r: bool)
        ensures
            r == success,
            final(self).is_loading == old(self).is_loading,
            final(self).status == (if success { NetStatus::Connected } else { NetStatus::Failed }),
    {
        self.status = if success { NetStatus::Connected } else { NetStatus::Failed };
        success
    }

    /// Loading is over.
    pub fn finish(&mut self)
        ensures
            !final(self).is_loading,
            final(self).status == old(self).status,
    {
        self.is_loading = false;
    }

    /// Loading is over and the connection did not fail.
    pub fn done(&self) -> (r: bool)
        ensures
            r == spec_done(*self),
    {
        !self.is_loading && self.status != NetStatus::Failed
    }

    /// The connection failed.
    pub fn failed(&self) -> (r: bool)
        ensures
            r == spec_failed(*self),
    {
        self.status == NetStatus::Failed
    }

    /// What the window shows.
    pub fn view(&self) -> (r: LoadingView)
        ensures
            r == (if spec_done(*self) {
                LoadingView::Shell
            } else if spec_failed(*self) {
                LoadingView::Failure
            } else {
                LoadingView::Spinner
            }),
    {
        if self.done() {
            LoadingView::Shell
        } else if self.failed() {
            LoadingView::Failure
        } else {
            LoadingView::Spinner
        }
    }

    /// Whether the window keeps asking for frames: as the main window does
    /// once loading is over, as the close button does after a failure, and
    /// always while the spinner turns.
    pub fn is_animating(&self, shell_animating: bool, close_animating: bool) -> (r: bool)
        ensures
            r == (if spec_done(*self) {
                shell_animating
            } else if spec_failed(*self) {
                close_animating
            } else {
                true
            }),
    {
        if self.done() {
            shell_animating
        } else if self.failed() {
            close_animating
        } else {
            true
        }
    }
}

/// The loading window hands over to the main window only after a successful
/// check has finished; a failed check shows the error for good.
pub proof fn lemma_loading_outcomes(s: LoadingState)
    ensures
        spec_done(s) ==> s.status != NetStatus::Failed && !s.is_loading,
        spec_failed(s) ==> !spec_done(s),
        s.is_loading && s.status == NetStatus::Checking ==> !spec_done(s) && !spec_failed(s),
{
}

} // verus!
