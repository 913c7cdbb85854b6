//! The decisions of a check run: which outside step comes next, from the
//! preview server's start to its stop, with teardown on every path.
use vstd::prelude::*;
use crate::classify::RegressionTestResult;

verus! {

/// Where a run stands.
#[derive(PartialEq, Eq, Structural, Clone, Copy, Debug)]
pub enum Phase {
    /// The preview server is to be started.
    Starting,
    /// The server is up; the browser is to be launched.
    Launching,
    /// Server and browser are up; stories are being checked.
    Checking,
    /// The browser is to be closed.
    ClosingBrowser,
    /// The browser is down; the server is to be stopped.
    StoppingServer,
    /// Nothing is running any more.
    Finished,
}

/// Why a run failed.
#[derive(PartialEq, Eq, Structural, Clone, Copy, Debug)]
pub enum RunError {
    /// The project manifest is missing from the target directory.
    MissingManifest,
    /// The preview server could not be started.
    ServerStart,
    /// The browser could not be launched.
    BrowserLaunch,
    /// The story at this index could not be checked.
    Story { index: usize },
}

/// The next outside step of a run.
#[derive(PartialEq, Eq, Structural, Clone, Copy, Debug)]
pub enum Action {
    StartServer,
    LaunchBrowser,
    /// Check the story at this index of the discovered stories.
    CheckStory { index: usize },
    CloseBrowser,
    StopServer,
    /// The run is over; its outcome is ready.
    Finish,
}

/// What came of an outside step.
pub enum Event {
    ServerStarted,
    ServerFailed,
    BrowserLaunched,
    BrowserFailed,
    StoryChecked { result: RegressionTestResult },
    StoryFailed,
    BrowserClosed,
    ServerStopped,
}

/// What a run holds, but for its results.
pub struct RunView {
    pub phase: Phase,
    pub total: nat,
    pub done: nat,
    pub error: Option<RunError>,
}

/// Whether the preview server runs in this phase.
pub open spec fn server_up(p: Phase) -> bool {
    p == Phase::Launching || p == Phase::Checking || p == Phase::ClosingBrowser || p
        == Phase::StoppingServer
}

/// Whether the browser runs in this phase.
pub open spec fn browser_up(p: Phase) -> bool {
    p == Phase::Checking || p == Phase::ClosingBrowser
}

/// The phase that follows the checking of `done` of `total` stories.
pub open spec fn after_story(done: nat, total: nat) -> Phase {
    if done < total {
        Phase::Checking
    } else {
        Phase::ClosingBrowser
    }
}

/// The state of a run after event `e`. An event that does not belong to
/// the phase changes nothing.
pub open spec fn step(s: RunView, e: Event) -> RunView {
    match (s.phase, e) {
        (Phase::Starting, Event::ServerStarted) => RunView { phase: Phase::Launching, ..s },
        (Phase::Starting, Event::ServerFailed) => RunView {
            phase: Phase::Finished,
            error: Some(RunError::ServerStart),
            ..s
        },
        (Phase::Launching, Event::BrowserLaunched) => RunView {
            phase: after_story(s.done, s.total),
            ..s
        },
        (Phase::Launching, Event::BrowserFailed) => RunView {
            phase: Phase::StoppingServer,
            error: Some(RunError::BrowserLaunch),
            ..s
        },
        (Phase::Checking, Event::StoryChecked { .. }) => RunView {
            phase: after_story(s.done + 1, s.total),
            done: s.done + 1,
            ..s
        },
        (Phase::Checking, Event::StoryFailed) => RunView {
            phase: Phase::ClosingBrowser,
            error: Some(RunError::Story { index: s.done as usize }),
            ..s
        },
        (Phase::ClosingBrowser, Event::BrowserClosed) => RunView {
            phase: Phase::StoppingServer,
            ..s
        },
        (Phase::StoppingServer, Event::ServerStopped) => RunView { phase: Phase::Finished, ..s },
        _ => s,
    }
}

/// The step that a run in state `s` takes next.
pub open spec fn action_of(s: RunView) -> Action {
    match s.phase {
        Phase::Starting => Action::StartServer,
        Phase::Launching => Action::LaunchBrowser,
        Phase::Checking => Action::CheckStory { index: s.done as usize },
        Phase::ClosingBrowser => Action::CloseBrowser,
        Phase::StoppingServer => Action::StopServer,
        Phase::Finished => Action::Finish,
    }
}

/// The states that a run can reach.
pub open spec fn consistent(s: RunView) -> bool {
    &&& s.done <= s.total <= usize::MAX
    &&& s.phase == Phase::Checking ==> s.done < s.total
    &&& (s.phase == Phase::Starting || s.phase == Phase::Launching) ==> s.done == 0 && s.error
        is None
    &&& s.phase == Phase::Checking ==> s.error is None
    &&& s.error matches Some(RunError::Story { index }) ==> index as nat == s.done && s.done
        < s.total
}

/// A check run over a number of discovered stories.
pub struct Run {
    phase: Phase,
    total: usize,
    results: Vec<RegressionTestResult>,
    error: Option<RunError>,
}

impl View for Run {
    type V = RunView;

    closed spec fn view(&self) -> RunView {
        RunView {
            phase: self.phase,
            total: self.total as nat,
            done: self.results@.len(),
            error: self.error,
        }
    }
}

impl Run {
    /// The run is in a reachable state.
    pub closed spec fn wf(&self) -> bool {
        consistent(self@)
    }

    /// The results of the stories checked so far, in order.
    pub closed spec fn results(&self) -> Seq<RegressionTestResult> {
        self.results@
    }

    /// A run over `total` stories. Without the project manifest it fails
    /// before anything is started.
    pub fn new(manifest_present: bool, total: usize) -> (r: Run)
        ensures
            r.wf(),
            r@ == (if manifest_present {
                RunView { phase: Phase::Starting, total: total as nat, done: 0, error: None }
            } else {
                RunView {
                    phase: Phase::Finished,
                    total: total as nat,
                    done: 0,
                    error: Some(RunError::MissingManifest),
                }
            }),
            r.results().len() == 0,
    {
        if manifest_present {
            Run { phase: Phase::Starting, total, results: Vec::new(), error: None }
        } else {
            Run {
                phase: Phase::Finished,
                total,
                results: Vec::new(),
                error: Some(RunError::MissingManifest),
            }
        }
    }

    /// The step to take next.
    pub fn next_action(&self) -> (r: Action)
        requires
            self.wf(),
        ensures
            r == action_of(self@),
    {
        match self.phase {
            Phase::Starting => Action::StartServer,
            Phase::Launching => Action::LaunchBrowser,
            Phase::Checking => Action::CheckStory { index: self.results.len() },
            Phase::ClosingBrowser => Action::CloseBrowser,
            Phase::StoppingServer => Action::StopServer,
            Phase::Finished => Action::Finish,
        }
    }

    /// Takes in what came of the last step.
    pub fn apply(&mut self, event: Event)
        requires
            old(self).wf(),
        ensures
            final(self).wf(),
            final(self)@ == step(old(self)@, event),
            final(self).results() == (match (old(self)@.phase, event) {
                (Phase::Checking, Event::StoryChecked { result }) => old(self).results().push(
                    result,
                ),
                _ => old(self).results(),
            }),
    {
        match (self.phase, event) {
            (Phase::Starting, Event::ServerStarted) => {
                self.phase = Phase::Launching;
            },
            (Phase::Starting, Event::ServerFailed) => {
                self.phase = Phase::Finished;
                self.error = Some(RunError::ServerStart);
            },
            (Phase::Launching, Event::BrowserLaunched) => {
                self.phase =
                    if self.results.len() < self.total {
                        Phase::Checking
                    } else {
                        Phase::ClosingBrowser
                    };
            },
            (Phase::Launching, Event::BrowserFailed) => {
                self.phase = Phase::StoppingServer;
                self.error = Some(RunError::BrowserLaunch);
            },
            (Phase::Checking, Event::StoryChecked { result }) => {
                self.results.push(result);
                self.phase =
                    if self.results.len() < self.total {
                        Phase::Checking
                    } else {
                        Phase::ClosingBrowser
                    };
            },
            (Phase::Checking, Event::StoryFailed) => {
                self.phase = Phase::ClosingBrowser;
                self.error = Some(RunError::Story { index: self.results.len() });
            },
            (Phase::ClosingBrowser, Event::BrowserClosed) => {
                self.phase = Phase::StoppingServer;
            },
            (Phase::StoppingServer, Event::ServerStopped) => {
                self.phase = Phase::Finished;
            },
            _ => {},
        }
    }

    /// Whether the run is over.
    pub fn is_finished(&self) -> (r: bool)
        ensures
            r == (self@.phase == Phase::Finished),
    {
        self.phase == Phase::Finished
    }

    /// What the run came to: the result of every story, or the error that
    /// stopped it.
    pub fn outcome(self) -> (r: Result<Vec<RegressionTestResult>, RunError>)
        requires
            self@.phase == Phase::Finished,
        ensures
            match self@.error {
                Some(e) => r == Err::<Vec<RegressionTestResult>, RunError>(e),
                None => r matches Ok(v) && v@ == self.results(),
            },
    {
        match self.error {
            Some(e) => Err(e),
            None => Ok(self.results),
        }
    }
}

/// Teardown comes before the end: a run reports its outcome only once
/// neither the browser nor the preview server runs, and once it has failed
/// it starts nothing and checks no further story.
pub proof fn teardown_before_outcome(s: RunView, e: Event)
    requires
        consistent(s),
    ensures
        consistent(step(s, e)),
        action_of(s) == Action::Finish ==> !server_up(s.phase) && !browser_up(s.phase),
        s.error is Some ==> step(s, e).error == s.error,
        s.error is Some ==> action_of(s) == Action::CloseBrowser || action_of(s)
            == Action::StopServer || action_of(s) == Action::Finish,
        s.error is Some ==> (browser_up(s.phase) ==> action_of(s) == Action::CloseBrowser),
        s.error is Some ==> (!browser_up(s.phase) && server_up(s.phase) ==> action_of(s)
            == Action::StopServer),
{
}

/// A failed story leads, event by event, to the browser closed, then the
/// server stopped, then the outcome: that failure.
pub proof fn story_failure_tears_down(s: RunView)
    requires
        consistent(s),
        s.phase == Phase::Checking,
    ensures
        ({
            let failed = step(s, Event::StoryFailed);
            let closed = step(failed, Event::BrowserClosed);
            let stopped = step(closed, Event::ServerStopped);
            &&& action_of(failed) == Action::CloseBrowser
            &&& action_of(closed) == Action::StopServer
            &&& !browser_up(closed.phase)
            &&& action_of(stopped) == Action::Finish
            &&& !server_up(stopped.phase)
            &&& stopped.error == Some(RunError::Story { index: s.done as usize })
        }),
{
}

} // verus!
