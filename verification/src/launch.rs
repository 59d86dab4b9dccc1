//! The steps by which the workspace window comes up. The library decides;
//! the application performs each action and reports what came of it.

use vstd::prelude::*;

verus! {

/// The handle of an open window.
#[derive(Clone, Copy, Debug, PartialEq, Eq, Structural)]
pub struct WindowId(pub u64);

/// Why a launch gave no window.
#[derive(Clone, Copy, Debug, PartialEq, Eq, Structural)]
pub enum LaunchError {
    /// The window could not be opened.
    WindowCreation,
}

/// What cannot go wrong unless the steps were taken out of order.
#[derive(Clone, Copy, Debug, PartialEq, Eq, Structural)]
pub enum Fatal {
    /// The open window could not be configured.
    UpdateWindow,
    /// The caller's initializer could not run on the open window.
    InitWorkspace,
}

/// How far a launch has come.
#[derive(Clone, Copy, Debug, PartialEq, Eq, Structural)]
pub enum Phase {
    /// The window is being opened.
    Opening,
    /// The window is open and is being activated and given its title.
    Configuring(WindowId),
    /// The window is configured and the caller's initializer runs on it.
    Initializing(WindowId),
    /// The window is up.
    Ready(WindowId),
    /// The window could not be opened; there is none.
    Failed,
    /// The launch was given up for good.
    Aborted,
    /// The launch was cancelled where it stood.
    Cancelled,
}

/// What the application reports.
#[derive(Clone, Copy, Debug, PartialEq, Eq, Structural)]
pub enum LaunchEvent {
    Opened(WindowId),
    OpenFailed,
    Configured,
    ConfigureFailed,
    Initialized,
    InitializeFailed,
    /// Whoever asked for the window no longer waits for it.
    Cancelled,
}

/// What the application is to do next.
#[derive(Clone, Copy, Debug, PartialEq, Eq, Structural)]
pub enum LaunchAction {
    /// Activate the window, give it its title, and have the application
    /// quit when the window is released.
    Configure(WindowId),
    /// Run the caller's initializer on the window.
    Initialize(WindowId),
    /// Hand the window to whoever asked for it.
    Resolve(WindowId),
    /// Hand the error to whoever asked for the window.
    Reject(LaunchError),
    /// End without a result.
    Finish,
    /// Stop the program.
    Abort(Fatal),
    /// Nothing: the event does not belong to this phase.
    Ignore,
}

/// A launch of the workspace window.
#[derive(Clone, Copy, Debug, PartialEq, Eq, Structural)]
pub struct Launch {
    /// How far it has come.
    pub phase: Phase,
    /// Whether the caller's initializer runs on the window. Such a launch
    /// hands out no result: a window that cannot be opened ends it quietly.
    pub with_initializer: bool,
}

impl Launch {
    /// The window that this launch holds, if it holds one.
    pub open spec fn window(self) -> Option<WindowId> {
        match self.phase {
            Phase::Configuring(window) => Some(window),
            Phase::Initializing(window) => Some(window),
            Phase::Ready(window) => Some(window),
            _ => None,
        }
    }

    /// Whether this launch has ended.
    pub open spec fn is_over(self) -> bool {
        self.phase is Ready || self.phase is Failed || self.phase is Aborted
            || self.phase is Cancelled
    }

    /// The launch after `event`, and what the application is to do.
    pub open spec fn spec_step(self, event: LaunchEvent) -> (Launch, LaunchAction) {
        if self.is_over() {
            (self, LaunchAction::Ignore)
        } else if event is Cancelled {
            (Launch { phase: Phase::Cancelled, ..self }, LaunchAction::Finish)
        } else {
            self.spec_advance(event)
        }
    }

    /// The launch after `event`, which is not its cancellation, and what
    /// the application is to do.
    pub open spec fn spec_advance(self, event: LaunchEvent) -> (Launch, LaunchAction) {
        match (self.phase, event) {
            (Phase::Opening, LaunchEvent::Opened(window)) => (
                Launch { phase: Phase::Configuring(window), ..self },
                LaunchAction::Configure(window),
            ),
            (Phase::Opening, LaunchEvent::OpenFailed) => (
                Launch { phase: Phase::Failed, ..self },
                if self.with_initializer {
                    LaunchAction::Finish
                } else {
                    LaunchAction::Reject(LaunchError::WindowCreation)
                },
            ),
            (Phase::Configuring(window), LaunchEvent::Configured) => if self.with_initializer {
                (
                    Launch { phase: Phase::Initializing(window), ..self },
                    LaunchAction::Initialize(window),
                )
            } else {
                (Launch { phase: Phase::Ready(window), ..self }, LaunchAction::Resolve(window))
            },
            (Phase::Configuring(_), LaunchEvent::ConfigureFailed) => (
                Launch { phase: Phase::Aborted, ..self },
                LaunchAction::Abort(Fatal::UpdateWindow),
            ),
            (Phase::Initializing(window), LaunchEvent::Initialized) => (
                Launch { phase: Phase::Ready(window), ..self },
                LaunchAction::Finish,
            ),
            (Phase::Initializing(_), LaunchEvent::InitializeFailed) => (
                Launch { phase: Phase::Aborted, ..self },
                LaunchAction::Abort(Fatal::InitWorkspace),
            ),
            _ => (self, LaunchAction::Ignore),
        }
    }

    /// A launch that has just asked for its window to be opened.
    pub fn start(with_initializer: bool) -> (res: Launch)
        ensures
            res == (Launch { phase: Phase::Opening, with_initializer }),
    {
        Launch { phase: Phase::Opening, with_initializer }
    }

    /// Takes what the application reports and says what it is to do next.
    /// A launch that is cancelled before it has ended does nothing more: a
    /// window that is open by then stays as it is.
    pub fn step(self, event: LaunchEvent) -> (res: (Launch, LaunchAction))
        ensures
            res == self.spec_step(event),
    {
        let with_initializer = self.with_initializer;
        if self.is_done() {
            return (self, LaunchAction::Ignore);
        }
        match event {
            LaunchEvent::Cancelled => {
                return (Launch { phase: Phase::Cancelled, with_initializer }, LaunchAction::Finish);
            },
            _ => {},
        }
        match self.phase {
            Phase::Opening => match event {
                LaunchEvent::Opened(window) => (
                    Launch { phase: Phase::Configuring(window), with_initializer },
                    LaunchAction::Configure(window),
                ),
                LaunchEvent::OpenFailed => {
                    let action = if with_initializer {
                        LaunchAction::Finish
                    } else {
                        LaunchAction::Reject(LaunchError::WindowCreation)
                    };
                    (Launch { phase: Phase::Failed, with_initializer }, action)
                },
                _ => (self, LaunchAction::Ignore),
            },
            Phase::Configuring(window) => match event {
                LaunchEvent::Configured => {
                    if with_initializer {
                        (
                            Launch { phase: Phase::Initializing(window), with_initializer },
                            LaunchAction::Initialize(window),
                        )
                    } else {
                        (
                            Launch { phase: Phase::Ready(window), with_initializer },
                            LaunchAction::Resolve(window),
                        )
                    }
                },
                LaunchEvent::ConfigureFailed => (
                    Launch { phase: Phase::Aborted, with_initializer },
                    LaunchAction::Abort(Fatal::UpdateWindow),
                ),
                _ => (self, LaunchAction::Ignore),
            },
            Phase::Initializing(window) => match event {
                LaunchEvent::Initialized => (
                    Launch { phase: Phase::Ready(window), with_initializer },
                    LaunchAction::Finish,
                ),
                LaunchEvent::InitializeFailed => (
                    Launch { phase: Phase::Aborted, with_initializer },
                    LaunchAction::Abort(Fatal::InitWorkspace),
                ),
                _ => (self, LaunchAction::Ignore),
            },
            _ => (self, LaunchAction::Ignore),
        }
    }

    /// Whether this launch has ended.
    pub fn is_done(&self) -> (res: bool)
        ensures
            res == self.is_over(),
    {
        match self.phase {
            Phase::Ready(_) => true,
            Phase::Failed => true,
            Phase::Aborted => true,
            Phase::Cancelled => true,
            _ => false,
        }
    }
}

/// A launch that has ended stays as it is, and asks for nothing more.
pub proof fn lemma_launch_over(launch: Launch, event: LaunchEvent)
    requires
        launch.is_over(),
    ensures
        launch.spec_step(event) == (launch, LaunchAction::Ignore),
{
}

/// A window that could not be opened leaves none behind: the launch ends
/// without a window, before anything was done to one. Only a launch that
/// hands out a result reports the error.
pub proof fn lemma_open_failure_leaves_no_window(launch: Launch)
    requires
        launch.phase is Opening,
    ensures
        launch.spec_step(LaunchEvent::OpenFailed).0.window() is None,
        launch.spec_step(LaunchEvent::OpenFailed).0.is_over(),
        launch.spec_step(LaunchEvent::OpenFailed).1 == if launch.with_initializer {
            LaunchAction::Finish
        } else {
            LaunchAction::Reject(LaunchError::WindowCreation)
        },
{
}

/// A launch never changes its window for another, and acts on no window
/// but the one that was opened for it.
pub proof fn lemma_launch_keeps_window(launch: Launch, event: LaunchEvent)
    ensures
        launch.window() is Some && launch.spec_step(event).0.window() is Some
            ==> launch.spec_step(event).0.window() == launch.window(),
        launch.window() is Some ==> match launch.spec_step(event).1 {
            LaunchAction::Configure(window) => Some(window) == launch.window(),
            LaunchAction::Initialize(window) => Some(window) == launch.window(),
            LaunchAction::Resolve(window) => Some(window) == launch.window(),
            _ => true,
        },
        launch.spec_step(event).0.with_initializer == launch.with_initializer,
{
}

/// A window that cannot be configured, or on which the initializer cannot
/// run, stops the program: the launch neither goes on nor reports an error.
pub proof fn lemma_failed_update_aborts(launch: Launch, window: WindowId)
    ensures
        (Launch { phase: Phase::Configuring(window), ..launch }).spec_step(
            LaunchEvent::ConfigureFailed,
        ) == (Launch { phase: Phase::Aborted, ..launch }, LaunchAction::Abort(Fatal::UpdateWindow)),
        (Launch { phase: Phase::Initializing(window), ..launch }).spec_step(
            LaunchEvent::InitializeFailed,
        ) == (
            Launch { phase: Phase::Aborted, ..launch },
            LaunchAction::Abort(Fatal::InitWorkspace),
        ),
{
}

/// A launch that is cancelled before it has ended holds no window
/// afterwards, hands none out, and has ended.
pub proof fn lemma_cancelled_launch_ends(launch: Launch)
    requires
        !launch.is_over(),
    ensures
        launch.spec_step(LaunchEvent::Cancelled).0.phase == Phase::Cancelled,
        launch.spec_step(LaunchEvent::Cancelled).0.window() is None,
        launch.spec_step(LaunchEvent::Cancelled).0.is_over(),
        launch.spec_step(LaunchEvent::Cancelled).1 == LaunchAction::Finish,
{
}

} // verus!
