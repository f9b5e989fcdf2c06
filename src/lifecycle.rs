//! The window's lifecycle: `Created`, `Running`, `ShuttingDown`,
//! `Terminated`. The host reports each event and performs the action that
//! comes back.
use vstd::prelude::*;
use crate::hooks::{granted, install_accepted, HookPair, HookRegistrar};

verus! {

/// Exit code of a clean shutdown.
pub const EXIT_OK: i32 = 0;
/// Exit code when the global interceptors could not be installed.
pub const EXIT_HOOK_INSTALL_FAILED: i32 = 1;

#[derive(Clone, Copy, Debug, PartialEq, Eq, Structural)]
pub enum Phase {
    /// The window exists; the interceptors are not installed yet.
    Created,
    /// Interceptors installed, page locked down, event loop running.
    Running,
    /// Interceptors removed; artifact cleanup in progress.
    ShuttingDown,
    /// Nothing more happens.
    Terminated,
}

/// What the host reports.
#[derive(Clone, Copy, Debug, PartialEq, Eq, Structural)]
pub enum LifecycleEvent {
    /// The raw handles the OS returned for the pointer and keyboard
    /// interceptors, zero where it refused.
    HooksReported { pointer: u64, keyboard: u64 },
    /// The window was asked to close.
    CloseRequested,
    /// Artifact cleanup completed, successfully or not.
    CleanupFinished,
    /// Anything else the event loop delivers.
    Other,
}

/// What the host does.
#[derive(Debug)]
pub enum LifecycleAction {
    /// Nothing.
    Ignore,
    /// Bind the lockdown script to the web view and run the event loop.
    StartPage,
    /// Release these interceptor handles, close the window and exit with
    /// this code without running the page.
    Abort { release: Vec<u64>, exit_code: i32 },
    /// Release these interceptor handles, then run artifact cleanup and
    /// report `CleanupFinished`.
    Shutdown { release: Vec<u64> },
    /// Stop the event loop and exit with this code.
    Exit { exit_code: i32 },
}

/// The phase that follows an event.
pub open spec fn next_phase(phase: Phase, e: LifecycleEvent) -> Phase {
    match (phase, e) {
        (Phase::Created, LifecycleEvent::HooksReported { pointer, keyboard }) => {
            if pointer != 0 && keyboard != 0 {
                Phase::Running
            } else {
                Phase::Terminated
            }
        },
        (Phase::Running, LifecycleEvent::CloseRequested) => Phase::ShuttingDown,
        (Phase::ShuttingDown, LifecycleEvent::CleanupFinished) => Phase::Terminated,
        _ => phase,
    }
}

/// Whether the event causes a transition from the phase.
pub open spec fn is_transition(phase: Phase, e: LifecycleEvent) -> bool {
    ||| phase == Phase::Created && e is HooksReported
    ||| phase == Phase::Running && e is CloseRequested
    ||| phase == Phase::ShuttingDown && e is CleanupFinished
}

/// Ties the interceptor handles to the window: they are installed exactly
/// while the phase is `Running`.
#[derive(Debug)]
pub struct Coordinator {
    phase: Phase,
    hooks: HookRegistrar,
    guard: Option<HookPair>,
}

impl Coordinator {
    pub closed spec fn phase_view(&self) -> Phase {
        self.phase
    }

    /// The raw handles of the installed interceptors, if any.
    pub closed spec fn active_hooks(&self) -> Option<(u64, u64)> {
        self.hooks@
    }

    pub closed spec fn wf(&self) -> bool {
        &&& self.hooks.wf()
        &&& (self.phase == Phase::Running <==> self.hooks@ is Some)
        &&& (self.guard is Some <==> self.hooks@ is Some)
        &&& (self.guard matches Some(g) ==> self.hooks@ == Some(g@))
    }

    /// A coordinator for a window that was just built.
    pub fn new() -> (r: Coordinator)
        ensures
            r.wf(),
            r.phase_view() == Phase::Created,
            r.active_hooks() is None,
    {
        Coordinator { phase: Phase::Created, hooks: HookRegistrar::new(), guard: None }
    }

    /// The current phase.
    pub fn phase(&self) -> (r: Phase)
        ensures
            r == self.phase_view(),
    {
        self.phase
    }

    /// Whether interceptors are installed.
    pub fn hooks_active(&self) -> (r: bool)
        requires
            self.wf(),
        ensures
            r == self.active_hooks() is Some,
    {
        self.hooks.is_installed()
    }

    /// Takes one event and says what the host must do.
    pub fn step(&mut self, e: LifecycleEvent) -> (r: LifecycleAction)
        requires
            old(self).wf(),
        ensures
            final(self).wf(),
            final(self).phase_view() == next_phase(old(self).phase_view(), e),
            final(self).active_hooks() is Some <==> final(self).phase_view() == Phase::Running,
            !is_transition(old(self).phase_view(), e) ==> r is Ignore && final(self).active_hooks()
                == old(self).active_hooks(),
            old(self).phase_view() == Phase::Created ==> (e matches LifecycleEvent::HooksReported {
                pointer,
                keyboard,
            } ==> (if install_accepted(None, pointer, keyboard) {
                r is StartPage && final(self).active_hooks() == Some((pointer, keyboard))
            } else {
                r matches LifecycleAction::Abort { release, exit_code } && release@ == granted(
                    pointer,
                    keyboard,
                ) && exit_code == EXIT_HOOK_INSTALL_FAILED
            })),
            old(self).phase_view() == Phase::Running && e is CloseRequested ==> (
            r matches LifecycleAction::Shutdown { release } && release@ == seq![
                old(self).active_hooks()->Some_0.0,
                old(self).active_hooks()->Some_0.1,
            ]),
            old(self).phase_view() == Phase::ShuttingDown && e is CleanupFinished ==> (
            r matches LifecycleAction::Exit { exit_code } && exit_code == EXIT_OK),
    {
        match (self.phase, e) {
            (Phase::Created, LifecycleEvent::HooksReported { pointer, keyboard }) => {
                match self.hooks.install(pointer, keyboard) {
                    Ok(pair) => {
                        self.guard = Some(pair);
                        self.phase = Phase::Running;
                        LifecycleAction::StartPage
                    },
                    Err(err) => {
                        self.phase = Phase::Terminated;
                        LifecycleAction::Abort {
                            release: err.release,
                            exit_code: EXIT_HOOK_INSTALL_FAILED,
                        }
                    },
                }
            },
            (Phase::Running, LifecycleEvent::CloseRequested) => {
                let mut release: Vec<u64> = Vec::new();
                match self.guard.take() {
                    Some(pair) => {
                        match self.hooks.uninstall(pair) {
                            Ok((p, k)) => {
                                release.push(p);
                                release.push(k);
                            },
                            Err(_) => {},
                        }
                    },
                    None => {},
                }
                self.phase = Phase::ShuttingDown;
                proof {
                    assert(release@ =~= seq![
                        old(self).active_hooks()->Some_0.0,
                        old(self).active_hooks()->Some_0.1,
                    ]);
                }
                LifecycleAction::Shutdown { release }
            },
            (Phase::ShuttingDown, LifecycleEvent::CleanupFinished) => {
                self.phase = Phase::Terminated;
                LifecycleAction::Exit { exit_code: EXIT_OK }
            },
            _ => LifecycleAction::Ignore,
        }
    }
}

} // verus!
