//! Bookkeeping of the two global input interceptors.
//!
//! The host asks the OS for the interceptors and reports the raw handles it
//! got back (zero where the OS refused); the registrar decides whether the
//! pair is kept, and which handles the host must hand back to the OS.
use vstd::prelude::*;

verus! {

/// An installed pair of interceptors: one for pointer events, one for key
/// events. It is neither `Clone` nor `Copy`, so it is given up by `uninstall`.
#[derive(Debug)]
pub struct HookPair {
    pointer: u64,
    keyboard: u64,
}

impl HookPair {
    pub closed spec fn view(&self) -> (u64, u64) {
        (self.pointer, self.keyboard)
    }

    /// Raw handle of the pointer interceptor.
    pub fn pointer(&self) -> (r: u64)
        ensures
            r == self@.0,
    {
        self.pointer
    }

    /// Raw handle of the keyboard interceptor.
    pub fn keyboard(&self) -> (r: u64)
        ensures
            r == self@.1,
    {
        self.keyboard
    }
}

/// Why the registrar refused a request.
#[derive(Clone, Copy, Debug, PartialEq, Eq, Structural)]
pub enum HookErrorKind {
    /// The OS refused one of the interceptors.
    InstallFailed,
    /// A pair is already installed; a second one is not kept.
    AlreadyInstalled,
    /// The pair handed to `uninstall` is not the one installed.
    NotInstalled,
}

/// A refused request, with the raw handles that the host must release
/// because the registrar did not keep them.
#[derive(Debug)]
pub struct HookError {
    pub kind: HookErrorKind,
    pub release: Vec<u64>,
}

/// The handles among two raw results that the OS actually granted.
pub open spec fn granted(pointer: u64, keyboard: u64) -> Seq<u64> {
    if pointer != 0 && keyboard != 0 {
        seq![pointer, keyboard]
    } else if pointer != 0 {
        seq![pointer]
    } else if keyboard != 0 {
        seq![keyboard]
    } else {
        seq![]
    }
}

/// Whether `install` keeps the raw results it is given.
pub open spec fn install_accepted(v: Option<(u64, u64)>, pointer: u64, keyboard: u64) -> bool {
    v is None && pointer != 0 && keyboard != 0
}

/// The registrar's state after `install`.
pub open spec fn install_state(v: Option<(u64, u64)>, pointer: u64, keyboard: u64) -> Option<(u64, u64)> {
    if install_accepted(v, pointer, keyboard) {
        Some((pointer, keyboard))
    } else {
        v
    }
}

/// Whether `uninstall` accepts the pair it is given.
pub open spec fn uninstall_accepted(v: Option<(u64, u64)>, pair: (u64, u64)) -> bool {
    v == Some(pair)
}

/// The registrar's state after `uninstall`.
pub open spec fn uninstall_state(v: Option<(u64, u64)>, pair: (u64, u64)) -> Option<(u64, u64)> {
    if uninstall_accepted(v, pair) {
        None
    } else {
        v
    }
}

/// Owner of the installed interceptor pair: at most one pointer and one
/// keyboard interceptor are recorded at any time, both or neither.
#[derive(Debug)]
pub struct HookRegistrar {
    active: Option<HookPair>,
}

impl HookRegistrar {
    /// The recorded raw handles, if a pair is installed.
    pub closed spec fn view(&self) -> Option<(u64, u64)> {
        match self.active {
            Some(p) => Some(p@),
            None => None,
        }
    }

    /// A recorded pair holds two granted handles.
    pub closed spec fn wf(&self) -> bool {
        match self@ {
            Some((p, k)) => p != 0 && k != 0,
            None => true,
        }
    }

    /// A registrar with nothing installed.
    pub fn new() -> (r: HookRegistrar)
        ensures
            r.wf(),
            r@ is None,
    {
        HookRegistrar { active: None }
    }

    /// Whether a pair is installed.
    pub fn is_installed(&self) -> (r: bool)
        ensures
            r == self@ is Some,
    {
        self.active.is_some()
    }

    /// Records the raw handles that the OS returned for the two
    /// interceptors, zero standing for a refusal. The pair is kept when
    /// nothing is installed yet and both were granted; otherwise the
    /// registrar is left as it was and every granted handle is handed back
    /// for release, so that none is leaked.
    pub fn install(&mut self, pointer: u64, keyboard: u64) -> (r: Result<HookPair, HookError>)
        requires
            old(self).wf(),
        ensures
            final(self).wf(),
            final(self)@ == install_state(old(self)@, pointer, keyboard),
            install_accepted(old(self)@, pointer, keyboard) <==> r is Ok,
            r matches Ok(pair) ==> pair@ == (pointer, keyboard),
            r matches Err(e) ==> e.release@ == granted(pointer, keyboard) && e.kind == (if old(
                self,
            )@ is Some {
                HookErrorKind::AlreadyInstalled
            } else {
                HookErrorKind::InstallFailed
            }),
    {
        if self.active.is_some() || pointer == 0 || keyboard == 0 {
            let mut release: Vec<u64> = Vec::new();
            if pointer != 0 {
                release.push(pointer);
            }
            if keyboard != 0 {
                release.push(keyboard);
            }
            proof {
                assert(release@ =~= granted(pointer, keyboard));
            }
            let kind = if self.active.is_some() {
                HookErrorKind::AlreadyInstalled
            } else {
                HookErrorKind::InstallFailed
            };
            Err(HookError { kind, release })
        } else {
            self.active = Some(HookPair { pointer, keyboard });
            Ok(HookPair { pointer, keyboard })
        }
    }

    /// Gives up an installed pair. Only the pair that `install` returned
    /// is accepted; the registrar is then empty and the returned raw
    /// handles are the ones the host must release. Any other pair is
    /// refused and changes nothing.
    pub fn uninstall(&mut self, pair: HookPair) -> (r: Result<(u64, u64), HookError>)
        requires
            old(self).wf(),
        ensures
            final(self).wf(),
            final(self)@ == uninstall_state(old(self)@, pair@),
            uninstall_accepted(old(self)@, pair@) <==> r is Ok,
            r matches Ok(raw) ==> raw == pair@,
            r matches Err(e) ==> e.kind == HookErrorKind::NotInstalled && e.release@.len() == 0,
    {
        let matches_active = match &self.active {
            Some(a) => a.pointer == pair.pointer && a.keyboard == pair.keyboard,
            None => false,
        };
        if matches_active {
            self.active = None;
            Ok((pair.pointer, pair.keyboard))
        } else {
            Err(HookError { kind: HookErrorKind::NotInstalled, release: Vec::new() })
        }
    }

    /// Empties the registrar, returning the raw handles to release, if a
    /// pair was installed.
    pub fn release_all(&mut self) -> (r: Option<(u64, u64)>)
        requires
            old(self).wf(),
        ensures
            final(self).wf(),
            final(self)@ is None,
            r == old(self)@,
    {
        match self.active.take() {
            Some(p) => Some((p.pointer, p.keyboard)),
            None => None,
        }
    }
}

/// After an accepted `install`, `uninstall` of the returned pair is
/// accepted and leaves no interceptor recorded.
pub proof fn lemma_install_then_uninstall(v: Option<(u64, u64)>, pointer: u64, keyboard: u64)
    requires
        install_accepted(v, pointer, keyboard),
    ensures
        uninstall_accepted(install_state(v, pointer, keyboard), (pointer, keyboard)),
        uninstall_state(install_state(v, pointer, keyboard), (pointer, keyboard)) is None,
{
}

/// `install` never leaks a handle: every granted handle is either recorded
/// or handed back for release, and a pair that is already installed is
/// never replaced.
pub proof fn lemma_install_keeps_or_returns(v: Option<(u64, u64)>, pointer: u64, keyboard: u64)
    ensures
        v is Some ==> install_state(v, pointer, keyboard) == v,
        install_accepted(v, pointer, keyboard) ==> install_state(v, pointer, keyboard) == Some(
            (pointer, keyboard),
        ),
        !install_accepted(v, pointer, keyboard) ==> {
            &&& pointer != 0 ==> granted(pointer, keyboard).contains(pointer)
            &&& keyboard != 0 ==> granted(pointer, keyboard).contains(keyboard)
        },
{
    if !install_accepted(v, pointer, keyboard) {
        if pointer != 0 && keyboard != 0 {
            assert(granted(pointer, keyboard)[0] == pointer);
            assert(granted(pointer, keyboard)[1] == keyboard);
        } else if pointer != 0 {
            assert(granted(pointer, keyboard)[0] == pointer);
        } else if keyboard != 0 {
            assert(granted(pointer, keyboard)[0] == keyboard);
        }
    }
}

} // verus!
