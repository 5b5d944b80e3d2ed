//! The suspension context relay: a scope-bound slot carrying the host's
//! current polling context to code running inside a resume.
//!
//! Code inside the coroutine cannot take the host's polling context as a
//! function parameter, so the poller installs it in a relay for the dynamic
//! extent of one resume and the poll-step callable reads it back. The
//! context itself is owned by the caller; the relay holds only a token (an
//! index into caller-owned storage), so its validity never outlives the
//! installation.
//!
//! Exactly one installation is active at a time: resumption is never
//! reentrant, so no nesting is needed, and [`ContextRelay::install`] demands
//! a vacant relay. Reading an empty relay is a programming error, so
//! [`ContextRelay::current`] demands an active installation. The installer
//! must clear the relay on every exit path of the resume, including failure.

use vstd::prelude::*;

verus! {

/// The relay slot. Vacant except for the dynamic extent of one resume call.
pub struct ContextRelay {
    installed: Option<usize>,
}

impl ContextRelay {
    /// The token currently installed, if any.
    pub closed spec fn spec_installed(self) -> Option<usize> {
        self.installed
    }

    /// A fresh relay, with no installation.
    pub fn new() -> (r: Self)
        ensures
            r.spec_installed() is None,
    {
        ContextRelay { installed: None }
    }

    /// Install the token for the polling context of the resume about to run.
    /// Only one installation may be active at a time.
    pub fn install(&mut self, token: usize)
        requires
            old(self).spec_installed() is None,
        ensures
            final(self).spec_installed() == Some(token),
    {
        self.installed = Some(token);
    }

    /// Remove the installation. The installer calls this on every exit path
    /// of the resume, so the token never outlives the call that owns the
    /// context it stands for.
    pub fn clear(&mut self)
        ensures
            final(self).spec_installed() is None,
    {
        self.installed = None;
    }

    /// Read the installed token. Callable only while an installation is
    /// active: by construction this is only reached from code running inside
    /// the resume that installed it.
    pub fn current(&self) -> (r: usize)
        requires
            self.spec_installed() is Some,
        ensures
            self.spec_installed() == Some(r),
    {
        match &self.installed {
            Some(token) => *token,
            None => unreached(),
        }
    }
}

} // verus!
