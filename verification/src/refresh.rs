//! Decision logic of the per-account refresh protocol.
//!
//! The caller performs the network calls (portal login, key listing) and
//! reports what happened; this state machine decides what to do next. The
//! policy: log in first when no live session exists; a rejected credential
//! is not retried; a rejected session earns exactly one re-login, and a
//! second rejection propagates; transport and payload failures propagate.

use vstd::prelude::*;

verus! {

/// Why a refresh attempt for one account failed.
#[derive(Clone, Copy, Debug, PartialEq, Eq, Structural)]
pub enum RefreshError {
    /// The portal rejected the credential; not retried automatically.
    Auth,
    /// Network-level failure reaching the portal or the IP resolver.
    Transport,
    /// The portal reported the session invalid again after a re-login.
    SessionExpired,
    /// A portal response had an unexpected shape.
    Deserialization,
}

/// What the caller observed from a login call.
pub enum LoginEvent {
    /// The portal accepted the credential and opened a session.
    Succeeded,
    /// The portal rejected the credential.
    Rejected,
    /// The portal could not be reached.
    Unreachable,
    /// The response body could not be decoded.
    Garbled,
}

/// What the caller observed from a key-listing call.
pub enum ListEvent {
    /// The key list arrived.
    Listed,
    /// The portal reported the session invalid.
    SessionRejected,
    /// The portal could not be reached.
    Unreachable,
    /// The response body could not be decoded.
    Garbled,
}

/// Where one account's refresh stands.
pub enum RefreshPhase {
    /// The credential must be posted to the login endpoint.
    LoggingIn,
    /// The key list must be requested with the current session.
    Listing,
    /// The protocol is over: `Ok` when the listed keys may be installed.
    Done(Result<(), RefreshError>),
}

/// Protocol state of one account's refresh.
pub struct RefreshFlow {
    pub phase: RefreshPhase,
    /// The one re-login after a rejected session was already spent.
    pub relogin_used: bool,
}

impl RefreshFlow {
    /// Start a refresh: list immediately when a live session exists,
    /// otherwise log in first.
    pub fn start(has_live_session: bool) -> (r: Self)
        ensures
            has_live_session ==> r.phase is Listing,
            !has_live_session ==> r.phase is LoggingIn,
            !r.relogin_used,
    {
        RefreshFlow {
            phase: if has_live_session {
                RefreshPhase::Listing
            } else {
                RefreshPhase::LoggingIn
            },
            relogin_used: false,
        }
    }

    /// Advance on the outcome of a login call.
    pub fn on_login(&mut self, outcome: LoginEvent)
        requires
            old(self).phase is LoggingIn,
        ensures
            final(self).relogin_used == old(self).relogin_used,
            match outcome {
                LoginEvent::Succeeded => final(self).phase is Listing,
                LoginEvent::Rejected => final(self).phase == RefreshPhase::Done(
                    Err(RefreshError::Auth),
                ),
                LoginEvent::Unreachable => final(self).phase == RefreshPhase::Done(
                    Err(RefreshError::Transport),
                ),
                LoginEvent::Garbled => final(self).phase == RefreshPhase::Done(
                    Err(RefreshError::Deserialization),
                ),
            },
    {
        self.phase = match outcome {
            LoginEvent::Succeeded => RefreshPhase::Listing,
            LoginEvent::Rejected => RefreshPhase::Done(Err(RefreshError::Auth)),
            LoginEvent::Unreachable => RefreshPhase::Done(Err(RefreshError::Transport)),
            LoginEvent::Garbled => RefreshPhase::Done(Err(RefreshError::Deserialization)),
        };
    }

    /// Advance on the outcome of a key-listing call. A rejected session goes
    /// back to login exactly once; a second rejection fails the refresh.
    pub fn on_list(&mut self, outcome: ListEvent)
        requires
            old(self).phase is Listing,
        ensures
            match outcome {
                ListEvent::Listed => final(self).phase == RefreshPhase::Done(Ok(()))
                    && final(self).relogin_used == old(self).relogin_used,
                ListEvent::SessionRejected => {
                    &&& !old(self).relogin_used ==> (final(self).phase is LoggingIn
                        && final(self).relogin_used)
                    &&& old(self).relogin_used ==> final(self).phase == RefreshPhase::Done(
                        Err(RefreshError::SessionExpired),
                    )
                },
                ListEvent::Unreachable => final(self).phase == RefreshPhase::Done(
                    Err(RefreshError::Transport),
                ) && final(self).relogin_used == old(self).relogin_used,
                ListEvent::Garbled => final(self).phase == RefreshPhase::Done(
                    Err(RefreshError::Deserialization),
                ) && final(self).relogin_used == old(self).relogin_used,
            },
    {
        match outcome {
            ListEvent::Listed => {
                self.phase = RefreshPhase::Done(Ok(()));
            },
            ListEvent::SessionRejected => {
                if self.relogin_used {
                    self.phase = RefreshPhase::Done(Err(RefreshError::SessionExpired));
                } else {
                    self.relogin_used = true;
                    self.phase = RefreshPhase::LoggingIn;
                }
            },
            ListEvent::Unreachable => {
                self.phase = RefreshPhase::Done(Err(RefreshError::Transport));
            },
            ListEvent::Garbled => {
                self.phase = RefreshPhase::Done(Err(RefreshError::Deserialization));
            },
        }
    }
}

} // verus!
