//! The bootstrap sequencer: the one-time startup state machine that
//! takes a session from unauthenticated to steady state.
//!
//! The machine itself only decides: it consumes one outside outcome at
//! a time (a stored credential, a login result, the snapshot, the
//! connection, the identify send) and yields the next phase and the
//! next action to perform. The surrounding program performs each
//! action (HTTP, the socket, credential storage) and reports back.
//! Any failure in a step is fatal to the bootstrap attempt: there is
//! no retry policy.

use vstd::prelude::*;
use crate::models::User;
use crate::state::{SessionState, MeResponse, TransportHandle, rooms_coherent};

verus! {

/// Where the bootstrap stands.
#[derive(Debug, Clone, Copy, PartialEq, Eq, Structural)]
pub enum BootstrapPhase {
    Unauthenticated,
    Authenticating,
    FetchingSnapshot,
    Connecting,
    Identifying,
    SteadyState,
    Failed,
}

/// One outside outcome reported to the machine.
#[derive(Debug)]
pub enum BootstrapEvent {
    /// What the credential store held at startup.
    StoredCredential { token: Option<String> },
    /// The user submitted the login form.
    LoginSubmitted { email: String, password: String },
    LoginSucceeded { token: String },
    LoginFailed,
    SnapshotFetched { me: MeResponse },
    SnapshotFailed,
    Connected { handle: TransportHandle },
    ConnectFailed,
    IdentifySent,
    IdentifyFailed,
}

/// What the surrounding program must do next.
#[derive(Debug)]
pub enum BootstrapAction {
    /// Wait for an explicit login submission.
    AwaitLogin,
    /// Post the credentials to the login endpoint.
    SubmitLogin { email: String, password: String },
    /// Persist the token, then fetch the current user and room set.
    FetchSnapshot,
    /// Open the realtime connection.
    Connect,
    /// Send an identify frame carrying the token.
    SendIdentify { token: String },
    /// Hand off to the heartbeat driver and the reconciler loop.
    RunSession,
    /// Surface a login error; the session stays unauthenticated.
    ReportLoginError,
    /// The bootstrap attempt is over; nothing further runs.
    Abort,
}

/// All fields equal but the token.
pub open spec fn same_but_token(a: SessionState, b: SessionState) -> bool {
    &&& b.current_user == a.current_user
    &&& b.transport == a.transport
    &&& b.rooms == a.rooms
    &&& b.messages == a.messages
}

/// A fetched snapshot must key each room by its own id.
pub open spec fn event_coherent(e: BootstrapEvent) -> bool {
    match e {
        BootstrapEvent::SnapshotFetched { me } => rooms_coherent(me.rooms@),
        _ => true,
    }
}

/// Advances the bootstrap machine one step.
///
/// The contract enumerates every transition of the sequence
/// `Unauthenticated -> Authenticating -> FetchingSnapshot ->
/// Connecting -> Identifying -> SteadyState`: a stored credential
/// skips straight to the snapshot fetch; a failed login surfaces the
/// error and stays unauthenticated; a failure in any later step is
/// fatal. An outcome that does not belong to the current phase is a
/// defect of the surrounding program and also ends the attempt.
pub fn bootstrap_step(phase: BootstrapPhase, state: &mut SessionState, event: BootstrapEvent) -> (r: (BootstrapPhase, BootstrapAction))
    ensures
        match event {
            BootstrapEvent::StoredCredential { token } => if phase == BootstrapPhase::Unauthenticated {
                match token {
                    Some(t) => r.0 == BootstrapPhase::FetchingSnapshot
                        && r.1 == BootstrapAction::FetchSnapshot
                        && final(state).auth_token == Some(t)
                        && same_but_token(*old(state), *final(state)),
                    None => r.0 == BootstrapPhase::Unauthenticated
                        && r.1 == BootstrapAction::AwaitLogin
                        && *final(state) == *old(state),
                }
            } else {
                r.0 == BootstrapPhase::Failed && r.1 is Abort && *final(state) == *old(state)
            },
            BootstrapEvent::LoginSubmitted { email, password } => if phase == BootstrapPhase::Unauthenticated {
                r.0 == BootstrapPhase::Authenticating
                    && r.1 == BootstrapAction::SubmitLogin { email, password }
                    && *final(state) == *old(state)
            } else {
                r.0 == BootstrapPhase::Failed && r.1 is Abort && *final(state) == *old(state)
            },
            BootstrapEvent::LoginSucceeded { token } => if phase == BootstrapPhase::Authenticating {
                r.0 == BootstrapPhase::FetchingSnapshot
                    && r.1 == BootstrapAction::FetchSnapshot
                    && final(state).auth_token == Some(token)
                    && same_but_token(*old(state), *final(state))
            } else {
                r.0 == BootstrapPhase::Failed && r.1 is Abort && *final(state) == *old(state)
            },
            BootstrapEvent::LoginFailed => if phase == BootstrapPhase::Authenticating {
                r.0 == BootstrapPhase::Unauthenticated
                    && r.1 == BootstrapAction::ReportLoginError
                    && *final(state) == *old(state)
            } else {
                r.0 == BootstrapPhase::Failed && r.1 is Abort && *final(state) == *old(state)
            },
            BootstrapEvent::SnapshotFetched { me } => if phase == BootstrapPhase::FetchingSnapshot {
                r.0 == BootstrapPhase::Connecting
                    && r.1 is Connect
                    && final(state).current_user == Some(me.user)
                    && final(state).rooms@ == old(state).rooms@.union_prefer_right(me.rooms@)
                    && final(state).auth_token == old(state).auth_token
                    && final(state).transport == old(state).transport
                    && final(state).messages == old(state).messages
            } else {
                r.0 == BootstrapPhase::Failed && r.1 is Abort && *final(state) == *old(state)
            },
            BootstrapEvent::SnapshotFailed => r.0 == BootstrapPhase::Failed && r.1 is Abort
                && *final(state) == *old(state),
            BootstrapEvent::Connected { handle } => if phase == BootstrapPhase::Connecting
                && old(state).auth_token is Some {
                r.0 == BootstrapPhase::Identifying
                    && (r.1 matches BootstrapAction::SendIdentify { token } && Some(token) == old(state).auth_token)
                    && final(state).transport == Some(handle)
                    && final(state).auth_token == old(state).auth_token
                    && final(state).current_user == old(state).current_user
                    && final(state).rooms == old(state).rooms
                    && final(state).messages == old(state).messages
            } else {
                r.0 == BootstrapPhase::Failed && r.1 is Abort && *final(state) == *old(state)
            },
            BootstrapEvent::ConnectFailed => r.0 == BootstrapPhase::Failed && r.1 is Abort
                && *final(state) == *old(state),
            BootstrapEvent::IdentifySent => if phase == BootstrapPhase::Identifying {
                r.0 == BootstrapPhase::SteadyState && r.1 is RunSession && *final(state) == *old(state)
            } else {
                r.0 == BootstrapPhase::Failed && r.1 is Abort && *final(state) == *old(state)
            },
            BootstrapEvent::IdentifyFailed => r.0 == BootstrapPhase::Failed && r.1 is Abort
                && *final(state) == *old(state),
        },
        old(state).wf() && event_coherent(event) ==> final(state).wf(),
{
    match event {
        BootstrapEvent::StoredCredential { token } => {
            if matches!(phase, BootstrapPhase::Unauthenticated) {
                match token {
                    Some(t) => {
                        state.auth_token = Some(t);
                        (BootstrapPhase::FetchingSnapshot, BootstrapAction::FetchSnapshot)
                    }
                    None => (BootstrapPhase::Unauthenticated, BootstrapAction::AwaitLogin),
                }
            } else {
                (BootstrapPhase::Failed, BootstrapAction::Abort)
            }
        }
        BootstrapEvent::LoginSubmitted { email, password } => {
            if matches!(phase, BootstrapPhase::Unauthenticated) {
                (BootstrapPhase::Authenticating, BootstrapAction::SubmitLogin { email, password })
            } else {
                (BootstrapPhase::Failed, BootstrapAction::Abort)
            }
        }
        BootstrapEvent::LoginSucceeded { token } => {
            if matches!(phase, BootstrapPhase::Authenticating) {
                state.auth_token = Some(token);
                (BootstrapPhase::FetchingSnapshot, BootstrapAction::FetchSnapshot)
            } else {
                (BootstrapPhase::Failed, BootstrapAction::Abort)
            }
        }
        BootstrapEvent::LoginFailed => {
            if matches!(phase, BootstrapPhase::Authenticating) {
                (BootstrapPhase::Unauthenticated, BootstrapAction::ReportLoginError)
            } else {
                (BootstrapPhase::Failed, BootstrapAction::Abort)
            }
        }
        BootstrapEvent::SnapshotFetched { me } => {
            if matches!(phase, BootstrapPhase::FetchingSnapshot) {
                let MeResponse { user, rooms } = me;
                state.current_user = Some(user);
                state.rooms.merge_from(rooms);
                (BootstrapPhase::Connecting, BootstrapAction::Connect)
            } else {
                (BootstrapPhase::Failed, BootstrapAction::Abort)
            }
        }
        BootstrapEvent::SnapshotFailed => (BootstrapPhase::Failed, BootstrapAction::Abort),
        BootstrapEvent::Connected { handle } => {
            let has_token = state.auth_token.is_some();
            if matches!(phase, BootstrapPhase::Connecting) && has_token {
                let token = match &state.auth_token {
                    Some(t) => t.clone(),
                    None => String::new(),
                };
                state.transport = Some(handle);
                (BootstrapPhase::Identifying, BootstrapAction::SendIdentify { token })
            } else {
                (BootstrapPhase::Failed, BootstrapAction::Abort)
            }
        }
        BootstrapEvent::ConnectFailed => (BootstrapPhase::Failed, BootstrapAction::Abort),
        BootstrapEvent::IdentifySent => {
            if matches!(phase, BootstrapPhase::Identifying) {
                (BootstrapPhase::SteadyState, BootstrapAction::RunSession)
            } else {
                (BootstrapPhase::Failed, BootstrapAction::Abort)
            }
        }
        BootstrapEvent::IdentifyFailed => (BootstrapPhase::Failed, BootstrapAction::Abort),
    }
}

} // verus!
