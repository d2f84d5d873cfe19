//! The login procedure.
//!
//! A login needs three answers from the credential store: the credential
//! record of the claimed id, whether the id is a location, and whether it is
//! a doctor. The store is the caller's. So the procedure is a machine that the
//! caller drives: [`LoginFlow::begin`] names the first lookup, and each call
//! of [`LoginFlow::advance`] takes the answer to the pending lookup and names
//! the next one, until it finishes with the reply to the client.
//!
//! What has been found out so far is carried in the flow itself. The session
//! is written once, when the flow finishes: as a whole on success, purged on
//! a credential mismatch, not at all otherwise.

use vstd::prelude::*;
use crate::hasher::{verifies, verify};
use crate::reader::AuthenticatedView;
use crate::session::{role_field, RoleContext, Session, SessionState};

verus! {

/// What the credential store holds for one user.
#[derive(Clone, Debug, PartialEq, Eq)]
pub struct CredentialRecord {
    /// The user id.
    pub id: i32,
    /// The stored hash of the user's secret.
    pub hash: String,
}

/// Why a login did not succeed.
#[derive(Clone, Copy, Debug, PartialEq, Eq, Structural)]
pub enum AuthError {
    /// Unknown id or wrong secret. The reply does not say which.
    CredentialMismatch,
    /// The credential store could not be asked, or the flow was handed an
    /// answer to a question it had not asked.
    Infrastructure,
}

/// What the caller is to do next.
#[derive(Clone, Copy, Debug, PartialEq, Eq)]
pub enum LoginAction {
    /// Look up the credential record of `id`; answer with
    /// [`LoginEvent::Credential`].
    FindCredential { id: i32 },
    /// Find out whether a location with this id exists; answer with
    /// [`LoginEvent::LocationExists`].
    ExistsLocation { id: i32 },
    /// Find out whether a doctor with this id exists; answer with
    /// [`LoginEvent::DoctorExists`].
    ExistsDoctor { id: i32 },
    /// The flow is over. Write the session back and reply.
    Finish(Result<AuthenticatedView, AuthError>),
}

/// What the caller reports back.
#[derive(Clone, Debug, PartialEq, Eq)]
pub enum LoginEvent {
    /// The record found for the id, or `None` if there is none. A record
    /// of another id than the one asked for counts as none.
    Credential(Option<CredentialRecord>),
    /// Whether the id is a location.
    LocationExists(bool),
    /// Whether the id is a doctor.
    DoctorExists(bool),
    /// The pending lookup could not be carried out.
    StoreUnavailable,
}

/// A login in progress.
///
/// A flow holds the plaintext secret until the credential record has
/// arrived, so it cannot be printed.
#[derive(Clone, PartialEq, Eq)]
pub enum LoginFlow {
    /// The credential record of `claimed_id` has been asked for.
    AwaitingCredential { claimed_id: i32, secret: String },
    /// The secret was verified; the location lookup is pending.
    AwaitingLocation { id: i32 },
    /// The location lookup is answered; the doctor lookup is pending.
    AwaitingDoctor { id: i32, is_location: bool },
    /// The reply has been given.
    Finished,
}

/// One step of a login: where the flow goes, what the caller does next, and
/// what the session holds afterwards.
pub struct Transition {
    pub flow: LoginFlow,
    pub action: LoginAction,
    pub session: SessionState,
}

/// The view that a successful login of `id` with `roles` returns.
pub open spec fn granted_view(id: i32, roles: RoleContext) -> AuthenticatedView {
    AuthenticatedView {
        identity: id,
        location_role: role_field(roles.is_location, id),
        doctor_role: role_field(roles.is_doctor, id),
    }
}

/// The end of a flow whose credentials did not match: the session is purged,
/// whatever it held.
pub open spec fn rejected() -> Transition {
    Transition {
        flow: LoginFlow::Finished,
        action: LoginAction::Finish(Err(AuthError::CredentialMismatch)),
        session: SessionState::purged(),
    }
}

/// The end of a flow that could not be carried through: the session is left
/// as it was.
pub open spec fn aborted(session: SessionState) -> Transition {
    Transition {
        flow: LoginFlow::Finished,
        action: LoginAction::Finish(Err(AuthError::Infrastructure)),
        session,
    }
}

/// One step of a login, given whether the hasher accepted the secret.
///
/// `secret_accepted` is only looked at where a record for the claimed id has
/// just arrived.
pub open spec fn decided(
    flow: LoginFlow,
    event: LoginEvent,
    secret_accepted: bool,
    session: SessionState,
) -> Transition {
    match (flow, event) {
        (
            LoginFlow::AwaitingCredential { claimed_id, secret },
            LoginEvent::Credential(Some(record)),
        ) => if record.id == claimed_id && secret_accepted {
            Transition {
                flow: LoginFlow::AwaitingLocation { id: claimed_id },
                action: LoginAction::ExistsLocation { id: claimed_id },
                session,
            }
        } else {
            rejected()
        },
        (LoginFlow::AwaitingCredential { .. }, LoginEvent::Credential(None)) => rejected(),
        (LoginFlow::AwaitingLocation { id }, LoginEvent::LocationExists(found)) => Transition {
            flow: LoginFlow::AwaitingDoctor { id, is_location: found },
            action: LoginAction::ExistsDoctor { id },
            session,
        },
        (LoginFlow::AwaitingDoctor { id, is_location }, LoginEvent::DoctorExists(found)) => {
            let roles = RoleContext { is_location, is_doctor: found };
            Transition {
                flow: LoginFlow::Finished,
                action: LoginAction::Finish(Ok(granted_view(id, roles))),
                session: SessionState::established(id, roles),
            }
        },
        _ => aborted(session),
    }
}

/// Whether the step for `event` asks the hasher, and is answered with yes:
/// a record for the claimed id has arrived and the secret verifies against
/// its hash.
pub open spec fn secret_accepted(flow: LoginFlow, event: LoginEvent) -> bool {
    match (flow, event) {
        (
            LoginFlow::AwaitingCredential { claimed_id, secret },
            LoginEvent::Credential(Some(record)),
        ) => record.id == claimed_id && verifies(secret@, record.hash@),
        _ => false,
    }
}

/// One step of a login.
pub open spec fn step(flow: LoginFlow, event: LoginEvent, session: SessionState) -> Transition {
    decided(flow, event, secret_accepted(flow, event), session)
}

impl LoginFlow {
    /// Starts a login of `claimed_id` with `secret`. The action is always the
    /// lookup of the credential record.
    pub fn begin(claimed_id: i32, secret: String) -> (started: (LoginFlow, LoginAction))
        ensures
            started.0 == (LoginFlow::AwaitingCredential { claimed_id, secret }),
            started.1 == (LoginAction::FindCredential { id: claimed_id }),
    {
        (
            LoginFlow::AwaitingCredential { claimed_id, secret },
            LoginAction::FindCredential { id: claimed_id },
        )
    }

    /// Whether the reply has been given.
    pub fn is_finished(&self) -> (finished: bool)
        ensures
            finished == (*self is Finished),
    {
        match self {
            LoginFlow::Finished => true,
            _ => false,
        }
    }

    /// Takes one step, with the hasher's verdict given by the caller.
    ///
    /// This is the whole decision procedure but for the call of the hasher;
    /// [`LoginFlow::advance`] makes that call and then decides here.
    pub fn decide(
        self,
        event: LoginEvent,
        secret_accepted: bool,
        session: &mut Session,
    ) -> (next: (LoginFlow, LoginAction))
        ensures
            next.0 == decided(self, event, secret_accepted, old(session)@).flow,
            next.1 == decided(self, event, secret_accepted, old(session)@).action,
            final(session)@ == decided(self, event, secret_accepted, old(session)@).session,
    {
        match (self, event) {
            (
                LoginFlow::AwaitingCredential { claimed_id, secret },
                LoginEvent::Credential(Some(record)),
            ) => {
                if record.id == claimed_id && secret_accepted {
                    (
                        LoginFlow::AwaitingLocation { id: claimed_id },
                        LoginAction::ExistsLocation { id: claimed_id },
                    )
                } else {
                    session.purge();
                    (LoginFlow::Finished, LoginAction::Finish(Err(AuthError::CredentialMismatch)))
                }
            },
            (LoginFlow::AwaitingCredential { .. }, LoginEvent::Credential(None)) => {
                session.purge();
                (LoginFlow::Finished, LoginAction::Finish(Err(AuthError::CredentialMismatch)))
            },
            (LoginFlow::AwaitingLocation { id }, LoginEvent::LocationExists(found)) => (
                LoginFlow::AwaitingDoctor { id, is_location: found },
                LoginAction::ExistsDoctor { id },
            ),
            (LoginFlow::AwaitingDoctor { id, is_location }, LoginEvent::DoctorExists(found)) => {
                let roles = RoleContext { is_location, is_doctor: found };
                session.establish(id, roles);
                let view = AuthenticatedView {
                    identity: id,
                    location_role: session.location_role(),
                    doctor_role: session.doctor_role(),
                };
                (LoginFlow::Finished, LoginAction::Finish(Ok(view)))
            },
            _ => (LoginFlow::Finished, LoginAction::Finish(Err(AuthError::Infrastructure))),
        }
    }

    /// Takes one step: hands the flow the answer to the pending lookup and
    /// returns the flow to go on with and what to do next.
    ///
    /// The hasher is asked only when a record for the claimed id arrives. The
    /// session is written only by a step that finishes the flow.
    pub fn advance(self, event: LoginEvent, session: &mut Session) -> (next: (
        LoginFlow,
        LoginAction,
    ))
        ensures
            next.0 == step(self, event, old(session)@).flow,
            next.1 == step(self, event, old(session)@).action,
            final(session)@ == step(self, event, old(session)@).session,
    {
        let accepted = match (&self, &event) {
            (
                LoginFlow::AwaitingCredential { claimed_id, secret },
                LoginEvent::Credential(Some(record)),
            ) => record.id == *claimed_id && verify(secret.as_str(), record.hash.as_str()),
            _ => false,
        };
        self.decide(event, accepted, session)
    }
}

} // verus!
