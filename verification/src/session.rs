//! The state that is kept for one client between requests.

use vstd::prelude::*;

verus! {

/// What the transport has to do with the client's token when the session is
/// written back to the store.
#[derive(Clone, Copy, Debug, PartialEq, Eq, Structural)]
pub enum SessionStatus {
    /// Nothing was written since the session was loaded.
    Unchanged,
    /// Fields were written; the token stays.
    Changed,
    /// Fields were written across a privilege boundary; a fresh token is issued.
    Renewed,
    /// All fields and the token itself are destroyed.
    Purged,
}

/// Which roles an authenticated id carries besides being a user.
#[derive(Clone, Copy, Debug, PartialEq, Eq, Structural)]
pub struct RoleContext {
    /// A row with the user's id exists among the locations.
    pub is_location: bool,
    /// A row with the user's id exists among the doctors.
    pub is_doctor: bool,
}

/// The content of a session as contracts speak of it.
pub struct SessionState {
    pub identity: Option<i32>,
    pub location_role: Option<i32>,
    pub doctor_role: Option<i32>,
    pub status: SessionStatus,
}

/// The role field that `establish` writes for an id: the id itself where the
/// role is held, nothing where it is not.
pub open spec fn role_field(held: bool, id: i32) -> Option<i32> {
    if held {
        Some(id)
    } else {
        None
    }
}

/// A role field is an existence flag keyed by the user's own id: when it is
/// present it repeats that id.
pub open spec fn role_agrees(role: Option<i32>, id: i32) -> bool {
    role is None || role == Some(id)
}

/// Whether three stored fields can be the fields of one session.
pub open spec fn fields_agree(
    identity: Option<i32>,
    location_role: Option<i32>,
    doctor_role: Option<i32>,
) -> bool {
    identity matches Some(id) ==> role_agrees(location_role, id) && role_agrees(doctor_role, id)
}

impl SessionState {
    /// No field is present.
    pub open spec fn is_blank(self) -> bool {
        self.identity is None && self.location_role is None && self.doctor_role is None
    }

    /// The invariant of every session that this library hands out: role fields
    /// repeat the identity they belong to, and a purged session holds nothing.
    pub open spec fn consistent(self) -> bool {
        &&& fields_agree(self.identity, self.location_role, self.doctor_role)
        &&& self.status is Purged ==> self.is_blank()
    }

    /// A session in which nobody is logged in and nothing was written.
    pub open spec fn anonymous() -> SessionState {
        SessionState {
            identity: None,
            location_role: None,
            doctor_role: None,
            status: SessionStatus::Unchanged,
        }
    }

    /// The session after a successful login of `id` with `roles`: the three
    /// fields are replaced as a unit and a fresh token is due.
    pub open spec fn established(id: i32, roles: RoleContext) -> SessionState {
        SessionState {
            identity: Some(id),
            location_role: role_field(roles.is_location, id),
            doctor_role: role_field(roles.is_doctor, id),
            status: SessionStatus::Renewed,
        }
    }

    /// The session after a purge, whatever it held before.
    pub open spec fn purged() -> SessionState {
        SessionState {
            identity: None,
            location_role: None,
            doctor_role: None,
            status: SessionStatus::Purged,
        }
    }

    /// The session after its identity was taken out. The role fields stay
    /// behind; without an identity nothing reads them. A session that had no
    /// identity is returned as it is.
    pub open spec fn without_identity(self) -> SessionState {
        if self.identity is None {
            self
        } else {
            SessionState {
                identity: None,
                status: if self.status is Unchanged {
                    SessionStatus::Changed
                } else {
                    self.status
                },
                ..self
            }
        }
    }
}

/// Server-side state of one client: who is logged in, which roles that id
/// carries, and what is to happen to the client's token.
///
/// The fields are private so that an identity can only get into a session
/// through [`Session::establish`] or from the store through
/// [`Session::restore`].
#[derive(Clone, Copy, Debug, PartialEq, Eq)]
pub struct Session {
    identity: Option<i32>,
    location_role: Option<i32>,
    doctor_role: Option<i32>,
    status: SessionStatus,
}

impl View for Session {
    type V = SessionState;

    closed spec fn view(&self) -> SessionState {
        SessionState {
            identity: self.identity,
            location_role: self.location_role,
            doctor_role: self.doctor_role,
            status: self.status,
        }
    }
}

impl Session {
    /// Every session value is consistent, wherever it came from.
    #[verifier::type_invariant]
    spec fn well_formed(self) -> bool {
        self@.consistent()
    }

    /// The session of a client that has just connected.
    pub fn new() -> (session: Session)
        ensures
            session@ == SessionState::anonymous(),
    {
        Session {
            identity: None,
            location_role: None,
            doctor_role: None,
            status: SessionStatus::Unchanged,
        }
    }

    /// Rebuilds a session from the three fields as the store returned them.
    /// Fields that cannot belong to one session are refused.
    pub fn restore(
        identity: Option<i32>,
        location_role: Option<i32>,
        doctor_role: Option<i32>,
    ) -> (restored: Option<Session>)
        ensures
            restored is Some <==> fields_agree(identity, location_role, doctor_role),
            restored matches Some(session) ==> {
                &&& session@.identity == identity
                &&& session@.location_role == location_role
                &&& session@.doctor_role == doctor_role
                &&& session@.status is Unchanged
            },
    {
        let agree = match identity {
            Some(id) => role_repeats(location_role, id) && role_repeats(doctor_role, id),
            None => true,
        };
        if agree {
            Some(Session { identity, location_role, doctor_role, status: SessionStatus::Unchanged })
        } else {
            None
        }
    }

    /// The authenticated user id, if anybody is logged in.
    pub fn identity(&self) -> (identity: Option<i32>)
        ensures
            identity == self@.identity,
            self@.consistent(),
    {
        proof {
            use_type_invariant(self);
        }
        self.identity
    }

    /// The user's id again if the user is a location.
    pub fn location_role(&self) -> (role: Option<i32>)
        ensures
            role == self@.location_role,
            self@.identity matches Some(id) ==> role_agrees(role, id),
    {
        proof {
            use_type_invariant(self);
        }
        self.location_role
    }

    /// The user's id again if the user is a doctor.
    pub fn doctor_role(&self) -> (role: Option<i32>)
        ensures
            role == self@.doctor_role,
            self@.identity matches Some(id) ==> role_agrees(role, id),
    {
        proof {
            use_type_invariant(self);
        }
        self.doctor_role
    }

    /// What the transport has to do with the token when it writes the session back.
    pub fn status(&self) -> (status: SessionStatus)
        ensures
            status == self@.status,
            status is Purged ==> self@.is_blank(),
    {
        proof {
            use_type_invariant(self);
        }
        self.status
    }

    /// Writes the outcome of a successful login: the identity and both role
    /// fields are replaced together, and the token is due for renewal.
    pub fn establish(&mut self, id: i32, roles: RoleContext)
        ensures
            final(self)@ == SessionState::established(id, roles),
    {
        *self = Session {
            identity: Some(id),
            location_role: if roles.is_location {
                Some(id)
            } else {
                None
            },
            doctor_role: if roles.is_doctor {
                Some(id)
            } else {
                None
            },
            status: SessionStatus::Renewed,
        };
    }

    /// Takes the identity out of the session. Returns whether there was one.
    pub fn remove_identity(&mut self) -> (removed: bool)
        ensures
            removed == old(self)@.identity is Some,
            final(self)@ == old(self)@.without_identity(),
    {
        proof {
            use_type_invariant(&*self);
        }
        if self.identity.is_some() {
            *self = Session {
                identity: None,
                location_role: self.location_role,
                doctor_role: self.doctor_role,
                status: if self.status == SessionStatus::Unchanged {
                    SessionStatus::Changed
                } else {
                    self.status
                },
            };
            true
        } else {
            false
        }
    }

    /// Destroys every field and marks the token for destruction.
    pub fn purge(&mut self)
        ensures
            final(self)@ == SessionState::purged(),
    {
        *self = Session {
            identity: None,
            location_role: None,
            doctor_role: None,
            status: SessionStatus::Purged,
        };
    }
}

/// Executable form of [`role_agrees`].
fn role_repeats(role: Option<i32>, id: i32) -> (agrees: bool)
    ensures
        agrees == role_agrees(role, id),
{
    match role {
        Some(value) => value == id,
        None => true,
    }
}

} // verus!
