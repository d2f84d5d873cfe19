//! Reading a session on behalf of a request: who is asking, and which
//! listings that identity may see.

use vstd::prelude::*;
use crate::session::{role_agrees, Session, SessionState};

verus! {

/// What an authenticated request is known by.
#[derive(Clone, Copy, Debug, PartialEq, Eq)]
pub struct AuthenticatedView {
    /// The user id that logged in.
    pub identity: i32,
    /// The same id if the user is a location.
    pub location_role: Option<i32>,
    /// The same id if the user is a doctor.
    pub doctor_role: Option<i32>,
}

/// Which tickets a request may list.
#[derive(Clone, Copy, Debug, PartialEq, Eq)]
pub enum TicketScope {
    /// None at all. The listing is empty; this is not an error.
    Nothing,
    /// Every ticket of one location.
    Location { location: i32 },
    /// The tickets of one doctor at one location.
    LocationAndDoctor { location: i32, doctor: i32 },
}

/// The listings that go into the answer to an authenticated request.
#[derive(Clone, Copy, Debug, PartialEq, Eq)]
pub struct ListingPlan {
    /// The location whose doctors are listed, if any are.
    pub doctors_of: Option<i32>,
    /// The tickets that are listed.
    pub tickets: TicketScope,
}

/// The authenticated view that a session gives: one exists exactly when the
/// session holds an identity, and it repeats the three fields.
pub open spec fn authenticated_view(session: SessionState) -> Option<AuthenticatedView> {
    match session.identity {
        Some(identity) => Some(
            AuthenticatedView {
                identity,
                location_role: session.location_role,
                doctor_role: session.doctor_role,
            },
        ),
        None => None,
    }
}

/// The tickets in scope for two role fields. Without a location nothing is
/// in scope, whether or not a doctor role is present.
pub open spec fn ticket_scope(location_role: Option<i32>, doctor_role: Option<i32>) -> TicketScope {
    match (location_role, doctor_role) {
        (Some(location), Some(doctor)) => TicketScope::LocationAndDoctor { location, doctor },
        (Some(location), None) => TicketScope::Location { location },
        (None, _) => TicketScope::Nothing,
    }
}

/// The listings for an authenticated view. Doctors are listed for the
/// location role alone; tickets by [`ticket_scope`].
pub open spec fn listing_plan(view: AuthenticatedView) -> ListingPlan {
    ListingPlan {
        doctors_of: view.location_role,
        tickets: ticket_scope(view.location_role, view.doctor_role),
    }
}

/// Reads who a session authenticates. Returns `None` for a session without
/// an identity: the request is then unauthenticated, whatever else the
/// session holds. The session is not changed.
///
/// A role in the view is always the identity itself.
pub fn current_session(session: &Session) -> (view: Option<AuthenticatedView>)
    ensures
        view == authenticated_view(session@),
        view matches Some(seen) ==> seen.roles_repeat_identity(),
{
    match session.identity() {
        Some(identity) => Some(
            AuthenticatedView {
                identity,
                location_role: session.location_role(),
                doctor_role: session.doctor_role(),
            },
        ),
        None => None,
    }
}

impl AuthenticatedView {
    /// Each role that is present is the identity again.
    pub open spec fn roles_repeat_identity(self) -> bool {
        role_agrees(self.location_role, self.identity) && role_agrees(
            self.doctor_role,
            self.identity,
        )
    }

    /// Decides which listings the answer to this request carries.
    pub fn plan(&self) -> (plan: ListingPlan)
        ensures
            plan == listing_plan(*self),
    {
        let tickets = match self.location_role {
            Some(location) => match self.doctor_role {
                Some(doctor) => TicketScope::LocationAndDoctor { location, doctor },
                None => TicketScope::Location { location },
            },
            None => TicketScope::Nothing,
        };
        ListingPlan { doctors_of: self.location_role, tickets }
    }
}

} // verus!
