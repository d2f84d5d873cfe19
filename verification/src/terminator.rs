//! Ending a session's authentication.

use vstd::prelude::*;
use crate::session::Session;

verus! {

/// How a logout ended.
#[derive(Clone, Copy, Debug, PartialEq, Eq, Structural)]
pub enum LogoutStatus {
    /// An identity was present and has been removed.
    Cleared,
    /// Nobody was logged in. Nothing was done, and this is not a failure.
    AlreadyClear,
}

/// The status that a logout reports for a session that held `identity`.
pub open spec fn logout_status(identity: Option<i32>) -> LogoutStatus {
    if identity is Some {
        LogoutStatus::Cleared
    } else {
        LogoutStatus::AlreadyClear
    }
}

/// Logs the session out: removes its identity if it has one.
///
/// The role fields stay where they are; nothing reads them in a session
/// without an identity. A session that had no identity is left exactly as it
/// was.
pub fn logout(session: &mut Session) -> (status: LogoutStatus)
    ensures
        status == logout_status(old(session)@.identity),
        final(session)@ == old(session)@.without_identity(),
        final(session)@.identity is None,
        old(session)@.identity is None ==> final(session)@ == old(session)@,
{
    if session.remove_identity() {
        LogoutStatus::Cleared
    } else {
        LogoutStatus::AlreadyClear
    }
}

} // verus!
