//! What holds of the library as a whole, stated over the same functions that
//! the contracts of the executable code are stated over, and proved.

use vstd::prelude::*;
use vstd::string::*;
use crate::authenticator::{
    aborted, granted_view, rejected, secret_accepted, step, AuthError, CredentialRecord,
    LoginAction, LoginEvent, LoginFlow, Transition,
};
use crate::hasher::{scrypt_check_outcome, sealed, verifies};
use crate::reader::{authenticated_view, listing_plan, AuthenticatedView, ListingPlan, TicketScope};
use crate::session::{RoleContext, SessionState};
use crate::stored_hash::{cost_bounded, embedded_cost, layout_marker, standard_work_factor};
use crate::terminator::{logout_status, LogoutStatus};

verus! {

/// A hash verifies for the plaintext it was made from: whatever the key
/// derivation hands back for a plaintext, if it is kept as the hash, then the
/// plaintext verifies against it. The premise is what the derivation is
/// trusted for, that it accepts its own hashes.
pub proof fn hashed_secret_verifies(
    plaintext: Seq<char>,
    derived: Result<String, std::io::Error>,
)
    requires
        derived matches Ok(value) ==> scrypt_check_outcome(plaintext, value@) is Match,
    ensures
        sealed(derived) matches Ok(stored) ==> verifies(plaintext, stored@),
{
}

/// A stored hash without a well-formed head verifies for no plaintext, and
/// neither does one that the key derivation finds malformed further on.
pub proof fn malformed_hash_never_verifies(plaintext: Seq<char>, stored_hash: Seq<char>)
    requires
        embedded_cost(stored_hash) is None || scrypt_check_outcome(plaintext, stored_hash)
            is InvalidFormat,
    ensures
        !verifies(plaintext, stored_hash),
{
}

/// A text that is shorter than a head, or does not begin with the marker,
/// has no well-formed head, and so verifies for no plaintext.
pub proof fn text_without_marker_never_verifies(plaintext: Seq<char>, stored_hash: Seq<char>)
    requires
        stored_hash.len() < layout_marker().len() + 5 || stored_hash.subrange(
            0,
            layout_marker().len() as int,
        ) != layout_marker(),
    ensures
        embedded_cost(stored_hash) is None,
        !verifies(plaintext, stored_hash),
{
}

/// A stored hash that asks for more than the standard work factor verifies
/// for no plaintext: no key is derived for it.
pub proof fn costly_hash_never_verifies(plaintext: Seq<char>, stored_hash: Seq<char>)
    requires
        embedded_cost(stored_hash) matches Some(cost) && !cost.within(standard_work_factor()),
    ensures
        !verifies(plaintext, stored_hash),
{
}

/// Every text that begins with `$rscrypt$0$DwgB$` carries the standard work
/// factor: the four digits `DwgB` stand for the bytes 15, 8, 1.
pub proof fn standard_head_carries_standard_cost(tail: Seq<char>)
    ensures
        embedded_cost("$rscrypt$0$DwgB$"@ + tail) == Some(standard_work_factor()),
        cost_bounded("$rscrypt$0$DwgB$"@ + tail),
{
    reveal_strlit("$rscrypt$0$DwgB$");
    reveal_strlit("$rscrypt$0$");
    let text = "$rscrypt$0$DwgB$"@ + tail;
    assert(text.subrange(0, 11) =~= layout_marker());
}

/// The three steps of a login whose credentials match.
pub open spec fn successful_run(
    claimed_id: i32,
    secret: String,
    record: CredentialRecord,
    roles: RoleContext,
    session: SessionState,
) -> Transition {
    let found = step(
        LoginFlow::AwaitingCredential { claimed_id, secret },
        LoginEvent::Credential(Some(record)),
        session,
    );
    let located = step(found.flow, LoginEvent::LocationExists(roles.is_location), found.session);
    step(located.flow, LoginEvent::DoctorExists(roles.is_doctor), located.session)
}

/// A login with the right secret for the claimed id ends with a session that
/// holds the id as its identity, the id again in each role field whose role
/// the id carries, and nothing in the other, whatever the session held
/// before. The reply repeats these, and the token is due for renewal.
pub proof fn login_establishes_identity_and_roles(
    claimed_id: i32,
    secret: String,
    record: CredentialRecord,
    roles: RoleContext,
    session: SessionState,
)
    requires
        record.id == claimed_id,
        verifies(secret@, record.hash@),
    ensures
        successful_run(claimed_id, secret, record, roles, session).flow is Finished,
        successful_run(claimed_id, secret, record, roles, session).action == LoginAction::Finish(
            Ok(granted_view(claimed_id, roles)),
        ),
        successful_run(claimed_id, secret, record, roles, session).session
            == SessionState::established(claimed_id, roles),
        successful_run(claimed_id, secret, record, roles, session).session.consistent(),
{
}

/// A login of an id that is a location and not a doctor: the identity and
/// the location role are the id, the doctor role is absent.
pub proof fn login_of_location(
    claimed_id: i32,
    secret: String,
    record: CredentialRecord,
    session: SessionState,
)
    requires
        record.id == claimed_id,
        verifies(secret@, record.hash@),
    ensures
        ({
            let roles = RoleContext { is_location: true, is_doctor: false };
            let end = successful_run(claimed_id, secret, record, roles, session).session;
            &&& end.identity == Some(claimed_id)
            &&& end.location_role == Some(claimed_id)
            &&& end.doctor_role is None
        }),
{
}

/// A login of an id that is both a location and a doctor: the identity and
/// both role fields are the id.
pub proof fn login_of_location_and_doctor(
    claimed_id: i32,
    secret: String,
    record: CredentialRecord,
    session: SessionState,
)
    requires
        record.id == claimed_id,
        verifies(secret@, record.hash@),
    ensures
        ({
            let roles = RoleContext { is_location: true, is_doctor: true };
            let end = successful_run(claimed_id, secret, record, roles, session).session;
            &&& end.identity == Some(claimed_id)
            &&& end.location_role == Some(claimed_id)
            &&& end.doctor_role == Some(claimed_id)
        }),
{
}

/// A login with an unknown id, or with a secret that does not verify against
/// the record of the claimed id, ends at once: the session is purged,
/// whatever it held before, and the reply is the one generic failure.
pub proof fn failed_login_purges(
    claimed_id: i32,
    secret: String,
    found: Option<CredentialRecord>,
    session: SessionState,
)
    requires
        found matches Some(record) ==> !(record.id == claimed_id && verifies(
            secret@,
            record.hash@,
        )),
    ensures
        step(
            LoginFlow::AwaitingCredential { claimed_id, secret },
            LoginEvent::Credential(found),
            session,
        ) == rejected(),
        rejected().session.is_blank(),
        rejected().session.status is Purged,
        rejected().action == LoginAction::Finish(Err(AuthError::CredentialMismatch)),
        authenticated_view(rejected().session) is None,
{
}

/// A failure of the credential store ends the flow, at whatever point, and
/// leaves the session as it was.
pub proof fn store_failure_leaves_session(flow: LoginFlow, session: SessionState)
    ensures
        step(flow, LoginEvent::StoreUnavailable, session) == aborted(session),
        aborted(session).session == session,
        aborted(session).action == LoginAction::Finish(Err(AuthError::Infrastructure)),
{
}

/// No step leaves a session half written: after a step the session is as it
/// was before, or purged, or holds the whole outcome of a successful login.
/// Only a step that finishes the flow writes at all.
pub proof fn step_writes_sessions_whole(flow: LoginFlow, event: LoginEvent, session: SessionState)
    ensures
        ({
            let after = step(flow, event, session);
            ||| after.session == session
            ||| after.session == SessionState::purged()
            ||| exists|id: i32, roles: RoleContext|
                after.session == SessionState::established(id, roles)
        }),
        !(step(flow, event, session).flow is Finished) ==> step(flow, event, session).session
            == session,
        session.consistent() ==> step(flow, event, session).session.consistent(),
{
    let after = step(flow, event, session);
    match (flow, event) {
        (LoginFlow::AwaitingDoctor { id, is_location }, LoginEvent::DoctorExists(found)) => {
            let roles = RoleContext { is_location, is_doctor: found };
            assert(after.session == SessionState::established(id, roles));
        },
        _ => {},
    }
}

/// How many answers a flow can still take before it has finished.
pub open spec fn answers_left(flow: LoginFlow) -> nat {
    match flow {
        LoginFlow::AwaitingCredential { .. } => 3,
        LoginFlow::AwaitingLocation { .. } => 2,
        LoginFlow::AwaitingDoctor { .. } => 1,
        LoginFlow::Finished => 0,
    }
}

/// Every step brings an unfinished flow nearer to its end, so a login is
/// over after at most three answers. A finished flow stays finished.
pub proof fn every_step_nears_the_end(flow: LoginFlow, event: LoginEvent, session: SessionState)
    ensures
        !(flow is Finished) ==> answers_left(step(flow, event, session).flow) < answers_left(flow),
        flow is Finished ==> step(flow, event, session).flow is Finished,
        step(flow, event, session).action is Finish <==> step(flow, event, session).flow
            is Finished,
{
}

/// An identity gets into a session only through a verified secret: if three
/// steps from the start of a login, on any answers whatever, end with a
/// session that holds an identity and differs from the one the login started
/// with, then the first answer was a record of the claimed id against which
/// the secret verifies, and the identity is the claimed id.
pub proof fn identity_requires_verified_secret(
    claimed_id: i32,
    secret: String,
    first: LoginEvent,
    second: LoginEvent,
    third: LoginEvent,
    session: SessionState,
)
    ensures
        ({
            let start = LoginFlow::AwaitingCredential { claimed_id, secret };
            let one = step(start, first, session);
            let two = step(one.flow, second, one.session);
            let three = step(two.flow, third, two.session);
            &&& three.flow is Finished
            &&& three.session.identity is Some && three.session != session ==> {
                &&& secret_accepted(start, first)
                &&& three.session.identity == Some(claimed_id)
            }
        }),
{
}

/// Two logins in progress, each on a session of its own.
pub struct TwoLogins {
    pub left_flow: LoginFlow,
    pub left_session: SessionState,
    pub right_flow: LoginFlow,
    pub right_session: SessionState,
}

/// A step of the left login.
pub open spec fn step_left(both: TwoLogins, event: LoginEvent) -> TwoLogins {
    let after = step(both.left_flow, event, both.left_session);
    TwoLogins { left_flow: after.flow, left_session: after.session, ..both }
}

/// A step of the right login.
pub open spec fn step_right(both: TwoLogins, event: LoginEvent) -> TwoLogins {
    let after = step(both.right_flow, event, both.right_session);
    TwoLogins { right_flow: after.flow, right_session: after.session, ..both }
}

/// Logins on separate sessions do not touch each other: a step of one
/// leaves the other's flow and session as they are, and two steps, one of
/// each, end in the same place in either order. So however the steps of two
/// logins are interleaved, each session ends as its own login alone leaves
/// it.
pub proof fn logins_on_separate_sessions_do_not_interfere(
    both: TwoLogins,
    left_event: LoginEvent,
    right_event: LoginEvent,
)
    ensures
        step_left(both, left_event).right_flow == both.right_flow,
        step_left(both, left_event).right_session == both.right_session,
        step_right(both, right_event).left_flow == both.left_flow,
        step_right(both, right_event).left_session == both.left_session,
        step_left(step_right(both, right_event), left_event) == step_right(
            step_left(both, left_event),
            right_event,
        ),
{
}

/// Logging out a session in which nobody is logged in reports that nothing
/// was to do and leaves the session exactly as it was.
pub proof fn logout_of_anonymous_changes_nothing(session: SessionState)
    requires
        session.identity is None,
    ensures
        logout_status(session.identity) == LogoutStatus::AlreadyClear,
        session.without_identity() == session,
{
}

/// Logging out twice is logging out once, and after a logout the session
/// authenticates nobody, whatever role fields stay behind.
pub proof fn logout_is_idempotent(session: SessionState)
    ensures
        session.without_identity().without_identity() == session.without_identity(),
        logout_status(session.without_identity().identity) == LogoutStatus::AlreadyClear,
        authenticated_view(session.without_identity()) is None,
        session.without_identity().location_role == session.location_role,
        session.without_identity().doctor_role == session.doctor_role,
{
}

/// A session with an identity and no role field authenticates that identity
/// and puts nothing in scope: no doctors and no tickets are listed.
pub proof fn plain_user_lists_nothing(session: SessionState)
    requires
        session.identity is Some,
        session.location_role is None,
        session.doctor_role is None,
    ensures
        authenticated_view(session) matches Some(view) && {
            &&& view.identity == session.identity->0
            &&& listing_plan(view) == (ListingPlan {
                doctors_of: None,
                tickets: TicketScope::Nothing,
            })
        },
{
}

/// Whether a session authenticates anybody depends on its identity alone:
/// role fields without an identity authenticate nobody.
pub proof fn authentication_rests_on_identity_alone(session: SessionState)
    ensures
        authenticated_view(session) is Some <==> session.identity is Some,
{
}

/// Tickets are in scope only under a location, and doctors are listed for
/// exactly the sessions for which tickets are in scope.
pub proof fn listings_need_a_location(view: AuthenticatedView)
    ensures
        listing_plan(view).tickets is Nothing <==> view.location_role is None,
        listing_plan(view).doctors_of is None <==> listing_plan(view).tickets is Nothing,
        listing_plan(view).tickets is LocationAndDoctor <==> view.location_role is Some
            && view.doctor_role is Some,
{
}

} // verus!
