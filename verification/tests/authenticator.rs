use azap_auth::authenticator::{AuthError, CredentialRecord, LoginAction, LoginEvent, LoginFlow};
use azap_auth::reader::{current_session, AuthenticatedView};
use azap_auth::session::{Session, SessionStatus};

// Hashes of "correct-pw": at the standard work factor, and at a cheaper one.
const STANDARD: &str =
    "$rscrypt$0$DwgB$4fMUdhv0Sic8HXaDq2pEtg==$CegpJyTSXvxXrg4tgyVv13LasHSGOr7VhxGFy3yPjNs=$";
const CHEAP: &str =
    "$rscrypt$0$BAgB$720cy+ldiz2Gvwkk13edtQ==$S2vh2+6xcAOalTPTIVY40wG0gJt2y3erikx+OL1Lbtw=$";

/// A credential store in memory.
struct Store {
    users: Vec<CredentialRecord>,
    locations: Vec<i32>,
    doctors: Vec<i32>,
}

impl Store {
    fn answer(&self, action: LoginAction) -> LoginEvent {
        match action {
            LoginAction::FindCredential { id } => {
                LoginEvent::Credential(self.users.iter().find(|user| user.id == id).cloned())
            }
            LoginAction::ExistsLocation { id } => {
                LoginEvent::LocationExists(self.locations.contains(&id))
            }
            LoginAction::ExistsDoctor { id } => LoginEvent::DoctorExists(self.doctors.contains(&id)),
            LoginAction::Finish(_) => unreachable!("a finished flow asks nothing"),
        }
    }
}

fn record(id: i32, hash: &str) -> CredentialRecord {
    CredentialRecord { id, hash: hash.to_string() }
}

/// Drives a login against a store, as a request handler would.
fn login(
    store: &Store,
    claimed_id: i32,
    secret: &str,
    session: &mut Session,
) -> Result<AuthenticatedView, AuthError> {
    let (mut flow, mut action) = LoginFlow::begin(claimed_id, secret.to_string());
    let mut answers = 0;
    loop {
        if let LoginAction::Finish(reply) = action {
            assert!(flow.is_finished());
            return reply;
        }
        assert!(!flow.is_finished());
        assert!(answers < 3);
        let step = flow.advance(store.answer(action), session);
        flow = step.0;
        action = step.1;
        answers += 1;
    }
}

fn clinic(hash: &str) -> Store {
    Store {
        users: vec![record(7, hash), record(8, hash), record(9, hash), record(10, hash)],
        locations: vec![7, 9],
        doctors: vec![8, 9],
    }
}

#[test]
fn begin_asks_for_the_credential_record() {
    let (flow, action) = LoginFlow::begin(7, "correct-pw".to_string());
    assert!(
        flow == LoginFlow::AwaitingCredential { claimed_id: 7, secret: "correct-pw".to_string() }
    );
    assert_eq!(action, LoginAction::FindCredential { id: 7 });
    assert!(!flow.is_finished());
}

#[test]
fn example_of_a_location_at_standard_cost() {
    let store = Store { users: vec![record(7, STANDARD)], locations: vec![7], doctors: vec![] };
    let mut session = Session::new();
    let reply = login(&store, 7, "correct-pw", &mut session);
    assert_eq!(
        reply,
        Ok(AuthenticatedView { identity: 7, location_role: Some(7), doctor_role: None })
    );
    assert_eq!(session.identity(), Some(7));
    assert_eq!(session.location_role(), Some(7));
    assert_eq!(session.doctor_role(), None);
    assert_eq!(session.status(), SessionStatus::Renewed);

    let reply = login(&store, 7, "wrong", &mut session);
    assert_eq!(reply, Err(AuthError::CredentialMismatch));
    assert_eq!(session.identity(), None);
    assert_eq!(session.location_role(), None);
    assert_eq!(session.doctor_role(), None);
    assert_eq!(session.status(), SessionStatus::Purged);
}

#[test]
fn login_of_a_location() {
    let mut session = Session::new();
    let reply = login(&clinic(CHEAP), 7, "correct-pw", &mut session);
    assert_eq!(
        reply,
        Ok(AuthenticatedView { identity: 7, location_role: Some(7), doctor_role: None })
    );
    assert_eq!(session.identity(), Some(7));
    assert_eq!(session.location_role(), Some(7));
    assert_eq!(session.doctor_role(), None);
    assert_eq!(session.status(), SessionStatus::Renewed);
    assert_eq!(current_session(&session), reply.ok());
}

#[test]
fn login_of_a_doctor() {
    let mut session = Session::new();
    let reply = login(&clinic(CHEAP), 8, "correct-pw", &mut session);
    assert_eq!(
        reply,
        Ok(AuthenticatedView { identity: 8, location_role: None, doctor_role: Some(8) })
    );
    assert_eq!(session.identity(), Some(8));
    assert_eq!(session.location_role(), None);
    assert_eq!(session.doctor_role(), Some(8));
}

#[test]
fn login_of_a_location_that_is_a_doctor() {
    let mut session = Session::new();
    let reply = login(&clinic(CHEAP), 9, "correct-pw", &mut session);
    assert_eq!(
        reply,
        Ok(AuthenticatedView { identity: 9, location_role: Some(9), doctor_role: Some(9) })
    );
    assert_eq!(session.identity(), Some(9));
    assert_eq!(session.location_role(), Some(9));
    assert_eq!(session.doctor_role(), Some(9));
    assert_eq!(session.status(), SessionStatus::Renewed);
}

#[test]
fn login_of_a_plain_user() {
    let mut session = Session::new();
    let reply = login(&clinic(CHEAP), 10, "correct-pw", &mut session);
    assert_eq!(
        reply,
        Ok(AuthenticatedView { identity: 10, location_role: None, doctor_role: None })
    );
    assert_eq!(session.identity(), Some(10));
    assert_eq!(session.location_role(), None);
    assert_eq!(session.doctor_role(), None);
    assert_eq!(session.status(), SessionStatus::Renewed);
}

#[test]
fn login_replaces_what_another_user_left() {
    let mut session = Session::restore(Some(9), Some(9), Some(9)).expect("fields agree");
    let reply = login(&clinic(CHEAP), 10, "correct-pw", &mut session);
    assert!(reply.is_ok());
    assert_eq!(session.identity(), Some(10));
    assert_eq!(session.location_role(), None);
    assert_eq!(session.doctor_role(), None);

    let mut session = Session::restore(None, Some(7), None).expect("fields agree");
    let reply = login(&clinic(CHEAP), 8, "correct-pw", &mut session);
    assert!(reply.is_ok());
    assert_eq!(session.identity(), Some(8));
    assert_eq!(session.location_role(), None);
    assert_eq!(session.doctor_role(), Some(8));
}

#[test]
fn wrong_secret_purges_whatever_was_there() {
    let store = clinic(CHEAP);
    let mut purged = Session::new();
    purged.purge();

    let mut session = Session::new();
    assert_eq!(login(&store, 7, "wrong", &mut session), Err(AuthError::CredentialMismatch));
    assert_eq!(session, purged);

    let mut session = Session::restore(Some(9), Some(9), Some(9)).expect("fields agree");
    assert_eq!(login(&store, 7, "wrong", &mut session), Err(AuthError::CredentialMismatch));
    assert_eq!(session, purged);
    assert_eq!(current_session(&session), None);

    let mut session = Session::restore(Some(7), Some(7), None).expect("fields agree");
    assert_eq!(login(&store, 7, "", &mut session), Err(AuthError::CredentialMismatch));
    assert_eq!(session, purged);

    let mut session = Session::restore(None, Some(7), Some(7)).expect("fields agree");
    assert_eq!(login(&store, 7, "Correct-pw", &mut session), Err(AuthError::CredentialMismatch));
    assert_eq!(session, purged);
}

#[test]
fn unknown_id_fails_like_a_wrong_secret() {
    let store = clinic(CHEAP);
    let mut session = Session::restore(Some(9), Some(9), None).expect("fields agree");
    let unknown = login(&store, 11, "correct-pw", &mut session);
    let after_unknown = session;

    let mut session = Session::restore(Some(9), Some(9), None).expect("fields agree");
    let wrong = login(&store, 7, "wrong", &mut session);

    assert_eq!(unknown, Err(AuthError::CredentialMismatch));
    assert_eq!(unknown, wrong);
    assert_eq!(after_unknown, session);
    assert_eq!(session.status(), SessionStatus::Purged);
}

#[test]
fn unknown_id_ends_the_flow_at_once() {
    let mut session = Session::restore(Some(9), None, None).expect("fields agree");
    let (flow, _) = LoginFlow::begin(11, "correct-pw".to_string());
    let (flow, action) = flow.advance(LoginEvent::Credential(None), &mut session);
    assert!(flow == LoginFlow::Finished);
    assert_eq!(action, LoginAction::Finish(Err(AuthError::CredentialMismatch)));
    assert_eq!(session.identity(), None);
    assert_eq!(session.status(), SessionStatus::Purged);
}

#[test]
fn malformed_stored_hash_fails_like_a_wrong_secret() {
    let store = Store {
        users: vec![record(7, "correct-pw"), record(8, ""), record(9, &CHEAP[..40])],
        locations: vec![7],
        doctors: vec![],
    };
    for id in [7, 8, 9] {
        let mut session = Session::restore(Some(7), Some(7), None).expect("fields agree");
        assert_eq!(
            login(&store, id, "correct-pw", &mut session),
            Err(AuthError::CredentialMismatch)
        );
        assert_eq!(session.identity(), None);
        assert_eq!(session.status(), SessionStatus::Purged);
    }
}

#[test]
fn record_of_another_id_is_no_credential() {
    let mut session = Session::new();
    let (flow, _) = LoginFlow::begin(7, "correct-pw".to_string());
    let (flow, action) =
        flow.advance(LoginEvent::Credential(Some(record(8, CHEAP))), &mut session);
    assert!(flow == LoginFlow::Finished);
    assert_eq!(action, LoginAction::Finish(Err(AuthError::CredentialMismatch)));
    assert_eq!(session.status(), SessionStatus::Purged);

    let mut session = Session::new();
    let (flow, _) = LoginFlow::begin(7, "correct-pw".to_string());
    let (flow, action) =
        flow.decide(LoginEvent::Credential(Some(record(8, CHEAP))), true, &mut session);
    assert!(flow == LoginFlow::Finished);
    assert_eq!(action, LoginAction::Finish(Err(AuthError::CredentialMismatch)));
}

#[test]
fn session_is_written_only_at_the_end() {
    let before = Session::restore(Some(9), Some(9), None).expect("fields agree");
    let mut session = before;
    let (flow, _) = LoginFlow::begin(7, "correct-pw".to_string());

    let (flow, action) =
        flow.advance(LoginEvent::Credential(Some(record(7, CHEAP))), &mut session);
    assert!(flow == LoginFlow::AwaitingLocation { id: 7 });
    assert_eq!(action, LoginAction::ExistsLocation { id: 7 });
    assert_eq!(session, before);

    let (flow, action) = flow.advance(LoginEvent::LocationExists(true), &mut session);
    assert!(flow == LoginFlow::AwaitingDoctor { id: 7, is_location: true });
    assert_eq!(action, LoginAction::ExistsDoctor { id: 7 });
    assert_eq!(session, before);

    let (flow, action) = flow.advance(LoginEvent::DoctorExists(true), &mut session);
    assert!(flow == LoginFlow::Finished);
    assert_eq!(
        action,
        LoginAction::Finish(Ok(AuthenticatedView {
            identity: 7,
            location_role: Some(7),
            doctor_role: Some(7),
        }))
    );
    assert_eq!(session.identity(), Some(7));
    assert_eq!(session.location_role(), Some(7));
    assert_eq!(session.doctor_role(), Some(7));
}

#[test]
fn decide_follows_the_verdict_it_is_given() {
    let mut session = Session::new();
    let (flow, _) = LoginFlow::begin(7, "anything".to_string());
    let (flow, action) =
        flow.decide(LoginEvent::Credential(Some(record(7, "not a hash"))), true, &mut session);
    assert!(flow == LoginFlow::AwaitingLocation { id: 7 });
    assert_eq!(action, LoginAction::ExistsLocation { id: 7 });
    assert_eq!(session, Session::new());

    let (flow, _) = LoginFlow::begin(7, "correct-pw".to_string());
    let (flow, action) =
        flow.decide(LoginEvent::Credential(Some(record(7, CHEAP))), false, &mut session);
    assert!(flow == LoginFlow::Finished);
    assert_eq!(action, LoginAction::Finish(Err(AuthError::CredentialMismatch)));
    assert_eq!(session.status(), SessionStatus::Purged);

    // the verdict is not looked at where no record has arrived
    let mut session = Session::new();
    let (flow, _) = LoginFlow::begin(7, "correct-pw".to_string());
    let (flow, action) = flow.decide(LoginEvent::Credential(None), true, &mut session);
    assert!(flow == LoginFlow::Finished);
    assert_eq!(action, LoginAction::Finish(Err(AuthError::CredentialMismatch)));

    let mut session = Session::new();
    let flow = LoginFlow::AwaitingLocation { id: 7 };
    let (flow, action) = flow.decide(LoginEvent::LocationExists(false), true, &mut session);
    assert!(flow == LoginFlow::AwaitingDoctor { id: 7, is_location: false });
    assert_eq!(action, LoginAction::ExistsDoctor { id: 7 });
}

#[test]
fn store_failure_leaves_the_session_as_it_was() {
    let before = Session::restore(Some(9), Some(9), None).expect("fields agree");
    let infrastructure = LoginAction::Finish(Err(AuthError::Infrastructure));

    let mut session = before;
    let (flow, _) = LoginFlow::begin(7, "correct-pw".to_string());
    let (flow, action) = flow.advance(LoginEvent::StoreUnavailable, &mut session);
    assert!(flow == LoginFlow::Finished);
    assert_eq!(action, infrastructure);
    assert_eq!(session, before);

    let flow = LoginFlow::AwaitingLocation { id: 7 };
    let (flow, action) = flow.advance(LoginEvent::StoreUnavailable, &mut session);
    assert!(flow == LoginFlow::Finished);
    assert_eq!(action, infrastructure);
    assert_eq!(session, before);

    let flow = LoginFlow::AwaitingDoctor { id: 7, is_location: true };
    let (flow, action) = flow.advance(LoginEvent::StoreUnavailable, &mut session);
    assert!(flow == LoginFlow::Finished);
    assert_eq!(action, infrastructure);
    assert_eq!(session, before);
    assert_eq!(session.status(), SessionStatus::Unchanged);
}

#[test]
fn store_failure_after_verification_authenticates_nobody() {
    let mut session = Session::new();
    let (flow, _) = LoginFlow::begin(7, "correct-pw".to_string());
    let (flow, _) = flow.advance(LoginEvent::Credential(Some(record(7, CHEAP))), &mut session);
    let (flow, _) = flow.advance(LoginEvent::LocationExists(true), &mut session);
    let (flow, action) = flow.advance(LoginEvent::StoreUnavailable, &mut session);
    assert!(flow == LoginFlow::Finished);
    assert_eq!(action, LoginAction::Finish(Err(AuthError::Infrastructure)));
    assert_eq!(session, Session::new());
    assert_eq!(current_session(&session), None);
}

#[test]
fn answer_to_a_question_not_asked_ends_the_flow() {
    let before = Session::restore(Some(9), None, None).expect("fields agree");
    let infrastructure = LoginAction::Finish(Err(AuthError::Infrastructure));

    let mut session = before;
    let (flow, _) = LoginFlow::begin(7, "correct-pw".to_string());
    let (flow, action) = flow.advance(LoginEvent::LocationExists(true), &mut session);
    assert!(flow == LoginFlow::Finished);
    assert_eq!(action, infrastructure);
    assert_eq!(session, before);

    let (flow, _) = LoginFlow::begin(7, "correct-pw".to_string());
    let (flow, action) = flow.advance(LoginEvent::DoctorExists(true), &mut session);
    assert!(flow == LoginFlow::Finished);
    assert_eq!(action, infrastructure);

    let flow = LoginFlow::AwaitingLocation { id: 7 };
    let (flow, action) = flow.advance(LoginEvent::DoctorExists(true), &mut session);
    assert!(flow == LoginFlow::Finished);
    assert_eq!(action, infrastructure);

    let flow = LoginFlow::AwaitingLocation { id: 7 };
    let (flow, action) =
        flow.advance(LoginEvent::Credential(Some(record(7, CHEAP))), &mut session);
    assert!(flow == LoginFlow::Finished);
    assert_eq!(action, infrastructure);

    let flow = LoginFlow::AwaitingDoctor { id: 7, is_location: false };
    let (flow, action) = flow.advance(LoginEvent::LocationExists(true), &mut session);
    assert!(flow == LoginFlow::Finished);
    assert_eq!(action, infrastructure);
    assert_eq!(session, before);
}

#[test]
fn finished_flow_stays_finished() {
    let before = Session::restore(Some(7), Some(7), None).expect("fields agree");
    let mut session = before;
    let infrastructure = LoginAction::Finish(Err(AuthError::Infrastructure));
    for event in [
        LoginEvent::Credential(None),
        LoginEvent::Credential(Some(record(7, CHEAP))),
        LoginEvent::LocationExists(true),
        LoginEvent::DoctorExists(true),
        LoginEvent::StoreUnavailable,
    ] {
        let (flow, action) = LoginFlow::Finished.advance(event, &mut session);
        assert!(flow == LoginFlow::Finished);
        assert_eq!(action, infrastructure);
        assert_eq!(session, before);
    }
}

#[test]
fn hasher_is_asked_through_advance() {
    // the same record, once with the right secret and once with the stored
    // hash itself as the secret
    let mut session = Session::new();
    let (flow, _) = LoginFlow::begin(7, "correct-pw".to_string());
    let (flow, _) = flow.advance(LoginEvent::Credential(Some(record(7, CHEAP))), &mut session);
    assert!(flow == LoginFlow::AwaitingLocation { id: 7 });

    let (flow, _) = LoginFlow::begin(7, CHEAP.to_string());
    let (flow, _) = flow.advance(LoginEvent::Credential(Some(record(7, CHEAP))), &mut session);
    assert!(flow == LoginFlow::Finished);
}

#[test]
fn two_logins_on_two_sessions_keep_apart() {
    let store = clinic(CHEAP);
    let mut left = Session::restore(Some(10), None, None).expect("fields agree");
    let mut right = Session::new();
    let left_before = left;

    let (left_flow, left_action) = LoginFlow::begin(9, "correct-pw".to_string());
    let (right_flow, right_action) = LoginFlow::begin(8, "wrong".to_string());

    // the steps of the two logins, interleaved
    let (left_flow, left_action) = left_flow.advance(store.answer(left_action), &mut left);
    let (right_flow, right_action) = right_flow.advance(store.answer(right_action), &mut right);
    assert!(right_flow == LoginFlow::Finished);
    assert_eq!(right_action, LoginAction::Finish(Err(AuthError::CredentialMismatch)));
    assert_eq!(left, left_before);
    let (left_flow, left_action) = left_flow.advance(store.answer(left_action), &mut left);
    let (left_flow, left_action) = left_flow.advance(store.answer(left_action), &mut left);
    assert!(left_flow == LoginFlow::Finished);
    assert_eq!(
        left_action,
        LoginAction::Finish(Ok(AuthenticatedView {
            identity: 9,
            location_role: Some(9),
            doctor_role: Some(9),
        }))
    );

    // each session ends as its own login alone leaves it
    let mut left_alone = left_before;
    let mut right_alone = Session::new();
    assert!(login(&store, 9, "correct-pw", &mut left_alone).is_ok());
    assert!(login(&store, 8, "wrong", &mut right_alone).is_err());
    assert_eq!(left, left_alone);
    assert_eq!(right, right_alone);
    assert_eq!(right.status(), SessionStatus::Purged);
    assert_eq!(left.identity(), Some(9));
}

#[test]
fn extreme_ids() {
    let store = Store {
        users: vec![record(i32::MIN, CHEAP), record(i32::MAX, CHEAP), record(0, CHEAP)],
        locations: vec![i32::MIN, 0],
        doctors: vec![i32::MAX, 0],
    };
    let mut session = Session::new();
    assert_eq!(
        login(&store, i32::MIN, "correct-pw", &mut session),
        Ok(AuthenticatedView {
            identity: i32::MIN,
            location_role: Some(i32::MIN),
            doctor_role: None,
        })
    );
    assert_eq!(
        login(&store, i32::MAX, "correct-pw", &mut session),
        Ok(AuthenticatedView {
            identity: i32::MAX,
            location_role: None,
            doctor_role: Some(i32::MAX),
        })
    );
    assert_eq!(
        login(&store, 0, "correct-pw", &mut session),
        Ok(AuthenticatedView { identity: 0, location_role: Some(0), doctor_role: Some(0) })
    );
}
