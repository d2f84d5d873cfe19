//! Writing a session back to the session store.
//!
//! The store is the transport's: a set of named fields behind the client's
//! token, with five operations. This module says which of them a session
//! asks for, and in which order, and states what the store holds once they
//! have been carried out.

use vstd::prelude::*;
use crate::session::{Session, SessionState, SessionStatus};

verus! {

/// The fields that a session occupies in the store.
#[derive(Clone, Copy, Debug, PartialEq, Eq, Structural)]
pub enum SessionField {
    /// The authenticated user id.
    Identity,
    /// The user's id again, if the user is a location.
    LocationRole,
    /// The user's id again, if the user is a doctor.
    DoctorRole,
}

/// One operation of the session store.
#[derive(Clone, Copy, Debug, PartialEq, Eq)]
pub enum StoreOp {
    /// Write a field.
    Write { field: SessionField, value: i32 },
    /// Take a field out.
    Remove { field: SessionField },
    /// Issue a fresh token for the fields as they stand.
    Renew,
    /// Destroy all fields and the token.
    Purge,
}

/// What is to become of the client's token.
pub enum TokenFate {
    /// The client keeps its token.
    Kept,
    /// The client is given a fresh token.
    Renewed,
    /// The token is destroyed.
    Destroyed,
}

/// The session store as this library expects it to behave, for one client.
pub struct StoreState {
    pub fields: Map<SessionField, i32>,
    pub token: TokenFate,
}

/// The name under which a field is kept in the store.
pub open spec fn field_name(field: SessionField) -> Seq<char> {
    match field {
        SessionField::Identity => "azap"@,
        SessionField::LocationRole => "azap-location"@,
        SessionField::DoctorRole => "azap-doctor"@,
    }
}

/// The store after one operation.
///
/// A purge is unconditional. Once the token is destroyed nothing else is
/// taken: writes and renewals are dropped. A write withdraws a renewal that
/// was asked for before it, so a renewal has to come after the writes that
/// it is to cover.
pub open spec fn applied(store: StoreState, op: StoreOp) -> StoreState {
    match op {
        StoreOp::Purge => StoreState { fields: Map::empty(), token: TokenFate::Destroyed },
        StoreOp::Write { field, value } => if store.token is Destroyed {
            store
        } else {
            StoreState { fields: store.fields.insert(field, value), token: TokenFate::Kept }
        },
        StoreOp::Remove { field } => if store.token is Destroyed {
            store
        } else {
            StoreState { fields: store.fields.remove(field), token: TokenFate::Kept }
        },
        StoreOp::Renew => if store.token is Destroyed {
            store
        } else {
            StoreState { token: TokenFate::Renewed, ..store }
        },
    }
}

/// The store after a sequence of operations, first to last.
pub open spec fn replayed(store: StoreState, ops: Seq<StoreOp>) -> StoreState
    decreases ops.len(),
{
    if ops.len() == 0 {
        store
    } else {
        applied(replayed(store, ops.drop_last()), ops.last())
    }
}

/// The operation that brings one field of the store to `value`.
pub open spec fn field_write(field: SessionField, value: Option<i32>) -> StoreOp {
    match value {
        Some(value) => StoreOp::Write { field, value },
        None => StoreOp::Remove { field },
    }
}

/// The operations that bring the three fields of the store to those of a
/// session.
pub open spec fn field_writes(session: SessionState) -> Seq<StoreOp> {
    seq![
        field_write(SessionField::Identity, session.identity),
        field_write(SessionField::LocationRole, session.location_role),
        field_write(SessionField::DoctorRole, session.doctor_role),
    ]
}

/// The operations that a session asks for: none if nothing was written, a
/// purge alone if it was purged, and otherwise its three fields, followed by
/// a renewal where one is due.
pub open spec fn pending_writes(session: SessionState) -> Seq<StoreOp> {
    match session.status {
        SessionStatus::Unchanged => Seq::empty(),
        SessionStatus::Changed => field_writes(session),
        SessionStatus::Renewed => field_writes(session).push(StoreOp::Renew),
        SessionStatus::Purged => seq![StoreOp::Purge],
    }
}

/// The fields of a session as the store holds them: a field is there
/// exactly when the session has a value for it.
pub open spec fn stored_fields(session: SessionState) -> Map<SessionField, i32> {
    Map::new(
        |field: SessionField|
            match field {
                SessionField::Identity => session.identity is Some,
                SessionField::LocationRole => session.location_role is Some,
                SessionField::DoctorRole => session.doctor_role is Some,
            },
        |field: SessionField|
            match field {
                SessionField::Identity => session.identity->0,
                SessionField::LocationRole => session.location_role->0,
                SessionField::DoctorRole => session.doctor_role->0,
            },
    )
}

/// The fate of the token that a session's status asks for.
pub open spec fn token_fate(status: SessionStatus) -> TokenFate {
    match status {
        SessionStatus::Unchanged => TokenFate::Kept,
        SessionStatus::Changed => TokenFate::Kept,
        SessionStatus::Renewed => TokenFate::Renewed,
        SessionStatus::Purged => TokenFate::Destroyed,
    }
}

impl SessionField {
    /// The name under which the field is kept in the store.
    pub fn name(&self) -> (name: &'static str)
        ensures
            name@ == field_name(*self),
    {
        match self {
            SessionField::Identity => "azap",
            SessionField::LocationRole => "azap-location",
            SessionField::DoctorRole => "azap-doctor",
        }
    }
}

/// Executable form of [`field_write`].
fn write_of(field: SessionField, value: Option<i32>) -> (op: StoreOp)
    ensures
        op == field_write(field, value),
{
    match value {
        Some(value) => StoreOp::Write { field, value },
        None => StoreOp::Remove { field },
    }
}

impl Session {
    /// The store operations that this session asks for, in the order in
    /// which they are to be carried out.
    pub fn pending_writes(&self) -> (ops: Vec<StoreOp>)
        ensures
            ops@ == pending_writes(self@),
    {
        let mut ops: Vec<StoreOp> = Vec::new();
        match self.status() {
            SessionStatus::Unchanged => {},
            SessionStatus::Purged => {
                ops.push(StoreOp::Purge);
            },
            status => {
                ops.push(write_of(SessionField::Identity, self.identity()));
                ops.push(write_of(SessionField::LocationRole, self.location_role()));
                ops.push(write_of(SessionField::DoctorRole, self.doctor_role()));
                if status == SessionStatus::Renewed {
                    ops.push(StoreOp::Renew);
                }
            },
        }
        ops
    }
}

/// The store after the three field writes of a session holds the session's
/// fields and nothing else.
proof fn field_writes_replace_fields(store: StoreState, session: SessionState)
    requires
        !(store.token is Destroyed),
    ensures
        replayed(store, field_writes(session)).fields == stored_fields(session),
        replayed(store, field_writes(session)).token is Kept,
{
    let ops = field_writes(session);
    let two = ops.drop_last();
    let one = two.drop_last();
    let none = one.drop_last();
    assert(none.len() == 0);
    assert(replayed(store, none) == store);
    assert(one.last() == ops[0]);
    assert(two.last() == ops[1]);
    assert(ops.last() == ops[2]);
    let after_one = applied(store, ops[0]);
    assert(replayed(store, one) == after_one);
    let after_two = applied(after_one, ops[1]);
    assert(replayed(store, two) == after_two);
    let after = applied(after_two, ops[2]);
    assert(replayed(store, ops) == after);
    assert(after.fields =~= stored_fields(session));
}

/// Carrying out what a session asks for brings the store to the session:
/// a session in which nothing was written leaves the store alone; any other
/// leaves exactly its own fields in the store, whatever was there, and the
/// token kept, renewed or destroyed as its status says.
pub proof fn writes_bring_store_to_session(store: StoreState, session: SessionState)
    requires
        !(store.token is Destroyed),
        session.consistent(),
    ensures
        session.status is Unchanged ==> replayed(store, pending_writes(session)) == store,
        !(session.status is Unchanged) ==> {
            &&& replayed(store, pending_writes(session)).fields == stored_fields(session)
            &&& replayed(store, pending_writes(session)).token == token_fate(session.status)
        },
{
    let ops = pending_writes(session);
    match session.status {
        SessionStatus::Unchanged => {
            assert(ops.len() == 0);
        },
        SessionStatus::Changed => {
            field_writes_replace_fields(store, session);
        },
        SessionStatus::Renewed => {
            field_writes_replace_fields(store, session);
            assert(ops.drop_last() =~= field_writes(session));
            assert(ops.last() == StoreOp::Renew);
        },
        SessionStatus::Purged => {
            assert(ops.drop_last().len() == 0);
            assert(replayed(store, ops.drop_last()) == store);
            assert(ops.last() == StoreOp::Purge);
            assert(stored_fields(session) =~= Map::empty());
        },
    }
}

} // verus!
