//! Authentication core of a small clinic back end: password hashing and
//! verification, the login decision procedure, and the session state that
//! later requests are authorised from.
//!
//! Everything here works on plain values. The caller owns the database and the
//! transport: it performs the lookups that the login procedure asks for, hands
//! the answers back, and writes the resulting [`Session`] to its store.

pub mod authenticator;
pub mod hasher;
pub mod laws;
pub mod reader;
pub mod session;
pub mod store;
pub mod stored_hash;
pub mod terminator;

pub use authenticator::{AuthError, CredentialRecord, LoginAction, LoginEvent, LoginFlow};
pub use hasher::{hash, verify, HashError};
pub use reader::{current_session, AuthenticatedView, ListingPlan, TicketScope};
pub use session::{RoleContext, Session, SessionState, SessionStatus};
pub use store::{SessionField, StoreOp};
pub use stored_hash::WorkFactor;
pub use terminator::{logout, LogoutStatus};
