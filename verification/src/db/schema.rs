//! The records of the store.

use vstd::prelude::*;

verus! {

/// A user.
#[derive(Debug, Clone)]
pub struct User {
    pub id: i64,
    pub uuid: String,
    pub name: String,
    pub email: String,
    pub password_hash: String,
    pub email_verified: bool,
    pub avatar: Option<String>,
    pub bio: Option<String>,
    pub created_at: i64,
    pub updated_at: i64,
}

/// A session of a user, valid until `expires_at`.
#[derive(Debug, Clone)]
pub struct Session {
    pub id: String,
    pub user_uuid: String,
    pub created_at: i64,
    pub expires_at: i64,
}

/// A token by which a user confirms an email address, valid until `expires_at`.
#[derive(Debug, Clone)]
pub struct EmailVerificationToken {
    pub token: String,
    pub user_uuid: String,
    pub created_at: i64,
    pub expires_at: i64,
}

/// A token by which a user sets a new password, valid until `expires_at`.
#[derive(Debug, Clone)]
pub struct PasswordResetToken {
    pub token: String,
    pub user_uuid: String,
    pub created_at: i64,
    pub expires_at: i64,
}

/// An entry of the audit log.
#[derive(Debug, Clone)]
pub struct AuditLog {
    pub id: String,
    pub user_uuid: String,
    pub action: String,
    pub resource_type: Option<String>,
    pub resource_id: Option<String>,
    pub metadata: Option<String>,
    pub ip_address: Option<String>,
    pub user_agent: Option<String>,
    pub created_at: i64,
}

} // verus!
