//! The versions of the store's schema, and which of them a store has yet to
//! take.

use vstd::prelude::*;

verus! {

/// The version of the schema that holds every table.
pub const LATEST_VERSION: i32 = 2;

/// The version that a store is at, where its table of versions could be read
/// and held `found`: a store whose table cannot be read, or is empty, is at
/// version 0.
pub fn schema_version(found: Option<i32>) -> (r: i32)
    ensures
        r == match found {
            Some(version) => version,
            None => 0i32,
        },
{
    match found {
        Some(version) => version,
        None => 0,
    }
}

/// The versions that a store at `current_version` has yet to take, in order.
pub open spec fn pending(current_version: i32) -> Seq<i32> {
    if current_version < 1 {
        seq![1i32, 2i32]
    } else if current_version < 2 {
        seq![2i32]
    } else {
        Seq::empty()
    }
}

/// The versions that a store at `current_version` has yet to take, in order:
/// each version above its own, up to the latest.
pub fn pending_migrations(current_version: i32) -> (r: Vec<i32>)
    ensures
        r@ == pending(current_version),
        forall|v: i32| r@.contains(v) <==> current_version < v <= LATEST_VERSION && 1 <= v,
{
    let mut r: Vec<i32> = Vec::new();
    if current_version < 1 {
        r.push(1);
    }
    if current_version < 2 {
        r.push(2);
    }
    proof {
        assert(r@ =~= pending(current_version));
        assert forall|v: i32| r@.contains(v) <==> current_version < v <= LATEST_VERSION && 1
            <= v by {
            if current_version < v <= LATEST_VERSION && 1 <= v {
                if v == 1 {
                    assert(r@[0] == 1);
                } else {
                    assert(v == 2);
                    assert(r@[r@.len() - 1] == 2);
                }
            }
        }
    }
    r
}

/// The statement that makes the table of versions, unless the store has it.
pub const VERSION_TABLE: &'static str =
    "CREATE TABLE IF NOT EXISTS schema_version (version INTEGER PRIMARY KEY, applied_at INTEGER NOT NULL)";

/// The query for the version that a store is at.
pub const VERSION_QUERY: &'static str = "SELECT COALESCE(MAX(version), 0) FROM schema_version";

/// The script that takes a store to version 1: users, sessions and the two
/// kinds of token.
pub const SCRIPT_V1: &'static str =
    "BEGIN; CREATE TABLE users (id INTEGER PRIMARY KEY AUTOINCREMENT, uuid TEXT NOT NULL UNIQUE, name TEXT NOT NULL UNIQUE, email TEXT NOT NULL UNIQUE, password_hash TEXT NOT NULL, email_verified INTEGER NOT NULL DEFAULT 0, avatar TEXT, bio TEXT, created_at INTEGER NOT NULL, updated_at INTEGER NOT NULL); CREATE INDEX idx_users_uuid ON users(uuid); CREATE INDEX idx_users_email ON users(email); CREATE INDEX idx_users_name ON users(name); CREATE TABLE sessions (id TEXT PRIMARY KEY, user_uuid TEXT NOT NULL, created_at INTEGER NOT NULL, expires_at INTEGER NOT NULL, FOREIGN KEY (user_uuid) REFERENCES users(uuid) ON DELETE CASCADE); CREATE INDEX idx_sessions_user_uuid ON sessions(user_uuid); CREATE INDEX idx_sessions_expires_at ON sessions(expires_at); CREATE TABLE email_verification_tokens (token TEXT PRIMARY KEY, user_uuid TEXT NOT NULL, created_at INTEGER NOT NULL, expires_at INTEGER NOT NULL, FOREIGN KEY (user_uuid) REFERENCES users(uuid) ON DELETE CASCADE); CREATE INDEX idx_email_tokens_user_uuid ON email_verification_tokens(user_uuid); CREATE INDEX idx_email_tokens_expires_at ON email_verification_tokens(expires_at); CREATE TABLE password_reset_tokens (token TEXT PRIMARY KEY, user_uuid TEXT NOT NULL, created_at INTEGER NOT NULL, expires_at INTEGER NOT NULL, FOREIGN KEY (user_uuid) REFERENCES users(uuid) ON DELETE CASCADE); CREATE INDEX idx_password_tokens_user_uuid ON password_reset_tokens(user_uuid); CREATE INDEX idx_password_tokens_expires_at ON password_reset_tokens(expires_at); INSERT INTO schema_version (version, applied_at) VALUES (1, strftime('%s', 'now')); COMMIT;";

/// The script that takes a store from version 1 to version 2: the audit log.
pub const SCRIPT_V2: &'static str =
    "BEGIN; CREATE TABLE audit_logs (id TEXT PRIMARY KEY, user_uuid TEXT NOT NULL, action TEXT NOT NULL, resource_type TEXT, resource_id TEXT, metadata TEXT, ip_address TEXT, user_agent TEXT, created_at INTEGER NOT NULL, FOREIGN KEY (user_uuid) REFERENCES users(uuid) ON DELETE CASCADE); CREATE INDEX idx_audit_user_uuid ON audit_logs(user_uuid); CREATE INDEX idx_audit_action ON audit_logs(action); CREATE INDEX idx_audit_created_at ON audit_logs(created_at); CREATE INDEX idx_audit_resource ON audit_logs(resource_type, resource_id); INSERT INTO schema_version (version, applied_at) VALUES (2, strftime('%s', 'now')); COMMIT;";

/// The statement that makes the table of versions, unless the store has it.
pub fn version_table() -> (r: String)
    ensures
        r@ == VERSION_TABLE@,
{
    VERSION_TABLE.to_owned()
}

/// The query for the version that a store is at.
pub fn get_schema_version() -> (r: String)
    ensures
        r@ == VERSION_QUERY@,
{
    VERSION_QUERY.to_owned()
}

/// The script that takes a store to version 1.
pub fn migrate_v1() -> (r: String)
    ensures
        r@ == SCRIPT_V1@,
{
    SCRIPT_V1.to_owned()
}

/// The script that takes a store from version 1 to version 2.
pub fn migrate_v2() -> (r: String)
    ensures
        r@ == SCRIPT_V2@,
{
    SCRIPT_V2.to_owned()
}

/// The script that takes a store to `version` from the version before it, if
/// there is such a version.
pub open spec fn script_for(version: i32) -> Option<Seq<char>> {
    if version == 1 {
        Some(SCRIPT_V1@)
    } else if version == 2 {
        Some(SCRIPT_V2@)
    } else {
        None
    }
}

/// The script that takes a store to `version` from the version before it, if
/// there is such a version.
pub fn migration_script(version: i32) -> (r: Option<String>)
    ensures
        r.deep_view() == script_for(version),
        r is Some <==> 1 <= version <= LATEST_VERSION,
{
    if version == 1 {
        Some(migrate_v1())
    } else if version == 2 {
        Some(migrate_v2())
    } else {
        None
    }
}

} // verus!
