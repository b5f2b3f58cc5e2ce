//! The statements that are sent to the store. A statement is a text with
//! places for values, and the values for these places in order; the store
//! runs it.

use vstd::prelude::*;

verus! {

/// A value that stands in a place of a statement.
#[derive(Debug, Clone)]
pub enum SqlValue {
    Text(String),
    Integer(i64),
    Null,
}

/// A value of a statement as mathematical values.
pub enum SqlValueView {
    Text(Seq<char>),
    Integer(int),
    Null,
}

impl View for SqlValue {
    type V = SqlValueView;

    open spec fn view(&self) -> SqlValueView {
        match self {
            SqlValue::Text(s) => SqlValueView::Text(s@),
            SqlValue::Integer(n) => SqlValueView::Integer(*n as int),
            SqlValue::Null => SqlValueView::Null,
        }
    }
}

impl DeepView for SqlValue {
    type V = SqlValueView;

    open spec fn deep_view(&self) -> SqlValueView {
        self@
    }
}

/// A statement: its text, and the values for the places of the text in order.
#[derive(Debug, Clone)]
pub struct Statement {
    pub sql: String,
    pub params: Vec<SqlValue>,
}

/// A statement as mathematical values.
pub struct StatementView {
    pub sql: Seq<char>,
    pub params: Seq<SqlValueView>,
}

impl View for Statement {
    type V = StatementView;

    open spec fn view(&self) -> StatementView {
        StatementView { sql: self.sql@, params: self.params.deep_view() }
    }
}

/// A text that may be absent, as a value of a statement.
pub open spec fn optional_text(text: Option<Seq<char>>) -> SqlValueView {
    match text {
        Some(t) => SqlValueView::Text(t),
        None => SqlValueView::Null,
    }
}

/// A text that may be absent, as a value of a statement.
fn optional(text: Option<&str>) -> (r: SqlValue)
    ensures
        r@ == optional_text(text.deep_view()),
{
    match text {
        Some(t) => SqlValue::Text(t.to_owned()),
        None => SqlValue::Null,
    }
}

/// The statement that adds a user, whose record was made and last changed at
/// `created_at`.
pub fn create_user(uuid: &str, name: &str, email: &str, password_hash: &str, created_at: i64) -> (r: Statement)
    ensures
        r@.sql == "INSERT INTO users (uuid, name, email, password_hash, created_at, updated_at) VALUES (?1, ?2, ?3, ?4, ?5, ?5)"@,
        r@.params == seq![SqlValueView::Text(uuid@), SqlValueView::Text(name@), SqlValueView::Text(email@), SqlValueView::Text(password_hash@), SqlValueView::Integer(created_at as int)],
{
    let mut params: Vec<SqlValue> = Vec::new();
    params.push(SqlValue::Text(uuid.to_owned()));
    params.push(SqlValue::Text(name.to_owned()));
    params.push(SqlValue::Text(email.to_owned()));
    params.push(SqlValue::Text(password_hash.to_owned()));
    params.push(SqlValue::Integer(created_at));
    assert(params.deep_view() =~= seq![SqlValueView::Text(uuid@), SqlValueView::Text(name@), SqlValueView::Text(email@), SqlValueView::Text(password_hash@), SqlValueView::Integer(created_at as int)]);
    Statement { sql: "INSERT INTO users (uuid, name, email, password_hash, created_at, updated_at) VALUES (?1, ?2, ?3, ?4, ?5, ?5)".to_owned(), params }
}

/// The query for the user with this email address.
pub fn get_user_by_email(email: &str) -> (r: Statement)
    ensures
        r@.sql == "SELECT id, uuid, name, email, password_hash, email_verified, avatar, bio, created_at, updated_at FROM users WHERE email = ?1"@,
        r@.params == seq![SqlValueView::Text(email@)],
{
    let mut params: Vec<SqlValue> = Vec::new();
    params.push(SqlValue::Text(email.to_owned()));
    assert(params.deep_view() =~= seq![SqlValueView::Text(email@)]);
    Statement { sql: "SELECT id, uuid, name, email, password_hash, email_verified, avatar, bio, created_at, updated_at FROM users WHERE email = ?1".to_owned(), params }
}

/// The query for the user with this identifier.
pub fn get_user_by_uuid(uuid: &str) -> (r: Statement)
    ensures
        r@.sql == "SELECT id, uuid, name, email, password_hash, email_verified, avatar, bio, created_at, updated_at FROM users WHERE uuid = ?1"@,
        r@.params == seq![SqlValueView::Text(uuid@)],
{
    let mut params: Vec<SqlValue> = Vec::new();
    params.push(SqlValue::Text(uuid.to_owned()));
    assert(params.deep_view() =~= seq![SqlValueView::Text(uuid@)]);
    Statement { sql: "SELECT id, uuid, name, email, password_hash, email_verified, avatar, bio, created_at, updated_at FROM users WHERE uuid = ?1".to_owned(), params }
}

/// The query for the user of this name.
pub fn get_user_by_name(name: &str) -> (r: Statement)
    ensures
        r@.sql == "SELECT id, uuid, name, email, password_hash, email_verified, avatar, bio, created_at, updated_at FROM users WHERE name = ?1"@,
        r@.params == seq![SqlValueView::Text(name@)],
{
    let mut params: Vec<SqlValue> = Vec::new();
    params.push(SqlValue::Text(name.to_owned()));
    assert(params.deep_view() =~= seq![SqlValueView::Text(name@)]);
    Statement { sql: "SELECT id, uuid, name, email, password_hash, email_verified, avatar, bio, created_at, updated_at FROM users WHERE name = ?1".to_owned(), params }
}

/// The statement that sets a user's password hash and the time of the change.
pub fn update_user_password(uuid: &str, password_hash: &str, updated_at: i64) -> (r: Statement)
    ensures
        r@.sql == "UPDATE users SET password_hash = ?1, updated_at = ?2 WHERE uuid = ?3"@,
        r@.params == seq![SqlValueView::Text(password_hash@), SqlValueView::Integer(updated_at as int), SqlValueView::Text(uuid@)],
{
    let mut params: Vec<SqlValue> = Vec::new();
    params.push(SqlValue::Text(password_hash.to_owned()));
    params.push(SqlValue::Integer(updated_at));
    params.push(SqlValue::Text(uuid.to_owned()));
    assert(params.deep_view() =~= seq![SqlValueView::Text(password_hash@), SqlValueView::Integer(updated_at as int), SqlValueView::Text(uuid@)]);
    Statement { sql: "UPDATE users SET password_hash = ?1, updated_at = ?2 WHERE uuid = ?3".to_owned(), params }
}

/// The statement that sets whether a user's email address is verified, and
/// the time of the change.
pub fn update_user_email_verified(uuid: &str, verified: bool) -> (r: Statement)
    ensures
        r@.sql == "UPDATE users SET email_verified = ?1, updated_at = strftime('%s', 'now') WHERE uuid = ?2"@,
        r@.params == seq![SqlValueView::Integer(if verified { 1int } else { 0int }), SqlValueView::Text(uuid@)],
{
    let mut params: Vec<SqlValue> = Vec::new();
    params.push(SqlValue::Integer(if verified { 1 } else { 0 }));
    params.push(SqlValue::Text(uuid.to_owned()));
    assert(params.deep_view() =~= seq![SqlValueView::Integer(if verified { 1int } else { 0int }), SqlValueView::Text(uuid@)]);
    Statement { sql: "UPDATE users SET email_verified = ?1, updated_at = strftime('%s', 'now') WHERE uuid = ?2".to_owned(), params }
}

/// The statement that adds a session.
pub fn create_session(id: &str, user_uuid: &str, created_at: i64, expires_at: i64) -> (r: Statement)
    ensures
        r@.sql == "INSERT INTO sessions (id, user_uuid, created_at, expires_at) VALUES (?1, ?2, ?3, ?4)"@,
        r@.params == seq![SqlValueView::Text(id@), SqlValueView::Text(user_uuid@), SqlValueView::Integer(created_at as int), SqlValueView::Integer(expires_at as int)],
{
    let mut params: Vec<SqlValue> = Vec::new();
    params.push(SqlValue::Text(id.to_owned()));
    params.push(SqlValue::Text(user_uuid.to_owned()));
    params.push(SqlValue::Integer(created_at));
    params.push(SqlValue::Integer(expires_at));
    assert(params.deep_view() =~= seq![SqlValueView::Text(id@), SqlValueView::Text(user_uuid@), SqlValueView::Integer(created_at as int), SqlValueView::Integer(expires_at as int)]);
    Statement { sql: "INSERT INTO sessions (id, user_uuid, created_at, expires_at) VALUES (?1, ?2, ?3, ?4)".to_owned(), params }
}

/// The query for a session, which finds it only while its end lies in the
/// future.
pub fn get_session(id: &str) -> (r: Statement)
    ensures
        r@.sql == "SELECT id, user_uuid, created_at, expires_at FROM sessions WHERE id = ?1 AND expires_at > strftime('%s', 'now')"@,
        r@.params == seq![SqlValueView::Text(id@)],
{
    let mut params: Vec<SqlValue> = Vec::new();
    params.push(SqlValue::Text(id.to_owned()));
    assert(params.deep_view() =~= seq![SqlValueView::Text(id@)]);
    Statement { sql: "SELECT id, user_uuid, created_at, expires_at FROM sessions WHERE id = ?1 AND expires_at > strftime('%s', 'now')".to_owned(), params }
}

/// The statement that removes a session.
pub fn delete_session(id: &str) -> (r: Statement)
    ensures
        r@.sql == "DELETE FROM sessions WHERE id = ?1"@,
        r@.params == seq![SqlValueView::Text(id@)],
{
    let mut params: Vec<SqlValue> = Vec::new();
    params.push(SqlValue::Text(id.to_owned()));
    assert(params.deep_view() =~= seq![SqlValueView::Text(id@)]);
    Statement { sql: "DELETE FROM sessions WHERE id = ?1".to_owned(), params }
}

/// The statement that removes all sessions of a user.
pub fn delete_user_sessions(user_uuid: &str) -> (r: Statement)
    ensures
        r@.sql == "DELETE FROM sessions WHERE user_uuid = ?1"@,
        r@.params == seq![SqlValueView::Text(user_uuid@)],
{
    let mut params: Vec<SqlValue> = Vec::new();
    params.push(SqlValue::Text(user_uuid.to_owned()));
    assert(params.deep_view() =~= seq![SqlValueView::Text(user_uuid@)]);
    Statement { sql: "DELETE FROM sessions WHERE user_uuid = ?1".to_owned(), params }
}

/// The statement that removes the sessions whose end does not lie in the
/// future.
pub fn cleanup_expired_sessions() -> (r: Statement)
    ensures
        r@.sql == "DELETE FROM sessions WHERE expires_at <= strftime('%s', 'now')"@,
        r@.params.len() == 0,
{
    let params: Vec<SqlValue> = Vec::new();
    assert(params.deep_view().len() == 0);
    Statement { sql: "DELETE FROM sessions WHERE expires_at <= strftime('%s', 'now')".to_owned(), params }
}

/// The statement that adds a token for the verification of an email address.
pub fn create_email_verification_token(token: &str, user_uuid: &str, created_at: i64, expires_at: i64) -> (r: Statement)
    ensures
        r@.sql == "INSERT INTO email_verification_tokens (token, user_uuid, created_at, expires_at) VALUES (?1, ?2, ?3, ?4)"@,
        r@.params == seq![SqlValueView::Text(token@), SqlValueView::Text(user_uuid@), SqlValueView::Integer(created_at as int), SqlValueView::Integer(expires_at as int)],
{
    let mut params: Vec<SqlValue> = Vec::new();
    params.push(SqlValue::Text(token.to_owned()));
    params.push(SqlValue::Text(user_uuid.to_owned()));
    params.push(SqlValue::Integer(created_at));
    params.push(SqlValue::Integer(expires_at));
    assert(params.deep_view() =~= seq![SqlValueView::Text(token@), SqlValueView::Text(user_uuid@), SqlValueView::Integer(created_at as int), SqlValueView::Integer(expires_at as int)]);
    Statement { sql: "INSERT INTO email_verification_tokens (token, user_uuid, created_at, expires_at) VALUES (?1, ?2, ?3, ?4)".to_owned(), params }
}

/// The query for a token for the verification of an email address, which
/// finds it only while its end lies in the future.
pub fn get_email_verification_token(token: &str) -> (r: Statement)
    ensures
        r@.sql == "SELECT token, user_uuid, created_at, expires_at FROM email_verification_tokens WHERE token = ?1 AND expires_at > strftime('%s', 'now')"@,
        r@.params == seq![SqlValueView::Text(token@)],
{
    let mut params: Vec<SqlValue> = Vec::new();
    params.push(SqlValue::Text(token.to_owned()));
    assert(params.deep_view() =~= seq![SqlValueView::Text(token@)]);
    Statement { sql: "SELECT token, user_uuid, created_at, expires_at FROM email_verification_tokens WHERE token = ?1 AND expires_at > strftime('%s', 'now')".to_owned(), params }
}

/// The statement that removes a token for the verification of an email
/// address.
pub fn delete_email_verification_token(token: &str) -> (r: Statement)
    ensures
        r@.sql == "DELETE FROM email_verification_tokens WHERE token = ?1"@,
        r@.params == seq![SqlValueView::Text(token@)],
{
    let mut params: Vec<SqlValue> = Vec::new();
    params.push(SqlValue::Text(token.to_owned()));
    assert(params.deep_view() =~= seq![SqlValueView::Text(token@)]);
    Statement { sql: "DELETE FROM email_verification_tokens WHERE token = ?1".to_owned(), params }
}

/// The statement that adds a token for the reset of a password.
pub fn create_password_reset_token(token: &str, user_uuid: &str, created_at: i64, expires_at: i64) -> (r: Statement)
    ensures
        r@.sql == "INSERT INTO password_reset_tokens (token, user_uuid, created_at, expires_at) VALUES (?1, ?2, ?3, ?4)"@,
        r@.params == seq![SqlValueView::Text(token@), SqlValueView::Text(user_uuid@), SqlValueView::Integer(created_at as int), SqlValueView::Integer(expires_at as int)],
{
    let mut params: Vec<SqlValue> = Vec::new();
    params.push(SqlValue::Text(token.to_owned()));
    params.push(SqlValue::Text(user_uuid.to_owned()));
    params.push(SqlValue::Integer(created_at));
    params.push(SqlValue::Integer(expires_at));
    assert(params.deep_view() =~= seq![SqlValueView::Text(token@), SqlValueView::Text(user_uuid@), SqlValueView::Integer(created_at as int), SqlValueView::Integer(expires_at as int)]);
    Statement { sql: "INSERT INTO password_reset_tokens (token, user_uuid, created_at, expires_at) VALUES (?1, ?2, ?3, ?4)".to_owned(), params }
}

/// The query for a token for the reset of a password, which finds it only
/// while its end lies in the future.
pub fn get_password_reset_token(token: &str) -> (r: Statement)
    ensures
        r@.sql == "SELECT token, user_uuid, created_at, expires_at FROM password_reset_tokens WHERE token = ?1 AND expires_at > strftime('%s', 'now')"@,
        r@.params == seq![SqlValueView::Text(token@)],
{
    let mut params: Vec<SqlValue> = Vec::new();
    params.push(SqlValue::Text(token.to_owned()));
    assert(params.deep_view() =~= seq![SqlValueView::Text(token@)]);
    Statement { sql: "SELECT token, user_uuid, created_at, expires_at FROM password_reset_tokens WHERE token = ?1 AND expires_at > strftime('%s', 'now')".to_owned(), params }
}

/// The statement that removes a token for the reset of a password.
pub fn delete_password_reset_token(token: &str) -> (r: Statement)
    ensures
        r@.sql == "DELETE FROM password_reset_tokens WHERE token = ?1"@,
        r@.params == seq![SqlValueView::Text(token@)],
{
    let mut params: Vec<SqlValue> = Vec::new();
    params.push(SqlValue::Text(token.to_owned()));
    assert(params.deep_view() =~= seq![SqlValueView::Text(token@)]);
    Statement { sql: "DELETE FROM password_reset_tokens WHERE token = ?1".to_owned(), params }
}

/// The statement that removes all tokens of a user for the reset of a
/// password.
pub fn delete_user_password_reset_tokens(user_uuid: &str) -> (r: Statement)
    ensures
        r@.sql == "DELETE FROM password_reset_tokens WHERE user_uuid = ?1"@,
        r@.params == seq![SqlValueView::Text(user_uuid@)],
{
    let mut params: Vec<SqlValue> = Vec::new();
    params.push(SqlValue::Text(user_uuid.to_owned()));
    assert(params.deep_view() =~= seq![SqlValueView::Text(user_uuid@)]);
    Statement { sql: "DELETE FROM password_reset_tokens WHERE user_uuid = ?1".to_owned(), params }
}

/// The statement that adds an entry to the audit log. A part that is not
/// given is stored as absent.
pub fn create_audit_log(id: &str, user_uuid: &str, action: &str, resource_type: Option<&str>, resource_id: Option<&str>, metadata: Option<&str>, ip_address: Option<&str>, user_agent: Option<&str>, created_at: i64) -> (r: Statement)
    ensures
        r@.sql == "INSERT INTO audit_logs (id, user_uuid, action, resource_type, resource_id, metadata, ip_address, user_agent, created_at) VALUES (?1, ?2, ?3, ?4, ?5, ?6, ?7, ?8, ?9)"@,
        r@.params == seq![SqlValueView::Text(id@), SqlValueView::Text(user_uuid@), SqlValueView::Text(action@), optional_text(resource_type.deep_view()), optional_text(resource_id.deep_view()), optional_text(metadata.deep_view()), optional_text(ip_address.deep_view()), optional_text(user_agent.deep_view()), SqlValueView::Integer(created_at as int)],
{
    let mut params: Vec<SqlValue> = Vec::new();
    params.push(SqlValue::Text(id.to_owned()));
    params.push(SqlValue::Text(user_uuid.to_owned()));
    params.push(SqlValue::Text(action.to_owned()));
    params.push(optional(resource_type));
    params.push(optional(resource_id));
    params.push(optional(metadata));
    params.push(optional(ip_address));
    params.push(optional(user_agent));
    params.push(SqlValue::Integer(created_at));
    assert(params.deep_view() =~= seq![SqlValueView::Text(id@), SqlValueView::Text(user_uuid@), SqlValueView::Text(action@), optional_text(resource_type.deep_view()), optional_text(resource_id.deep_view()), optional_text(metadata.deep_view()), optional_text(ip_address.deep_view()), optional_text(user_agent.deep_view()), SqlValueView::Integer(created_at as int)]);
    Statement { sql: "INSERT INTO audit_logs (id, user_uuid, action, resource_type, resource_id, metadata, ip_address, user_agent, created_at) VALUES (?1, ?2, ?3, ?4, ?5, ?6, ?7, ?8, ?9)".to_owned(), params }
}

/// The query for the entries of a user in the audit log, the newest first, at
/// most `limit` of them, after the first `offset`.
pub fn get_user_audit_logs(user_uuid: &str, limit: i32, offset: i32) -> (r: Statement)
    ensures
        r@.sql == "SELECT id, user_uuid, action, resource_type, resource_id, metadata, ip_address, user_agent, created_at FROM audit_logs WHERE user_uuid = ?1 ORDER BY created_at DESC LIMIT ?2 OFFSET ?3"@,
        r@.params == seq![SqlValueView::Text(user_uuid@), SqlValueView::Integer(limit as int), SqlValueView::Integer(offset as int)],
{
    let mut params: Vec<SqlValue> = Vec::new();
    params.push(SqlValue::Text(user_uuid.to_owned()));
    params.push(SqlValue::Integer(limit as i64));
    params.push(SqlValue::Integer(offset as i64));
    assert(params.deep_view() =~= seq![SqlValueView::Text(user_uuid@), SqlValueView::Integer(limit as int), SqlValueView::Integer(offset as int)]);
    Statement { sql: "SELECT id, user_uuid, action, resource_type, resource_id, metadata, ip_address, user_agent, created_at FROM audit_logs WHERE user_uuid = ?1 ORDER BY created_at DESC LIMIT ?2 OFFSET ?3".to_owned(), params }
}

/// The query for the number of a user's entries in the audit log.
pub fn count_user_audit_logs(user_uuid: &str) -> (r: Statement)
    ensures
        r@.sql == "SELECT COUNT(*) FROM audit_logs WHERE user_uuid = ?1"@,
        r@.params == seq![SqlValueView::Text(user_uuid@)],
{
    let mut params: Vec<SqlValue> = Vec::new();
    params.push(SqlValue::Text(user_uuid.to_owned()));
    assert(params.deep_view() =~= seq![SqlValueView::Text(user_uuid@)]);
    Statement { sql: "SELECT COUNT(*) FROM audit_logs WHERE user_uuid = ?1".to_owned(), params }
}

/// The statement that removes the entries of the audit log that were made
/// before `older_than`.
pub fn delete_old_audit_logs(older_than: i64) -> (r: Statement)
    ensures
        r@.sql == "DELETE FROM audit_logs WHERE created_at < ?1"@,
        r@.params == seq![SqlValueView::Integer(older_than as int)],
{
    let mut params: Vec<SqlValue> = Vec::new();
    params.push(SqlValue::Integer(older_than));
    assert(params.deep_view() =~= seq![SqlValueView::Integer(older_than as int)]);
    Statement { sql: "DELETE FROM audit_logs WHERE created_at < ?1".to_owned(), params }
}

/// A field of a user's profile that can be changed.
#[derive(Debug, Clone, Copy, PartialEq, Eq, Structural)]
pub enum ProfileField {
    Name,
    Bio,
    Avatar,
}

/// The part of the update that sets one field.
pub open spec fn assignment_text(field: ProfileField) -> Seq<char> {
    match field {
        ProfileField::Name => "name = ?, "@,
        ProfileField::Bio => "bio = ?, "@,
        ProfileField::Avatar => "avatar = ?, "@,
    }
}

/// The parts that set the fields of a patch, in order.
pub open spec fn assignments_text(patch: Seq<(ProfileField, Seq<char>)>) -> Seq<char>
    decreases patch.len(),
{
    if patch.len() == 0 {
        Seq::empty()
    } else {
        assignments_text(patch.drop_last()) + assignment_text(patch.last().0)
    }
}

/// The values of a patch, in order.
pub open spec fn patch_values(patch: Seq<(ProfileField, Seq<char>)>) -> Seq<SqlValueView> {
    patch.map_values(|p: (ProfileField, Seq<char>)| SqlValueView::Text(p.1))
}

/// The fields that a request changes, with their new values: name, bio and
/// avatar in this order, each only where the request holds it.
pub open spec fn profile_patch(name: Option<Seq<char>>, bio: Option<Seq<char>>, avatar: Option<Seq<char>>) -> Seq<
    (ProfileField, Seq<char>),
> {
    let with_name = match name {
        Some(v) => seq![(ProfileField::Name, v)],
        None => Seq::empty(),
    };
    let with_bio = match bio {
        Some(v) => with_name.push((ProfileField::Bio, v)),
        None => with_name,
    };
    match avatar {
        Some(v) => with_bio.push((ProfileField::Avatar, v)),
        None => with_bio,
    }
}

/// The statement that applies a patch to the user `uuid`: it sets the fields
/// of the patch and no other field of the profile, and the time of the
/// update in any case.
pub open spec fn profile_update(uuid: Seq<char>, patch: Seq<(ProfileField, Seq<char>)>) -> StatementView {
    StatementView {
        sql: "UPDATE users SET "@ + assignments_text(patch)
            + "updated_at = strftime('%s', 'now') WHERE uuid = ?"@,
        params: patch_values(patch).push(SqlValueView::Text(uuid)),
    }
}

/// Adds the setting of one field to a statement that is being built, where
/// the request holds the field.
fn push_assignment(
    sql: &mut String,
    params: &mut Vec<SqlValue>,
    field: ProfileField,
    value: Option<&str>,
    Ghost(patch): Ghost<Seq<(ProfileField, Seq<char>)>>,
) -> (next: Ghost<Seq<(ProfileField, Seq<char>)>>)
    requires
        old(sql)@ == "UPDATE users SET "@ + assignments_text(patch),
        old(params).deep_view() == patch_values(patch),
    ensures
        next@ == match value {
            Some(v) => patch.push((field, v@)),
            None => patch,
        },
        final(sql)@ == "UPDATE users SET "@ + assignments_text(next@),
        final(params).deep_view() == patch_values(next@),
{
    match value {
        Some(v) => {
            let ghost next = patch.push((field, v@));
            let ghost before = params.deep_view();
            match field {
                ProfileField::Name => sql.append("name = ?, "),
                ProfileField::Bio => sql.append("bio = ?, "),
                ProfileField::Avatar => sql.append("avatar = ?, "),
            }
            params.push(SqlValue::Text(v.to_owned()));
            proof {
                assert(next.drop_last() =~= patch);
                assert(sql@ =~= "UPDATE users SET "@ + assignments_text(next));
                assert(params.deep_view() =~= before.push(SqlValueView::Text(v@)));
                assert(params.deep_view() =~= patch_values(next));
            }
            Ghost(next)
        },
        None => Ghost(patch),
    }
}

/// The statement that changes the profile of the user `uuid`: only the fields
/// that are given are set, and the time of the update is set in any case,
/// also where no field is given.
pub fn update_user_profile(uuid: &str, name: Option<&str>, bio: Option<&str>, avatar: Option<&str>) -> (r:
    Statement)
    ensures
        r@ == profile_update(uuid@, profile_patch(name.deep_view(), bio.deep_view(), avatar.deep_view())),
{
    let mut sql = "UPDATE users SET ".to_owned();
    let mut params: Vec<SqlValue> = Vec::new();
    let ghost empty: Seq<(ProfileField, Seq<char>)> = Seq::empty();
    proof {
        assert(sql@ =~= "UPDATE users SET "@ + assignments_text(empty));
        assert(params.deep_view() =~= patch_values(empty));
    }
    let after_name = push_assignment(&mut sql, &mut params, ProfileField::Name, name, Ghost(empty));
    let after_bio = push_assignment(&mut sql, &mut params, ProfileField::Bio, bio, after_name);
    let after_avatar = push_assignment(&mut sql, &mut params, ProfileField::Avatar, avatar, after_bio);
    proof {
        assert(after_name@ =~= match name {
            Some(v) => seq![(ProfileField::Name, v@)],
            None => Seq::empty(),
        });
        assert(after_avatar@ == profile_patch(name.deep_view(), bio.deep_view(), avatar.deep_view()));
    }
    let ghost before = params.deep_view();
    sql.append("updated_at = strftime('%s', 'now') WHERE uuid = ?");
    params.push(SqlValue::Text(uuid.to_owned()));
    assert(params.deep_view() =~= before.push(SqlValueView::Text(uuid@)));
    Statement { sql, params }
}

/// What a query of the audit log asks of an entry.
#[derive(Debug, Clone)]
pub enum AuditCondition {
    /// The entry is the user's.
    User(String),
    /// The entry records this action.
    Action(String),
    /// The entry is about a resource of this type.
    ResourceType(String),
    /// The entry was made at this time or later.
    Since(i64),
    /// The entry was made at this time or earlier.
    Until(i64),
}

/// A condition as mathematical values.
pub enum AuditConditionView {
    User(Seq<char>),
    Action(Seq<char>),
    ResourceType(Seq<char>),
    Since(int),
    Until(int),
}

impl View for AuditCondition {
    type V = AuditConditionView;

    open spec fn view(&self) -> AuditConditionView {
        match self {
            AuditCondition::User(s) => AuditConditionView::User(s@),
            AuditCondition::Action(s) => AuditConditionView::Action(s@),
            AuditCondition::ResourceType(s) => AuditConditionView::ResourceType(s@),
            AuditCondition::Since(t) => AuditConditionView::Since(*t as int),
            AuditCondition::Until(t) => AuditConditionView::Until(*t as int),
        }
    }
}

/// The part of the query that states one condition.
pub open spec fn condition_text(c: AuditConditionView) -> Seq<char> {
    match c {
        AuditConditionView::User(_) => " AND user_uuid = ?"@,
        AuditConditionView::Action(_) => " AND action = ?"@,
        AuditConditionView::ResourceType(_) => " AND resource_type = ?"@,
        AuditConditionView::Since(_) => " AND created_at >= ?"@,
        AuditConditionView::Until(_) => " AND created_at <= ?"@,
    }
}

/// The value that a condition compares with.
pub open spec fn condition_value(c: AuditConditionView) -> SqlValueView {
    match c {
        AuditConditionView::User(s) => SqlValueView::Text(s),
        AuditConditionView::Action(s) => SqlValueView::Text(s),
        AuditConditionView::ResourceType(s) => SqlValueView::Text(s),
        AuditConditionView::Since(t) => SqlValueView::Integer(t),
        AuditConditionView::Until(t) => SqlValueView::Integer(t),
    }
}

/// The parts that state the conditions, in order.
pub open spec fn conditions_text(conditions: Seq<AuditConditionView>) -> Seq<char>
    decreases conditions.len(),
{
    if conditions.len() == 0 {
        Seq::empty()
    } else {
        conditions_text(conditions.drop_last()) + condition_text(conditions.last())
    }
}

/// The values that the conditions compare with, in order.
pub open spec fn condition_values(conditions: Seq<AuditConditionView>) -> Seq<SqlValueView> {
    conditions.map_values(|c: AuditConditionView| condition_value(c))
}

/// The conditions that a filter states: user, action, type of resource,
/// earliest and latest time in this order, each only where the filter holds it.
pub open spec fn filter_conditions(
    user_uuid: Option<Seq<char>>,
    action: Option<Seq<char>>,
    resource_type: Option<Seq<char>>,
    start_time: Option<i64>,
    end_time: Option<i64>,
) -> Seq<AuditConditionView> {
    let c0 = Seq::<AuditConditionView>::empty();
    let c1 = match user_uuid {
        Some(v) => c0.push(AuditConditionView::User(v)),
        None => c0,
    };
    let c2 = match action {
        Some(v) => c1.push(AuditConditionView::Action(v)),
        None => c1,
    };
    let c3 = match resource_type {
        Some(v) => c2.push(AuditConditionView::ResourceType(v)),
        None => c2,
    };
    let c4 = match start_time {
        Some(t) => c3.push(AuditConditionView::Since(t as int)),
        None => c3,
    };
    match end_time {
        Some(t) => c4.push(AuditConditionView::Until(t as int)),
        None => c4,
    }
}

/// The columns of an entry of the audit log, and the table they are read from.
pub open spec fn audit_select_text() -> Seq<char> {
    "SELECT id, user_uuid, action, resource_type, resource_id, metadata, ip_address, user_agent, created_at FROM audit_logs WHERE 1=1"@
}

/// The query for the entries that meet every condition: the newest first,
/// at most `limit` of them, after the first `offset`.
pub open spec fn audit_query(conditions: Seq<AuditConditionView>, limit: i32, offset: i32) -> StatementView {
    StatementView {
        sql: audit_select_text() + conditions_text(conditions)
            + " ORDER BY created_at DESC LIMIT ? OFFSET ?"@,
        params: condition_values(conditions).push(SqlValueView::Integer(limit as int)).push(
            SqlValueView::Integer(offset as int),
        ),
    }
}

/// Adds one condition to a query that is being built.
fn push_condition(
    sql: &mut String,
    params: &mut Vec<SqlValue>,
    condition: AuditCondition,
    Ghost(conditions): Ghost<Seq<AuditConditionView>>,
)
    requires
        old(sql)@ == audit_select_text() + conditions_text(conditions),
        old(params).deep_view() == condition_values(conditions),
    ensures
        final(sql)@ == audit_select_text() + conditions_text(conditions.push(condition@)),
        final(params).deep_view() == condition_values(conditions.push(condition@)),
{
    let ghost next = conditions.push(condition@);
    let ghost before = params.deep_view();
    let value = match condition {
        AuditCondition::User(s) => {
            sql.append(" AND user_uuid = ?");
            SqlValue::Text(s)
        },
        AuditCondition::Action(s) => {
            sql.append(" AND action = ?");
            SqlValue::Text(s)
        },
        AuditCondition::ResourceType(s) => {
            sql.append(" AND resource_type = ?");
            SqlValue::Text(s)
        },
        AuditCondition::Since(t) => {
            sql.append(" AND created_at >= ?");
            SqlValue::Integer(t)
        },
        AuditCondition::Until(t) => {
            sql.append(" AND created_at <= ?");
            SqlValue::Integer(t)
        },
    };
    params.push(value);
    proof {
        assert(next.drop_last() =~= conditions);
        assert(sql@ =~= audit_select_text() + conditions_text(next));
        assert(params.deep_view() =~= before.push(condition_value(condition@)));
        assert(params.deep_view() =~= condition_values(next));
    }
}

/// The query for the entries of the audit log that pass a filter, the newest
/// first, at most `limit` of them, after the first `offset`. A part of the
/// filter that is not given lets every entry pass.
pub fn get_audit_logs_filtered(
    user_uuid: Option<&str>,
    action: Option<&str>,
    resource_type: Option<&str>,
    start_time: Option<i64>,
    end_time: Option<i64>,
    limit: i32,
    offset: i32,
) -> (r: Statement)
    ensures
        r@ == audit_query(
            filter_conditions(
                user_uuid.deep_view(),
                action.deep_view(),
                resource_type.deep_view(),
                start_time,
                end_time,
            ),
            limit,
            offset,
        ),
{
    let mut sql =
        "SELECT id, user_uuid, action, resource_type, resource_id, metadata, ip_address, user_agent, created_at FROM audit_logs WHERE 1=1".to_owned();
    let mut params: Vec<SqlValue> = Vec::new();
    let ghost mut conditions: Seq<AuditConditionView> = Seq::empty();
    proof {
        assert(sql@ =~= audit_select_text() + conditions_text(conditions));
        assert(params.deep_view() =~= condition_values(conditions));
    }
    match user_uuid {
        Some(v) => {
            let c = AuditCondition::User(v.to_owned());
            push_condition(&mut sql, &mut params, c, Ghost(conditions));
            proof {
                conditions = conditions.push(c@);
            }
        },
        None => {},
    }
    match action {
        Some(v) => {
            let c = AuditCondition::Action(v.to_owned());
            push_condition(&mut sql, &mut params, c, Ghost(conditions));
            proof {
                conditions = conditions.push(c@);
            }
        },
        None => {},
    }
    match resource_type {
        Some(v) => {
            let c = AuditCondition::ResourceType(v.to_owned());
            push_condition(&mut sql, &mut params, c, Ghost(conditions));
            proof {
                conditions = conditions.push(c@);
            }
        },
        None => {},
    }
    match start_time {
        Some(t) => {
            let c = AuditCondition::Since(t);
            push_condition(&mut sql, &mut params, c, Ghost(conditions));
            proof {
                conditions = conditions.push(c@);
            }
        },
        None => {},
    }
    match end_time {
        Some(t) => {
            let c = AuditCondition::Until(t);
            push_condition(&mut sql, &mut params, c, Ghost(conditions));
            proof {
                conditions = conditions.push(c@);
            }
        },
        None => {},
    }
    let ghost before = params.deep_view();
    sql.append(" ORDER BY created_at DESC LIMIT ? OFFSET ?");
    params.push(SqlValue::Integer(limit as i64));
    params.push(SqlValue::Integer(offset as i64));
    proof {
        assert(params.deep_view() =~= before.push(SqlValueView::Integer(limit as int)).push(
            SqlValueView::Integer(offset as int),
        ));
    }
    Statement { sql, params }
}

} // verus!
