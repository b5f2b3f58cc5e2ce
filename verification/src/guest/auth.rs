//! The authentication plugin: what it asks of a sign-up, how it names users
//! and sessions, how long a session lasts, and what it answers.

use crate::guest::audit::{hex_digit, hex_digit_text};
use crate::text::{joined, decimal, decimal_text};
use argon2::password_hash::{PasswordHasher, PasswordVerifier};
use vstd::prelude::*;
use vstd::utf8::encode_utf8;

verus! {

/// A request to sign up.
#[derive(Debug)]
pub struct SignupRequest {
    pub name: String,
    pub email: String,
    pub password: String,
}

/// The answer to a request to sign up.
#[derive(Debug)]
pub struct SignupResponse {
    pub success: bool,
    pub user_uuid: Option<String>,
    pub message: String,
}

/// A request to log in.
#[derive(Debug)]
pub struct LoginRequest {
    pub email: String,
    pub password: String,
}

/// What is told of a user who has logged in.
#[derive(Debug)]
pub struct UserInfo {
    pub uuid: String,
    pub name: String,
    pub email: String,
}

/// The answer to a request to log in.
#[derive(Debug)]
pub struct LoginResponse {
    pub success: bool,
    pub session_id: Option<String>,
    pub user: Option<UserInfo>,
    pub message: String,
}

/// A request to check a session.
#[derive(Debug)]
pub struct VerifySessionRequest {
    pub session_id: String,
}

/// The answer to a request to check a session.
#[derive(Debug)]
pub struct VerifySessionResponse {
    pub success: bool,
    pub valid: bool,
    pub user_uuid: Option<String>,
}

/// A request to log out.
#[derive(Debug)]
pub struct LogoutRequest {
    pub session_id: String,
}

/// An answer that holds no data.
#[derive(Debug)]
pub struct GenericResponse {
    pub success: bool,
    pub message: String,
}

/// The fewest bytes of a password.
pub const MIN_PASSWORD_BYTES: usize = 8;

/// The bytes of a salt, and of the random part of an identifier.
pub const SALT_BYTES: usize = 16;

/// The seconds that a session lasts: seven days.
pub const SESSION_SECONDS: i64 = 604800;

/// Why a sign-up is refused.
#[derive(Debug, Clone, Copy, PartialEq, Eq, Structural)]
pub enum SignupRefusal {
    /// The name, the email address or the password is empty.
    MissingField,
    /// The password has fewer than eight bytes.
    ShortPassword,
    /// A user with the email address exists.
    EmailTaken,
}

/// The words of each refusal.
pub open spec fn signup_refusal_text(why: SignupRefusal) -> Seq<char> {
    match why {
        SignupRefusal::MissingField => "Name, email, and password are required"@,
        SignupRefusal::ShortPassword => "Password must be at least 8 characters"@,
        SignupRefusal::EmailTaken => "User with this email already exists"@,
    }
}

/// Why a request to sign up is refused before the store is asked, if it is:
/// an empty field first, then a password that is too short.
pub open spec fn request_refusal(name: Seq<char>, email: Seq<char>, password: Seq<char>) -> Option<
    SignupRefusal,
> {
    if name.len() == 0 || email.len() == 0 || password.len() == 0 {
        Some(SignupRefusal::MissingField)
    } else if encode_utf8(password).len() < MIN_PASSWORD_BYTES {
        Some(SignupRefusal::ShortPassword)
    } else {
        None
    }
}

impl SignupRefusal {
    /// The refusal in words.
    pub fn message(&self) -> (r: String)
        ensures
            r@ == signup_refusal_text(*self),
    {
        match self {
            SignupRefusal::MissingField => "Name, email, and password are required".to_owned(),
            SignupRefusal::ShortPassword => "Password must be at least 8 characters".to_owned(),
            SignupRefusal::EmailTaken => "User with this email already exists".to_owned(),
        }
    }

    /// The answer that refuses the sign-up.
    pub fn response(&self) -> (r: SignupResponse)
        ensures
            !r.success,
            r.user_uuid is None,
            r.message@ == signup_refusal_text(*self),
    {
        SignupResponse { success: false, user_uuid: None, message: self.message() }
    }
}

/// Checks a request to sign up, before the store is asked.
pub fn check_signup(request: &SignupRequest) -> (r: Result<(), SignupRefusal>)
    ensures
        match request_refusal(request.name@, request.email@, request.password@) {
            Some(why) => r == Err::<(), SignupRefusal>(why),
            None => r is Ok,
        },
{
    if request.name.as_str().is_empty() || request.email.as_str().is_empty()
        || request.password.as_str().is_empty() {
        return Err(SignupRefusal::MissingField);
    }
    if request.password.as_str().as_bytes().len() < MIN_PASSWORD_BYTES {
        return Err(SignupRefusal::ShortPassword);
    }
    Ok(())
}

/// Checks that no user has the email address of a sign-up, once the store
/// has been asked for one.
pub fn check_email_free(user_exists: bool) -> (r: Result<(), SignupRefusal>)
    ensures
        user_exists ==> r == Err::<(), SignupRefusal>(SignupRefusal::EmailTaken),
        !user_exists ==> r is Ok,
{
    if user_exists {
        Err(SignupRefusal::EmailTaken)
    } else {
        Ok(())
    }
}

/// The answer to a sign-up, once the store has been asked to add the user:
/// the store's refusal in the store's words, or in the plugin's where the
/// store has none; else the new user's identifier.
pub fn signup_response(stored: bool, store_error: Option<String>, user_uuid: String) -> (r: SignupResponse)
    ensures
        r.success == stored,
        stored ==> r.user_uuid == Some(user_uuid) && r.message@ == "User created successfully"@,
        !stored ==> r.user_uuid is None && r.message@ == match store_error {
            Some(why) => why@,
            None => "Failed to create user"@,
        },
{
    if stored {
        SignupResponse {
            success: true,
            user_uuid: Some(user_uuid),
            message: "User created successfully".to_owned(),
        }
    } else {
        let message = match store_error {
            Some(why) => why,
            None => "Failed to create user".to_owned(),
        };
        SignupResponse { success: false, user_uuid: None, message }
    }
}

/// The two hexadecimal digits of each byte, in order.
pub open spec fn hex_bytes(bytes: Seq<u8>) -> Seq<char>
    decreases bytes.len(),
{
    if bytes.len() == 0 {
        Seq::empty()
    } else {
        hex_bytes(bytes.drop_last()).push(hex_digit((bytes.last() / 16) as nat)).push(
            hex_digit((bytes.last() % 16) as nat),
        )
    }
}

/// The identifier that is made of sixteen bytes: their hexadecimal digits in
/// groups of four, two, two, two and six bytes, with a hyphen between two
/// groups.
pub open spec fn uuid_text(bytes: Seq<u8>) -> Seq<char> {
    hex_bytes(bytes.subrange(0, 4)).push('-') + hex_bytes(bytes.subrange(4, 6)).push('-')
        + hex_bytes(bytes.subrange(6, 8)).push('-') + hex_bytes(bytes.subrange(8, 10)).push('-')
        + hex_bytes(bytes.subrange(10, 16))
}

/// The hexadecimal digits of the bytes from `from` up to `to`.
fn hex_group(bytes: &Vec<u8>, from: usize, to: usize) -> (r: String)
    requires
        from <= to <= bytes@.len(),
    ensures
        r@ == hex_bytes(bytes@.subrange(from as int, to as int)),
{
    let mut out = String::new();
    let mut i: usize = from;
    assert(bytes@.subrange(from as int, from as int) =~= Seq::empty());
    while i < to
        invariant
            from <= i <= to,
            to <= bytes@.len(),
            out@ == hex_bytes(bytes@.subrange(from as int, i as int)),
        decreases to - i,
    {
        let ghost before = out@;
        let b = bytes[i];
        out.append(hex_digit_text(b / 16));
        out.append(hex_digit_text(b % 16));
        proof {
            let group = bytes@.subrange(from as int, i + 1);
            assert(group.drop_last() =~= bytes@.subrange(from as int, i as int));
            assert(group.last() == b);
            assert(out@ =~= before.push(hex_digit((b / 16) as nat)).push(
                hex_digit((b % 16) as nat),
            ));
        }
        i = i + 1;
    }
    out
}

/// The identifier that is made of sixteen random bytes, or nothing where
/// the bytes are fewer.
pub fn generate_uuid(random_bytes: &Vec<u8>) -> (r: Option<String>)
    ensures
        random_bytes@.len() < SALT_BYTES ==> r is None,
        random_bytes@.len() >= SALT_BYTES ==> r is Some && r->Some_0@ == uuid_text(random_bytes@),
{
    if random_bytes.len() < SALT_BYTES {
        return None;
    }
    proof {
        reveal_strlit("-");
    }
    let mut out = hex_group(random_bytes, 0, 4);
    let ghost g1 = out@;
    out.append("-");
    assert(out@ =~= g1.push('-'));
    let g = hex_group(random_bytes, 4, 6);
    out.append(g.as_str());
    let ghost g2 = out@;
    out.append("-");
    assert(out@ =~= hex_bytes(random_bytes@.subrange(0, 4)).push('-') + hex_bytes(
        random_bytes@.subrange(4, 6),
    ).push('-'));
    let g = hex_group(random_bytes, 6, 8);
    out.append(g.as_str());
    let ghost g3 = out@;
    out.append("-");
    assert(out@ =~= hex_bytes(random_bytes@.subrange(0, 4)).push('-') + hex_bytes(
        random_bytes@.subrange(4, 6),
    ).push('-') + hex_bytes(random_bytes@.subrange(6, 8)).push('-'));
    let g = hex_group(random_bytes, 8, 10);
    out.append(g.as_str());
    let ghost g4 = out@;
    out.append("-");
    assert(out@ =~= hex_bytes(random_bytes@.subrange(0, 4)).push('-') + hex_bytes(
        random_bytes@.subrange(4, 6),
    ).push('-') + hex_bytes(random_bytes@.subrange(6, 8)).push('-') + hex_bytes(
        random_bytes@.subrange(8, 10),
    ).push('-'));
    let g = hex_group(random_bytes, 10, 16);
    out.append(g.as_str());
    Some(out)
}

/// The time at which a session ends that begins at `created_at`: seven days
/// later, or the largest `i64` where that would lie beyond it.
pub fn session_expiry(created_at: i64) -> (r: i64)
    ensures
        r == if created_at + SESSION_SECONDS > i64::MAX {
            i64::MAX as int
        } else {
            created_at + SESSION_SECONDS
        },
{
    if created_at > i64::MAX - SESSION_SECONDS {
        i64::MAX
    } else {
        created_at + SESSION_SECONDS
    }
}

/// Whether a session that ends at `expires_at` is over at the time `now`.
pub open spec fn is_expired(expires_at: i64, now: i64) -> bool {
    expires_at < now
}

/// What the plugin does with a session that was asked about.
#[derive(Debug)]
pub struct SessionVerdict {
    /// The answer to the request.
    pub response: VerifySessionResponse,
    /// Whether the session is to be removed from the store.
    pub remove: bool,
}

/// Decides on a session, of which the store holds the user and the end, or
/// nothing: a session that the store does not hold is not valid; one that is
/// over is not valid and is removed; else the session is valid for its user.
pub fn verify_session(found: Option<(String, i64)>, now: i64) -> (r: SessionVerdict)
    ensures
        r.response.success,
        match found {
            None => !r.response.valid && r.response.user_uuid is None && !r.remove,
            Some((user_uuid, expires_at)) => if is_expired(expires_at, now) {
                !r.response.valid && r.response.user_uuid is None && r.remove
            } else {
                r.response.valid && r.response.user_uuid == Some(user_uuid) && !r.remove
            },
        },
{
    match found {
        None => SessionVerdict {
            response: VerifySessionResponse { success: true, valid: false, user_uuid: None },
            remove: false,
        },
        Some((user_uuid, expires_at)) => {
            if expires_at < now {
                SessionVerdict {
                    response: VerifySessionResponse { success: true, valid: false, user_uuid: None },
                    remove: true,
                }
            } else {
                SessionVerdict {
                    response: VerifySessionResponse {
                        success: true,
                        valid: true,
                        user_uuid: Some(user_uuid),
                    },
                    remove: false,
                }
            }
        },
    }
}

/// The answer to a request to log out, once the store has been asked to
/// remove the session.
pub fn logout(removed: bool) -> (r: GenericResponse)
    ensures
        r.success == removed,
        r.message@ == if removed {
            "Logged out successfully"@
        } else {
            "Failed to log out"@
        },
{
    if removed {
        GenericResponse { success: true, message: "Logged out successfully".to_owned() }
    } else {
        GenericResponse { success: false, message: "Failed to log out".to_owned() }
    }
}

/// Why a login failed.
#[derive(Debug, Clone, Copy, PartialEq, Eq, Structural)]
pub enum LoginFailure {
    /// No user has the email address.
    UserNotFound,
    /// The password is not the user's.
    InvalidPassword,
    /// The store did not add the session.
    SessionNotCreated,
}

/// The reason that the audit log records for a failed login, where it
/// records one.
pub open spec fn login_failure_reason(why: LoginFailure) -> Option<Seq<char>> {
    match why {
        LoginFailure::UserNotFound => Some("user_not_found"@),
        LoginFailure::InvalidPassword => Some("invalid_password"@),
        LoginFailure::SessionNotCreated => None,
    }
}

/// The words that the user is told: they do not say whether the email
/// address or the password was wrong.
pub open spec fn login_failure_text(why: LoginFailure) -> Seq<char> {
    match why {
        LoginFailure::UserNotFound => "Invalid email or password"@,
        LoginFailure::InvalidPassword => "Invalid email or password"@,
        LoginFailure::SessionNotCreated => "Failed to create session"@,
    }
}

impl LoginFailure {
    /// The reason that the audit log records, where it records one.
    pub fn audit_reason(&self) -> (r: Option<String>)
        ensures
            r.deep_view() == login_failure_reason(*self),
    {
        match self {
            LoginFailure::UserNotFound => Some("user_not_found".to_owned()),
            LoginFailure::InvalidPassword => Some("invalid_password".to_owned()),
            LoginFailure::SessionNotCreated => None,
        }
    }

    /// The answer that refuses the login.
    pub fn response(&self) -> (r: LoginResponse)
        ensures
            !r.success,
            r.session_id is None,
            r.user is None,
            r.message@ == login_failure_text(*self),
    {
        let message = match self {
            LoginFailure::UserNotFound => "Invalid email or password".to_owned(),
            LoginFailure::InvalidPassword => "Invalid email or password".to_owned(),
            LoginFailure::SessionNotCreated => "Failed to create session".to_owned(),
        };
        LoginResponse { success: false, session_id: None, user: None, message }
    }
}

/// Decides whether a login may go on to make a session: the user must be
/// found, and the password must be the user's.
pub fn check_login(user_found: bool, password_matches: bool) -> (r: Result<(), LoginFailure>)
    ensures
        !user_found ==> r == Err::<(), LoginFailure>(LoginFailure::UserNotFound),
        user_found && !password_matches ==> r == Err::<(), LoginFailure>(LoginFailure::InvalidPassword),
        user_found && password_matches ==> r is Ok,
{
    if !user_found {
        Err(LoginFailure::UserNotFound)
    } else if !password_matches {
        Err(LoginFailure::InvalidPassword)
    } else {
        Ok(())
    }
}

/// The answer to a login, once the store has been asked to add the session.
pub fn login(session_stored: bool, session_id: String, user: UserInfo) -> (r: LoginResponse)
    ensures
        r.success == session_stored,
        session_stored ==> r.session_id == Some(session_id) && r.user == Some(user) && r.message@
            == "Login successful"@,
        !session_stored ==> r.session_id is None && r.user is None && r.message@
            == login_failure_text(LoginFailure::SessionNotCreated),
{
    if session_stored {
        LoginResponse {
            success: true,
            session_id: Some(session_id),
            user: Some(user),
            message: "Login successful".to_owned(),
        }
    } else {
        LoginFailure::SessionNotCreated.response()
    }
}

/// What `SaltString::encode_b64` makes of bytes: the salt as text, or the
/// words of its refusal.
pub uninterp spec fn encoded_salt(bytes: Seq<u8>) -> Result<Seq<char>, Seq<char>>;

/// What Argon2 with its default parameters makes of a password and a salt:
/// the hash in the PHC format, or the words of the refusal of the salt or of
/// the password.
pub uninterp spec fn argon2_hash(password: Seq<u8>, salt: Seq<char>) -> Result<Seq<char>, Seq<char>>;

/// Whether a password is the one that a hash in the PHC format was made of,
/// by Argon2 with the parameters that the hash names; or the words of the
/// refusal of a text that is no such hash.
pub uninterp spec fn argon2_verify(password: Seq<u8>, hash: Seq<char>) -> Result<bool, Seq<char>>;

/// A text or the words of a failure, as mathematical values.
pub open spec fn text_result(r: Result<String, String>) -> Result<Seq<char>, Seq<char>> {
    match r {
        Ok(text) => Ok(text@),
        Err(why) => Err(why@),
    }
}

/// A verdict or the words of a failure, as mathematical values.
pub open spec fn verdict_result(r: Result<bool, String>) -> Result<bool, Seq<char>> {
    match r {
        Ok(verdict) => Ok(verdict),
        Err(why) => Err(why@),
    }
}

/// `SaltString::encode_b64`: the bytes as a salt in B64, or the error in
/// words where the bytes are too many.
#[verifier::external_body]
fn encode_salt(bytes: &Vec<u8>) -> (r: Result<String, String>)
    ensures
        text_result(r) == encoded_salt(bytes@),
{
    argon2::password_hash::SaltString::encode_b64(bytes).map(|s| s.as_str().to_string()).map_err(
        |e| e.to_string(),
    )
}

/// `PasswordHasher::hash_password` of `Argon2::default()`, on a salt that
/// `SaltString::from_b64` reads from its text: the hash in the PHC format,
/// or the error in words.
#[verifier::external_body]
fn hash_with_salt(password: &[u8], salt: &str) -> (r: Result<String, String>)
    ensures
        text_result(r) == argon2_hash(password@, salt@),
{
    let salt = argon2::password_hash::SaltString::from_b64(salt).map_err(|e| e.to_string())?;
    argon2::Argon2::default().hash_password(password, &salt).map(|h| h.to_string()).map_err(
        |e| e.to_string(),
    )
}

/// `PasswordVerifier::verify_password` of `Argon2::default()`, on a hash
/// that `PasswordHash::new` reads from its text: whether the password
/// passes, or the error in words where the text is no hash.
#[verifier::external_body]
fn verify_with_hash(password: &[u8], hash: &str) -> (r: Result<bool, String>)
    ensures
        verdict_result(r) == argon2_verify(password@, hash@),
{
    let parsed = argon2::password_hash::PasswordHash::new(hash).map_err(|e| e.to_string())?;
    Ok(argon2::Argon2::default().verify_password(password, &parsed).is_ok())
}

/// What is stored for a new password, given sixteen random bytes for its
/// salt: the hash, or why none could be made.
pub open spec fn password_record(password: Seq<u8>, salt: Seq<u8>) -> Result<Seq<char>, Seq<char>> {
    if salt.len() != SALT_BYTES {
        Err("Invalid salt length: expected 16, got "@ + decimal(salt.len()))
    } else {
        match encoded_salt(salt) {
            Err(why) => Err("Salt encoding error: "@ + why),
            Ok(text) => match argon2_hash(password, text) {
                Err(why) => Err("Password hashing failed: "@ + why),
                Ok(hash) => Ok(hash),
            },
        }
    }
}

/// An answer with its failure, where it is one, put behind `prefix`.
pub fn explained(answer: Result<String, String>, prefix: &str) -> (r: Result<String, String>)
    ensures
        text_result(r) == match text_result(answer) {
            Ok(text) => Ok(text),
            Err(why) => Err(prefix@ + why),
        },
{
    match answer {
        Ok(text) => Ok(text),
        Err(why) => Err(joined(prefix, why.as_str())),
    }
}

/// Makes the hash that is stored for a new password, with a salt of the
/// sixteen random bytes that are given.
pub fn hash_password(password: &str, salt: &Vec<u8>) -> (r: Result<String, String>)
    ensures
        text_result(r) == password_record(encode_utf8(password@), salt@),
{
    if salt.len() != SALT_BYTES {
        let got = decimal_text(salt.len() as u64);
        return Err(joined("Invalid salt length: expected 16, got ", got.as_str()));
    }
    let text = match explained(encode_salt(salt), "Salt encoding error: ") {
        Ok(text) => text,
        Err(why) => {
            return Err(why);
        },
    };
    explained(hash_with_salt(password.as_bytes(), text.as_str()), "Password hashing failed: ")
}

/// What a check of a password against a stored hash gives: whether the
/// password is the user's, or why the stored text is no hash.
pub open spec fn password_check(password: Seq<u8>, stored: Seq<char>) -> Result<bool, Seq<char>> {
    match argon2_verify(password, stored) {
        Ok(verdict) => Ok(verdict),
        Err(why) => Err("Invalid password hash: "@ + why),
    }
}

/// What becomes of Argon2's answer to a check: its verdict, or its failure
/// put into words for the caller.
pub fn password_verdict(answer: Result<bool, String>) -> (r: Result<bool, String>)
    ensures
        verdict_result(r) == match verdict_result(answer) {
            Ok(verdict) => Ok(verdict),
            Err(why) => Err("Invalid password hash: "@ + why),
        },
{
    match answer {
        Ok(verdict) => Ok(verdict),
        Err(why) => Err(joined("Invalid password hash: ", why.as_str())),
    }
}

/// Checks a password against the hash that is stored for a user.
pub fn verify_password(password: &str, stored_hash: &str) -> (r: Result<bool, String>)
    ensures
        verdict_result(r) == password_check(encode_utf8(password@), stored_hash@),
{
    password_verdict(verify_with_hash(password.as_bytes(), stored_hash))
}

} // verus!
