use plugin_host::db::schema::AuditLog;
use plugin_host::guest::audit::{
    audit_entry, audit_id, filtered_page, generate_id, hex_text, user_page, CreateAuditLogInput,
    PageWindow,
};
use plugin_host::guest::auth::{
    check_email_free, check_login, check_signup, generate_uuid, hash_password, login, logout,
    session_expiry, signup_response, verify_password, verify_session, LoginFailure, SignupRefusal,
    SignupRequest, UserInfo,
};
use plugin_host::guest::template::{greet, repeat, validate, ExampleInput, InputRefusal};
use plugin_host::host_functions::HostResponse;
use std::collections::hash_map::DefaultHasher;
use std::hash::{Hash, Hasher};

fn input(message: &str, count: Option<u32>) -> ExampleInput {
    ExampleInput { message: message.to_string(), count }
}

fn entry(id: &str) -> AuditLog {
    AuditLog {
        id: id.to_string(),
        user_uuid: "u1".to_string(),
        action: "login".to_string(),
        resource_type: None,
        resource_id: None,
        metadata: None,
        ip_address: None,
        user_agent: None,
        created_at: 1,
    }
}

#[test]
fn test_greet() {
    let input = ExampleInput {
        message: "World".to_string(),
        count: None,
    };

    // Note: This test won't actually call the plugin_fn,
    // it's just for demonstration
    assert_eq!(input.message, "World");
}

#[test]
fn greeting_names_the_message() {
    let out = greet(&input("World", None), 42);
    assert_eq!(out.result, "Hello, World!");
    assert_eq!(out.timestamp, 42);
    assert_eq!(greet(&input("", None), 0).result, "Hello, !");
}

#[test]
fn message_is_repeated_with_spaces_between() {
    assert_eq!(repeat(&input("ab", Some(3))).result, "ab ab ab");
    assert_eq!(repeat(&input("ab", None)).result, "ab");
    assert_eq!(repeat(&input("ab", Some(1))).result, "ab");
    assert_eq!(repeat(&input("ab", Some(0))).result, "");
    assert_eq!(repeat(&input("", Some(3))).result, "  ");
    assert_eq!(repeat(&input("x", Some(2))).timestamp, 0);
}

#[test]
fn input_is_checked_message_first() {
    assert_eq!(validate(&input("", Some(0))).unwrap_err(), InputRefusal::EmptyMessage);
    assert_eq!(validate(&input("m", Some(0))).unwrap_err(), InputRefusal::CountOutOfRange);
    assert_eq!(validate(&input("m", Some(101))).unwrap_err(), InputRefusal::CountOutOfRange);
    assert_eq!(validate(&input("m", Some(100))).expect("valid").result, "Valid input: m");
    assert_eq!(validate(&input("m", Some(1))).expect("valid").result, "Valid input: m");
    assert_eq!(validate(&input("m", None)).expect("valid").timestamp, 0);
    assert_eq!(InputRefusal::EmptyMessage.code(), 1);
    assert_eq!(InputRefusal::CountOutOfRange.code(), 2);
    assert_eq!(InputRefusal::EmptyMessage.message(), "Message cannot be empty");
    assert_eq!(InputRefusal::CountOutOfRange.message(), "Count must be between 1 and 100");
}

#[test]
fn page_window_has_defaults_and_bounds() {
    let w = PageWindow::new(None, None);
    assert_eq!((w.page(), w.limit(), w.offset()), (1, 50, 0));
    let w = PageWindow::new(Some(3), Some(20));
    assert_eq!((w.page(), w.limit(), w.offset()), (3, 20, 40));
    let w = PageWindow::new(Some(0), Some(0));
    assert_eq!((w.page(), w.limit(), w.offset()), (1, 1, 0));
    let w = PageWindow::new(Some(-5), Some(1000));
    assert_eq!((w.page(), w.limit(), w.offset()), (1, 200, 0));
    let w = PageWindow::new(Some(2), Some(200));
    assert_eq!((w.page(), w.limit(), w.offset()), (2, 200, 200));
    let w = PageWindow::new(Some(i32::MAX), Some(200));
    assert_eq!((w.page(), w.limit(), w.offset()), (i32::MAX, 200, i32::MAX));
    let w = PageWindow::new(Some(i32::MAX), Some(1));
    assert_eq!(w.offset(), i32::MAX - 1);
}

#[test]
fn pages_are_counted_rounding_up() {
    let w = PageWindow::new(Some(1), Some(50));
    assert_eq!(w.page_count(0), 0);
    assert_eq!(w.page_count(1), 1);
    assert_eq!(w.page_count(50), 1);
    assert_eq!(w.page_count(51), 2);
    assert_eq!(w.page_count(101), 3);
    assert_eq!(w.page_count(-1), 0);
    assert_eq!(w.page_count(-50), -1);
    assert_eq!(w.page_count(-51), -1);
    assert_eq!(w.page_count(i64::MAX), i32::MAX);
    assert_eq!(w.page_count(i64::MIN), i32::MIN);
    let one = PageWindow::new(Some(1), Some(1));
    assert_eq!(one.page_count(7), 7);
    assert_eq!(one.page_count(i64::MAX), i32::MAX);
}

#[test]
fn filtered_page_count_guesses_one_more_page_when_full() {
    let w = PageWindow::new(Some(2), Some(3));
    assert_eq!(w.filtered_page_count(3), 3);
    assert_eq!(w.filtered_page_count(2), 2);
    assert_eq!(w.filtered_page_count(0), 2);
    assert_eq!(w.filtered_page_count(4), 2);
    let last = PageWindow::new(Some(i32::MAX), Some(1));
    assert_eq!(last.filtered_page_count(1), i32::MAX);
}

#[test]
fn pages_of_the_log_are_answered() {
    let w = PageWindow::new(Some(2), Some(2));
    let page = user_page(&w, vec![entry("a"), entry("b")], 5);
    assert_eq!((page.total, page.page, page.limit, page.pages), (5, 2, 2, 3));
    assert_eq!(page.logs.len(), 2);
    let page = filtered_page(&w, vec![entry("a"), entry("b")]);
    assert_eq!((page.total, page.page, page.limit, page.pages), (2, 2, 2, 3));
    let page = filtered_page(&w, vec![entry("a")]);
    assert_eq!((page.total, page.page, page.limit, page.pages), (1, 2, 2, 2));
}

#[test]
fn identifiers_are_written_in_hexadecimal() {
    assert_eq!(hex_text(0), "0");
    assert_eq!(hex_text(15), "f");
    assert_eq!(hex_text(16), "10");
    assert_eq!(hex_text(0xdead_beef), "deadbeef");
    assert_eq!(hex_text(u64::MAX), "ffffffffffffffff");
    assert_eq!(audit_id(255), "audit_ff");
    assert_eq!(audit_id(0), "audit_0");
}

#[test]
fn generated_identifiers_depend_on_the_time_only() {
    let a = generate_id(1_700_000_000_000_000_000);
    let b = generate_id(1_700_000_000_000_000_000);
    let c = generate_id(1_700_000_000_000_000_001);
    let d = generate_id(-1);
    assert!(a.starts_with("audit_"));
    assert!(a.len() > "audit_".len());
    assert_eq!(a, b);
    assert_ne!(a, c);
    assert_ne!(a, d);
    assert!(a["audit_".len()..].chars().all(|ch| ch.is_ascii_hexdigit() && !ch.is_ascii_uppercase()));
}

#[test]
fn audit_entry_holds_what_the_request_holds() {
    let request = CreateAuditLogInput {
        user_uuid: "u1".to_string(),
        action: "login".to_string(),
        resource_type: Some("session".to_string()),
        resource_id: None,
        metadata: Some("{\"k\":1}".to_string()),
        ip_address: None,
        user_agent: None,
    };
    let e = audit_entry(request, audit_id(0xabc), 1700);
    assert_eq!(e.id, "audit_abc");
    assert_eq!(e.user_uuid, "u1");
    assert_eq!(e.action, "login");
    assert_eq!(e.resource_type, Some("session".to_string()));
    assert_eq!(e.resource_id, None);
    assert_eq!(e.metadata, Some("{\"k\":1}".to_string()));
    assert_eq!(e.created_at, 1700);
    let answer = HostResponse::success(e);
    assert!(answer.success);
    assert_eq!(answer.data.expect("the entry").id, "audit_abc");
}

#[test]
fn sign_up_is_checked_fields_first() {
    let request = |name: &str, email: &str, password: &str| SignupRequest {
        name: name.to_string(),
        email: email.to_string(),
        password: password.to_string(),
    };
    assert_eq!(check_signup(&request("", "a@b.c", "longenough")), Err(SignupRefusal::MissingField));
    assert_eq!(check_signup(&request("ann", "", "longenough")), Err(SignupRefusal::MissingField));
    assert_eq!(check_signup(&request("ann", "a@b.c", "")), Err(SignupRefusal::MissingField));
    assert_eq!(check_signup(&request("ann", "a@b.c", "1234567")), Err(SignupRefusal::ShortPassword));
    assert_eq!(check_signup(&request("ann", "a@b.c", "12345678")), Ok(()));
    // The length is counted in bytes.
    assert_eq!(check_signup(&request("ann", "a@b.c", "\u{e9}\u{e9}\u{e9}\u{e9}")), Ok(()));
    assert_eq!(check_email_free(true), Err(SignupRefusal::EmailTaken));
    assert_eq!(check_email_free(false), Ok(()));
    let refused = SignupRefusal::ShortPassword.response();
    assert!(!refused.success);
    assert_eq!(refused.user_uuid, None);
    assert_eq!(refused.message, "Password must be at least 8 characters");
    assert_eq!(SignupRefusal::MissingField.message(), "Name, email, and password are required");
    assert_eq!(SignupRefusal::EmailTaken.message(), "User with this email already exists");
}

#[test]
fn sign_up_is_answered_after_the_store() {
    let ok = signup_response(true, None, "id-1".to_string());
    assert!(ok.success);
    assert_eq!(ok.user_uuid, Some("id-1".to_string()));
    assert_eq!(ok.message, "User created successfully");
    let failed = signup_response(false, Some("UNIQUE constraint failed".to_string()), "id-1".to_string());
    assert!(!failed.success);
    assert_eq!(failed.user_uuid, None);
    assert_eq!(failed.message, "UNIQUE constraint failed");
    assert_eq!(signup_response(false, None, "x".to_string()).message, "Failed to create user");
}

#[test]
fn identifiers_are_made_of_sixteen_bytes() {
    let bytes: Vec<u8> = (0u8..16).collect();
    assert_eq!(
        generate_uuid(&bytes),
        Some("00010203-0405-0607-0809-0a0b0c0d0e0f".to_string())
    );
    let high = vec![0xffu8; 20];
    assert_eq!(
        generate_uuid(&high),
        Some("ffffffff-ffff-ffff-ffff-ffffffffffff".to_string())
    );
    assert_eq!(generate_uuid(&vec![1u8; 15]), None);
    assert_eq!(generate_uuid(&vec![]), None);
}

#[test]
fn sessions_last_seven_days() {
    assert_eq!(session_expiry(0), 604800);
    assert_eq!(session_expiry(1_700_000_000), 1_700_604_800);
    assert_eq!(session_expiry(i64::MAX), i64::MAX);
    assert_eq!(session_expiry(i64::MAX - 604800), i64::MAX);
    assert_eq!(session_expiry(-604800), 0);
}

#[test]
fn session_is_valid_until_its_end() {
    let v = verify_session(None, 100);
    assert!(v.response.success && !v.response.valid && !v.remove);
    assert_eq!(v.response.user_uuid, None);
    let v = verify_session(Some(("u1".to_string(), 100)), 100);
    assert!(v.response.success && v.response.valid && !v.remove);
    assert_eq!(v.response.user_uuid, Some("u1".to_string()));
    let v = verify_session(Some(("u1".to_string(), 99)), 100);
    assert!(v.response.success && !v.response.valid && v.remove);
    assert_eq!(v.response.user_uuid, None);
}

#[test]
fn login_does_not_say_what_was_wrong() {
    assert_eq!(check_login(false, false), Err(LoginFailure::UserNotFound));
    assert_eq!(check_login(false, true), Err(LoginFailure::UserNotFound));
    assert_eq!(check_login(true, false), Err(LoginFailure::InvalidPassword));
    assert_eq!(check_login(true, true), Ok(()));
    assert_eq!(LoginFailure::UserNotFound.response().message, "Invalid email or password");
    assert_eq!(LoginFailure::InvalidPassword.response().message, "Invalid email or password");
    assert_eq!(LoginFailure::UserNotFound.audit_reason(), Some("user_not_found".to_string()));
    assert_eq!(LoginFailure::InvalidPassword.audit_reason(), Some("invalid_password".to_string()));
    assert_eq!(LoginFailure::SessionNotCreated.audit_reason(), None);
    let user = || UserInfo { uuid: "u1".to_string(), name: "Ann".to_string(), email: "a@b.c".to_string() };
    let ok = login(true, "s1".to_string(), user());
    assert!(ok.success);
    assert_eq!(ok.session_id, Some("s1".to_string()));
    assert_eq!(ok.user.expect("the user").name, "Ann");
    assert_eq!(ok.message, "Login successful");
    let failed = login(false, "s1".to_string(), user());
    assert!(!failed.success);
    assert!(failed.session_id.is_none() && failed.user.is_none());
    assert_eq!(failed.message, "Failed to create session");
    assert_eq!(logout(true).message, "Logged out successfully");
    assert!(logout(true).success);
    assert_eq!(logout(false).message, "Failed to log out");
    assert!(!logout(false).success);
}

#[test]
fn password_is_hashed_with_the_salt_and_checked() {
    let salt: Vec<u8> = (1u8..=16).collect();
    let hash = hash_password("correct horse", &salt).expect("a hash");
    assert!(hash.starts_with("$argon2id$v=19$m=19456,t=2,p=1$AQIDBAUGBwgJCgsMDQ4PEA$"));
    assert_ne!(hash, "correct horse");
    assert_eq!(hash, hash_password("correct horse", &salt).expect("a hash"));
    let other: Vec<u8> = (2u8..=17).collect();
    assert_ne!(hash, hash_password("correct horse", &other).expect("a hash"));
    assert_eq!(verify_password("correct horse", &hash), Ok(true));
    assert_eq!(verify_password("wrong horse", &hash), Ok(false));
}

#[test]
fn salt_and_stored_hash_must_be_well_formed() {
    assert_eq!(
        hash_password("pw", &vec![0u8; 15]),
        Err("Invalid salt length: expected 16, got 15".to_string())
    );
    assert_eq!(
        hash_password("pw", &vec![]),
        Err("Invalid salt length: expected 16, got 0".to_string())
    );
    match verify_password("pw", "not a hash") {
        Err(why) => assert!(why.starts_with("Invalid password hash: ")),
        Ok(_) => panic!("the text is no hash"),
    }
}

#[test]
fn generated_identifier_is_the_digest_of_the_time() {
    for time in [0i64, 1, -1, 1_700_000_000_123_456_789, i64::MAX, i64::MIN] {
        let mut hasher = DefaultHasher::new();
        time.hash(&mut hasher);
        assert_eq!(generate_id(time), format!("audit_{:x}", hasher.finish()));
    }
}

#[test]
fn identifier_of_random_bytes_is_as_the_standard_format_writes_it() {
    let bytes: Vec<u8> = vec![0xde, 0xad, 0xbe, 0xef, 0x00, 0x01, 0x7f, 0x80, 0xff, 0x10, 9, 8, 7, 6, 5, 4];
    let expected = format!(
        "{:02x}{:02x}{:02x}{:02x}-{:02x}{:02x}-{:02x}{:02x}-{:02x}{:02x}-{:02x}{:02x}{:02x}{:02x}{:02x}{:02x}",
        bytes[0], bytes[1], bytes[2], bytes[3], bytes[4], bytes[5], bytes[6], bytes[7], bytes[8],
        bytes[9], bytes[10], bytes[11], bytes[12], bytes[13], bytes[14], bytes[15]
    );
    assert_eq!(generate_uuid(&bytes), Some(expected));
    assert_eq!(generate_uuid(&bytes), Some("deadbeef-0001-7f80-ff10-090807060504".to_string()));
}
