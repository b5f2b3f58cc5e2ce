//! The bridge of host functions: the one way by which a plugin reaches the
//! host. Each operation answers with an envelope that says whether it
//! succeeded, and holds either its data or the words of its failure.

use crate::clock::{unix_nanos, unix_seconds};
use crate::engine::{engine_function_name, function_name, function_names};
use crate::text::str_eq;
use crate::text::{joined, decimal};
use vstd::prelude::*;

verus! {

/// Why an operation of the bridge failed.
#[derive(Debug)]
pub enum BridgeError {
    /// The request could not be read; the text says why.
    RequestDeserializeFailed(String),
    /// The store behind the bridge refused; the text is the store's.
    DownstreamStoreError(String),
}

/// The words of a failure, as the envelope carries them.
pub open spec fn bridge_error_text(e: BridgeError) -> Seq<char> {
    match e {
        BridgeError::RequestDeserializeFailed(why) => "JSON parse error: "@ + why@,
        BridgeError::DownstreamStoreError(why) => why@,
    }
}

impl BridgeError {
    /// The failure in words.
    pub fn message(&self) -> (r: String)
        ensures
            r@ == bridge_error_text(*self),
    {
        match self {
            BridgeError::RequestDeserializeFailed(why) => joined("JSON parse error: ", why.as_str()),
            BridgeError::DownstreamStoreError(why) => why.clone(),
        }
    }
}

/// The answer of an operation of the bridge.
#[derive(Debug)]
pub struct HostResponse<T> {
    pub success: bool,
    pub data: Option<T>,
    pub error: Option<String>,
}

impl<T> HostResponse<T> {
    /// An envelope holds data exactly when it reports success, and words of
    /// failure exactly when it does not.
    pub open spec fn wf(&self) -> bool {
        &&& self.success <==> self.data is Some
        &&& self.success <==> self.error is None
    }

    /// The envelope of a success.
    pub fn success(data: T) -> (r: Self)
        ensures
            r.wf(),
            r.success,
            r.data == Some(data),
    {
        HostResponse { success: true, data: Some(data), error: None }
    }

    /// The envelope of a failure.
    pub fn error(error: String) -> (r: Self)
        ensures
            r.wf(),
            !r.success,
            r.error == Some(error),
    {
        HostResponse { success: false, data: None, error: Some(error) }
    }

    /// What a caller makes of an envelope: the data of a success, which may
    /// be absent, or the words of the failure, where it has any.
    pub fn into_result(self) -> (r: Result<Option<T>, String>)
        ensures
            self.success ==> r == Ok::<Option<T>, String>(self.data),
            !self.success ==> r is Err && r->Err_0@ == match self.error {
                Some(why) => why@,
                None => "Unknown database error"@,
            },
    {
        if self.success {
            Ok(self.data)
        } else {
            match self.error {
                Some(why) => Err(why),
                None => Err("Unknown database error".to_owned()),
            }
        }
    }

    /// The envelope of an operation's outcome: no failure leaves the bridge
    /// but inside an envelope.
    pub fn from_outcome(outcome: Result<T, BridgeError>) -> (r: Self)
        ensures
            r.wf(),
            match outcome {
                Ok(data) => r.success && r.data == Some(data),
                Err(e) => !r.success && r.error is Some && r.error->Some_0@ == bridge_error_text(e),
            },
    {
        match outcome {
            Ok(data) => Self::success(data),
            Err(e) => Self::error(e.message()),
        }
    }
}

/// Runs one operation of the bridge on a request that was read from its
/// serialized form, or could not be read: a request that could not be read
/// is answered with the failure, without the store being asked; else the
/// store's outcome is answered, success or failure, inside an envelope.
pub fn handle<Req, T, F: FnOnce(Req) -> Result<T, String>>(parsed: Result<Req, String>, operation: F) -> (r:
    HostResponse<T>)
    requires
        parsed is Ok ==> operation.requires((parsed->Ok_0,)),
    ensures
        r.wf(),
        match parsed {
            Err(why) => !r.success && r.error->Some_0@ == "JSON parse error: "@ + why@,
            Ok(request) => exists|outcome: Result<T, String>|
                operation.ensures((request,), outcome) && match outcome {
                    Ok(data) => r.success && r.data == Some(data),
                    Err(why) => !r.success && r.error->Some_0@ == why@,
                },
        },
{
    match parsed {
        Err(why) => HostResponse::from_outcome(Err(BridgeError::RequestDeserializeFailed(why))),
        Ok(request) => {
            let outcome = operation(request);
            match outcome {
                Ok(data) => HostResponse::from_outcome(Ok(data)),
                Err(why) => HostResponse::from_outcome(Err(BridgeError::DownstreamStoreError(why))),
            }
        },
    }
}

/// The host's clock in seconds since the Unix epoch.
pub fn get_timestamp() -> (r: i64)
    ensures
        r >= 0,
{
    unix_seconds()
}

/// The host's clock in nanoseconds since the Unix epoch.
pub fn get_timestamp_nanos() -> (r: i64)
    ensures
        r >= 0,
{
    unix_nanos()
}

/// `RngCore::fill_bytes` on `rand::thread_rng()`: every byte of the buffer is
/// set anew from the thread's generator. Of the bytes nothing is claimed; the
/// buffer keeps its length.
#[verifier::external_body]
fn fill_random(buffer: &mut Vec<u8>)
    ensures
        final(buffer)@.len() == old(buffer)@.len(),
{
    rand::RngCore::fill_bytes(&mut rand::thread_rng(), buffer.as_mut_slice())
}

/// The numbers of a list in decimal digits, with a comma between two of them.
pub open spec fn decimal_list(bytes: Seq<u8>) -> Seq<char>
    decreases bytes.len(),
{
    if bytes.len() == 0 {
        Seq::empty()
    } else if bytes.len() == 1 {
        decimal(bytes[0] as nat)
    } else {
        decimal_list(bytes.drop_last()).push(',') + decimal(bytes.last() as nat)
    }
}

/// A list of bytes as a JSON array of numbers, without spaces.
pub open spec fn json_of_bytes(bytes: Seq<u8>) -> Seq<char> {
    seq!['['] + decimal_list(bytes) + seq![']']
}

/// `serde_json::to_string` on a list of bytes: the JSON array of the bytes as
/// decimal numbers, in the compact form.
#[verifier::external_body]
fn bytes_to_json(bytes: &Vec<u8>) -> (r: String)
    ensures
        r@ == json_of_bytes(bytes@),
{
    serde_json::to_string(bytes).unwrap_or_default()
}

/// Bytes as the text that a plugin reads them from: a JSON array of numbers.
pub fn json_array(bytes: &Vec<u8>) -> (r: String)
    ensures
        r@ == json_of_bytes(bytes@),
{
    bytes_to_json(bytes)
}

/// As many random bytes as are asked for. A negative length is refused, and
/// so is one that no buffer of this machine can have.
pub fn generate_random_bytes(length: i64) -> (r: Result<Vec<u8>, BridgeError>)
    ensures
        0 <= length <= usize::MAX ==> r is Ok && r->Ok_0@.len() == length,
        length < 0 ==> r is Err && r->Err_0 is RequestDeserializeFailed
            && r->Err_0->RequestDeserializeFailed_0@ == "length must not be negative"@,
        length > usize::MAX ==> r is Err && r->Err_0 is RequestDeserializeFailed
            && r->Err_0->RequestDeserializeFailed_0@ == "length is too large"@,
{
    if length < 0 {
        return Err(BridgeError::RequestDeserializeFailed("length must not be negative".to_owned()));
    }
    if length as u64 > usize::MAX as u64 {
        return Err(BridgeError::RequestDeserializeFailed("length is too large".to_owned()));
    }
    let mut buffer: Vec<u8> = vec![0u8; length as usize];
    fill_random(&mut buffer);
    Ok(buffer)
}

/// What the bridge answers a plugin that asks for random bytes: the bytes as
/// a JSON array, or the words of the refusal.
pub fn random_bytes_json(length: i64) -> (r: Result<String, String>)
    ensures
        0 <= length <= usize::MAX ==> r is Ok && exists|bytes: Seq<u8>|
            bytes.len() == length && r->Ok_0@ == json_of_bytes(bytes),
        length < 0 ==> r is Err && r->Err_0@ == "JSON parse error: "@ + "length must not be negative"@,
        length > usize::MAX ==> r is Err && r->Err_0@ == "JSON parse error: "@ + "length is too large"@,
{
    match generate_random_bytes(length) {
        Ok(bytes) => Ok(json_array(&bytes)),
        Err(e) => Err(e.message()),
    }
}

/// `Function::new` for the function `generate_random_bytes`, which takes the
/// number of bytes and returns what `random_bytes_json` answers; a refusal
/// is the host call's error.
#[verifier::external_body]
pub fn generate_random_bytes_host() -> (f: extism::Function)
    ensures
        function_name(f) == "generate_random_bytes"@,
{
    extism::Function::new(
        "generate_random_bytes",
        [extism::PTR],
        [extism::PTR],
        extism::UserData::new(()),
        |plugin: &mut extism::CurrentPlugin, inputs: &[extism::Val], outputs: &mut [extism::Val], _data: extism::UserData<()>| {
            let length: i64 = plugin.memory_get_val(&inputs[0])?;
            let text = random_bytes_json(length).map_err(extism::Error::msg)?;
            let handle = plugin.memory_new(&text)?;
            outputs[0] = plugin.memory_to_val(handle);
            Ok(())
        },
    )
}

/// `Function::new` for the function `get_timestamp`, which takes nothing and
/// returns what `get_timestamp` returns.
#[verifier::external_body]
pub fn get_timestamp_host() -> (f: extism::Function)
    ensures
        function_name(f) == "get_timestamp"@,
{
    extism::Function::new(
        "get_timestamp",
        [],
        [extism::ValType::I64],
        extism::UserData::new(()),
        |_plugin: &mut extism::CurrentPlugin, _inputs: &[extism::Val], outputs: &mut [extism::Val], _data: extism::UserData<()>| {
            outputs[0] = extism::Val::I64(get_timestamp());
            Ok(())
        },
    )
}

/// `Function::new` for the function `get_timestamp_nanos`, which takes
/// nothing and returns what `get_timestamp_nanos` returns.
#[verifier::external_body]
pub fn get_timestamp_nanos_host() -> (f: extism::Function)
    ensures
        function_name(f) == "get_timestamp_nanos"@,
{
    extism::Function::new(
        "get_timestamp_nanos",
        [],
        [extism::ValType::I64],
        extism::UserData::new(()),
        |_plugin: &mut extism::CurrentPlugin, _inputs: &[extism::Val], outputs: &mut [extism::Val], _data: extism::UserData<()>| {
            outputs[0] = extism::Val::I64(get_timestamp_nanos());
            Ok(())
        },
    )
}

/// The names of the operations that need no store, in the order of the table.
pub open spec fn utility_names() -> Seq<Seq<char>> {
    seq!["generate_random_bytes"@, "get_timestamp"@, "get_timestamp_nanos"@]
}

/// The names of the operations on the store, in the order of the table: on
/// users, sessions, the two kinds of token and the audit log.
pub open spec fn store_names() -> Seq<Seq<char>> {
    seq![
        "db_create_user"@,
        "db_get_user_by_email"@,
        "db_get_user_by_uuid"@,
        "db_update_user_password"@,
        "db_update_user_email_verified"@,
        "db_update_user_profile"@,
        "db_create_session"@,
        "db_get_session"@,
        "db_delete_session"@,
        "db_delete_user_sessions"@,
        "db_cleanup_expired_sessions"@,
        "db_create_email_verification_token"@,
        "db_get_email_verification_token"@,
        "db_delete_email_verification_token"@,
        "db_create_password_reset_token"@,
        "db_get_password_reset_token"@,
        "db_delete_password_reset_token"@,
        "db_delete_user_password_reset_tokens"@,
        "db_create_audit_log"@,
        "db_get_user_audit_logs"@,
        "db_get_audit_logs_filtered"@,
        "db_count_user_audit_logs"@,
    ]
}

/// The names of all operations of the bridge, in the order of the table.
pub open spec fn bridge_names() -> Seq<Seq<char>> {
    utility_names() + store_names()
}

/// The names of the operations on the store, in the order of the table.
pub fn store_operation_names() -> (r: Vec<String>)
    ensures
        r.deep_view() == store_names(),
{
    let mut r: Vec<String> = Vec::new();
    r.push("db_create_user".to_owned());
    r.push("db_get_user_by_email".to_owned());
    r.push("db_get_user_by_uuid".to_owned());
    r.push("db_update_user_password".to_owned());
    r.push("db_update_user_email_verified".to_owned());
    r.push("db_update_user_profile".to_owned());
    r.push("db_create_session".to_owned());
    r.push("db_get_session".to_owned());
    r.push("db_delete_session".to_owned());
    r.push("db_delete_user_sessions".to_owned());
    r.push("db_cleanup_expired_sessions".to_owned());
    r.push("db_create_email_verification_token".to_owned());
    r.push("db_get_email_verification_token".to_owned());
    r.push("db_delete_email_verification_token".to_owned());
    r.push("db_create_password_reset_token".to_owned());
    r.push("db_get_password_reset_token".to_owned());
    r.push("db_delete_password_reset_token".to_owned());
    r.push("db_delete_user_password_reset_tokens".to_owned());
    r.push("db_create_audit_log".to_owned());
    r.push("db_get_user_audit_logs".to_owned());
    r.push("db_get_audit_logs_filtered".to_owned());
    r.push("db_count_user_audit_logs".to_owned());
    assert(r.deep_view() =~= store_names());
    r
}

/// Whether the functions bear exactly these names, in this order.
pub fn names_match(functions: &Vec<extism::Function>, names: &Vec<String>) -> (r: bool)
    ensures
        r == (function_names(functions@) == names.deep_view()),
{
    if functions.len() != names.len() {
        assert(function_names(functions@).len() != names.deep_view().len());
        return false;
    }
    let mut i: usize = 0;
    while i < functions.len()
        invariant
            i <= functions.len(),
            functions.len() == names.len(),
            forall|j: int| 0 <= j < i ==> function_name(functions[j]) == names[j]@,
        decreases functions.len() - i,
    {
        let name = engine_function_name(&functions[i]);
        if !str_eq(name.as_str(), names[i].as_str()) {
            assert(function_names(functions@)[i as int] != names.deep_view()[i as int]);
            return false;
        }
        i = i + 1;
    }
    assert(function_names(functions@) =~= names.deep_view());
    true
}

/// Builds the table of the bridge: the three operations that need no store,
/// then the operations on the store, which the caller has bound to its store.
/// The table is built only of functions that bear the names of the store's
/// operations, each once and in order: nothing else can be reached by a
/// plugin.
pub fn register_host_functions(store_functions: Vec<extism::Function>) -> (r: Option<Vec<extism::Function>>)
    ensures
        function_names(store_functions@) == store_names() ==> r is Some && function_names(r->Some_0@)
            == bridge_names(),
        function_names(store_functions@) != store_names() ==> r is None,
{
    let names = store_operation_names();
    if !names_match(&store_functions, &names) {
        return None;
    }
    let mut table: Vec<extism::Function> = Vec::new();
    table.push(generate_random_bytes_host());
    table.push(get_timestamp_host());
    table.push(get_timestamp_nanos_host());
    let mut rest = store_functions;
    assert(function_names(table@) =~= utility_names());
    table.append(&mut rest);
    assert(function_names(table@) =~= bridge_names());
    Some(table)
}

} // verus!
