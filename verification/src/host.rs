//! Usernames as the host holds them.

use vstd::prelude::*;
use vstd::utf8::*;

use crate::error::OnboardingError;
use crate::username::{law_normalized_name_encoding, normalize, normalized_name, MAX_INPUT_BYTES};

verus! {

/// The handle by which a contract reaches its host.
#[verifier::external_type_specification]
#[verifier::external_body]
pub struct ExEnv(soroban_sdk::Env);

/// An array of bytes that the host holds. It never changes once it is made.
#[verifier::external_type_specification]
#[verifier::external_body]
pub struct ExHostString(soroban_sdk::String);

/// The bytes that a host string holds.
pub uninterp spec fn string_bytes(s: soroban_sdk::String) -> Seq<u8>;

/// `soroban_sdk::String::len`: the number of bytes that a host string holds.
#[verifier::external_body]
fn string_len(s: &soroban_sdk::String) -> (n: u32)
    ensures
        n == string_bytes(*s).len(),
{
    s.len()
}

/// `soroban_sdk::String::copy_into_slice`: copies out the bytes that a host
/// string holds, into a buffer of just their number.
#[verifier::external_body]
fn string_copy(s: &soroban_sdk::String, len: u32) -> (bytes: Vec<u8>)
    requires
        len == string_bytes(*s).len(),
    ensures
        bytes@ == string_bytes(*s),
{
    let mut bytes = vec![0u8; len as usize];
    s.copy_into_slice(&mut bytes);
    bytes
}

/// `soroban_sdk::String::from_str`: makes a host string of the bytes that
/// encode a text. The host counts bytes in 32 bits.
#[verifier::external_body]
fn string_from_str(env: &soroban_sdk::Env, text: &str) -> (s: soroban_sdk::String)
    requires
        encode_utf8(text@).len() <= u32::MAX,
    ensures
        string_bytes(s) == encode_utf8(text@),
{
    soroban_sdk::String::from_str(env, text)
}

/// The bytes of a username as a caller passes it.
pub fn username_bytes(username: &soroban_sdk::String) -> (bytes: Vec<u8>)
    ensures
        bytes@ == string_bytes(*username),
{
    let len: u32 = string_len(username);
    string_copy(username, len)
}

/// Normalize a username to lowercase ASCII.
///
/// Uppercase ASCII letters (A-Z) become lowercase (a-z). Leading and trailing
/// spaces are stripped. This ensures case-insensitive uniqueness.
pub fn normalize_username(env: &soroban_sdk::Env, username: &soroban_sdk::String) -> (r: Result<
    soroban_sdk::String,
    OnboardingError,
>)
    ensures
        string_bytes(*username).len() > MAX_INPUT_BYTES ==> r == Err::<soroban_sdk::String, _>(
            OnboardingError::UsernameTooLong,
        ),
        string_bytes(*username).len() <= MAX_INPUT_BYTES ==> (r matches Ok(name) && string_bytes(
            name,
        ) == encode_utf8(normalized_name(string_bytes(*username)))),
{
    let len: u32 = string_len(username);
    if len as usize > MAX_INPUT_BYTES {
        return Err(OnboardingError::UsernameTooLong);
    }
    let bytes = username_bytes(username);
    proof {
        law_normalized_name_encoding(bytes@);
    }
    match normalize(bytes.as_slice()) {
        Ok(name) => Ok(string_from_str(env, name.as_str())),
        Err(error) => Err(error),
    }
}

} // verus!
