//! What is sent to the token service, and what its answer means.

use crate::error::RenewalError;
use vstd::prelude::*;

verus! {

/// A credential as the service issues it.
#[derive(Debug, PartialEq, Eq)]
pub struct IssuedKey {
    /// The service's number for the credential.
    pub id: u32,
    /// The credential itself, opaque to this library.
    pub token: String,
}

/// What one renewal request carries.
#[derive(Debug, PartialEq, Eq)]
pub struct RenewalRequest {
    /// The label under which the service lists the new credential.
    pub name: String,
    /// The value of the `Authorization` header.
    pub authorization: String,
}

/// What came back from the service.
#[derive(Debug, PartialEq, Eq)]
pub enum RemoteReply {
    /// The request could not be completed: no answer.
    Unreachable,
    /// An answer, with its HTTP status and, where the body holds one, the
    /// issued key read from it.
    Answered { status: u16, body: Option<IssuedKey> },
}

/// The decimal digit for `d`, which is below ten.
pub open spec fn digit_char(d: nat) -> char {
    if d == 0 {
        '0'
    } else if d == 1 {
        '1'
    } else if d == 2 {
        '2'
    } else if d == 3 {
        '3'
    } else if d == 4 {
        '4'
    } else if d == 5 {
        '5'
    } else if d == 6 {
        '6'
    } else if d == 7 {
        '7'
    } else if d == 8 {
        '8'
    } else {
        '9'
    }
}

/// `n` written in decimal, without leading zeros.
pub open spec fn decimal_text(n: nat) -> Seq<char>
    decreases n,
{
    if n < 10 {
        seq![digit_char(n)]
    } else {
        decimal_text(n / 10).push(digit_char(n % 10))
    }
}

/// The label of a credential requested at `epoch_seconds` seconds after the
/// Unix epoch. It is for people to read, and two requests within one second
/// share it.
pub open spec fn request_name_text(epoch_seconds: u64) -> Seq<char> {
    "ALBERTINE-"@ + decimal_text(epoch_seconds as nat)
}

/// The `Authorization` header that presents `key` as a bearer credential.
pub open spec fn authorization_text(key: Seq<char>) -> Seq<char> {
    "Bearer "@ + key
}

/// Whether an HTTP status reports success.
pub open spec fn is_success(status: u16) -> bool {
    200 <= status < 300
}

/// What a reply amounts to: the new key, or why there is none.
pub open spec fn renewal_result(reply: RemoteReply) -> Result<Seq<char>, RenewalError> {
    match reply {
        RemoteReply::Unreachable => Err(RenewalError::RemoteUnreachable),
        RemoteReply::Answered { status, body } => if !is_success(status) {
            Err(RenewalError::RemoteRejected)
        } else {
            match body {
                Some(key) => Ok(key.token@),
                None => Err(RenewalError::ResponseMalformed),
            }
        },
    }
}

fn digit_str(d: u64) -> (s: &'static str)
    requires
        d < 10,
    ensures
        s@ == seq![digit_char(d as nat)],
{
    proof {
        reveal_strlit("0");
        reveal_strlit("1");
        reveal_strlit("2");
        reveal_strlit("3");
        reveal_strlit("4");
        reveal_strlit("5");
        reveal_strlit("6");
        reveal_strlit("7");
        reveal_strlit("8");
        reveal_strlit("9");
    }
    let s = if d == 0 {
        "0"
    } else if d == 1 {
        "1"
    } else if d == 2 {
        "2"
    } else if d == 3 {
        "3"
    } else if d == 4 {
        "4"
    } else if d == 5 {
        "5"
    } else if d == 6 {
        "6"
    } else if d == 7 {
        "7"
    } else if d == 8 {
        "8"
    } else {
        "9"
    };
    assert(s@ =~= seq![digit_char(d as nat)]);
    s
}

/// Appends `n` in decimal to `text`.
pub fn append_decimal(text: &mut String, n: u64)
    ensures
        final(text)@ == old(text)@ + decimal_text(n as nat),
    decreases n,
{
    if n >= 10 {
        append_decimal(text, n / 10);
    }
    text.append(digit_str(n % 10));
    assert(text@ =~= old(text)@ + decimal_text(n as nat));
}

/// The label for a credential requested at `epoch_seconds`.
pub fn request_name(epoch_seconds: u64) -> (name: String)
    ensures
        name@ == request_name_text(epoch_seconds),
{
    let mut name = String::from_str("ALBERTINE-");
    append_decimal(&mut name, epoch_seconds);
    name
}

/// The `Authorization` header value for the bearer credential `key`.
pub fn authorization_value(key: &str) -> (value: String)
    ensures
        value@ == authorization_text(key@),
{
    String::from_str("Bearer ").concat(key)
}

/// The request that renews `current_key` at `epoch_seconds`.
pub fn renewal_request(epoch_seconds: u64, current_key: &str) -> (request: RenewalRequest)
    ensures
        request.name@ == request_name_text(epoch_seconds),
        request.authorization@ == authorization_text(current_key@),
{
    RenewalRequest {
        name: request_name(epoch_seconds),
        authorization: authorization_value(current_key),
    }
}

/// Whether the HTTP status `status` reports success.
pub fn is_success_status(status: u16) -> (ok: bool)
    ensures
        ok == is_success(status),
{
    200 <= status && status < 300
}

/// Reads the new key out of a reply.
///
/// An unanswered request is `RemoteUnreachable`, a status outside 200..=299
/// is `RemoteRejected` whatever the body, and a success without an issued key
/// in its body is `ResponseMalformed`.
pub fn issued_token(reply: RemoteReply) -> (result: Result<String, RenewalError>)
    ensures
        match result {
            Ok(token) => renewal_result(reply) == Ok::<Seq<char>, RenewalError>(token@),
            Err(e) => renewal_result(reply) == Err::<Seq<char>, RenewalError>(e),
        },
{
    match reply {
        RemoteReply::Unreachable => Err(RenewalError::RemoteUnreachable),
        RemoteReply::Answered { status, body } => {
            if !is_success_status(status) {
                Err(RenewalError::RemoteRejected)
            } else {
                match body {
                    Some(key) => Ok(key.token),
                    None => Err(RenewalError::ResponseMalformed),
                }
            }
        },
    }
}

} // verus!
