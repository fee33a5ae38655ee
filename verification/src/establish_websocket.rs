//! The connection bootstrapper's computing half: the four identity headers
//! that upgrade a plain request into the messaging stream, validated
//! character by character. Opening the socket itself is I/O and lives with
//! the caller, which hands each header pair over verbatim.

use vstd::prelude::*;
use vstd::string::StrSliceExecFns;

verus! {

/// Whether `c` may stand in an HTTP header value: horizontal tab or anything
/// but the other control characters. Characters beyond ASCII encode to bytes
/// of 128 and above, which header values accept.
pub open spec fn valid_header_char(c: char) -> bool {
    c == '\t' || (32 <= c as int && c as int != 127)
}

/// Whether every character of `s` may stand in an HTTP header value.
pub open spec fn valid_header_value(s: Seq<char>) -> bool {
    forall|i: int| 0 <= i < s.len() ==> valid_header_char(s[i])
}

/// Checks `s` against `valid_header_value`.
pub fn check_header_value(s: &str) -> (r: bool)
    ensures
        r == valid_header_value(s@),
{
    let n = s.unicode_len();
    let mut i: usize = 0;
    while i < n
        invariant
            n == s@.len(),
            i <= n,
            forall|j: int| 0 <= j < i ==> valid_header_char(s@[j]),
        decreases n - i,
    {
        let c = s.get_char(i);
        if !(c == '\t' || (c as u32 >= 32 && c as u32 != 127)) {
            return false;
        }
        i += 1;
    }
    true
}

/// One header of the upgrade request.
pub struct HeaderPair {
    pub name: &'static str,
    pub value: String,
}

/// Whether `s` can stand as the user identity of an upgrade request: it must
/// be non-empty and a valid header value.
pub open spec fn valid_user_id(s: Seq<char>) -> bool {
    s.len() > 0 && valid_header_value(s)
}

/// Which credential value could not stand in a header.
#[derive(Clone, Copy, PartialEq, Eq, Structural, Debug)]
pub enum AuthHeaderError {
    InvalidUserId,
    InvalidToken,
    InvalidDeviceId,
    InvalidDeviceUuid,
}

/// The messaging endpoint the upgrade request is sent to.
pub fn websocket_url() -> (r: &'static str)
    ensures
        r@ == "ws://localhost:3000/ws"@,
{
    "ws://localhost:3000/ws"
}

/// Builds the four identity headers of the upgrade request from the stored
/// credentials. The username must be non-empty; construction fails fast on
/// the first malformed value, in header order, so that no partial upgrade
/// request is ever sent.
pub fn upgrade_headers(username: &str, token: &str, device_id: &str, device_uuid: &str) -> (r:
    Result<Vec<HeaderPair>, AuthHeaderError>)
    ensures
        match r {
            Result::Ok(hs) => valid_user_id(username@) && valid_header_value(token@)
                && valid_header_value(device_id@) && valid_header_value(device_uuid@) && hs@.len()
                == 4 && hs@[0].name@ == "x-user-id"@ && hs@[0].value@ == username@ && hs@[1].name@
                == "x-auth-token"@ && hs@[1].value@ == token@ && hs@[2].name@ == "x-device-id"@
                && hs@[2].value@ == device_id@ && hs@[3].name@ == "x-device-uuid"@
                && hs@[3].value@ == device_uuid@,
            Result::Err(AuthHeaderError::InvalidUserId) => !valid_user_id(username@),
            Result::Err(AuthHeaderError::InvalidToken) => valid_user_id(username@)
                && !valid_header_value(token@),
            Result::Err(AuthHeaderError::InvalidDeviceId) => valid_user_id(username@)
                && valid_header_value(token@) && !valid_header_value(device_id@),
            Result::Err(AuthHeaderError::InvalidDeviceUuid) => valid_user_id(username@)
                && valid_header_value(token@) && valid_header_value(device_id@)
                && !valid_header_value(device_uuid@),
        },
{
    if username.unicode_len() == 0 || !check_header_value(username) {
        return Result::Err(AuthHeaderError::InvalidUserId);
    }
    if !check_header_value(token) {
        return Result::Err(AuthHeaderError::InvalidToken);
    }
    if !check_header_value(device_id) {
        return Result::Err(AuthHeaderError::InvalidDeviceId);
    }
    if !check_header_value(device_uuid) {
        return Result::Err(AuthHeaderError::InvalidDeviceUuid);
    }
    let mut hs: Vec<HeaderPair> = Vec::new();
    hs.push(HeaderPair { name: "x-user-id", value: username.to_owned() });
    hs.push(HeaderPair { name: "x-auth-token", value: token.to_owned() });
    hs.push(HeaderPair { name: "x-device-id", value: device_id.to_owned() });
    hs.push(HeaderPair { name: "x-device-uuid", value: device_uuid.to_owned() });
    Result::Ok(hs)
}

} // verus!
