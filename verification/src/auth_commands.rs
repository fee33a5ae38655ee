//! Account bootstrap: the request payloads sent to the bootstrap endpoints,
//! the reading of their answers, and the membership check against the local
//! list of previously used usernames. The HTTP call and the username file
//! are I/O and live with the caller.

use vstd::prelude::*;
use vstd::string::StringExecFns;
use crate::json_out::{json_quoted, quote_json_string};
use crate::json_in::{get_str_field, json_str_field};
use crate::manage_keys::{CredKind, CredentialMap};
use crate::text::str_eq;

verus! {

/// The wire text of a new-account request.
pub open spec fn spec_new_account_request(
    username: Seq<char>,
    email: Seq<char>,
    password: Seq<char>,
    uuid: Seq<char>,
) -> Seq<char> {
    "{\"type\":\"new_account\",\"username\":"@ + json_quoted(username) + ",\"email\":"@
        + json_quoted(email) + ",\"password\":"@ + json_quoted(password) + ",\"uuid\":"@
        + json_quoted(uuid) + "}"@
}

/// The wire text of an authenticate request for a known account on a fresh
/// device.
pub open spec fn spec_authenticate_request(
    username: Seq<char>,
    password: Seq<char>,
    uuid: Seq<char>,
) -> Seq<char> {
    "{\"username\":"@ + json_quoted(username) + ",\"password\":"@ + json_quoted(password)
        + ",\"uuid\":"@ + json_quoted(uuid) + "}"@
}

/// Frames a new-account request.
pub fn new_account_request(username: &str, email: &str, password: &str, uuid: &str) -> (r: String)
    ensures
        r@ == spec_new_account_request(username@, email@, password@, uuid@),
{
    let mut out = String::from_str("{\"type\":\"new_account\",\"username\":");
    let q_username = quote_json_string(username);
    out.append(q_username.as_str());
    out.append(",\"email\":");
    let q_email = quote_json_string(email);
    out.append(q_email.as_str());
    out.append(",\"password\":");
    let q_password = quote_json_string(password);
    out.append(q_password.as_str());
    out.append(",\"uuid\":");
    let q_uuid = quote_json_string(uuid);
    out.append(q_uuid.as_str());
    out.append("}");
    proof {
        assert(out@ =~= spec_new_account_request(username@, email@, password@, uuid@));
    }
    out
}

/// Frames an authenticate request.
pub fn authenticate_request(username: &str, password: &str, uuid: &str) -> (r: String)
    ensures
        r@ == spec_authenticate_request(username@, password@, uuid@),
{
    let mut out = String::from_str("{\"username\":");
    let q_username = quote_json_string(username);
    out.append(q_username.as_str());
    out.append(",\"password\":");
    let q_password = quote_json_string(password);
    out.append(q_password.as_str());
    out.append(",\"uuid\":");
    let q_uuid = quote_json_string(uuid);
    out.append(q_uuid.as_str());
    out.append("}");
    proof {
        assert(out@ =~= spec_authenticate_request(username@, password@, uuid@));
    }
    out
}

/// What a successful bootstrap call hands back: the issued auth token and
/// the server-assigned device identifier.
pub struct IssuedCredentials {
    pub token: String,
    pub device_id: String,
}

/// Why a bootstrap answer was rejected. Either way the bootstrap is a hard
/// failure: no credential is stored from a partial answer.
#[derive(Clone, Copy, PartialEq, Eq, Structural, Debug)]
pub enum BootstrapError {
    /// The answer carries no string `token` field.
    MissingToken,
    /// The answer carries no string `device_id` field.
    MissingDeviceId,
}

/// Reads a bootstrap answer: both the `token` and the `device_id` field must
/// be present, or the bootstrap fails.
pub fn bootstrap_credentials(resp: &str) -> (r: Result<IssuedCredentials, BootstrapError>)
    ensures
        match (json_str_field(resp@, "token"@), json_str_field(resp@, "device_id"@)) {
            (Option::Some(t), Option::Some(d)) => r matches Result::Ok(c) && c.token@ == t
                && c.device_id@ == d,
            (Option::None, _) => r matches Result::Err(BootstrapError::MissingToken),
            (Option::Some(_), Option::None) => r matches Result::Err(
                BootstrapError::MissingDeviceId,
            ),
        },
{
    let token = match get_str_field(resp, "token") {
        Option::Some(t) => t,
        Option::None => {
            return Result::Err(BootstrapError::MissingToken);
        },
    };
    let device_id = match get_str_field(resp, "device_id") {
        Option::Some(d) => d,
        Option::None => {
            return Result::Err(BootstrapError::MissingDeviceId);
        },
    };
    Result::Ok(IssuedCredentials { token, device_id })
}

/// Files the secrets a finished bootstrap issued for `username` — the auth
/// token, the server-assigned device identifier, and the device instance
/// UUID — in the credential store, each under its own kind.
pub fn register_credentials(
    creds: &mut CredentialMap,
    username: &str,
    issued: &IssuedCredentials,
    device_uuid: &str,
)
    requires
        old(creds).wf(),
    ensures
        final(creds).wf(),
        final(creds)@ == old(creds)@.insert(
            (CredKind::AuthToken, username@),
            issued.token@,
        ).insert((CredKind::DeviceId, username@), issued.device_id@).insert(
            (CredKind::DeviceUuid, username@),
            device_uuid@,
        ),
{
    creds.put(CredKind::AuthToken, username, issued.token.clone());
    creds.put(CredKind::DeviceId, username, issued.device_id.clone());
    creds.put(CredKind::DeviceUuid, username, device_uuid.to_owned());
}

/// Whether `username` already stands in the local list of previously used
/// usernames.
pub fn user_known(records: &Vec<String>, username: &str) -> (r: bool)
    ensures
        r == records.deep_view().contains(username@),
{
    let n = records.len();
    let mut i: usize = 0;
    while i < n
        invariant
            n == records@.len(),
            i <= n,
            forall|j: int| 0 <= j < i ==> records.deep_view()[j] != username@,
        decreases n - i,
    {
        if str_eq(records[i].as_str(), username) {
            assert(records.deep_view()[i as int] == username@);
            return true;
        }
        i += 1;
    }
    assert(!records.deep_view().contains(username@));
    false
}

} // verus!
