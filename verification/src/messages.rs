//! Application-level payloads this client can put on the wire.

use vstd::prelude::*;
use vstd::string::StringExecFns;
use crate::json_out::{json_quoted, quote_json_string};

verus! {

/// The wire text of one chat message from `sender` to `recipient`.
pub open spec fn spec_message_payload(
    sender: Seq<char>,
    recipient: Seq<char>,
    content: Seq<char>,
) -> Seq<char> {
    "{\"type\":\"message\",\"sender\":"@ + json_quoted(sender) + ",\"recipient\":"@ + json_quoted(
        recipient,
    ) + ",\"content\":"@ + json_quoted(content) + "}"@
}

/// The wire text asking the server for the devices of `user`.
pub open spec fn spec_get_devices_payload(user: Seq<char>) -> Seq<char> {
    "{\"type\":\"user\",\"action\":\"get_devices\",\"user_id\":"@ + json_quoted(user) + "}"@
}

/// Frames one chat message as wire text.
pub fn message(username: &str, recipient: &str, content: &str) -> (r: String)
    ensures
        r@ == spec_message_payload(username@, recipient@, content@),
{
    let mut out = String::from_str("{\"type\":\"message\",\"sender\":");
    let q_sender = quote_json_string(username);
    out.append(q_sender.as_str());
    out.append(",\"recipient\":");
    let q_recipient = quote_json_string(recipient);
    out.append(q_recipient.as_str());
    out.append(",\"content\":");
    let q_content = quote_json_string(content);
    out.append(q_content.as_str());
    out.append("}");
    proof {
        assert(out@ =~= spec_message_payload(username@, recipient@, content@));
    }
    out
}

/// Frames a device-list request as wire text.
pub fn get_devices(username: &str) -> (r: String)
    ensures
        r@ == spec_get_devices_payload(username@),
{
    let mut out = String::from_str("{\"type\":\"user\",\"action\":\"get_devices\",\"user_id\":");
    let q_user = quote_json_string(username);
    out.append(q_user.as_str());
    out.append("}");
    proof {
        assert(out@ =~= spec_get_devices_payload(username@));
    }
    out
}

} // verus!
