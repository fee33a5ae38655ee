//! Typed views of inbound frames that carry more than the envelope.

use vstd::prelude::*;
use crate::json_in::{
    get_i64_array_field,
    get_str_field,
    json_i64_array_field,
    json_str_field,
};

verus! {

/// The devices one username has registered, as a devices frame reports them.
pub struct Devices {
    pub user_id: String,
    pub devices: Vec<i64>,
    pub timestamp: String,
}

/// Reads a devices frame: all three fields must be present and well-typed.
pub fn parse_devices(raw: &str) -> (r: Option<Devices>)
    ensures
        match (
            json_str_field(raw@, "user_id"@),
            json_i64_array_field(raw@, "devices"@),
            json_str_field(raw@, "timestamp"@),
        ) {
            (Option::Some(u), Option::Some(d), Option::Some(t)) => r matches Option::Some(dev)
                && dev.user_id@ == u && dev.devices@ == d && dev.timestamp@ == t,
            _ => r is None,
        },
{
    let user_id = match get_str_field(raw, "user_id") {
        Option::Some(u) => u,
        Option::None => {
            return Option::None;
        },
    };
    let devices = match get_i64_array_field(raw, "devices") {
        Option::Some(d) => d,
        Option::None => {
            return Option::None;
        },
    };
    let timestamp = match get_str_field(raw, "timestamp") {
        Option::Some(t) => t,
        Option::None => {
            return Option::None;
        },
    };
    Option::Some(Devices { user_id, devices, timestamp })
}

} // verus!
