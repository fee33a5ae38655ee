//! Addresses of the server's one-shot bootstrap endpoints. The HTTP call
//! itself is I/O and lives with the caller; the library only builds the URL.

use vstd::prelude::*;
use vstd::string::StringExecFns;

verus! {

/// The address of the bootstrap endpoint `uri` on the local server.
pub open spec fn spec_endpoint_url(uri: Seq<char>) -> Seq<char> {
    "http://localhost:3000/"@ + uri
}

/// Builds the URL for the bootstrap endpoint `uri`.
pub fn endpoint_url(uri: &str) -> (r: String)
    ensures
        r@ == spec_endpoint_url(uri@),
{
    let mut out = String::from_str("http://localhost:3000/");
    out.append(uri);
    out
}

} // verus!
