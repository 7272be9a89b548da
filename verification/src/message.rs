//! Requests and responses as the pool core sees them: plain data, already
//! parsed by the transport and not yet marshalled into the engine.

use vstd::prelude::*;

verus! {

/// An inbound request, reduced to what the script is handed.
pub struct Request {
    pub body: String,
}

/// A structured response produced by one script execution.
pub struct Response {
    pub status: u16,
    pub headers: Vec<(String, String)>,
    pub body: String,
}

/// A response the transport can carry: its status code is one the wire
/// format admits.
pub open spec fn response_well_formed(r: Response) -> bool {
    100 <= r.status <= 599
}

} // verus!
