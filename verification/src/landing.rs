//! The auxiliary HTTP fallback: a stateless static-content responder for
//! clients that cannot use the transport protocol. Binding the port and
//! serving requests is the embedding runtime's part; the routing
//! decisions live here.

use vstd::prelude::*;

verus! {

/// The static-content landing responder.
#[derive(Debug, Default)]
pub struct WebLandingServer;

impl WebLandingServer {
    /// The embedded file the bare index route serves.
    pub fn index_path() -> (r: &'static str)
        ensures
            r@ == "index.html"@,
    {
        "index.html"
    }

    /// The status for a static file lookup: success when the embedded
    /// asset exists, not-found otherwise.
    pub fn static_status(found: bool) -> (r: u16)
        ensures
            r == if found {
                200u16
            } else {
                404u16
            },
    {
        if found {
            200
        } else {
            404
        }
    }

    /// The body served when no embedded asset matches the path.
    pub fn not_found_body() -> (r: &'static str)
        ensures
            r@ == "404 Not Found"@,
    {
        "404 Not Found"
    }
}

} // verus!
