use vstd::prelude::*;

verus! {

/// The HTTP methods the client issues.
#[derive(Clone, Copy, Debug, PartialEq, Eq, Structural)]
pub enum HttpMethod {
    Get,
    Post,
    Patch,
}

/// A fully described outbound call: everything the transport needs, as plain
/// values. The library builds plans; the caller's transport executes them.
pub struct RequestPlan {
    pub method: HttpMethod,
    /// Either a path under the API base or an absolute continuation link.
    pub url: String,
    /// Query parameters, in order, appended to `url` by the transport.
    pub query: Vec<(String, String)>,
    /// Headers, in order.
    pub headers: Vec<(String, String)>,
}

} // verus!
