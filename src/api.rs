use vstd::prelude::*;

verus! {

/// The body of the service's status replies.
pub struct Response {
    pub message: String,
}

impl Response {
    /// The reply of the health check.
    pub fn healthy() -> (r: Response)
        ensures
            r.message@ == "Everything is working fine"@,
    {
        Response { message: "Everything is working fine".to_owned() }
    }

    /// The reply to a request that matches no route.
    pub fn not_found() -> (r: Response)
        ensures
            r.message@ == "Resource not found"@,
    {
        Response { message: "Resource not found".to_owned() }
    }
}

} // verus!
