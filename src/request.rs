//! The queries that the platform's endpoints take.
use vstd::prelude::*;

pub mod bots;
pub mod conversations;
pub mod usergroups;
pub mod users;

verus! {

/// An HTTP request method.
#[derive(Clone, Copy, Debug, PartialEq, Eq, Structural)]
pub enum RequestMethod {
    Get,
    Post,
}

impl RequestMethod {
    /// The method's name as HTTP writes it.
    pub fn as_str(&self) -> (r: &'static str)
        ensures
            r@ == match self {
                RequestMethod::Get => "GET"@,
                RequestMethod::Post => "POST"@,
            },
    {
        match self {
            RequestMethod::Get => "GET",
            RequestMethod::Post => "POST",
        }
    }
}

/// A query of one endpoint.
pub trait Request {
    /// The answer that the endpoint gives.
    type Response: crate::response::Response;

    /// The endpoint's path below the API root.
    spec fn endpoint(&self) -> Seq<char>;

    fn path(&self) -> (r: &'static str)
        ensures
            r@ == self.endpoint(),
    ;

    /// Every endpoint used here is read with `GET`.
    fn method(&self) -> (r: RequestMethod)
        ensures
            r == RequestMethod::Get,
    {
        RequestMethod::Get
    }
}

} // verus!
