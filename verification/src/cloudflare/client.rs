//! What every request to the Cloudflare API has in common.

use vstd::prelude::*;

verus! {

/// The HTTP methods the API is called with.
#[derive(Clone, Copy, Debug, PartialEq, Eq, Structural)]
pub enum Method {
    Get,
    Post,
    Patch,
}

/// Root of the API, without a trailing slash.
pub const BASE_URL: &'static str = "https://api.cloudflare.com/client/v4";

/// One call of the API, described as plain data: where it goes, how, and
/// what it carries. Sending it is left to the host program.
pub trait ApiRequest {
    /// What is sent as the request body.
    type Request;

    /// What is sent as the query string.
    type Query;

    /// HTTP method of the call.
    spec fn method_of(&self) -> Method;

    /// Full URL of the call.
    spec fn url_of(&self) -> Seq<char>;

    /// Query parameters of the call, if it has any.
    spec fn query_of(&self) -> Option<Self::Query>;

    /// Body of the call, if it has one.
    spec fn body_of(&self) -> Option<Self::Request>;

    fn method(&self) -> (m: Method)
        ensures
            m == self.method_of(),
    ;

    fn url(&self) -> (u: String)
        ensures
            u@ == self.url_of(),
    ;

    fn query(&self) -> (q: Option<&Self::Query>)
        ensures
            match q {
                Some(params) => self.query_of() == Some(*params),
                None => self.query_of() is None,
            },
    ;

    fn body(&self) -> (b: Option<&Self::Request>)
        ensures
            match b {
                Some(params) => self.body_of() == Some(*params),
                None => self.body_of() is None,
            },
    ;
}

} // verus!
