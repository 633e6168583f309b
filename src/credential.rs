//! The shared admin secret and the step that takes it from a request header.
use vstd::prelude::*;

verus! {

/// Name of the request header that carries the admin credential.
pub const API_KEY_HEADER: &'static str = "X-API-Key";

/// An opaque shared secret, compared only for exact equality.
pub struct ApiKey(String);

/// The credential was absent or did not match the configured one.
#[derive(PartialEq, Eq, Structural, Clone, Copy, Debug)]
pub struct AuthRejected;

impl View for ApiKey {
    type V = Seq<char>;

    closed spec fn view(&self) -> Seq<char> {
        self.0@
    }
}

impl ApiKey {
    /// A credential holding exactly the characters of `s`.
    pub fn new(s: &str) -> (r: ApiKey)
        ensures
            r@ == s@,
    {
        ApiKey(s.to_owned())
    }

    /// The credential's text.
    pub fn as_str(&self) -> (r: &str)
        ensures
            r@ == self@,
    {
        self.0.as_str()
    }

    /// Exact equality of two credentials.
    pub fn matches(&self, other: &ApiKey) -> (r: bool)
        ensures
            r == (self@ == other@),
    {
        self.0 == other.0
    }

    /// Pulls the credential from the value of the credential header of a
    /// request, if the request has that header. The value is taken as it is:
    /// no trimming and no change of case.
    pub fn from_request(header: Option<&str>) -> (r: Result<ApiKey, AuthRejected>)
        ensures
            header is None <==> r is Err,
            header is Some ==> r is Ok && r->Ok_0@ == header->Some_0@,
    {
        match header {
            Some(value) => Ok(ApiKey::new(value)),
            None => Err(AuthRejected),
        }
    }
}

} // verus!
