//! The client side: a builder that checks that the base URL and the
//! credential are set, the URLs of the three endpoints, and what each answer
//! of the server means.
use vstd::prelude::*;
use crate::server::{HTTP_OK, HTTP_UNAUTHORIZED, SPACE_CLOSE_PATH, SPACE_OPEN_PATH, STATUS_V14_PATH};
use vstd::string::StringExecFns;

verus! {

/// How the client names itself to the server.
pub const USER_AGENT: &'static str = "space_status/0.1.0";

/// Error text of `build` without a credential.
pub const MISSING_API_KEY: &'static str = "api_key must be set";

/// Error text of `build` without a base URL.
pub const MISSING_BASE_URL: &'static str = "base_url must be set";

/// Why a call of the client failed.
#[derive(PartialEq, Eq, Debug)]
pub enum ClientError {
    /// The server answered 401: the credential was refused.
    Rejected,
    /// The server answered with another code than 200 or 401.
    UnexpectedStatus(u16),
    /// The request did not get an answer; the text says why.
    Transport(String),
    /// The answer's body is not a status document; the text says why.
    Decode(String),
}

/// The settings of a builder, as mathematical values.
pub struct BuilderView {
    pub api_key: Option<Seq<char>>,
    pub base_url: Option<Seq<char>>,
}

/// The characters of an optional borrowed string.
pub open spec fn str_view(s: Option<&str>) -> Option<Seq<char>> {
    match s {
        Some(v) => Some(v@),
        None => None,
    }
}

/// Collects the settings of a [`Client`].
pub struct ClientBuilder<'a> {
    api_key: Option<&'a str>,
    base_url: Option<&'a str>,
}

impl<'a> View for ClientBuilder<'a> {
    type V = BuilderView;

    closed spec fn view(&self) -> BuilderView {
        BuilderView { api_key: str_view(self.api_key), base_url: str_view(self.base_url) }
    }
}

/// The settings of a client, as mathematical values.
pub struct ClientView {
    pub api_key: Seq<char>,
    pub base_url: Seq<char>,
}

/// Holds what every call to the server needs: where it is, and the
/// credential sent along with each request.
pub struct Client {
    api_key: String,
    base_url: String,
}

impl View for Client {
    type V = ClientView;

    closed spec fn view(&self) -> ClientView {
        ClientView { api_key: self.api_key@, base_url: self.base_url@ }
    }
}

impl<'a> ClientBuilder<'a> {
    /// A builder with nothing set.
    pub fn new() -> (r: ClientBuilder<'a>)
        ensures
            r@.api_key is None,
            r@.base_url is None,
    {
        ClientBuilder { api_key: None, base_url: None }
    }

    /// Sets the base URL, which the endpoint paths are appended to.
    pub fn base_url(self, url: &'a str) -> (r: ClientBuilder<'a>)
        ensures
            r@.base_url == Some(url@),
            r@.api_key == self@.api_key,
    {
        ClientBuilder { base_url: Some(url), ..self }
    }

    /// Sets the credential.
    pub fn api_key(self, key: &'a str) -> (r: ClientBuilder<'a>)
        ensures
            r@.api_key == Some(key@),
            r@.base_url == self@.base_url,
    {
        ClientBuilder { api_key: Some(key), ..self }
    }

    /// The client, once both settings are there; a missing credential is
    /// reported before a missing base URL.
    pub fn build(self) -> (r: Result<Client, String>)
        ensures
            r is Ok <==> self@.api_key is Some && self@.base_url is Some,
            r is Ok ==> r->Ok_0@ == (ClientView {
                api_key: self@.api_key->Some_0,
                base_url: self@.base_url->Some_0,
            }),
            self@.api_key is None ==> r is Err && r->Err_0@ == MISSING_API_KEY@,
            self@.api_key is Some && self@.base_url is None ==> r is Err && r->Err_0@
                == MISSING_BASE_URL@,
    {
        let api_key = match self.api_key {
            Some(k) => k,
            None => {
                return Err(MISSING_API_KEY.to_owned());
            },
        };
        let base_url = match self.base_url {
            Some(u) => u,
            None => {
                return Err(MISSING_BASE_URL.to_owned());
            },
        };
        Ok(Client { api_key: api_key.to_owned(), base_url: base_url.to_owned() })
    }
}

/// The meaning of the code of an answer: 200 is success, 401 a refused
/// credential, anything else a failed request.
pub open spec fn outcome_spec(code: u16) -> Result<(), ClientError> {
    if code == HTTP_OK {
        Ok(())
    } else if code == HTTP_UNAUTHORIZED {
        Err(ClientError::Rejected)
    } else {
        Err(ClientError::UnexpectedStatus(code))
    }
}

/// The meaning of the code of an answer; see [`outcome_spec`].
pub fn response_outcome(code: u16) -> (r: Result<(), ClientError>)
    ensures
        r == outcome_spec(code),
{
    if code == HTTP_OK {
        Ok(())
    } else if code == HTTP_UNAUTHORIZED {
        Err(ClientError::Rejected)
    } else {
        Err(ClientError::UnexpectedStatus(code))
    }
}

impl Client {
    /// The credential sent in the credential header of every request.
    pub fn api_key(&self) -> (r: &str)
        ensures
            r@ == self@.api_key,
    {
        self.api_key.as_str()
    }

    /// The base URL.
    pub fn base_url(&self) -> (r: &str)
        ensures
            r@ == self@.base_url,
    {
        self.base_url.as_str()
    }

    /// The base URL followed by `path`; every endpoint is joined this way.
    fn endpoint(&self, path: &str) -> (r: String)
        ensures
            r@ == self@.base_url + path@,
    {
        self.base_url.clone().concat(path)
    }

    /// URL of the admin endpoint that marks the space open.
    pub fn open_url(&self) -> (r: String)
        ensures
            r@ == self@.base_url + SPACE_OPEN_PATH@,
    {
        self.endpoint(SPACE_OPEN_PATH)
    }

    /// URL of the admin endpoint that marks the space closed.
    pub fn close_url(&self) -> (r: String)
        ensures
            r@ == self@.base_url + SPACE_CLOSE_PATH@,
    {
        self.endpoint(SPACE_CLOSE_PATH)
    }

    /// URL of the public status document.
    pub fn status_url(&self) -> (r: String)
        ensures
            r@ == self@.base_url + STATUS_V14_PATH@,
    {
        self.endpoint(STATUS_V14_PATH)
    }
}

} // verus!
