//! The HTTP surface of the server: which endpoints exist, and what each does
//! to the guard and answers.
//!
//! Requests reach this module already parsed into a method, a path and the
//! value of the credential header; the answer is a status code and, for the
//! status endpoint, the record to send as its JSON body.
use vstd::prelude::*;
use crate::config::SpaceConfig;
use crate::credential::ApiKey;
use crate::guard::{initial_view, publishes, GuardView, SpaceGuard};
use crate::status::Status;

verus! {

/// Path of the public status document.
pub const STATUS_V14_PATH: &'static str = "/spaceapi/v14";

/// Path of the admin endpoint that marks the space open.
pub const SPACE_OPEN_PATH: &'static str = "/admin/publish/space-open";

/// Path of the admin endpoint that marks the space closed.
pub const SPACE_CLOSE_PATH: &'static str = "/admin/publish/space-close";

pub const HTTP_OK: u16 = 200;

pub const HTTP_UNAUTHORIZED: u16 = 401;

pub const HTTP_NOT_FOUND: u16 = 404;

#[derive(PartialEq, Eq, Structural, Clone, Copy, Debug)]
pub enum Method {
    Get,
    Post,
}

/// The three endpoints of the server.
#[derive(PartialEq, Eq, Structural, Clone, Copy, Debug)]
pub enum Endpoint {
    StatusV14,
    SpaceOpen,
    SpaceClose,
}

/// An inbound request: its method, its path and the value of the credential
/// header, if the request has one.
pub struct Request {
    pub method: Method,
    pub path: String,
    pub api_key: Option<String>,
}

/// An answer: the status code, and the record for a successful status read.
pub struct Response {
    pub code: u16,
    pub body: Option<Status>,
}

/// The endpoint that a method and a path name, if any.
pub open spec fn endpoint_spec(method: Method, path: Seq<char>) -> Option<Endpoint> {
    if method == Method::Get && path == STATUS_V14_PATH@ {
        Some(Endpoint::StatusV14)
    } else if method == Method::Post && path == SPACE_OPEN_PATH@ {
        Some(Endpoint::SpaceOpen)
    } else if method == Method::Post && path == SPACE_CLOSE_PATH@ {
        Some(Endpoint::SpaceClose)
    } else {
        None
    }
}

/// Whether an endpoint is in the route table: the status endpoint always,
/// the admin endpoints only with admin mode on.
pub open spec fn mounted(admin_enabled: bool, e: Endpoint) -> bool {
    e == Endpoint::StatusV14 || admin_enabled
}

/// The endpoint that a method and a path name, if any.
pub fn endpoint_of(method: Method, path: &str) -> (r: Option<Endpoint>)
    ensures
        r == endpoint_spec(method, path@),
{
    let p = path.to_owned();
    match method {
        Method::Get => {
            if p == STATUS_V14_PATH.to_owned() {
                Some(Endpoint::StatusV14)
            } else {
                None
            }
        },
        Method::Post => {
            if p == SPACE_OPEN_PATH.to_owned() {
                Some(Endpoint::SpaceOpen)
            } else if p == SPACE_CLOSE_PATH.to_owned() {
                Some(Endpoint::SpaceClose)
            } else {
                None
            }
        },
    }
}

/// Handler of the open endpoint, once the credential has been extracted:
/// 200 if the guard accepted it, 401 otherwise.
pub fn open_space(api_key: ApiKey, space: &mut SpaceGuard, now: u64) -> (r: u16)
    ensures
        old(space)@.accepts(api_key@) ==> r == HTTP_OK && final(space)@ == old(space)@.switched(
            true,
            now,
        ),
        !old(space)@.accepts(api_key@) ==> r == HTTP_UNAUTHORIZED && final(space)@ == old(space)@,
{
    match space.open(&api_key, now) {
        Ok(()) => HTTP_OK,
        Err(_) => HTTP_UNAUTHORIZED,
    }
}

/// Handler of the close endpoint, once the credential has been extracted:
/// 200 if the guard accepted it, 401 otherwise.
pub fn close_space(api_key: ApiKey, space: &mut SpaceGuard, now: u64) -> (r: u16)
    ensures
        old(space)@.accepts(api_key@) ==> r == HTTP_OK && final(space)@ == old(space)@.switched(
            false,
            now,
        ),
        !old(space)@.accepts(api_key@) ==> r == HTTP_UNAUTHORIZED && final(space)@ == old(space)@,
{
    match space.close(&api_key, now) {
        Ok(()) => HTTP_OK,
        Err(_) => HTTP_UNAUTHORIZED,
    }
}

/// Handler of the status endpoint; it cannot fail.
pub fn get_status_v14(space: &SpaceGuard) -> (r: Status)
    ensures
        publishes(r, space@),
{
    space.spaceapi_v14()
}

/// The server as mathematical values.
pub struct ServerView {
    pub guard: GuardView,
    pub admin_enabled: bool,
}

/// The guard together with the route table that admin mode decides.
pub struct Server {
    guard: SpaceGuard,
    admin_enabled: bool,
}

impl View for Server {
    type V = ServerView;

    closed spec fn view(&self) -> ServerView {
        ServerView { guard: self.guard@, admin_enabled: self.admin_enabled }
    }
}

/// The status code that `req` gets from a server in state `s`.
pub open spec fn code_spec(s: ServerView, method: Method, path: Seq<char>, key: Option<Seq<char>>) -> u16 {
    match endpoint_spec(method, path) {
        None => HTTP_NOT_FOUND,
        Some(e) => if !mounted(s.admin_enabled, e) {
            HTTP_NOT_FOUND
        } else if e == Endpoint::StatusV14 {
            HTTP_OK
        } else if key is Some && s.guard.accepts(key->Some_0) {
            HTTP_OK
        } else {
            HTTP_UNAUTHORIZED
        },
    }
}

/// The server state after `req`, given the time `now`.
pub open spec fn next_spec(
    s: ServerView,
    method: Method,
    path: Seq<char>,
    key: Option<Seq<char>>,
    now: u64,
) -> ServerView {
    if code_spec(s, method, path, key) == HTTP_OK {
        if endpoint_spec(method, path) == Some(Endpoint::SpaceOpen) {
            ServerView { guard: s.guard.switched(true, now), ..s }
        } else if endpoint_spec(method, path) == Some(Endpoint::SpaceClose) {
            ServerView { guard: s.guard.switched(false, now), ..s }
        } else {
            s
        }
    } else {
        s
    }
}

/// The characters of an optional header value.
pub open spec fn header_view(h: Option<String>) -> Option<Seq<char>> {
    match h {
        Some(v) => Some(v@),
        None => None,
    }
}

/// Starts a server from its configuration at time `now`: the admin
/// endpoints are mounted exactly when admin mode is on.
pub fn serve(config: SpaceConfig, now: u64) -> (r: Server)
    ensures
        r@.admin_enabled == config.admin.enabled,
        r@.guard == initial_view(config, now),
{
    let admin_enabled = config.admin.enabled;
    Server { guard: SpaceGuard::new(config, now), admin_enabled }
}

impl Server {
    /// Answers one request at time `now`.
    pub fn dispatch(&mut self, req: &Request, now: u64) -> (r: Response)
        ensures
            r.code == code_spec(old(self)@, req.method, req.path@, header_view(req.api_key)),
            final(self)@ == next_spec(old(self)@, req.method, req.path@, header_view(req.api_key), now),
            r.body is Some <==> endpoint_spec(req.method, req.path@) == Some(Endpoint::StatusV14),
            r.body is Some ==> publishes(r.body->Some_0, old(self)@.guard),
    {
        let endpoint = endpoint_of(req.method, req.path.as_str());
        match endpoint {
            None => Response { code: HTTP_NOT_FOUND, body: None },
            Some(Endpoint::StatusV14) => Response {
                code: HTTP_OK,
                body: Some(get_status_v14(&self.guard)),
            },
            Some(e) => {
                if !self.admin_enabled {
                    return Response { code: HTTP_NOT_FOUND, body: None };
                }
                let header = match &req.api_key {
                    Some(v) => Some(v.as_str()),
                    None => None,
                };
                let key = match ApiKey::from_request(header) {
                    Ok(k) => k,
                    Err(_) => {
                        return Response { code: HTTP_UNAUTHORIZED, body: None };
                    },
                };
                let code = if e == Endpoint::SpaceOpen {
                    open_space(key, &mut self.guard, now)
                } else {
                    close_space(key, &mut self.guard, now)
                };
                Response { code, body: None }
            },
        }
    }

    /// The guard, for reads.
    pub fn guard(&self) -> (r: &SpaceGuard)
        ensures
            r@ == self@.guard,
    {
        &self.guard
    }

    /// The guard, for calls of its `open` and `close`.
    pub fn guard_mut(&mut self) -> (r: &mut SpaceGuard)
        ensures
            r@ == old(self)@.guard,
            final(r)@ == final(self)@.guard,
            final(self)@.admin_enabled == old(self)@.admin_enabled,
    {
        &mut self.guard
    }

    /// Whether the admin endpoints are mounted.
    pub fn admin_enabled(&self) -> (r: bool)
        ensures
            r == self@.admin_enabled,
    {
        self.admin_enabled
    }
}

/// With admin mode off, the admin endpoints answer 404 whatever credential
/// the request carries, and the state stays as it was.
pub proof fn lemma_disabled_admin_not_found(
    s: ServerView,
    method: Method,
    path: Seq<char>,
    key: Option<Seq<char>>,
    now: u64,
)
    requires
        !s.admin_enabled,
        path == SPACE_OPEN_PATH@ || path == SPACE_CLOSE_PATH@,
    ensures
        code_spec(s, method, path, key) == HTTP_NOT_FOUND,
        next_spec(s, method, path, key, now) == s,
{
    reveal_strlit("/spaceapi/v14");
    reveal_strlit("/admin/publish/space-open");
    reveal_strlit("/admin/publish/space-close");
    assert(STATUS_V14_PATH@.len() != SPACE_OPEN_PATH@.len());
    assert(STATUS_V14_PATH@.len() != SPACE_CLOSE_PATH@.len());
}

} // verus!
