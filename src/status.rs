//! The published status record, as far as this library reads and writes it.
use vstd::prelude::*;

verus! {

/// Versions of the status schema; only one is supported.
#[derive(PartialEq, Eq, Structural, Clone, Copy, Debug)]
pub enum ApiVersion {
    V14,
}

/// The mutable part of the record: whether the space is open, and when that
/// last changed (seconds since the Unix epoch).
#[derive(PartialEq, Eq, Structural, Clone, Copy, Debug)]
pub struct State {
    pub open: Option<bool>,
    pub lastchange: Option<u64>,
}

/// The status record: identity fields set once from configuration, the
/// mutable state, and the schema versions it claims to follow.
pub struct Status {
    pub space: String,
    pub logo: String,
    pub url: String,
    pub state: Option<State>,
    pub api_compatibility: Option<Vec<ApiVersion>>,
}

/// Whether a record reports the space as open: an absent state, or a state
/// without an `open` entry, counts as closed.
pub open spec fn open_of(state: Option<State>) -> bool {
    match state {
        Some(s) => s.open == Some(true),
        None => false,
    }
}

/// Whether a compatibility list is exactly the one supported version.
pub open spec fn is_v14_only(v: Option<Vec<ApiVersion>>) -> bool {
    v is Some && v->Some_0@ == seq![ApiVersion::V14]
}

impl Status {
    /// A record with the given identity fields, no state and no version list.
    pub fn new(space: &str, logo: &str, url: &str) -> (r: Status)
        ensures
            r.space@ == space@,
            r.logo@ == logo@,
            r.url@ == url@,
            r.state is None,
            r.api_compatibility is None,
    {
        Status {
            space: space.to_owned(),
            logo: logo.to_owned(),
            url: url.to_owned(),
            state: None,
            api_compatibility: None,
        }
    }

    /// Whether the record reports the space as open; see [`open_of`].
    pub fn is_open(&self) -> (r: bool)
        ensures
            r == open_of(self.state),
    {
        match self.state {
            Some(s) => match s.open {
                Some(b) => b,
                None => false,
            },
            None => false,
        }
    }
}

} // verus!
