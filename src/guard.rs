//! The status guard: the single owner of the open/closed state, which only a
//! caller presenting the configured credential may change.
//!
//! The guard is a plain value; sharing it between request handlers behind a
//! read/write lock is left to the code that serves requests, so that every
//! change happens inside one exclusive borrow and every read inside one shared
//! borrow.
use vstd::prelude::*;
use crate::config::{key_view, SpaceConfig};
use crate::credential::{ApiKey, AuthRejected};
use crate::status::{open_of, is_v14_only, ApiVersion, State, Status};

verus! {

/// What a guard holds, as mathematical values.
pub struct GuardView {
    pub space: Seq<char>,
    pub logo: Seq<char>,
    pub url: Seq<char>,
    pub open: bool,
    pub last_changed: u64,
    pub key: Option<Seq<char>>,
}

impl GuardView {
    /// Whether `key` is the configured credential. With none configured,
    /// nothing is accepted.
    pub open spec fn accepts(self, key: Seq<char>) -> bool {
        self.key == Some(key)
    }

    /// The state after an accepted `open` (`open == true`) or `close`
    /// (`open == false`) at time `now`. The change time never goes back, even
    /// if the clock does.
    pub open spec fn switched(self, open: bool, now: u64) -> GuardView {
        GuardView {
            open,
            last_changed: if now >= self.last_changed { now } else { self.last_changed },
            ..self
        }
    }
}

/// The state after a series of accepted calls, each given as the state it
/// asks for and the time it was made.
pub open spec fn run(v: GuardView, calls: Seq<(bool, u64)>) -> GuardView
    decreases calls.len(),
{
    if calls.len() == 0 {
        v
    } else {
        run(v, calls.drop_last()).switched(calls.last().0, calls.last().1)
    }
}

/// Whether `r` is the published form of the guard state `v`: the identity
/// fields, the state with both entries present, and the one supported version.
pub open spec fn publishes(r: Status, v: GuardView) -> bool {
    &&& r.space@ == v.space
    &&& r.logo@ == v.logo
    &&& r.url@ == v.url
    &&& r.state == Some(State { open: Some(v.open), lastchange: Some(v.last_changed) })
    &&& is_v14_only(r.api_compatibility)
}

/// After any series of accepted `open`/`close` calls, the space is open
/// exactly when the last call was `open`.
pub proof fn lemma_last_call_wins(v: GuardView, calls: Seq<(bool, u64)>)
    requires
        calls.len() > 0,
    ensures
        run(v, calls).open == calls.last().0,
{
}

/// Over a series of accepted calls the change time never decreases: the state
/// after the first `i` calls changed no later than the state after the first
/// `j`, for `i <= j`.
pub proof fn lemma_change_time_monotone(v: GuardView, calls: Seq<(bool, u64)>, i: int, j: int)
    requires
        0 <= i <= j <= calls.len(),
    ensures
        run(v, calls.take(i)).last_changed <= run(v, calls.take(j)).last_changed,
    decreases j - i,
{
    if i < j {
        lemma_change_time_monotone(v, calls, i, j - 1);
        assert(calls.take(j).drop_last() =~= calls.take(j - 1));
    }
}

/// A read right after an accepted `open` reports the space open, under the
/// supported schema version.
pub proof fn lemma_read_after_open(v: GuardView, now: u64, r: Status)
    requires
        publishes(r, v.switched(true, now)),
    ensures
        open_of(r.state),
        is_v14_only(r.api_compatibility),
{
}

/// What a reader projects from a published record, whether the space is open
/// and the version marker, is what the guard held.
pub proof fn lemma_published_open(v: GuardView, r: Status)
    requires
        publishes(r, v),
    ensures
        open_of(r.state) == v.open,
        is_v14_only(r.api_compatibility),
{
}

/// The state of a guard started from `space` at time `now`: closed, changed
/// at `now`, with the configured identity fields and credential.
pub open spec fn initial_view(space: SpaceConfig, now: u64) -> GuardView {
    GuardView {
        space: space.publish.space@,
        logo: space.publish.logo@,
        url: space.publish.url@,
        open: false,
        last_changed: now,
        key: key_view(space.admin.api_key),
    }
}

/// Owns the status record and the admin credential.
pub struct SpaceGuard {
    space: String,
    logo: String,
    url: String,
    open: bool,
    last_changed: u64,
    key: Option<ApiKey>,
}

impl View for SpaceGuard {
    type V = GuardView;

    closed spec fn view(&self) -> GuardView {
        GuardView {
            space: self.space@,
            logo: self.logo@,
            url: self.url@,
            open: self.open,
            last_changed: self.last_changed,
            key: key_view(self.key),
        }
    }
}

impl SpaceGuard {
    /// Takes over a configuration at startup time `now`. The space starts
    /// closed, changed at `now`, whatever state the configuration held.
    pub fn new(space: SpaceConfig, now: u64) -> (r: SpaceGuard)
        ensures
            r@ == initial_view(space, now),
    {
        let SpaceConfig { publish, admin } = space;
        SpaceGuard {
            space: publish.space,
            logo: publish.logo,
            url: publish.url,
            open: false,
            last_changed: now,
            key: admin.api_key,
        }
    }

    /// Shared body of `open` and `close`.
    fn switch(&mut self, key: &ApiKey, open: bool, now: u64) -> (r: Result<(), AuthRejected>)
        ensures
            r is Ok <==> old(self)@.accepts(key@),
            r is Ok ==> final(self)@ == old(self)@.switched(open, now),
            r is Err ==> final(self)@ == old(self)@,
    {
        let accepted = match &self.key {
            Some(k) => k.matches(key),
            None => false,
        };
        if !accepted {
            return Err(AuthRejected);
        }
        self.open = open;
        if now >= self.last_changed {
            self.last_changed = now;
        }
        Ok(())
    }

    /// Marks the space open at time `now`, if `key` is the configured
    /// credential; otherwise changes nothing and rejects.
    pub fn open(&mut self, key: &ApiKey, now: u64) -> (r: Result<(), AuthRejected>)
        ensures
            r is Ok <==> old(self)@.accepts(key@),
            r is Ok ==> final(self)@ == old(self)@.switched(true, now),
            r is Err ==> final(self)@ == old(self)@,
    {
        self.switch(key, true, now)
    }

    /// Marks the space closed at time `now`, if `key` is the configured
    /// credential; otherwise changes nothing and rejects.
    pub fn close(&mut self, key: &ApiKey, now: u64) -> (r: Result<(), AuthRejected>)
        ensures
            r is Ok <==> old(self)@.accepts(key@),
            r is Ok ==> final(self)@ == old(self)@.switched(false, now),
            r is Err ==> final(self)@ == old(self)@,
    {
        self.switch(key, false, now)
    }

    /// A copy of the record as published under schema version 14.
    pub fn spaceapi_v14(&self) -> (r: Status)
        ensures
            publishes(r, self@),
    {
        let versions = vec![ApiVersion::V14];
        assert(versions@ =~= seq![ApiVersion::V14]);
        Status {
            space: self.space.clone(),
            logo: self.logo.clone(),
            url: self.url.clone(),
            state: Some(State { open: Some(self.open), lastchange: Some(self.last_changed) }),
            api_compatibility: Some(versions),
        }
    }

    /// Whether the space is open.
    pub fn is_open(&self) -> (r: bool)
        ensures
            r == self@.open,
    {
        self.open
    }

    /// When the state last changed.
    pub fn last_changed(&self) -> (r: u64)
        ensures
            r == self@.last_changed,
    {
        self.last_changed
    }
}

} // verus!
