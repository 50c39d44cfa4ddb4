//! The session store: at most one access key at a time.

use crate::text::same_text;
use crate::token::{is_session_token, new_session_token};
use vstd::prelude::*;

verus! {

/// The one credential that proves an earlier successful password check.
#[derive(Debug, Clone)]
pub struct AccessKey {
    /// The token a client must present.
    pub access_key: String,
    /// When the key was issued, in seconds since the Unix epoch.
    pub access_time: u64,
}

/// What an access key holds.
pub struct AccessKeyView {
    pub access_key: Seq<char>,
    pub access_time: u64,
}

impl View for AccessKey {
    type V = AccessKeyView;

    open spec fn view(&self) -> AccessKeyView {
        AccessKeyView { access_key: self.access_key@, access_time: self.access_time }
    }
}

impl AccessKey {
    /// An access key with the given token and issue time.
    pub fn new(access_key: String, access_time: u64) -> (key: Self)
        ensures
            key.access_key == access_key,
            key.access_time == access_time,
    {
        AccessKey { access_key: access_key, access_time }
    }

    /// A placeholder key: the token `failure_key`, issued at time zero.
    pub fn dummy() -> (key: Self)
        ensures
            key.access_key@ == "failure_key"@,
            key.access_time == 0,
    {
        AccessKey { access_key: "failure_key".to_owned(), access_time: 0u64 }
    }
}

/// The store after a key with `token` was issued at `now`, whatever it held
/// before.
pub open spec fn after_issue(before: Option<AccessKeyView>, token: Seq<char>, now: u64) -> Option<
    AccessKeyView,
> {
    Some(AccessKeyView { access_key: token, access_time: now })
}

/// Whether a store in state `store` accepts `candidate`: it holds a key, and
/// the key's token is exactly `candidate`.
pub open spec fn validates(store: Option<AccessKeyView>, candidate: Seq<char>) -> bool {
    store matches Some(key) && key.access_key == candidate
}

/// Holds the current access key, if there is one.
#[derive(Debug, Clone)]
pub struct SessionStore {
    session: Option<AccessKey>,
}

impl View for SessionStore {
    type V = Option<AccessKeyView>;

    closed spec fn view(&self) -> Option<AccessKeyView> {
        match self.session {
            Some(key) => Some(key@),
            None => None,
        }
    }
}

impl SessionStore {
    /// A store without a session.
    pub fn new() -> (store: Self)
        ensures
            store@ is None,
    {
        SessionStore { session: None }
    }

    /// Makes `token`, issued at `now`, the current access key. Any earlier key
    /// is gone.
    pub fn install(&mut self, token: String, now: u64) -> (key: AccessKey)
        ensures
            final(self)@ == after_issue(old(self)@, token@, now),
            Some(key@) == final(self)@,
    {
        let key = AccessKey::new(token.clone(), now);
        self.session = Some(AccessKey::new(token, now));
        key
    }

    /// Issues a fresh random token at `now` and makes it the current access
    /// key. Any earlier key is gone.
    pub fn issue(&mut self, now: u64) -> (key: AccessKey)
        ensures
            final(self)@ == after_issue(old(self)@, key@.access_key, now),
            Some(key@) == final(self)@,
            is_session_token(key@.access_key),
    {
        let token: String = new_session_token();
        self.install(token, now)
    }

    /// The current access key, if there is one.
    pub fn current(&self) -> (key: Option<&AccessKey>)
        ensures
            match key {
                Some(k) => self@ == Some(k@),
                None => self@ is None,
            },
    {
        self.session.as_ref()
    }

    /// Whether `candidate` is the current token. Without a session nothing
    /// validates.
    pub fn validate(&self, candidate: &str) -> (valid: bool)
        ensures
            valid == validates(self@, candidate@),
    {
        match &self.session {
            Some(key) => same_text(key.access_key.as_str(), candidate),
            None => false,
        }
    }
}

/// A token that was just issued validates.
pub proof fn issued_token_validates(before: Option<AccessKeyView>, token: Seq<char>, now: u64)
    ensures
        validates(after_issue(before, token, now), token),
{
}

/// After two issues the store accepts the second token and no longer the
/// first, provided the two tokens differ.
pub proof fn last_issue_wins(
    before: Option<AccessKeyView>,
    first: Seq<char>,
    first_time: u64,
    second: Seq<char>,
    second_time: u64,
)
    requires
        first != second,
    ensures
        !validates(after_issue(after_issue(before, first, first_time), second, second_time), first),
        validates(after_issue(after_issue(before, first, first_time), second, second_time), second),
{
}

/// At most one token validates against a store.
pub proof fn one_token_at_a_time(store: Option<AccessKeyView>, a: Seq<char>, b: Seq<char>)
    requires
        validates(store, a),
        validates(store, b),
    ensures
        a == b,
{
}

} // verus!
