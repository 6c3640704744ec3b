//! The session-token store: issues bearer tokens at handshake, validates
//! them on every authenticated call, and prunes them by age.

use vstd::prelude::*;

verus! {

use crate::store::KeyedStore;
use crate::store::Stored;
use crate::store::expired;
use crate::tokens::is_token_text;
use crate::tokens::random_token;
use crate::ITEM_EXPIRATION_SECS;

/// The role a validated identity holds for the rest of its session.
#[derive(Clone, Copy, PartialEq, Eq, Structural, Debug)]
pub enum SessionType {
    Admin,
    Regular,
    Unauthenticated,
}

/// What the token store keeps for one session: whose it is and what it may
/// do. The time of issue lives beside the record in the store.
pub struct ClientSessionInfo {
    pub username: String,
    pub session_type: SessionType,
}

/// Why a token failed validation.
#[derive(Clone, Copy, PartialEq, Eq, Structural, Debug)]
pub enum AuthError {
    /// The token names no session in the store.
    UnknownToken,
    /// The session is older than the expiration age.
    Expired,
}

/// The store of issued session tokens.
pub struct AuthTokenStore {
    store: KeyedStore<ClientSessionInfo>,
}

impl View for AuthTokenStore {
    type V = Map<Seq<char>, Stored<ClientSessionInfo>>;

    closed spec fn view(&self) -> Map<Seq<char>, Stored<ClientSessionInfo>> {
        self.store@
    }
}

impl AuthTokenStore {
    /// The store's contents always form a finite map, so counting what a
    /// prune removed is well defined.
    pub proof fn lemma_view_finite(&self)
        ensures
            self@.dom().finite(),
    {
        self.store.lemma_view_finite();
    }

    /// An empty store.
    pub fn new() -> (r: Self)
        ensures
            r@ == Map::<Seq<char>, Stored<ClientSessionInfo>>::empty(),
            r@.dom().finite(),
    {
        AuthTokenStore { store: KeyedStore::new() }
    }

    /// How many sessions the store holds.
    pub fn len(&self) -> (r: usize)
        ensures
            r == self@.len(),
    {
        self.store.len()
    }

    /// Issues a fresh random token for a validated identity. If the drawn
    /// token text already named a session, that record is refreshed in
    /// place; every other session is left untouched.
    pub fn issue(&mut self, username: String, session_type: SessionType, now: u64) -> (token:
        String)
        ensures
            is_token_text(token@),
            final(self)@ == old(self)@.insert(
                token@,
                (Stored { stamp: now, value: (ClientSessionInfo { username, session_type }) }),
            ),
            final(self)@.dom().finite(),
    {
        let token = random_token();
        let key = token.clone();
        self.store.insert(key, now, ClientSessionInfo { username, session_type });
        token
    }

    /// Validates a bearer token: absent tokens are unknown, sessions past
    /// the expiration age are expired, and anything else yields the
    /// session's role unchanged.
    pub fn validate(&self, token: &String, now: u64) -> (r: Result<SessionType, AuthError>)
        ensures
            match r {
                Ok(session_type) => self@.contains_key(token@) && !expired(
                    self@[token@].stamp,
                    ITEM_EXPIRATION_SECS,
                    now,
                ) && session_type == self@[token@].value.session_type,
                Err(AuthError::UnknownToken) => !self@.contains_key(token@),
                Err(AuthError::Expired) => self@.contains_key(token@) && expired(
                    self@[token@].stamp,
                    ITEM_EXPIRATION_SECS,
                    now,
                ),
            },
    {
        match self.store.get(token) {
            None => Err(AuthError::UnknownToken),
            Some((stamp, info)) => {
                if now > stamp && now - stamp > ITEM_EXPIRATION_SECS {
                    Err(AuthError::Expired)
                } else {
                    Ok(info.session_type)
                }
            },
        }
    }

    /// Removes every session older than `ttl`, returning how many went.
    pub fn prune(&mut self, ttl: u64, now: u64) -> (removed: usize)
        ensures
            forall|k: Seq<char>| #[trigger] final(self)@.contains_key(k) <==> (old(
                self,
            )@.contains_key(k) && !expired(old(self)@[k].stamp, ttl, now)),
            forall|k: Seq<char>| #[trigger] final(self)@.contains_key(k) ==> final(self)@[k]
                == old(self)@[k],
            removed + final(self)@.len() == old(self)@.len(),
            final(self)@.dom().finite(),
    {
        self.store.prune(ttl, now)
    }
}

/// One token names at most one session, and issuing a token never touches
/// the record of any other token: the store after an issue for `token`
/// agrees with the store before it on every other key.
pub proof fn lemma_issue_isolates(
    m: Map<Seq<char>, Stored<ClientSessionInfo>>,
    token: Seq<char>,
    record: Stored<ClientSessionInfo>,
    other: Seq<char>,
)
    requires
        other != token,
    ensures
        m.insert(token, record).contains_key(other) == m.contains_key(other),
        m.contains_key(other) ==> m.insert(token, record)[other] == m[other],
{
}

} // verus!
