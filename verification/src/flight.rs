//! The RPC protocol state machine: handshake, the authenticated-call
//! preamble, descriptor resolution, single-use retrieval, and the
//! administrative actions. Network transport, query compilation and batch
//! streaming belong to the embedding program; every decision the protocol
//! takes stands here, over plain values.

use vstd::prelude::*;

verus! {

use vstd::string::StringExecFns;

use crate::context::ContextManager;
use crate::session::AuthError;
use crate::session::AuthTokenStore;
use crate::session::ClientSessionInfo;
use crate::session::SessionType;
use crate::status::RpcStatus;
use crate::status::StatusCode;
use crate::store::Stored;
use crate::store::expired;
use crate::text::escape_ascii_string;
use crate::text::escaped_bytes;
use crate::text::dec_str;
use crate::text::str_eq_lit;
use crate::text::u64_to_string;
use crate::text::unescape_query;
use crate::text::unescaped;
use crate::ticket::QueryTicketStore;
use crate::ticket::TicketInfo;
use crate::tokens::is_token_text;
use crate::ITEM_EXPIRATION_SECS;

/// The bearer value of a request's `authorization` header, as the transport
/// handed it over.
pub enum HeaderValue {
    /// No authorization header was present.
    Missing,
    /// The header bytes did not decode as text.
    Malformed,
    /// The decoded bearer token.
    Token(String),
}

/// The broker's reply to a flight-info request: the wire schema, the echoed
/// descriptor path, at most one endpoint ticket, and the cardinalities,
/// which this service always reports as unknown.
#[derive(Debug)]
pub struct FlightInfo {
    pub schema: Vec<u8>,
    pub path: Vec<String>,
    pub ticket: Option<String>,
    pub total_records: i64,
    pub total_bytes: i64,
}

impl FlightInfo {
    /// One per-table listing entry, as `ListFlights` advertises it: the
    /// table name as the sole path segment, its wire schema, no ticket,
    /// and both cardinalities unknown.
    pub fn for_table(name: String, schema: Vec<u8>) -> (fi: FlightInfo)
        ensures
            fi.schema == schema,
            fi.path@.len() == 1 && fi.path@[0] == name,
            fi.ticket is None,
            fi.total_records == -1,
            fi.total_bytes == -1,
    {
        let mut path: Vec<String> = Vec::new();
        path.push(name);
        FlightInfo { schema, path, ticket: None, total_records: -1, total_bytes: -1 }
    }
}

/// One administrative action the service advertises.
#[derive(Debug)]
pub struct ActionType {
    pub name: String,
    pub description: String,
}

/// The injected administrator capability: authenticates an identity and
/// rebuilds the query-engine context. Implementations live with the
/// embedding program; the broker's contracts only state what holds for
/// every possible outcome of these calls.
pub trait FusionFlightAdministrator<C> {
    /// Decides the role for an identity; `SessionType::Unauthenticated`
    /// rejects the handshake.
    fn authenticate(&self, username: &String, password: &String, request_admin: bool) -> SessionType;

    /// Builds a brand-new query-engine context, or reports failure with a
    /// message.
    fn refresh_context(&self) -> Result<C, String>;
}

/// What the authenticated-call preamble rejects the header with, if
/// anything: a missing header, an undecodable header, an unknown token and
/// an expired token each carry their own terminal status.
pub open spec fn preamble_error(
    m: Map<Seq<char>, Stored<ClientSessionInfo>>,
    header: HeaderValue,
    now: u64,
) -> Option<(StatusCode, Seq<char>)> {
    match header {
        HeaderValue::Missing => Some((StatusCode::Unauthenticated, "no session token provided"@)),
        HeaderValue::Malformed => Some((StatusCode::Unknown, "error reading request header"@)),
        HeaderValue::Token(t) => if !m.contains_key(t@) {
            Some((StatusCode::Unauthenticated, "invalid session token"@))
        } else if expired(m[t@].stamp, ITEM_EXPIRATION_SECS, now) {
            Some((StatusCode::Unauthenticated, "expired session token"@))
        } else {
            None
        },
    }
}

/// The role the preamble yields when it accepts the header.
pub open spec fn preamble_session(
    m: Map<Seq<char>, Stored<ClientSessionInfo>>,
    header: HeaderValue,
    now: u64,
) -> SessionType {
    match header {
        HeaderValue::Token(t) => m[t@].value.session_type,
        _ => SessionType::Unauthenticated,
    }
}

/// What the single admin-flag handshake byte means: `'0'` and `'1'` request
/// a regular or an elevated role; anything else is rejected.
pub open spec fn admin_flag_of(m: Seq<u8>) -> Option<bool> {
    if m == seq![48u8] {
        Some(false)
    } else if m == seq![49u8] {
        Some(true)
    } else {
        None
    }
}

/// The role request carried by the third handshake message, if the message
/// arrived and its byte is valid.
pub open spec fn handshake_flag(admin_msg: Option<Vec<u8>>) -> Option<bool> {
    match admin_msg {
        Some(f) => admin_flag_of(f@),
        None => None,
    }
}

/// The printable identity the handshake derives from the first message.
pub open spec fn handshake_identity(username_msg: Option<Vec<u8>>) -> Seq<char> {
    match username_msg {
        Some(u) => escaped_bytes(u@),
        None => Seq::empty(),
    }
}

/// The printable credential the handshake derives from the second message.
pub open spec fn handshake_credential(password_msg: Option<Vec<u8>>) -> Seq<char> {
    match password_msg {
        Some(p) => escaped_bytes(p@),
        None => Seq::empty(),
    }
}

/// First half of the handshake: checks that all three messages arrived and
/// that the admin flag byte is valid, and renders identity and credential
/// as printable text for the authenticator. Touches no state; the
/// embedding program may run the blocking authentication between this and
/// `handshake_response` without holding the broker.
pub fn handshake_request(
    username_msg: Option<Vec<u8>>,
    password_msg: Option<Vec<u8>>,
    admin_msg: Option<Vec<u8>>,
) -> (r: Result<(String, String, bool), RpcStatus>)
    ensures
        username_msg is None ==> (r matches Err(e) && e.is(
            StatusCode::InvalidArgument,
            "username not provided during handshake"@,
        )),
        username_msg is Some && password_msg is None ==> (r matches Err(e) && e.is(
            StatusCode::InvalidArgument,
            "password not provided during handshake"@,
        )),
        username_msg is Some && password_msg is Some && admin_msg is None ==> (r matches Err(e)
            && e.is(
            StatusCode::InvalidArgument,
            "request_admin flag not provided during handshake"@,
        )),
        (username_msg is Some && password_msg is Some && admin_msg is Some && handshake_flag(
            admin_msg,
        ) is None) ==> (r matches Err(e) && e.is(
            StatusCode::InvalidArgument,
            "request_admin flag has invalid value"@,
        )),
        (username_msg is Some && password_msg is Some && handshake_flag(admin_msg) is Some) ==> (
        r matches Ok(c) && c.0@ == handshake_identity(username_msg) && c.1@
            == handshake_credential(password_msg) && handshake_flag(admin_msg) == Some(c.2)),
{
    let username_bytes = match username_msg {
        Some(b) => b,
        None => {
            return Err(
                RpcStatus::new(
                    StatusCode::InvalidArgument,
                    "username not provided during handshake",
                ),
            );
        },
    };
    let password_bytes = match password_msg {
        Some(b) => b,
        None => {
            return Err(
                RpcStatus::new(
                    StatusCode::InvalidArgument,
                    "password not provided during handshake",
                ),
            );
        },
    };
    let admin_bytes = match admin_msg {
        Some(b) => b,
        None => {
            return Err(
                RpcStatus::new(
                    StatusCode::InvalidArgument,
                    "request_admin flag not provided during handshake",
                ),
            );
        },
    };
    let request_admin: bool;
    if admin_bytes.len() == 1 && admin_bytes[0] == 48 {
        proof {
            assert(admin_bytes@ =~= seq![48u8]);
        }
        request_admin = false;
    } else if admin_bytes.len() == 1 && admin_bytes[0] == 49 {
        proof {
            assert(admin_bytes@ =~= seq![49u8]);
        }
        request_admin = true;
    } else {
        proof {
            assert(admin_bytes@ != seq![48u8] && admin_bytes@ != seq![49u8]) by {
                if admin_bytes@ == seq![48u8] || admin_bytes@ == seq![49u8] {
                    assert(admin_bytes@.len() == 1);
                }
            }
        }
        return Err(
            RpcStatus::new(StatusCode::InvalidArgument, "request_admin flag has invalid value"),
        );
    }

    let username = escape_ascii_string(username_bytes.as_slice());
    let password = escape_ascii_string(password_bytes.as_slice());
    Ok((username, password, request_admin))
}

/// The service: the three shared stores, the cached per-table listing, and
/// the injected administrator. `C` is the engine's context handle and `D`
/// its deferred-query handle; the broker carries both through opaquely.
pub struct FusionFlightService<C, D, A> {
    ctx: ContextManager<C>,
    token_map: AuthTokenStore,
    ticket_map: QueryTicketStore<D>,
    flight_info: Vec<Result<FlightInfo, RpcStatus>>,
    administrator: A,
}

impl<C, D, A: FusionFlightAdministrator<C>> FusionFlightService<C, D, A> {
    /// The live query-engine context.
    pub closed spec fn ctx_spec(&self) -> C {
        self.ctx.current_ctx()
    }

    /// The session-token store's contents.
    pub closed spec fn tokens_spec(&self) -> Map<Seq<char>, Stored<ClientSessionInfo>> {
        self.token_map@
    }

    /// The outstanding tickets.
    pub closed spec fn tickets_spec(&self) -> Map<Seq<char>, Stored<D>> {
        self.ticket_map@
    }

    /// The cached per-table flight listing.
    pub closed spec fn flights_spec(&self) -> Seq<Result<FlightInfo, RpcStatus>> {
        self.flight_info@
    }

    /// Everything except the token store is as it was.
    pub open spec fn same_except_tokens(pre: Self, post: Self) -> bool {
        post.tickets_spec() == pre.tickets_spec() && post.ctx_spec() == pre.ctx_spec()
            && post.flights_spec() == pre.flights_spec()
    }

    /// Everything except the ticket store is as it was.
    pub open spec fn same_except_tickets(pre: Self, post: Self) -> bool {
        post.tokens_spec() == pre.tokens_spec() && post.ctx_spec() == pre.ctx_spec()
            && post.flights_spec() == pre.flights_spec()
    }

    /// The whole observable state is as it was.
    pub open spec fn same_state(pre: Self, post: Self) -> bool {
        Self::same_except_tokens(pre, post) && post.tokens_spec() == pre.tokens_spec()
    }

    /// Builds the service around an initial context, the injected
    /// administrator, and the precomputed per-table listing. Both stores
    /// start empty.
    pub fn new(
        ctx: C,
        administrator: A,
        flight_info: Vec<Result<FlightInfo, RpcStatus>>,
    ) -> (r: Self)
        ensures
            r.ctx_spec() == ctx,
            r.tokens_spec() == Map::<Seq<char>, Stored<ClientSessionInfo>>::empty(),
            r.tickets_spec() == Map::<Seq<char>, Stored<D>>::empty(),
            r.flights_spec() == flight_info@,
    {
        FusionFlightService {
            ctx: ContextManager::new(ctx),
            token_map: AuthTokenStore::new(),
            ticket_map: QueryTicketStore::new(),
            flight_info,
            administrator,
        }
    }

    /// Issues a fresh random token recording the identity and its role.
    pub fn create_token(&mut self, username: &String, session_type: SessionType, now: u64) -> (token: String)
        ensures
            is_token_text(token@),
            Self::same_except_tokens(*old(self), *final(self)),
            exists|info: ClientSessionInfo| #![auto]
                final(self).tokens_spec() == old(self).tokens_spec().insert(
                    token@,
                    (Stored { stamp: now, value: info }),
                ) && info.username@ == username@ && info.session_type == session_type,
    {
        let uname = username.clone();
        let token = self.token_map.issue(uname, session_type, now);
        proof {
            let witness = ClientSessionInfo { username: uname, session_type };
            assert(self.tokens_spec() == old(self).tokens_spec().insert(
                token@,
                (Stored { stamp: now, value: witness }),
            ));
            assert(witness.username@ == username@);
            assert(witness.session_type == session_type);
            assert(exists|info: ClientSessionInfo| #![auto]
                self.tokens_spec() == old(self).tokens_spec().insert(
                    token@,
                    (Stored { stamp: now, value: info }),
                ) && info.username@ == username@ && info.session_type == session_type);
        }
        token
    }

    /// Read access to the live query-engine context, for compiling
    /// queries against it.
    pub fn current_context(&self) -> (r: &C)
        ensures
            *r == self.ctx_spec(),
    {
        self.ctx.current()
    }

    /// Both stores' contents always form finite maps, so the counts the
    /// administrative prune reports are the exact cardinality differences.
    pub proof fn lemma_stores_finite(&self)
        ensures
            self.tokens_spec().dom().finite(),
            self.tickets_spec().dom().finite(),
    {
        self.token_map.lemma_view_finite();
        self.ticket_map.lemma_view_finite();
    }

    /// How many sessions the token store holds.
    pub fn token_count(&self) -> (r: usize)
        ensures
            r == self.tokens_spec().len(),
    {
        self.token_map.len()
    }

    /// How many tickets are outstanding.
    pub fn ticket_count(&self) -> (r: usize)
        ensures
            r == self.tickets_spec().len(),
    {
        self.ticket_map.len()
    }

    /// The authenticated-call preamble: extracts and validates the bearer
    /// token carried by the request header.
    pub fn validate_headers(&self, header: &HeaderValue, now: u64) -> (r: Result<
        SessionType,
        RpcStatus,
    >)
        ensures
            match r {
                Ok(session_type) => preamble_error(self.tokens_spec(), *header, now) is None
                    && session_type == preamble_session(self.tokens_spec(), *header, now),
                Err(e) => preamble_error(self.tokens_spec(), *header, now) matches Some(err)
                    && e.is(err.0, err.1),
            },
    {
        match header {
            HeaderValue::Missing => Err(
                RpcStatus::new(StatusCode::Unauthenticated, "no session token provided"),
            ),
            HeaderValue::Malformed => Err(
                RpcStatus::new(StatusCode::Unknown, "error reading request header"),
            ),
            HeaderValue::Token(token) => match self.token_map.validate(token, now) {
                Ok(session_type) => Ok(session_type),
                Err(AuthError::UnknownToken) => Err(
                    RpcStatus::new(StatusCode::Unauthenticated, "invalid session token"),
                ),
                Err(AuthError::Expired) => Err(
                    RpcStatus::new(StatusCode::Unauthenticated, "expired session token"),
                ),
            },
        }
    }

    /// The handshake: reads the three messages (identity, credential,
    /// admin flag), asks the administrator for a role, and on success
    /// issues a bearer token. A handshake that fails for any reason issues
    /// no token and leaves every store untouched.
    pub fn handshake(
        &mut self,
        username_msg: Option<Vec<u8>>,
        password_msg: Option<Vec<u8>>,
        admin_msg: Option<Vec<u8>>,
        now: u64,
    ) -> (r: Result<String, RpcStatus>)
        ensures
            username_msg is None ==> (r matches Err(e) && e.is(
                StatusCode::InvalidArgument,
                "username not provided during handshake"@,
            ) && Self::same_state(*old(self), *final(self))),
            username_msg is Some && password_msg is None ==> (r matches Err(e) && e.is(
                StatusCode::InvalidArgument,
                "password not provided during handshake"@,
            ) && Self::same_state(*old(self), *final(self))),
            username_msg is Some && password_msg is Some && admin_msg is None ==> (r matches Err(e)
                && e.is(
                StatusCode::InvalidArgument,
                "request_admin flag not provided during handshake"@,
            ) && Self::same_state(*old(self), *final(self))),
            (username_msg is Some && password_msg is Some && admin_msg is Some && handshake_flag(
                admin_msg,
            ) is None) ==> (r matches Err(e) && e.is(
                StatusCode::InvalidArgument,
                "request_admin flag has invalid value"@,
            ) && Self::same_state(*old(self), *final(self))),
            (username_msg is Some && password_msg is Some && handshake_flag(admin_msg) is Some)
                ==> ((r matches Err(e) && e.is(
                StatusCode::Unauthenticated,
                "authentication failed"@,
            ) && Self::same_state(*old(self), *final(self))) || (r matches Ok(token)
                && is_token_text(token@) && Self::same_except_tokens(*old(self), *final(self)) && (
            exists|info: ClientSessionInfo| #![auto]
                final(self).tokens_spec() == old(self).tokens_spec().insert(
                    token@,
                    (Stored { stamp: now, value: info }),
                ) && info.username@ == handshake_identity(username_msg) && info.session_type
                    != SessionType::Unauthenticated))),
    {
        let (username, password, request_admin) = match handshake_request(
            username_msg,
            password_msg,
            admin_msg,
        ) {
            Ok(credentials) => credentials,
            Err(e) => {
                return Err(e);
            },
        };
        let session_type = self.administrator.authenticate(&username, &password, request_admin);
        self.handshake_response(&username, session_type, now)
    }

    /// Second half of the handshake: turns the authenticator's verdict
    /// into the protocol outcome. A refused identity gets the terminal
    /// status and nothing changes; an accepted one gets a fresh bearer
    /// token recording exactly the identity and the granted role.
    pub fn handshake_response(
        &mut self,
        username: &String,
        session_type: SessionType,
        now: u64,
    ) -> (r: Result<String, RpcStatus>)
        ensures
            session_type == SessionType::Unauthenticated ==> (r matches Err(e) && e.is(
                StatusCode::Unauthenticated,
                "authentication failed"@,
            ) && Self::same_state(*old(self), *final(self))),
            session_type != SessionType::Unauthenticated ==> (r matches Ok(token)
                && is_token_text(token@) && Self::same_except_tokens(*old(self), *final(self)) && (
            exists|info: ClientSessionInfo| #![auto]
                final(self).tokens_spec() == old(self).tokens_spec().insert(
                    token@,
                    (Stored { stamp: now, value: info }),
                ) && info.username@ == username@ && info.session_type == session_type)),
    {
        if session_type == SessionType::Unauthenticated {
            return Err(RpcStatus::new(StatusCode::Unauthenticated, "authentication failed"));
        }
        let token = self.create_token(username, session_type, now);
        Ok(token)
    }

    /// Lists the externally registered tables. Requires a valid token;
    /// returns the listing computed when the service was built.
    pub fn list_flights(&self, header: &HeaderValue, now: u64) -> (r: Result<
        &Vec<Result<FlightInfo, RpcStatus>>,
        RpcStatus,
    >)
        ensures
            match r {
                Ok(flights) => preamble_error(self.tokens_spec(), *header, now) is None
                    && flights@ == self.flights_spec(),
                Err(e) => preamble_error(self.tokens_spec(), *header, now) matches Some(err)
                    && e.is(err.0, err.1),
            },
    {
        match self.validate_headers(header, now) {
            Ok(_session_type) => Ok(&self.flight_info),
            Err(e) => Err(e),
        }
    }

    /// First half of resolving a flight-info request: authenticates the
    /// call and takes the query text from the first descriptor path
    /// segment, unescaping backslash-escaped single quotes. Compiling the
    /// query belongs to the external engine; its outcome comes back
    /// through `get_flight_info_response`.
    pub fn get_flight_info_request(&self, header: &HeaderValue, path: &Vec<String>, now: u64) -> (r:
        Result<String, RpcStatus>)
        ensures
            match r {
                Ok(query) => preamble_error(self.tokens_spec(), *header, now) is None
                    && path@.len() >= 1 && query@ == unescaped(path@[0]@),
                Err(e) => (preamble_error(self.tokens_spec(), *header, now) matches Some(err)
                    && e.is(err.0, err.1)) || (preamble_error(self.tokens_spec(), *header, now)
                    is None && path@.len() == 0 && e.is(
                    StatusCode::InvalidArgument,
                    "no query provided in descriptor path"@,
                )),
            },
    {
        match self.validate_headers(header, now) {
            Ok(_session_type) => {
                if path.len() == 0 {
                    Err(
                        RpcStatus::new(
                            StatusCode::InvalidArgument,
                            "no query provided in descriptor path",
                        ),
                    )
                } else {
                    Ok(unescape_query(path[0].as_str()))
                }
            },
            Err(e) => Err(e),
        }
    }

    /// Second half: the engine compiled the query and the encoder produced
    /// the wire schema; issues a single-use ticket for the deferred query
    /// and assembles the reply — one endpoint, cardinalities unknown.
    pub fn get_flight_info_response(
        &mut self,
        path: Vec<String>,
        schema: Vec<u8>,
        dataframe: D,
        now: u64,
    ) -> (fi: FlightInfo)
        ensures
            Self::same_except_tickets(*old(self), *final(self)),
            fi.schema == schema,
            fi.path == path,
            fi.total_records == -1,
            fi.total_bytes == -1,
            fi.ticket matches Some(t) && is_token_text(t@) && final(self).tickets_spec() == old(self).tickets_spec().insert(t@, (Stored { stamp: now, value: dataframe })),
    {
        let ticket = self.create_ticket(dataframe, now);
        FlightInfo { schema, path, ticket: Some(ticket), total_records: -1, total_bytes: -1 }
    }

    /// Resolves a schema request: authenticates the call and takes the
    /// query text from the first descriptor path segment, unescaping
    /// backslash-escaped single quotes as every query resolution does.
    /// The engine compiles it; only the wire schema goes back, and no
    /// ticket is issued.
    pub fn get_schema_request(&self, header: &HeaderValue, path: &Vec<String>, now: u64) -> (r:
        Result<String, RpcStatus>)
        ensures
            match r {
                Ok(query) => preamble_error(self.tokens_spec(), *header, now) is None
                    && path@.len() >= 1 && query@ == unescaped(path@[0]@),
                Err(e) => (preamble_error(self.tokens_spec(), *header, now) matches Some(err)
                    && e.is(err.0, err.1)) || (preamble_error(self.tokens_spec(), *header, now)
                    is None && path@.len() == 0 && e.is(
                    StatusCode::InvalidArgument,
                    "no query provided in descriptor path"@,
                )),
            },
    {
        match self.validate_headers(header, now) {
            Ok(_session_type) => {
                if path.len() == 0 {
                    Err(
                        RpcStatus::new(
                            StatusCode::InvalidArgument,
                            "no query provided in descriptor path",
                        ),
                    )
                } else {
                    Ok(unescape_query(path[0].as_str()))
                }
            },
            Err(e) => Err(e),
        }
    }

    /// Issues a single-use ticket binding the deferred query to a later
    /// retrieval call.
    pub fn create_ticket(&mut self, dataframe: D, now: u64) -> (ticket: String)
        ensures
            is_token_text(ticket@),
            Self::same_except_tickets(*old(self), *final(self)),
            final(self).tickets_spec() == old(self).tickets_spec().insert(
                ticket@,
                (Stored { stamp: now, value: dataframe }),
            ),
    {
        self.ticket_map.issue(dataframe, now)
    }

    /// Redeems a ticket, consuming it: at most one retrieval ever sees the
    /// deferred query.
    pub fn get_ticket(&mut self, ticket: &String) -> (r: Option<TicketInfo<D>>)
        ensures
            Self::same_except_tickets(*old(self), *final(self)),
            final(self).tickets_spec() == old(self).tickets_spec().remove(ticket@),
            !final(self).tickets_spec().contains_key(ticket@),
            match r {
                Some(record) => old(self).tickets_spec().contains_key(ticket@) && record.start
                    == old(self).tickets_spec()[ticket@].stamp && record.dataframe == old(self).tickets_spec()[ticket@].value,
                None => !old(self).tickets_spec().contains_key(ticket@),
            },
    {
        self.ticket_map.redeem(ticket)
    }

    /// The retrieval call: authenticates, then redeems the ticket. The
    /// first redemption hands the deferred query out for execution; any
    /// later retrieval of the same ticket fails as not found.
    pub fn do_get(&mut self, header: &HeaderValue, ticket: &String, now: u64) -> (r: Result<
        TicketInfo<D>,
        RpcStatus,
    >)
        ensures
            Self::same_except_tickets(*old(self), *final(self)),
            match r {
                Ok(record) => preamble_error(old(self).tokens_spec(), *header, now) is None && old(self).tickets_spec().contains_key(ticket@) && record.dataframe == old(self).tickets_spec()[ticket@].value && record.start == old(self).tickets_spec()[ticket@].stamp && final(self).tickets_spec() == old(self).tickets_spec().remove(ticket@),
                Err(e) => final(self).tickets_spec() == old(self).tickets_spec() && ((
                preamble_error(old(self).tokens_spec(), *header, now) matches Some(err) && e.is(
                    err.0,
                    err.1,
                )) || (preamble_error(old(self).tokens_spec(), *header, now) is None && !old(self).tickets_spec().contains_key(ticket@) && e.is(
                    StatusCode::NotFound,
                    "ticket not found"@,
                ))),
            },
    {
        match self.validate_headers(header, now) {
            Ok(_session_type) => {
                match self.get_ticket(ticket) {
                    Some(record) => Ok(record),
                    None => {
                        proof {
                            assert(old(self).tickets_spec().remove(ticket@) =~= old(self).tickets_spec());
                        }
                        Err(RpcStatus::new(StatusCode::NotFound, "ticket not found"))
                    },
                }
            },
            Err(e) => Err(e),
        }
    }

    /// The upload call: this service is read-only, so every put is
    /// rejected outright.
    pub fn do_put(&self) -> (r: RpcStatus)
        ensures
            r.is(StatusCode::Unauthenticated, "PUT not authorized for this database"@),
    {
        RpcStatus::new(StatusCode::Unauthenticated, "PUT not authorized for this database")
    }

    /// The exchange call is not part of this service.
    pub fn do_exchange(&self) -> (r: RpcStatus)
        ensures
            r.is(StatusCode::Unimplemented, "Not yet implemented"@),
    {
        RpcStatus::new(StatusCode::Unimplemented, "Not yet implemented")
    }

    /// An administrative action. Only an admin session may act; a regular
    /// session is always denied. `REFRESH_CONTEXT` swaps in a brand-new
    /// engine context without touching either store — tickets compiled
    /// under the old context keep it. `CLEAR_EXPIRED_ITEMS` prunes both
    /// stores by the expiration age and reports how many records went from
    /// each. Anything else is rejected.
    pub fn do_action(&mut self, header: &HeaderValue, action_type: &String, now: u64) -> (r: Result<
        Vec<String>,
        RpcStatus,
    >)
        ensures
            preamble_error(old(self).tokens_spec(), *header, now) matches Some(err) ==> (r matches
                Err(e) && e.is(err.0, err.1) && Self::same_state(*old(self), *final(self))),
            (preamble_error(old(self).tokens_spec(), *header, now) is None && preamble_session(
                old(self).tokens_spec(),
                *header,
                now,
            ) != SessionType::Admin) ==> (r matches Err(e) && e.is(
                StatusCode::PermissionDenied,
                "permission to perform admin action denied"@,
            ) && Self::same_state(*old(self), *final(self))),
            (preamble_error(old(self).tokens_spec(), *header, now) is None && preamble_session(
                old(self).tokens_spec(),
                *header,
                now,
            ) == SessionType::Admin && action_type@ == "REFRESH_CONTEXT"@) ==> ((r matches Err(e)
                && e.is(StatusCode::Internal, "internal error refreshing context"@)
                && Self::same_state(*old(self), *final(self))) || (r matches Ok(msgs)
                && msgs@.len() == 1 && msgs@[0]@ == "SUCCESS"@ && final(self).tokens_spec() == old(self).tokens_spec() && final(self).tickets_spec() == old(self).tickets_spec() && final(self).flights_spec() == old(self).flights_spec())),
            (preamble_error(old(self).tokens_spec(), *header, now) is None && preamble_session(
                old(self).tokens_spec(),
                *header,
                now,
            ) == SessionType::Admin && action_type@ == "CLEAR_EXPIRED_ITEMS"@) ==> (r matches Ok(
                msgs,
            ) && msgs@.len() == 3 && msgs@[0]@ == "SUCCESS"@ && msgs@[1]@ == "REMOVED "@ + dec_str(
                (old(self).tokens_spec().len() - final(self).tokens_spec().len()) as nat,
            ) + " EXPIRED SESSION TOKENS"@ && msgs@[2]@ == "REMOVED "@ + dec_str(
                (old(self).tickets_spec().len() - final(self).tickets_spec().len()) as nat,
            ) + " EXPIRED TICKETS"@ && (forall|k: Seq<char>| #[trigger] final(self).tokens_spec().contains_key(k) <==> (old(self).tokens_spec().contains_key(k)
                && !expired(old(self).tokens_spec()[k].stamp, ITEM_EXPIRATION_SECS, now))) && (
            forall|k: Seq<char>| #[trigger] final(self).tokens_spec().contains_key(k) ==> final(self).tokens_spec()[k] == old(self).tokens_spec()[k]) && (forall|k: Seq<char>| #[trigger]
            final(self).tickets_spec().contains_key(k) <==> (old(self).tickets_spec().contains_key(
                k,
            ) && !expired(old(self).tickets_spec()[k].stamp, ITEM_EXPIRATION_SECS, now))) && (
            forall|k: Seq<char>| #[trigger] final(self).tickets_spec().contains_key(k) ==> final(self).tickets_spec()[k] == old(self).tickets_spec()[k]) && final(self).ctx_spec() == old(self).ctx_spec() && final(self).flights_spec() == old(self).flights_spec()),
            (preamble_error(old(self).tokens_spec(), *header, now) is None && preamble_session(
                old(self).tokens_spec(),
                *header,
                now,
            ) == SessionType::Admin && action_type@ != "REFRESH_CONTEXT"@ && action_type@
                != "CLEAR_EXPIRED_ITEMS"@) ==> (r matches Err(e) && e.is(
                StatusCode::InvalidArgument,
                "invalid action"@,
            ) && Self::same_state(*old(self), *final(self))),
    {
        let session_type = match self.validate_headers(header, now) {
            Ok(session_type) => session_type,
            Err(e) => {
                return Err(e);
            },
        };
        if session_type != SessionType::Admin {
            return Err(
                RpcStatus::new(
                    StatusCode::PermissionDenied,
                    "permission to perform admin action denied",
                ),
            );
        }
        proof {
            reveal_strlit("REFRESH_CONTEXT");
            reveal_strlit("CLEAR_EXPIRED_ITEMS");
            assert("REFRESH_CONTEXT"@.len() != "CLEAR_EXPIRED_ITEMS"@.len());
        }
        if str_eq_lit(action_type, "REFRESH_CONTEXT") {
            match self.administrator.refresh_context() {
                Ok(new_ctx) => {
                    self.ctx.replace(new_ctx);
                    let mut msgs: Vec<String> = Vec::new();
                    msgs.push(String::from_str("SUCCESS"));
                    Ok(msgs)
                },
                Err(_message) => Err(
                    RpcStatus::new(StatusCode::Internal, "internal error refreshing context"),
                ),
            }
        } else if str_eq_lit(action_type, "CLEAR_EXPIRED_ITEMS") {
            let tok_removed = self.token_map.prune(ITEM_EXPIRATION_SECS, now);
            let tik_removed = self.ticket_map.prune(ITEM_EXPIRATION_SECS, now);
            let mut msgs: Vec<String> = Vec::new();
            msgs.push(String::from_str("SUCCESS"));
            let mut tok_msg = String::from_str("REMOVED ");
            let tok_count = u64_to_string(tok_removed as u64);
            tok_msg.append(tok_count.as_str());
            tok_msg.append(" EXPIRED SESSION TOKENS");
            msgs.push(tok_msg);
            let mut tik_msg = String::from_str("REMOVED ");
            let tik_count = u64_to_string(tik_removed as u64);
            tik_msg.append(tik_count.as_str());
            tik_msg.append(" EXPIRED TICKETS");
            msgs.push(tik_msg);
            Ok(msgs)
        } else {
            Err(RpcStatus::new(StatusCode::InvalidArgument, "invalid action"))
        }
    }

    /// Context-swap isolation: a successful `REFRESH_CONTEXT` replaces
    /// only the live context and leaves the ticket store exactly as it
    /// was — that is what `do_action` ensures — so a ticket issued before
    /// the swap still holds the very deferred query compiled under the
    /// old context, and redeeming it afterwards yields that query, not
    /// anything built from the replacement.
    pub proof fn lemma_context_swap_isolation(
        tickets_before: Map<Seq<char>, Stored<D>>,
        tickets_after: Map<Seq<char>, Stored<D>>,
        ticket: Seq<char>,
    )
        requires
            tickets_after == tickets_before,
            tickets_before.contains_key(ticket),
        ensures
            tickets_after.contains_key(ticket),
            tickets_after[ticket].value == tickets_before[ticket].value,
            tickets_after[ticket].stamp == tickets_before[ticket].stamp,
    {
    }

    /// Describes the two administrative actions. Like the actions
    /// themselves, the listing is only for admin sessions.
    pub fn list_actions(&self, header: &HeaderValue, now: u64) -> (r: Result<
        Vec<ActionType>,
        RpcStatus,
    >)
        ensures
            match r {
                Ok(actions) => preamble_error(self.tokens_spec(), *header, now) is None
                    && preamble_session(self.tokens_spec(), *header, now) == SessionType::Admin
                    && actions@.len() == 2 && actions@[0].name@ == "REFRESH_CONTEXT"@
                    && actions@[1].name@ == "CLEAR_EXPIRED_ITEMS"@ && actions@[0].description@
                    == "Re-generate the tables by querying SciDB"@ && actions@[1].description@
                    == "Clear all sessions and tokens greater than 86400 secs old"@,
                Err(e) => (preamble_error(self.tokens_spec(), *header, now) matches Some(err)
                    && e.is(err.0, err.1)) || (preamble_error(self.tokens_spec(), *header, now)
                    is None && preamble_session(self.tokens_spec(), *header, now)
                    != SessionType::Admin && e.is(
                    StatusCode::PermissionDenied,
                    "permission to perform admin action denied"@,
                )),
            },
    {
        let session_type = match self.validate_headers(header, now) {
            Ok(session_type) => session_type,
            Err(e) => {
                return Err(e);
            },
        };
        if session_type != SessionType::Admin {
            return Err(
                RpcStatus::new(
                    StatusCode::PermissionDenied,
                    "permission to perform admin action denied",
                ),
            );
        }
        let mut actions: Vec<ActionType> = Vec::new();
        actions.push(
            ActionType {
                name: String::from_str("REFRESH_CONTEXT"),
                description: String::from_str("Re-generate the tables by querying SciDB"),
            },
        );
        actions.push(
            ActionType {
                name: String::from_str("CLEAR_EXPIRED_ITEMS"),
                description: String::from_str(
                    "Clear all sessions and tokens greater than 86400 secs old",
                ),
            },
        );
        Ok(actions)
    }
}

} // verus!
