//! Exercises the broker end to end with a fake engine: handshakes, ticket
//! issue and redemption, expiry, role gating, pruning and context swaps.

use rustyshim::flight::ActionType;
use rustyshim::flight::FlightInfo;
use rustyshim::flight::FusionFlightAdministrator;
use rustyshim::flight::FusionFlightService;
use rustyshim::flight::HeaderValue;
use rustyshim::session::SessionType;
use rustyshim::status::RpcStatus;
use rustyshim::status::StatusCode;
use rustyshim::ticket::TicketInfo;

/// A deferred query as the fake engine compiles it: the context it was
/// compiled under and the rows it will produce.
#[derive(Clone, Debug, PartialEq)]
struct FakeQuery {
    ctx: u64,
    rows: Vec<i64>,
}

/// A test administrator: accepts any identity, grants the requested role,
/// and rebuilds contexts by counting up.
struct TestAdmin {
    accept: bool,
    refresh_ok: bool,
    next_ctx: u64,
}

impl FusionFlightAdministrator<u64> for TestAdmin {
    fn authenticate(
        &self,
        _username: &String,
        _password: &String,
        request_admin: bool,
    ) -> SessionType {
        if !self.accept {
            SessionType::Unauthenticated
        } else if request_admin {
            SessionType::Admin
        } else {
            SessionType::Regular
        }
    }

    fn refresh_context(&self) -> Result<u64, String> {
        if self.refresh_ok {
            Ok(self.next_ctx)
        } else {
            Err(String::from("no backing database"))
        }
    }
}

type Service = FusionFlightService<u64, FakeQuery, TestAdmin>;

fn service() -> Service {
    let admin = TestAdmin { accept: true, refresh_ok: true, next_ctx: 2 };
    FusionFlightService::new(1, admin, Vec::new())
}

/// What the fake engine does for a query: one row holding 1 for SELECT 1.
fn fake_compile(ctx: u64, query: &str) -> FakeQuery {
    let rows = if query == "SELECT 1" { vec![1] } else { vec![] };
    FakeQuery { ctx, rows }
}

fn handshake_token(svc: &mut Service, user: &[u8], flag: &[u8], now: u64) -> String {
    svc.handshake(Some(user.to_vec()), Some(b"pw".to_vec()), Some(flag.to_vec()), now)
        .expect("handshake should issue a token")
}

fn is_alnum(c: char) -> bool {
    c.is_ascii_alphanumeric()
}

#[test]
fn end_to_end_select_one() {
    let mut svc = service();
    // Handshake as a regular user.
    let token = handshake_token(&mut svc, b"alice", b"0", 100);
    assert_eq!(token.len(), 32);
    assert!(token.chars().all(is_alnum));

    // Resolve the query descriptor.
    let header = HeaderValue::Token(token.clone());
    let path = vec![String::from("SELECT 1")];
    let query = svc
        .get_flight_info_request(&header, &path, 100)
        .expect("request should resolve");
    assert_eq!(query, "SELECT 1");

    // The engine compiles; the broker issues a ticket and the reply.
    let df = fake_compile(1, &query);
    let schema = vec![7u8, 7u8];
    let fi: FlightInfo = svc.get_flight_info_response(path.clone(), schema.clone(), df, 100);
    assert_eq!(fi.schema, schema);
    assert_eq!(fi.path, path);
    assert_eq!(fi.total_records, -1);
    assert_eq!(fi.total_bytes, -1);
    let ticket = fi.ticket.expect("reply should carry a ticket");
    assert_eq!(ticket.len(), 32);

    // First retrieval succeeds with the one row.
    let record: TicketInfo<FakeQuery> = svc
        .do_get(&header, &ticket, 100)
        .expect("first retrieval should succeed");
    assert_eq!(record.dataframe.rows, vec![1]);

    // A second retrieval of the same ticket is not found.
    let err = svc.do_get(&header, &ticket, 100).unwrap_err();
    assert_eq!(err.code, StatusCode::NotFound);
    assert_eq!(err.message, "ticket not found");
}

#[test]
fn tokens_are_distinct_across_handshakes() {
    let mut svc = service();
    let mut tokens: Vec<String> = Vec::new();
    for i in 0..5 {
        let token = handshake_token(&mut svc, b"alice", b"0", 100 + i);
        assert_eq!(token.len(), 32);
        assert!(token.chars().all(is_alnum));
        tokens.push(token);
    }
    for i in 0..tokens.len() {
        for j in 0..i {
            assert_ne!(tokens[i], tokens[j]);
        }
    }
    assert_eq!(svc.token_count(), 5);
}

#[test]
fn ticket_is_consumed_exactly_once() {
    let mut svc = service();
    let ticket = svc.create_ticket(fake_compile(1, "SELECT 1"), 50);
    assert_eq!(svc.ticket_count(), 1);
    let first = svc.get_ticket(&ticket);
    assert!(first.is_some());
    assert_eq!(first.unwrap().start, 50);
    assert_eq!(svc.ticket_count(), 0);
    assert!(svc.get_ticket(&ticket).is_none());
}

#[test]
fn expired_tokens_fail_validation() {
    let mut svc = service();
    let issued_at = 1000;
    let token = handshake_token(&mut svc, b"alice", b"0", issued_at);
    let header = HeaderValue::Token(token);

    // One hour later the token still validates.
    let one_hour_later = issued_at + 3600;
    assert!(svc.validate_headers(&header, one_hour_later).is_ok());

    // Twenty-five hours later it is expired, though still stored.
    let twenty_five_hours_later = issued_at + 25 * 3600;
    let err = svc.validate_headers(&header, twenty_five_hours_later).unwrap_err();
    assert_eq!(err.code, StatusCode::Unauthenticated);
    assert_eq!(err.message, "expired session token");
    assert_eq!(svc.token_count(), 1);
}

#[test]
fn preamble_rejects_bad_headers() {
    let svc = service();
    let err = svc.validate_headers(&HeaderValue::Missing, 100).unwrap_err();
    assert_eq!(err.code, StatusCode::Unauthenticated);
    assert_eq!(err.message, "no session token provided");

    let err = svc.validate_headers(&HeaderValue::Malformed, 100).unwrap_err();
    assert_eq!(err.code, StatusCode::Unknown);
    assert_eq!(err.message, "error reading request header");

    let unknown = HeaderValue::Token(String::from("nosuchtokennosuchtokennosuchtoke"));
    let err = svc.validate_headers(&unknown, 100).unwrap_err();
    assert_eq!(err.code, StatusCode::Unauthenticated);
    assert_eq!(err.message, "invalid session token");
}

#[test]
fn regular_sessions_cannot_administer() {
    let mut svc = service();
    let token = handshake_token(&mut svc, b"alice", b"0", 100);
    let header = HeaderValue::Token(token);

    let err = svc
        .do_action(&header, &String::from("REFRESH_CONTEXT"), 100)
        .unwrap_err();
    assert_eq!(err.code, StatusCode::PermissionDenied);
    assert_eq!(err.message, "permission to perform admin action denied");

    let err = svc.list_actions(&header, 100).unwrap_err();
    assert_eq!(err.code, StatusCode::PermissionDenied);
}

#[test]
fn admin_sessions_may_administer() {
    let mut svc = service();
    let token = handshake_token(&mut svc, b"root", b"1", 100);
    let header = HeaderValue::Token(token);

    let actions: Vec<ActionType> = svc.list_actions(&header, 100).expect("admin may list");
    assert_eq!(actions.len(), 2);
    assert_eq!(actions[0].name, "REFRESH_CONTEXT");
    assert_eq!(actions[1].name, "CLEAR_EXPIRED_ITEMS");

    let msgs = svc
        .do_action(&header, &String::from("REFRESH_CONTEXT"), 100)
        .expect("refresh should succeed");
    assert_eq!(msgs, vec![String::from("SUCCESS")]);
}

#[test]
fn unknown_actions_are_rejected() {
    let mut svc = service();
    let token = handshake_token(&mut svc, b"root", b"1", 100);
    let header = HeaderValue::Token(token);
    let err = svc
        .do_action(&header, &String::from("DROP_EVERYTHING"), 100)
        .unwrap_err();
    assert_eq!(err.code, StatusCode::InvalidArgument);
    assert_eq!(err.message, "invalid action");
}

#[test]
fn failed_refresh_reports_internal_error() {
    let admin = TestAdmin { accept: true, refresh_ok: false, next_ctx: 2 };
    let mut svc: Service = FusionFlightService::new(1, admin, Vec::new());
    let token = handshake_token(&mut svc, b"root", b"1", 100);
    let header = HeaderValue::Token(token);
    let err = svc
        .do_action(&header, &String::from("REFRESH_CONTEXT"), 100)
        .unwrap_err();
    assert_eq!(err.code, StatusCode::Internal);
    assert_eq!(err.message, "internal error refreshing context");
}

#[test]
fn prune_reports_exact_counts() {
    let mut svc = service();
    // Two sessions issued long ago, then three fresh ones; the last fresh
    // one is the admin who will prune.
    handshake_token(&mut svc, b"old1", b"0", 0);
    handshake_token(&mut svc, b"old2", b"0", 0);
    handshake_token(&mut svc, b"new1", b"0", 90000);
    handshake_token(&mut svc, b"new2", b"0", 90000);
    let admin_token = handshake_token(&mut svc, b"root", b"1", 90000);
    assert_eq!(svc.token_count(), 5);

    let header = HeaderValue::Token(admin_token);
    let action = String::from("CLEAR_EXPIRED_ITEMS");
    let msgs = svc.do_action(&header, &action, 90000).expect("prune should succeed");
    assert_eq!(msgs.len(), 3);
    assert_eq!(msgs[0], "SUCCESS");
    assert_eq!(msgs[1], "REMOVED 2 EXPIRED SESSION TOKENS");
    assert_eq!(msgs[2], "REMOVED 0 EXPIRED TICKETS");
    assert_eq!(svc.token_count(), 3);

    // A repeat prune on the now-clean store removes nothing.
    let msgs = svc.do_action(&header, &action, 90000).expect("prune should succeed");
    assert_eq!(msgs[1], "REMOVED 0 EXPIRED SESSION TOKENS");
    assert_eq!(msgs[2], "REMOVED 0 EXPIRED TICKETS");
    assert_eq!(svc.token_count(), 3);
}

#[test]
fn prune_removes_stale_tickets() {
    let mut svc = service();
    svc.create_ticket(fake_compile(1, "SELECT 1"), 0);
    svc.create_ticket(fake_compile(1, "SELECT 1"), 90000);
    let admin_token = handshake_token(&mut svc, b"root", b"1", 90000);
    let header = HeaderValue::Token(admin_token);
    let msgs = svc
        .do_action(&header, &String::from("CLEAR_EXPIRED_ITEMS"), 90000)
        .expect("prune should succeed");
    assert_eq!(msgs[2], "REMOVED 1 EXPIRED TICKETS");
    assert_eq!(svc.ticket_count(), 1);
}

#[test]
fn context_swap_leaves_tickets_on_old_context() {
    let mut svc = service();
    let admin_token = handshake_token(&mut svc, b"root", b"1", 100);
    let header = HeaderValue::Token(admin_token);

    // Compile under context 1 and bind the ticket.
    let df = fake_compile(1, "SELECT 1");
    let fi = svc.get_flight_info_response(vec![String::from("SELECT 1")], vec![7], df, 100);
    let ticket = fi.ticket.unwrap();

    // Install context 2.
    let msgs = svc
        .do_action(&header, &String::from("REFRESH_CONTEXT"), 100)
        .expect("refresh should succeed");
    assert_eq!(msgs, vec![String::from("SUCCESS")]);

    // The ticket still redeems to the query compiled under context 1.
    let record = svc.do_get(&header, &ticket, 100).expect("ticket should redeem");
    assert_eq!(record.dataframe.ctx, 1);
}

#[test]
fn incomplete_handshakes_issue_no_token() {
    let mut svc = service();
    let existing = handshake_token(&mut svc, b"alice", b"0", 100);
    assert_eq!(svc.token_count(), 1);

    let err = svc
        .handshake(Some(b"bob".to_vec()), Some(b"pw".to_vec()), None, 100)
        .unwrap_err();
    assert_eq!(err.code, StatusCode::InvalidArgument);
    assert_eq!(err.message, "request_admin flag not provided during handshake");
    assert_eq!(svc.token_count(), 1);

    // The existing session is unaffected.
    let header = HeaderValue::Token(existing);
    assert!(svc.validate_headers(&header, 100).is_ok());
}

#[test]
fn malformed_handshakes_are_rejected() {
    let mut svc = service();
    let err = svc.handshake(None, None, None, 100).unwrap_err();
    assert_eq!(err.code, StatusCode::InvalidArgument);
    assert_eq!(err.message, "username not provided during handshake");

    let err = svc.handshake(Some(b"a".to_vec()), None, None, 100).unwrap_err();
    assert_eq!(err.message, "password not provided during handshake");

    let err = svc
        .handshake(Some(b"a".to_vec()), Some(b"p".to_vec()), Some(b"2".to_vec()), 100)
        .unwrap_err();
    assert_eq!(err.message, "request_admin flag has invalid value");

    let err = svc
        .handshake(Some(b"a".to_vec()), Some(b"p".to_vec()), Some(b"01".to_vec()), 100)
        .unwrap_err();
    assert_eq!(err.message, "request_admin flag has invalid value");
    assert_eq!(svc.token_count(), 0);
}

#[test]
fn rejected_credentials_issue_no_token() {
    let admin = TestAdmin { accept: false, refresh_ok: true, next_ctx: 2 };
    let mut svc: Service = FusionFlightService::new(1, admin, Vec::new());
    let err = svc
        .handshake(Some(b"a".to_vec()), Some(b"bad".to_vec()), Some(b"0".to_vec()), 100)
        .unwrap_err();
    assert_eq!(err.code, StatusCode::Unauthenticated);
    assert_eq!(err.message, "authentication failed");
    assert_eq!(svc.token_count(), 0);
}

#[test]
fn list_flights_requires_a_token() {
    let mut svc: Service = {
        let admin = TestAdmin { accept: true, refresh_ok: true, next_ctx: 2 };
        let entry = Ok(FlightInfo {
            schema: vec![1, 2],
            path: vec![String::from("tbl")],
            ticket: None,
            total_records: -1,
            total_bytes: -1,
        });
        FusionFlightService::new(1, admin, vec![entry])
    };
    let err = svc.list_flights(&HeaderValue::Missing, 100).unwrap_err();
    assert_eq!(err.code, StatusCode::Unauthenticated);

    let token = handshake_token(&mut svc, b"alice", b"0", 100);
    let header = HeaderValue::Token(token);
    let flights: &Vec<Result<FlightInfo, RpcStatus>> =
        svc.list_flights(&header, 100).expect("listing should succeed");
    assert_eq!(flights.len(), 1);
    let entry = flights[0].as_ref().expect("the one entry is good");
    assert_eq!(entry.path, vec![String::from("tbl")]);
    assert_eq!(entry.total_records, -1);
}

#[test]
fn query_resolution_unescapes_quotes() {
    let mut svc = service();
    let token = handshake_token(&mut svc, b"alice", b"0", 100);
    let header = HeaderValue::Token(token);
    let path = vec![String::from("SELECT \\'x\\'")];

    // Both query-resolving calls unescape the quotes before compilation.
    let from_schema = svc.get_schema_request(&header, &path, 100).expect("schema request");
    assert_eq!(from_schema, "SELECT 'x'");

    let from_info = svc.get_flight_info_request(&header, &path, 100).expect("info request");
    assert_eq!(from_info, "SELECT 'x'");
}

#[test]
fn handshake_halves_compose() {
    // The message-parsing half touches no state and yields the printable
    // credentials; the response half issues the token for the verdict.
    let parsed = rustyshim::flight::handshake_request(
        Some(b"alice".to_vec()),
        Some(b"p\tw".to_vec()),
        Some(b"1".to_vec()),
    )
    .expect("complete handshake input parses");
    assert_eq!(parsed.0, "alice");
    assert_eq!(parsed.1, "p\\tw");
    assert!(parsed.2);

    let err = rustyshim::flight::handshake_request(Some(b"alice".to_vec()), None, None)
        .unwrap_err();
    assert_eq!(err.message, "password not provided during handshake");

    let mut svc = service();
    let err = svc
        .handshake_response(&String::from("alice"), SessionType::Unauthenticated, 50)
        .unwrap_err();
    assert_eq!(err.code, StatusCode::Unauthenticated);
    assert_eq!(svc.token_count(), 0);

    let token = svc
        .handshake_response(&String::from("alice"), SessionType::Regular, 50)
        .expect("accepted identity gets a token");
    assert_eq!(token.len(), 32);
    assert_eq!(svc.token_count(), 1);
}

#[test]
fn table_entries_have_the_advertised_shape() {
    let fi = FlightInfo::for_table(String::from("tbl"), vec![9, 9]);
    assert_eq!(fi.path, vec![String::from("tbl")]);
    assert_eq!(fi.schema, vec![9, 9]);
    assert!(fi.ticket.is_none());
    assert_eq!(fi.total_records, -1);
    assert_eq!(fi.total_bytes, -1);
}

#[test]
fn empty_descriptor_paths_are_rejected() {
    let mut svc = service();
    let token = handshake_token(&mut svc, b"alice", b"0", 100);
    let header = HeaderValue::Token(token);
    let empty: Vec<String> = Vec::new();
    let err = svc.get_flight_info_request(&header, &empty, 100).unwrap_err();
    assert_eq!(err.code, StatusCode::InvalidArgument);
    let err = svc.get_schema_request(&header, &empty, 100).unwrap_err();
    assert_eq!(err.code, StatusCode::InvalidArgument);
}

#[test]
fn put_and_exchange_are_refused() {
    let svc = service();
    let s = svc.do_put();
    assert_eq!(s.code, StatusCode::Unauthenticated);
    assert_eq!(s.message, "PUT not authorized for this database");
    let s = svc.do_exchange();
    assert_eq!(s.code, StatusCode::Unimplemented);
    assert_eq!(s.message, "Not yet implemented");
}
