use mwpack::action::HttpRequest;
use mwpack::client::{Cmd, MwClient, Op, Outcome};
use mwpack::protocol::{HttpResponse, MwError};

fn ok(body: &str) -> HttpResponse {
    HttpResponse {
        status: 200,
        api_error: None,
        set_cookies: Vec::new(),
        body: body.to_string(),
    }
}

fn ok_with_cookies(body: &str, cookies: &[&str]) -> HttpResponse {
    HttpResponse {
        status: 200,
        api_error: None,
        set_cookies: cookies.iter().map(|c| c.to_string()).collect(),
        body: body.to_string(),
    }
}

/// Run the construct operation against canned responses and hand back the
/// session.
fn constructed_client(login_token_json: &str) -> MwClient {
    let client = MwClient::new();
    let (mut m, req) = client.start(Op::Construct).unwrap();
    assert!(matches!(req, HttpRequest::Options { .. }));
    match m.on_preflight(&ok_with_cookies("", &["SID=abc; Path=/"])) {
        Cmd::Send(main) => match main {
            HttpRequest::Get { ref params, ref cookie } => {
                assert_eq!(cookie, "");
                assert_eq!(params[2], ("type".to_string(), "login".to_string()));
            },
            _ => panic!("the token query must be a GET"),
        },
        _ => panic!("a passing preflight must yield the main request"),
    }
    match m.on_main(&ok(login_token_json)) {
        Cmd::Done(Outcome::Constructed) => {},
        _ => panic!("construct must finish on a well-shaped body"),
    }
    assert_eq!(m.requests_sent, 2);
    m.into_client()
}

/// Drive a login with the given login-result body and csrf-token body.
fn login(client: MwClient, result_json: &str, csrf_json: &str) -> (MwClient, Result<(), MwError>) {
    let (mut m, _pf) = client
        .start(Op::Login { user: "u".to_string(), pass: "p".to_string() })
        .unwrap();
    match m.on_preflight(&ok("")) {
        Cmd::Send(_) => {},
        _ => panic!("a passing preflight must yield the login request"),
    }
    match m.on_main(&ok(result_json)) {
        Cmd::Send(req) => {
            assert!(matches!(req, HttpRequest::Options { .. }));
            assert_eq!(m.requests_sent, 3);
        },
        Cmd::Fail(e) => return (m.into_client(), Err(e)),
        Cmd::Done(_) => panic!("a login never finishes on its first pair"),
    }
    match m.on_preflight(&ok("")) {
        Cmd::Send(req) => match req {
            HttpRequest::Get { ref params, .. } => {
                assert_eq!(params.len(), 3);
                assert_eq!(params[1], ("meta".to_string(), "tokens".to_string()));
            },
            _ => panic!("the token fetch must be a GET"),
        },
        _ => panic!("a passing preflight must yield the token request"),
    }
    assert_eq!(m.requests_sent, 4);
    match m.on_main(&ok(csrf_json)) {
        Cmd::Done(Outcome::LoggedIn) => (m.into_client(), Ok(())),
        Cmd::Fail(e) => (m.into_client(), Err(e)),
        _ => panic!("the token fetch cannot ask for more requests"),
    }
}

#[test]
fn construct_runs_one_pair_and_unescapes_the_token() {
    let client =
        constructed_client(r#"{"query":{"tokens":{"logintoken":"tok+\\\\rest"}}}"#);
    // the JSON string is tok+\\rest; unescaping collapses the pair
    assert_eq!(client.token, "tok+\\rest");
    assert!(!client.authenticated);
}

#[test]
fn preflight_403_aborts_before_the_main_request() {
    let client = MwClient::new();
    let (mut m, _req) = client.start(Op::Construct).unwrap();
    match m.on_preflight(&HttpResponse {
        status: 403,
        api_error: None,
        set_cookies: vec!["SID=kept".to_string()],
        body: String::new(),
    }) {
        Cmd::Fail(MwError::TransportStatus { status }) => assert_eq!(status, 403),
        _ => panic!("a failing preflight must abort with a transport error"),
    }
    assert!(m.is_finished());
    assert_eq!(m.requests_sent, 1);
    // the cookies of the failed preflight are still kept
    assert_eq!(m.into_client().jar.lookup("SID"), Some("kept".to_string()));
}

#[test]
fn error_header_beats_unparseable_body() {
    let client = MwClient::new();
    let (mut m, _req) = client.start(Op::Construct).unwrap();
    match m.on_preflight(&ok("")) {
        Cmd::Send(_) => {},
        _ => panic!("a passing preflight must yield the main request"),
    }
    match m.on_main(&HttpResponse {
        status: 200,
        api_error: Some("badtoken".to_string()),
        set_cookies: Vec::new(),
        body: "{{{ not json at all".to_string(),
    }) {
        Cmd::Fail(MwError::Api(e)) => {
            assert_eq!(e.code, "badtoken");
            assert_eq!(e.info, "");
        },
        Cmd::Fail(MwError::Decode) => {
            panic!("the header check must come before the body parse")
        },
        _ => panic!("an error header must fail the operation"),
    }
}

#[test]
fn body_error_envelope_is_an_api_error() {
    let client = MwClient::new();
    let (mut m, _req) = client.start(Op::Construct).unwrap();
    m.on_preflight(&ok(""));
    match m.on_main(&ok(r#"{"error":{"code":"blocked","info":"you are blocked"}}"#)) {
        Cmd::Fail(MwError::Api(e)) => {
            assert_eq!(e.code, "blocked");
            assert_eq!(e.info, "you are blocked");
        },
        _ => panic!("a body-level error envelope must surface as an API error"),
    }
}

#[test]
fn shape_mismatch_is_a_decode_error() {
    let client = MwClient::new();
    let (mut m, _req) = client.start(Op::Construct).unwrap();
    m.on_preflight(&ok(""));
    match m.on_main(&ok(r#"{"query":{}}"#)) {
        Cmd::Fail(MwError::Decode) => {},
        _ => panic!("a wrong shape must surface as a decode error"),
    }
}

#[test]
fn failed_login_keeps_the_token_and_carries_the_result() {
    let client = constructed_client(r#"{"query":{"tokens":{"logintoken":"T1"}}}"#);
    let (client, res) = login(
        client,
        r#"{"login":{"result":"WrongPass"}}"#,
        r#"{"query":{"tokens":{"csrftoken":"T2"}}}"#,
    );
    match res {
        Err(MwError::Auth { result }) => assert_eq!(result, "WrongPass"),
        _ => panic!("a non-success login result must surface as an auth error"),
    }
    assert_eq!(client.token, "T1");
    assert!(!client.authenticated);
}

#[test]
fn successful_login_fetches_and_stores_the_edit_token() {
    let client = constructed_client(r#"{"query":{"tokens":{"logintoken":"T1"}}}"#);
    let before = client.token.clone();
    let (client, res) = login(
        client,
        r#"{"login":{"result":"Success"}}"#,
        r#"{"query":{"tokens":{"csrftoken":"T2+\\\\"}}}"#,
    );
    assert!(res.is_ok());
    assert_eq!(client.token, "T2+\\");
    assert_ne!(client.token, before);
    assert!(client.authenticated);
}

#[test]
fn token_check_reports_the_verdict_without_touching_state() {
    let client = constructed_client(r#"{"query":{"tokens":{"logintoken":"T1"}}}"#);
    let (mut m, _req) = client.start(Op::TokenCheck).unwrap();
    m.on_preflight(&ok(""));
    match m.on_main(&ok(r#"{"checktoken":{"result":"valid"}}"#)) {
        Cmd::Done(Outcome::TokenVerdict(v)) => assert_eq!(v, "valid"),
        _ => panic!("a token check must yield the verdict string"),
    }
    assert_eq!(m.into_client().token, "T1");
}

#[test]
fn get_edit_token_returns_without_storing() {
    let client = constructed_client(r#"{"query":{"tokens":{"logintoken":"T1"}}}"#);
    let (mut m, _req) = client.start(Op::GetEditToken).unwrap();
    m.on_preflight(&ok(""));
    match m.on_main(&ok(r#"{"query":{"tokens":{"csrftoken":"E\\\\T"}}}"#)) {
        Cmd::Done(Outcome::EditToken(t)) => assert_eq!(t, "E\\T"),
        _ => panic!("the edit-token fetch must yield the token"),
    }
    assert_eq!(m.into_client().token, "T1");
}

#[test]
fn user_info_decodes_the_user_record() {
    let client = MwClient::new();
    let (mut m, _req) = client.start(Op::UserInfo).unwrap();
    m.on_preflight(&ok(""));
    let body = r#"{"batchcomplete":"","query":{"userinfo":{"id":42,"name":"Ada","rights":["read","edit"]}}}"#;
    match m.on_main(&ok(body)) {
        Cmd::Done(Outcome::User(u)) => {
            assert_eq!(u.id, 42);
            assert_eq!(u.name, "Ada");
            assert_eq!(u.rights, vec!["read".to_string(), "edit".to_string()]);
        },
        _ => panic!("a user-info query must yield the user record"),
    }
}

#[test]
fn mutating_actions_need_authentication() {
    let client = MwClient::new();
    match client.start(Op::EditArticle {
        article: mwpack::action::MwArticle {
            title: "T".to_string(),
            text: "x".to_string(),
            summary: "s".to_string(),
        },
    }) {
        Err((_, MwError::State)) => {},
        _ => panic!("an edit without authentication must be refused"),
    }
}

#[test]
fn edit_succeeds_without_a_payload() {
    let client = constructed_client(r#"{"query":{"tokens":{"logintoken":"T1"}}}"#);
    // authenticate first
    let (client, res) = login(
        client,
        r#"{"login":{"result":"Success"}}"#,
        r#"{"query":{"tokens":{"csrftoken":"E1"}}}"#,
    );
    assert!(res.is_ok());
    let (mut m, _req) = client
        .start(Op::EditArticle {
            article: mwpack::action::MwArticle {
                title: "T".to_string(),
                text: "x".to_string(),
                summary: "s".to_string(),
            },
        })
        .unwrap();
    match m.on_preflight(&ok("")) {
        Cmd::Send(HttpRequest::PostForm { params, .. }) => {
            assert_eq!(params[0], ("action".to_string(), "edit".to_string()));
            assert_eq!(params[5], ("token".to_string(), "E1".to_string()));
        },
        _ => panic!("an edit must go out as a form POST"),
    }
    match m.on_main(&ok("")) {
        Cmd::Done(Outcome::Edited) => {},
        _ => panic!("an edit needs no structured payload"),
    }
}

#[test]
fn upload_is_wired_through_the_pipeline() {
    let client = constructed_client(r#"{"query":{"tokens":{"logintoken":"T1"}}}"#);
    let (client, res) = login(
        client,
        r#"{"login":{"result":"Success"}}"#,
        r#"{"query":{"tokens":{"csrftoken":"E1"}}}"#,
    );
    assert!(res.is_ok());
    let (mut m, _req) = client
        .start(Op::Upload { filename: "a.jpg".to_string(), bytes: vec![9, 9] })
        .unwrap();
    match m.on_preflight(&ok("")) {
        Cmd::Send(HttpRequest::PostMultipart { fields, .. }) => {
            assert_eq!(fields.len(), 4);
        },
        _ => panic!("an upload must go out as a multipart POST"),
    }
    match m.on_main(&ok(r#"{}"#)) {
        Cmd::Done(Outcome::Uploaded) => {},
        _ => panic!("an upload with no error must succeed"),
    }
}

#[test]
fn session_cookies_reach_the_next_main_request() {
    let client = constructed_client(r#"{"query":{"tokens":{"logintoken":"T1"}}}"#);
    // the construct preflight set SID=abc; the next pair's cookie header
    // is built from the jar before its own preflight
    let (mut m, _req) = client.start(Op::TokenCheck).unwrap();
    match m.on_preflight(&ok_with_cookies("", &["LATER=1"])) {
        Cmd::Send(HttpRequest::PostForm { cookie, .. }) => {
            assert_eq!(cookie, "SID=abc; Path=/");
        },
        _ => panic!("a passing preflight must yield the main request"),
    }
}
