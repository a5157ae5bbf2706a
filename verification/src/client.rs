use vstd::prelude::*;

use crate::action::{
    Action, HttpRequest, MwArticle, RequestV, request_of, make_preflight, preflight_shape,
    upload_fields, action_params,
};
use crate::cookies::{CookieJar, merge_headers, header_of, jar_wf, lemma_merge_headers_wf};
use crate::protocol::{
    HttpResponse, MwError, ApiErr, UserData, success_status, decode_token, decode_result,
    decode_user, check_plain, error_envelope, token_of, result_of, userinfo_of,
};
use crate::strutil::{parse_token, unescaped, str_eq, strs_model};
use crate::json::parsed_json;

verus! {

/// The session a client accumulates: the cookie jar and the current
/// security token. The token is login-capable after construction and
/// edit-capable once a login has succeeded, which `authenticated` records.
#[derive(Debug)]
pub struct MwClient {
    pub jar: CookieJar,
    pub token: String,
    pub authenticated: bool,
}

/// One operation of the facade, with everything it needs from the caller.
pub enum Op {
    Construct,
    Login { user: String, pass: String },
    GetEditToken,
    TokenCheck,
    UserInfo,
    EditArticle { article: MwArticle },
    Upload { filename: String, bytes: Vec<u8> },
}

/// The kind of the operation a machine is running.
#[derive(Clone, Copy, Debug, PartialEq, Eq, Structural)]
pub enum OpKind {
    Construct,
    Login,
    GetEditToken,
    TokenCheck,
    UserInfo,
    Edit,
    Upload,
}

/// Which preflight/main pair of the operation is in flight: every
/// operation runs one pair, and a successful login runs a second pair to
/// fetch the edit token.
#[derive(Clone, Copy, Debug, PartialEq, Eq, Structural)]
pub enum Stage {
    First,
    TokenFetch,
}

/// Where the machine stands within the current pair.
#[derive(Clone, Copy, Debug, PartialEq, Eq, Structural)]
pub enum Phase {
    AwaitPreflight,
    AwaitMain,
    Finished,
}

/// What a finished operation yields.
#[derive(Debug)]
pub enum Outcome {
    Constructed,
    LoggedIn,
    EditToken(String),
    TokenVerdict(String),
    User(UserData),
    Edited,
    Uploaded,
}

/// What the driver must do next: send a request and feed the response
/// back, or stop with the operation's outcome or error.
pub enum Cmd {
    Send(HttpRequest),
    Done(Outcome),
    Fail(MwError),
}

/// The state machine of one operation. The driver sends exactly the
/// requests the machine hands out, in order, and feeds each response back
/// through `on_preflight` or `on_main`; the machine owns the session and
/// applies every cookie merge and token update itself.
pub struct Machine {
    pub client: MwClient,
    pub kind: OpKind,
    pub stage: Stage,
    pub phase: Phase,
    pub action: Option<Action>,
    pub cookie_hdr: String,
    pub requests_sent: u64,
    pub planned: Ghost<RequestV>,
}

/// The main request of the first pair of an operation: the action named,
/// its parameters in order, `format=json` last, the session's current
/// token where one is sent, and the given `Cookie` header value attached.
pub open spec fn op_first_request(op: Op, token: Seq<char>, cookie: Seq<char>) -> RequestV {
    match op {
        Op::Construct => RequestV::Get {
            params: seq![
                ("action"@, "query"@),
                ("meta"@, "tokens"@),
                ("type"@, "login"@),
                ("format"@, "json"@),
            ],
            cookie,
        },
        Op::Login { user, pass } => RequestV::PostForm {
            params: seq![
                ("action"@, "login"@),
                ("lgname"@, user@),
                ("lgpassword"@, pass@),
                ("lgtoken"@, token),
                ("format"@, "json"@),
            ],
            cookie,
        },
        Op::GetEditToken => RequestV::Get {
            params: seq![("action"@, "query"@), ("meta"@, "tokens"@), ("format"@, "json"@)],
            cookie,
        },
        Op::TokenCheck => RequestV::PostForm {
            params: seq![
                ("action"@, "checktoken"@),
                ("token"@, token),
                ("type"@, "csrf"@),
                ("format"@, "json"@),
            ],
            cookie,
        },
        Op::UserInfo => RequestV::Get {
            params: seq![
                ("action"@, "query"@),
                ("meta"@, "userinfo"@),
                ("uiprop"@, "rights|hasmsg"@),
                ("format"@, "json"@),
            ],
            cookie,
        },
        Op::EditArticle { article } => RequestV::PostForm {
            params: seq![
                ("action"@, "edit"@),
                ("title"@, article.title@),
                ("text"@, article.text@),
                ("summary"@, article.summary@),
                ("bot"@, "true"@),
                ("token"@, token),
                ("format"@, "json"@),
            ],
            cookie,
        },
        Op::Upload { filename, bytes } => RequestV::PostMultipart {
            fields: upload_fields(filename@, bytes@, token),
            cookie,
        },
    }
}

/// The follow-up request of a successful login: the plain token query
/// that yields the edit token.
pub open spec fn csrf_fetch_request(cookie: Seq<char>) -> RequestV {
    RequestV::Get {
        params: seq![("action"@, "query"@), ("meta"@, "tokens"@), ("format"@, "json"@)],
        cookie,
    }
}

/// Whether an operation mutates server state and so needs an edit token.
pub open spec fn is_mutating(op: Op) -> bool {
    op is EditArticle || op is Upload
}

/// The command fails with the given API error code and explanation.
pub open spec fn fails_api(c: Cmd, code: Seq<char>, info: Seq<char>) -> bool {
    &&& c matches Cmd::Fail(e)
    &&& e matches MwError::Api(err)
    &&& err.code@ == code
    &&& err.info@ == info
}

/// The token and the authentication mark survive the step.
pub open spec fn unchanged_session(pre: Machine, post: Machine) -> bool {
    &&& post.client.token == pre.client.token
    &&& post.client.authenticated == pre.client.authenticated
}

/// The step ends the operation without sending anything further.
pub open spec fn finishes(pre: Machine, post: Machine) -> bool {
    &&& post.phase is Finished
    &&& post.requests_sent == pre.requests_sent
    &&& post.stage == pre.stage
}

impl Machine {
    /// What every reachable machine satisfies: the jar never holds a name
    /// twice, a pending pair has its main request prepared, only a login
    /// reaches the second stage, and the number of requests handed out is
    /// pinned by the position in the operation.
    pub open spec fn inv(&self) -> bool {
        &&& jar_wf(self.client.jar@)
        &&& (self.phase is AwaitPreflight ==> (self.action matches Some(a) && request_of(
            a,
            self.cookie_hdr@,
        ) == self.planned@))
        &&& (self.stage is TokenFetch ==> self.kind is Login)
        &&& match (self.phase, self.stage) {
            (Phase::AwaitPreflight, Stage::First) => self.requests_sent == 1,
            (Phase::AwaitMain, Stage::First) => self.requests_sent == 2,
            (Phase::AwaitPreflight, Stage::TokenFetch) => self.requests_sent == 3,
            (Phase::AwaitMain, Stage::TokenFetch) => self.requests_sent == 4,
            _ => true,
        }
    }

    /// Whether the operation has ended; the driver stops when this holds.
    pub fn is_finished(&self) -> (b: bool)
        ensures
            b == (self.phase is Finished),
    {
        matches!(self.phase, Phase::Finished)
    }

    /// Whether the next response fed in must be the preflight's.
    pub fn awaits_preflight(&self) -> (b: bool)
        ensures
            b == (self.phase is AwaitPreflight),
    {
        matches!(self.phase, Phase::AwaitPreflight)
    }

    /// Hand the session back once the operation has ended; the cookie
    /// merges of completed sub-steps are kept even after a failure.
    pub fn into_client(self) -> (c: MwClient)
        ensures
            c == self.client,
    {
        self.client
    }
}

/// What holds after the main response of a pair was consumed with the
/// error header absent and a success status, by operation kind and stage.
/// The body is parsed at most once; a body-level error envelope beats a
/// shape mismatch everywhere, and an edit or upload needs no payload.
pub open spec fn main_post(pre: Machine, post: Machine, body: Seq<char>, c: Cmd) -> bool {
    let d = parsed_json(body);
    &&& (d is Some && error_envelope(d->0) is Some ==> {
        let ee = error_envelope(d->0)->0;
        &&& fails_api(c, ee.0, ee.1)
        &&& unchanged_session(pre, post)
        &&& finishes(pre, post)
    })
    &&& match (pre.kind, pre.stage) {
        (OpKind::Construct, _) => {
            let tok = token_of(d->0, "logintoken"@);
            &&& (d is None || (error_envelope(d->0) is None && tok is None) ==> {
                &&& c == Cmd::Fail(MwError::Decode)
                &&& unchanged_session(pre, post)
                &&& finishes(pre, post)
            })
            &&& (d is Some && error_envelope(d->0) is None && tok is Some ==> {
                &&& c == Cmd::Done(Outcome::Constructed)
                &&& post.client.token@ == unescaped(tok->0)
                &&& post.client.authenticated == pre.client.authenticated
                &&& post.phase is Finished
                &&& post.requests_sent == 2
            })
        },
        (OpKind::Login, Stage::First) => {
            let rd = result_of(d->0, "login"@);
            &&& (d is None || (error_envelope(d->0) is None && rd is None) ==> {
                &&& c == Cmd::Fail(MwError::Decode)
                &&& unchanged_session(pre, post)
                &&& finishes(pre, post)
            })
            &&& (d is Some && error_envelope(d->0) is None && rd is Some && rd->0 != "Success"@
                ==> {
                &&& c matches Cmd::Fail(e)
                &&& e matches MwError::Auth { result }
                &&& result@ == rd->0
                &&& unchanged_session(pre, post)
                &&& finishes(pre, post)
            })
            &&& (d is Some && error_envelope(d->0) is None && rd is Some && rd->0 == "Success"@
                ==> {
                &&& c matches Cmd::Send(req)
                &&& req@ == preflight_shape()
                &&& post.planned@ == csrf_fetch_request(header_of(post.client.jar@))
                &&& post.stage is TokenFetch
                &&& post.phase is AwaitPreflight
                &&& post.requests_sent == 3
                &&& unchanged_session(pre, post)
            })
        },
        (OpKind::Login, Stage::TokenFetch) => {
            let tok = token_of(d->0, "csrftoken"@);
            &&& (d is None || (error_envelope(d->0) is None && tok is None) ==> {
                &&& c == Cmd::Fail(MwError::Decode)
                &&& unchanged_session(pre, post)
                &&& finishes(pre, post)
            })
            &&& (d is Some && error_envelope(d->0) is None && tok is Some ==> {
                &&& c == Cmd::Done(Outcome::LoggedIn)
                &&& post.client.token@ == unescaped(tok->0)
                &&& post.client.authenticated == true
                &&& post.phase is Finished
                &&& post.requests_sent == 4
            })
        },
        (OpKind::GetEditToken, _) => {
            let tok = token_of(d->0, "csrftoken"@);
            &&& (d is None || (error_envelope(d->0) is None && tok is None) ==> {
                &&& c == Cmd::Fail(MwError::Decode)
                &&& unchanged_session(pre, post)
                &&& finishes(pre, post)
            })
            &&& (d is Some && error_envelope(d->0) is None && tok is Some ==> {
                &&& c matches Cmd::Done(o)
                &&& o matches Outcome::EditToken(t)
                &&& t@ == unescaped(tok->0)
                &&& unchanged_session(pre, post)
                &&& finishes(pre, post)
            })
        },
        (OpKind::TokenCheck, _) => {
            let rd = result_of(d->0, "checktoken"@);
            &&& (d is None || (error_envelope(d->0) is None && rd is None) ==> {
                &&& c == Cmd::Fail(MwError::Decode)
                &&& unchanged_session(pre, post)
                &&& finishes(pre, post)
            })
            &&& (d is Some && error_envelope(d->0) is None && rd is Some ==> {
                &&& c matches Cmd::Done(o)
                &&& o matches Outcome::TokenVerdict(t)
                &&& t@ == rd->0
                &&& unchanged_session(pre, post)
                &&& finishes(pre, post)
            })
        },
        (OpKind::UserInfo, _) => {
            let ui = userinfo_of(d->0);
            &&& (d is None || (error_envelope(d->0) is None && ui is None) ==> {
                &&& c == Cmd::Fail(MwError::Decode)
                &&& unchanged_session(pre, post)
                &&& finishes(pre, post)
            })
            &&& (d is Some && error_envelope(d->0) is None && ui is Some ==> {
                let uv = ui->0;
                &&& c matches Cmd::Done(o)
                &&& o matches Outcome::User(u)
                &&& u.id as int == uv.0
                &&& u.name@ == uv.1
                &&& strs_model(u.rights@) == uv.2
                &&& unchanged_session(pre, post)
                &&& finishes(pre, post)
            })
        },
        (OpKind::Edit, _) => {
            &&& (d is None || error_envelope(d->0) is None ==> {
                &&& c == Cmd::Done(Outcome::Edited)
                &&& unchanged_session(pre, post)
                &&& finishes(pre, post)
            })
        },
        (OpKind::Upload, _) => {
            &&& (d is None || error_envelope(d->0) is None ==> {
                &&& c == Cmd::Done(Outcome::Uploaded)
                &&& unchanged_session(pre, post)
                &&& finishes(pre, post)
            })
        },
    }
}

/// A construct operation that reaches its outcome has sent exactly one
/// preflight/main request pair.
pub proof fn lemma_construct_one_pair(pre: Machine, post: Machine, body: Seq<char>, c: Cmd)
    requires
        pre.inv(),
        pre.kind is Construct,
        pre.phase is AwaitMain,
        main_post(pre, post, body, c),
        c is Done,
    ensures
        post.requests_sent == 2,
        post.client.token@ == unescaped(token_of(parsed_json(body)->0, "logintoken"@)->0),
{
}

/// A login whose server result is not the success value leaves the token
/// untouched and surfaces the server's exact result string.
pub proof fn lemma_login_failure_keeps_token(pre: Machine, post: Machine, body: Seq<char>, c: Cmd)
    requires
        pre.inv(),
        pre.kind is Login,
        pre.stage is First,
        pre.phase is AwaitMain,
        main_post(pre, post, body, c),
        c matches Cmd::Fail(e) && e is Auth,
    ensures
        post.client.token == pre.client.token,
        post.client.authenticated == pre.client.authenticated,
        post.phase is Finished,
        c matches Cmd::Fail(e2) && (e2 matches MwError::Auth { result } && Some(result@)
            == result_of(parsed_json(body)->0, "login"@)),
{
}

/// A login that completes has sent exactly two pairs: its own and the one
/// follow-up token fetch; the token it stores is the unescaped edit token
/// the server sent, so it differs from the token before whenever the
/// server hands back a token with different unescaped text.
pub proof fn lemma_login_success_stores_new_token(
    pre: Machine,
    post: Machine,
    body: Seq<char>,
    c: Cmd,
)
    requires
        pre.inv(),
        pre.kind is Login,
        pre.stage is TokenFetch,
        pre.phase is AwaitMain,
        main_post(pre, post, body, c),
        c is Done,
    ensures
        post.requests_sent == 4,
        post.client.authenticated == true,
        post.client.token@ == unescaped(token_of(parsed_json(body)->0, "csrftoken"@)->0),
        unescaped(token_of(parsed_json(body)->0, "csrftoken"@)->0) != pre.client.token@
            ==> post.client.token@ != pre.client.token@,
{
}

impl MwClient {
    /// Whether the session is well-formed: the jar holds each name once.
    pub open spec fn wf(&self) -> bool {
        jar_wf(self.jar@)
    }

    /// A fresh session: empty jar, empty token, not authenticated. The
    /// construct operation must run before anything else is meaningful.
    pub fn new() -> (c: MwClient)
        ensures
            c.jar@ == Seq::<(Seq<char>, Seq<char>)>::empty(),
            c.token@ == Seq::<char>::empty(),
            c.authenticated == false,
            c.wf(),
    {
        MwClient { jar: CookieJar::new(), token: String::new(), authenticated: false }
    }

    /// Begin one operation. A mutating operation on a session that never
    /// authenticated is refused outright with a state error; otherwise
    /// the machine is set up with the pair's `Cookie` header built from
    /// the jar as it stands now, and the preflight request is handed out
    /// as the first of the pair.
    pub fn start(self, op: Op) -> (r: Result<(Machine, HttpRequest), (MwClient, MwError)>)
        requires
            self.wf(),
        ensures
            match r {
                Ok(p) => {
                    &&& p.0.inv()
                    &&& p.0.client == self
                    &&& p.0.phase is AwaitPreflight
                    &&& p.0.stage is First
                    &&& p.0.requests_sent == 1
                    &&& p.0.planned@ == op_first_request(op, self.token@, header_of(self.jar@))
                    &&& p.1@ == preflight_shape()
                    &&& !(is_mutating(op) && !self.authenticated)
                    &&& match op {
                        Op::Construct => p.0.kind is Construct,
                        Op::Login { .. } => p.0.kind is Login,
                        Op::GetEditToken => p.0.kind is GetEditToken,
                        Op::TokenCheck => p.0.kind is TokenCheck,
                        Op::UserInfo => p.0.kind is UserInfo,
                        Op::EditArticle { .. } => p.0.kind is Edit,
                        Op::Upload { .. } => p.0.kind is Upload,
                    }
                },
                Err(p) => {
                    &&& p.0 == self
                    &&& p.1 is State
                    &&& is_mutating(op) && !self.authenticated
                },
            },
    {
        let mutating = matches!(op, Op::EditArticle { .. } | Op::Upload { .. });
        if mutating && !self.authenticated {
            return Err((self, MwError::State));
        }
        let ghost op0 = op;
        let cookie_hdr = self.jar.cookie_header();
        let ghost tok0 = self.token@;
        let ghost target = op_first_request(op0, self.token@, cookie_hdr@);
        let (kind, action): (OpKind, Action) = match op {
            Op::Construct => {
                let a = Action::Query {
                    meta: String::from_str("tokens"),
                    type_: Some(String::from_str("login")),
                };
                proof {
                    assert(action_params(a) =~= target->Get_params);
                    assert(request_of(a, cookie_hdr@) == target);
                }
                (OpKind::Construct, a)
            },
            Op::Login { user, pass } => {
                let a = Action::Login {
                    lgname: user,
                    lgpassword: pass,
                    lgtoken: self.token.clone(),
                };
                proof {
                    assert(action_params(a) =~= target->PostForm_params);
                    assert(request_of(a, cookie_hdr@) == target);
                }
                (OpKind::Login, a)
            },
            Op::GetEditToken => {
                let a = Action::Query { meta: String::from_str("tokens"), type_: None };
                proof {
                    assert(action_params(a) =~= target->Get_params);
                    assert(request_of(a, cookie_hdr@) == target);
                }
                (OpKind::GetEditToken, a)
            },
            Op::TokenCheck => {
                let a = Action::CheckToken {
                    token: self.token.clone(),
                    type_: String::from_str("csrf"),
                };
                proof {
                    assert(action_params(a) =~= target->PostForm_params);
                    assert(request_of(a, cookie_hdr@) == target);
                }
                (OpKind::TokenCheck, a)
            },
            Op::UserInfo => {
                let a = Action::UiQuery {
                    meta: String::from_str("userinfo"),
                    uiprop: String::from_str("rights|hasmsg"),
                };
                proof {
                    assert(action_params(a) =~= target->Get_params);
                    assert(request_of(a, cookie_hdr@) == target);
                }
                (OpKind::UserInfo, a)
            },
            Op::EditArticle { article } => {
                let a = Action::EditArticle { article, bot: true, token: self.token.clone() };
                proof {
                    assert(action_params(a) =~= target->PostForm_params);
                    assert(request_of(a, cookie_hdr@) == target);
                }
                (OpKind::Edit, a)
            },
            Op::Upload { filename, bytes } => {
                let a = Action::Upload { filename, bytes, token: self.token.clone() };
                proof {
                    assert(request_of(a, cookie_hdr@) == target);
                }
                (OpKind::Upload, a)
            },
        };
        proof {
            assert(request_of(action, cookie_hdr@) == target);
        }
        let req = make_preflight();
        let m = Machine {
            client: self,
            kind,
            stage: Stage::First,
            phase: Phase::AwaitPreflight,
            action: Some(action),
            cookie_hdr,
            requests_sent: 1,
            planned: Ghost(op_first_request(op0, self.token@, header_of(self.jar@))),
        };
        Ok((m, req))
    }
}

impl Machine {
    /// Consume the preflight's response: its cookies are merged into the
    /// jar whatever happens; a non-2xx/3xx status ends the operation with
    /// a transport error and the main request is never handed out; on
    /// success the prepared main request goes out, carrying the `Cookie`
    /// header built at the start of the pair.
    pub fn on_preflight(&mut self, resp: &HttpResponse) -> (c: Cmd)
        requires
            old(self).inv(),
            old(self).phase is AwaitPreflight,
        ensures
            final(self).inv(),
            final(self).kind == old(self).kind,
            final(self).stage == old(self).stage,
            final(self).client.jar@ == merge_headers(
                old(self).client.jar@,
                strs_model(resp.set_cookies@),
            ),
            final(self).client.token == old(self).client.token,
            final(self).client.authenticated == old(self).client.authenticated,
            !success_status(resp.status) ==> {
                &&& c == Cmd::Fail(MwError::TransportStatus { status: resp.status })
                &&& final(self).phase is Finished
                &&& final(self).requests_sent == old(self).requests_sent
            },
            success_status(resp.status) ==> {
                &&& c matches Cmd::Send(req)
                &&& req@ == old(self).planned@
                &&& final(self).phase is AwaitMain
                &&& final(self).requests_sent == old(self).requests_sent + 1
            },
    {
        self.client.jar.merge_set_cookies(&resp.set_cookies);
        proof {
            lemma_merge_headers_wf(old(self).client.jar@, strs_model(resp.set_cookies@));
        }
        if !(resp.status >= 200 && resp.status < 400) {
            self.phase = Phase::Finished;
            return Cmd::Fail(MwError::TransportStatus { status: resp.status });
        }
        let act = match self.action.take() {
            Some(a) => a,
            None => {
                proof {
                    assert(false);
                }
                return Cmd::Fail(MwError::State);
            },
        };
        let req = act.encode(self.cookie_hdr.clone());
        self.phase = Phase::AwaitMain;
        self.requests_sent = self.requests_sent + 1;
        Cmd::Send(req)
    }

    /// Consume the main response of the current pair, in the pipeline's
    /// order: the out-of-band error header is checked first and ends the
    /// operation before the body is even parsed and before any cookie
    /// merge; then the cookies are merged; then a non-2xx/3xx status ends
    /// the operation; only then is the body decoded for the operation at
    /// hand.
    pub fn on_main(&mut self, resp: &HttpResponse) -> (c: Cmd)
        requires
            old(self).inv(),
            old(self).phase is AwaitMain,
        ensures
            final(self).inv(),
            final(self).kind == old(self).kind,
            resp.api_error matches Some(code) ==> {
                &&& fails_api(c, code@, Seq::<char>::empty())
                &&& final(self).client == old(self).client
                &&& final(self).phase is Finished
                &&& final(self).requests_sent == old(self).requests_sent
            },
            resp.api_error is None ==> final(self).client.jar@ == merge_headers(
                old(self).client.jar@,
                strs_model(resp.set_cookies@),
            ),
            resp.api_error is None && !success_status(resp.status) ==> {
                &&& c == Cmd::Fail(MwError::TransportStatus { status: resp.status })
                &&& unchanged_session(*old(self), *final(self))
                &&& finishes(*old(self), *final(self))
            },
            resp.api_error is None && success_status(resp.status) ==> main_post(
                *old(self),
                *final(self),
                resp.body@,
                c,
            ),
    {
        match &resp.api_error {
            Some(code) => {
                self.phase = Phase::Finished;
                return Cmd::Fail(MwError::Api(ApiErr { code: code.clone(), info: String::new() }));
            },
            None => {},
        }
        self.client.jar.merge_set_cookies(&resp.set_cookies);
        proof {
            lemma_merge_headers_wf(old(self).client.jar@, strs_model(resp.set_cookies@));
        }
        if !(resp.status >= 200 && resp.status < 400) {
            self.phase = Phase::Finished;
            return Cmd::Fail(MwError::TransportStatus { status: resp.status });
        }
        match self.kind {
            OpKind::Construct => {
                match decode_token(resp.body.as_str(), "logintoken") {
                    Ok(t) => {
                        self.client.token = parse_token(t);
                        self.phase = Phase::Finished;
                        Cmd::Done(Outcome::Constructed)
                    },
                    Err(e) => {
                        self.phase = Phase::Finished;
                        Cmd::Fail(e)
                    },
                }
            },
            OpKind::Login => {
                if matches!(self.stage, Stage::First) {
                    match decode_result(resp.body.as_str(), "login") {
                        Ok(r) => {
                            if str_eq(r.as_str(), "Success") {
                                let hdr = self.client.jar.cookie_header();
                                let act = Action::Query {
                                    meta: String::from_str("tokens"),
                                    type_: None,
                                };
                                proof {
                                    assert(action_params(act) =~= seq![
                                        ("action"@, "query"@),
                                        ("meta"@, "tokens"@),
                                        ("format"@, "json"@),
                                    ]);
                                    assert(request_of(act, hdr@) == csrf_fetch_request(
                                        header_of(self.client.jar@),
                                    ));
                                }
                                self.cookie_hdr = hdr;
                                self.action = Some(act);
                                self.planned = Ghost(
                                    csrf_fetch_request(header_of(self.client.jar@)),
                                );
                                self.stage = Stage::TokenFetch;
                                self.phase = Phase::AwaitPreflight;
                                self.requests_sent = self.requests_sent + 1;
                                Cmd::Send(make_preflight())
                            } else {
                                self.phase = Phase::Finished;
                                Cmd::Fail(MwError::Auth { result: r })
                            }
                        },
                        Err(e) => {
                            self.phase = Phase::Finished;
                            Cmd::Fail(e)
                        },
                    }
                } else {
                    match decode_token(resp.body.as_str(), "csrftoken") {
                        Ok(t) => {
                            self.client.token = parse_token(t);
                            self.client.authenticated = true;
                            self.phase = Phase::Finished;
                            Cmd::Done(Outcome::LoggedIn)
                        },
                        Err(e) => {
                            self.phase = Phase::Finished;
                            Cmd::Fail(e)
                        },
                    }
                }
            },
            OpKind::GetEditToken => {
                match decode_token(resp.body.as_str(), "csrftoken") {
                    Ok(t) => {
                        self.phase = Phase::Finished;
                        Cmd::Done(Outcome::EditToken(parse_token(t)))
                    },
                    Err(e) => {
                        self.phase = Phase::Finished;
                        Cmd::Fail(e)
                    },
                }
            },
            OpKind::TokenCheck => {
                match decode_result(resp.body.as_str(), "checktoken") {
                    Ok(r) => {
                        self.phase = Phase::Finished;
                        Cmd::Done(Outcome::TokenVerdict(r))
                    },
                    Err(e) => {
                        self.phase = Phase::Finished;
                        Cmd::Fail(e)
                    },
                }
            },
            OpKind::UserInfo => {
                match decode_user(resp.body.as_str()) {
                    Ok(u) => {
                        self.phase = Phase::Finished;
                        Cmd::Done(Outcome::User(u))
                    },
                    Err(e) => {
                        self.phase = Phase::Finished;
                        Cmd::Fail(e)
                    },
                }
            },
            OpKind::Edit => {
                self.phase = Phase::Finished;
                match check_plain(resp.body.as_str()) {
                    Some(e) => Cmd::Fail(MwError::Api(e)),
                    None => Cmd::Done(Outcome::Edited),
                }
            },
            OpKind::Upload => {
                self.phase = Phase::Finished;
                match check_plain(resp.body.as_str()) {
                    Some(e) => Cmd::Fail(MwError::Api(e)),
                    None => Cmd::Done(Outcome::Uploaded),
                }
            },
        }
    }
}

} // verus!
