use vstd::prelude::*;

verus! {

/// An article to publish: title, body text and edit summary.
pub struct MwArticle {
    pub title: String,
    pub text: String,
    pub summary: String,
}

/// One server operation, one constructor per API action. A value is built
/// by the facade and consumed once by the encoder.
#[allow(inconsistent_fields)]
pub enum Action {
    Query { meta: String, type_: Option<String> },
    UiQuery { meta: String, uiprop: String },
    CheckToken { token: String, type_: String },
    Login { lgname: String, lgpassword: String, lgtoken: String },
    EditArticle { article: MwArticle, bot: bool, token: String },
    Upload { filename: String, bytes: Vec<u8>, token: String },
}

/// One part of a multipart form: a text field, or a file with its content.
pub enum MultipartField {
    Text { name: String, value: String },
    File { name: String, filename: String, bytes: Vec<u8> },
}

/// The shape of a request to the endpoint: the method, the encoded
/// parameters, and the `Cookie` header value sent along (the preflight
/// carries none).
pub enum HttpRequest {
    Options { params: Vec<(String, String)> },
    Get { params: Vec<(String, String)>, cookie: String },
    PostForm { params: Vec<(String, String)>, cookie: String },
    PostMultipart { fields: Vec<MultipartField>, cookie: String },
}

/// The model of a key/value parameter list.
pub open spec fn kv_model(v: Seq<(String, String)>) -> Seq<(Seq<char>, Seq<char>)> {
    Seq::new(v.len(), |i: int| (v[i].0@, v[i].1@))
}

/// The mathematical shape of one multipart field.
pub enum FieldV {
    Text(Seq<char>, Seq<char>),
    File(Seq<char>, Seq<char>, Seq<u8>),
}

impl View for MultipartField {
    type V = FieldV;

    open spec fn view(&self) -> FieldV {
        match self {
            MultipartField::Text { name, value } => FieldV::Text(name@, value@),
            MultipartField::File { name, filename, bytes } => FieldV::File(
                name@,
                filename@,
                bytes@,
            ),
        }
    }
}

/// The mathematical shape of a request.
pub enum RequestV {
    Options { params: Seq<(Seq<char>, Seq<char>)> },
    Get { params: Seq<(Seq<char>, Seq<char>)>, cookie: Seq<char> },
    PostForm { params: Seq<(Seq<char>, Seq<char>)>, cookie: Seq<char> },
    PostMultipart { fields: Seq<FieldV>, cookie: Seq<char> },
}

impl View for HttpRequest {
    type V = RequestV;

    open spec fn view(&self) -> RequestV {
        match self {
            HttpRequest::Options { params } => RequestV::Options { params: kv_model(params@) },
            HttpRequest::Get { params, cookie } => RequestV::Get {
                params: kv_model(params@),
                cookie: cookie@,
            },
            HttpRequest::PostForm { params, cookie } => RequestV::PostForm {
                params: kv_model(params@),
                cookie: cookie@,
            },
            HttpRequest::PostMultipart { fields, cookie } => RequestV::PostMultipart {
                fields: Seq::new(fields@.len(), |i: int| fields@[i]@),
                cookie: cookie@,
            },
        }
    }
}

/// The parameter list an action encodes to: the action name first, its
/// fields in order, and `format=json` always appended last.
pub open spec fn action_params(a: Action) -> Seq<(Seq<char>, Seq<char>)> {
    match a {
        Action::Query { meta, type_ } => {
            let base = seq![("action"@, "query"@), ("meta"@, meta@)];
            let with_type = match type_ {
                Some(t) => base.push(("type"@, t@)),
                None => base,
            };
            with_type.push(("format"@, "json"@))
        },
        Action::UiQuery { meta, uiprop } => seq![
            ("action"@, "query"@),
            ("meta"@, meta@),
            ("uiprop"@, uiprop@),
            ("format"@, "json"@),
        ],
        Action::CheckToken { token, type_ } => seq![
            ("action"@, "checktoken"@),
            ("token"@, token@),
            ("type"@, type_@),
            ("format"@, "json"@),
        ],
        Action::Login { lgname, lgpassword, lgtoken } => seq![
            ("action"@, "login"@),
            ("lgname"@, lgname@),
            ("lgpassword"@, lgpassword@),
            ("lgtoken"@, lgtoken@),
            ("format"@, "json"@),
        ],
        Action::EditArticle { article, bot, token } => seq![
            ("action"@, "edit"@),
            ("title"@, article.title@),
            ("text"@, article.text@),
            ("summary"@, article.summary@),
            ("bot"@, if bot { "true"@ } else { "false"@ }),
            ("token"@, token@),
            ("format"@, "json"@),
        ],
        Action::Upload { .. } => Seq::<(Seq<char>, Seq<char>)>::empty(),
    }
}

/// The multipart fields of an upload: the action marker, the file part,
/// the file name and the token, in that order.
pub open spec fn upload_fields(filename: Seq<char>, bytes: Seq<u8>, token: Seq<char>) -> Seq<
    FieldV,
> {
    seq![
        FieldV::Text("action"@, "upload"@),
        FieldV::File("file"@, filename, bytes),
        FieldV::Text("filename"@, filename),
        FieldV::Text("token"@, token),
    ]
}

/// The request shape an action maps to: the query family goes out as a
/// GET, the form family as a form-encoded POST, an upload as a multipart
/// POST; every shape carries the given `Cookie` header value.
pub open spec fn request_of(a: Action, cookie: Seq<char>) -> RequestV {
    match a {
        Action::Query { .. } => RequestV::Get { params: action_params(a), cookie },
        Action::UiQuery { .. } => RequestV::Get { params: action_params(a), cookie },
        Action::CheckToken { .. } => RequestV::PostForm { params: action_params(a), cookie },
        Action::Login { .. } => RequestV::PostForm { params: action_params(a), cookie },
        Action::EditArticle { .. } => RequestV::PostForm { params: action_params(a), cookie },
        Action::Upload { filename, bytes, token } => RequestV::PostMultipart {
            fields: upload_fields(filename@, bytes@, token@),
            cookie,
        },
    }
}

/// The preflight probe: an `OPTIONS` request with the single query
/// parameter `Origin=*` and no cookies.
pub open spec fn preflight_shape() -> RequestV {
    RequestV::Options { params: seq![("Origin"@, "*"@)] }
}

/// Build the preflight request sent ahead of every action.
pub fn make_preflight() -> (r: HttpRequest)
    ensures
        r@ == preflight_shape(),
{
    let mut params: Vec<(String, String)> = Vec::new();
    params.push((String::from_str("Origin"), String::from_str("*")));
    let r = HttpRequest::Options { params };
    proof {
        assert(kv_model(params@) =~= seq![("Origin"@, "*"@)]);
    }
    r
}

impl Action {
    /// Encode this action into its concrete request shape, attaching the
    /// given `Cookie` header value.
    pub fn encode(self, cookie: String) -> (r: HttpRequest)
        ensures
            r@ == request_of(self, cookie@),
    {
        let ghost a = self;
        match self {
            Action::Query { meta, type_ } => {
                let mut params: Vec<(String, String)> = Vec::new();
                params.push((String::from_str("action"), String::from_str("query")));
                params.push((String::from_str("meta"), meta));
                match type_ {
                    Some(t) => {
                        params.push((String::from_str("type"), t));
                    },
                    None => {},
                }
                params.push((String::from_str("format"), String::from_str("json")));
                proof {
                    assert(kv_model(params@) =~= action_params(a));
                }
                HttpRequest::Get { params, cookie }
            },
            Action::UiQuery { meta, uiprop } => {
                let mut params: Vec<(String, String)> = Vec::new();
                params.push((String::from_str("action"), String::from_str("query")));
                params.push((String::from_str("meta"), meta));
                params.push((String::from_str("uiprop"), uiprop));
                params.push((String::from_str("format"), String::from_str("json")));
                proof {
                    assert(kv_model(params@) =~= action_params(a));
                }
                HttpRequest::Get { params, cookie }
            },
            Action::CheckToken { token, type_ } => {
                let mut params: Vec<(String, String)> = Vec::new();
                params.push((String::from_str("action"), String::from_str("checktoken")));
                params.push((String::from_str("token"), token));
                params.push((String::from_str("type"), type_));
                params.push((String::from_str("format"), String::from_str("json")));
                proof {
                    assert(kv_model(params@) =~= action_params(a));
                }
                HttpRequest::PostForm { params, cookie }
            },
            Action::Login { lgname, lgpassword, lgtoken } => {
                let mut params: Vec<(String, String)> = Vec::new();
                params.push((String::from_str("action"), String::from_str("login")));
                params.push((String::from_str("lgname"), lgname));
                params.push((String::from_str("lgpassword"), lgpassword));
                params.push((String::from_str("lgtoken"), lgtoken));
                params.push((String::from_str("format"), String::from_str("json")));
                proof {
                    assert(kv_model(params@) =~= action_params(a));
                }
                HttpRequest::PostForm { params, cookie }
            },
            Action::EditArticle { article, bot, token } => {
                let mut params: Vec<(String, String)> = Vec::new();
                params.push((String::from_str("action"), String::from_str("edit")));
                let MwArticle { title, text, summary } = article;
                params.push((String::from_str("title"), title));
                params.push((String::from_str("text"), text));
                params.push((String::from_str("summary"), summary));
                if bot {
                    params.push((String::from_str("bot"), String::from_str("true")));
                } else {
                    params.push((String::from_str("bot"), String::from_str("false")));
                }
                params.push((String::from_str("token"), token));
                params.push((String::from_str("format"), String::from_str("json")));
                proof {
                    assert(kv_model(params@) =~= action_params(a));
                }
                HttpRequest::PostForm { params, cookie }
            },
            Action::Upload { filename, bytes, token } => {
                let mut fields: Vec<MultipartField> = Vec::new();
                fields.push(
                    MultipartField::Text {
                        name: String::from_str("action"),
                        value: String::from_str("upload"),
                    },
                );
                fields.push(
                    MultipartField::File {
                        name: String::from_str("file"),
                        filename: filename.clone(),
                        bytes,
                    },
                );
                fields.push(
                    MultipartField::Text {
                        name: String::from_str("filename"),
                        value: filename,
                    },
                );
                fields.push(MultipartField::Text { name: String::from_str("token"), value: token });
                let r = HttpRequest::PostMultipart { fields, cookie };
                proof {
                    assert(Seq::new(fields@.len(), |i: int| fields@[i]@) =~= upload_fields(
                        a->Upload_filename@,
                        a->Upload_bytes@,
                        a->Upload_token@,
                    ));
                }
                r
            },
        }
    }
}

} // verus!
