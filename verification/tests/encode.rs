use mwpack::action::{Action, HttpRequest, MultipartField, MwArticle, make_preflight};

fn pairs(params: &[(String, String)]) -> Vec<(&str, &str)> {
    params.iter().map(|(k, v)| (k.as_str(), v.as_str())).collect()
}

#[test]
fn preflight_is_options_with_origin() {
    match make_preflight() {
        HttpRequest::Options { params } => {
            assert_eq!(pairs(&params), vec![("Origin", "*")]);
        },
        _ => panic!("preflight must be an OPTIONS request"),
    }
}

#[test]
fn token_query_encodes_as_get() {
    let a = Action::Query { meta: "tokens".to_string(), type_: Some("login".to_string()) };
    match a.encode("s=1".to_string()) {
        HttpRequest::Get { params, cookie } => {
            assert_eq!(cookie, "s=1");
            assert_eq!(
                pairs(&params),
                vec![
                    ("action", "query"),
                    ("meta", "tokens"),
                    ("type", "login"),
                    ("format", "json"),
                ]
            );
        },
        _ => panic!("a query must encode as a GET"),
    }
}

#[test]
fn typeless_query_omits_type() {
    let a = Action::Query { meta: "tokens".to_string(), type_: None };
    match a.encode(String::new()) {
        HttpRequest::Get { params, .. } => {
            assert_eq!(
                pairs(&params),
                vec![("action", "query"), ("meta", "tokens"), ("format", "json")]
            );
        },
        _ => panic!("a query must encode as a GET"),
    }
}

#[test]
fn login_encodes_as_form_post() {
    let a = Action::Login {
        lgname: "user".to_string(),
        lgpassword: "pass".to_string(),
        lgtoken: "tok".to_string(),
    };
    match a.encode(String::new()) {
        HttpRequest::PostForm { params, .. } => {
            assert_eq!(
                pairs(&params),
                vec![
                    ("action", "login"),
                    ("lgname", "user"),
                    ("lgpassword", "pass"),
                    ("lgtoken", "tok"),
                    ("format", "json"),
                ]
            );
        },
        _ => panic!("a login must encode as a form POST"),
    }
}

#[test]
fn check_token_encodes_as_form_post() {
    let a = Action::CheckToken { token: "tok".to_string(), type_: "csrf".to_string() };
    match a.encode(String::new()) {
        HttpRequest::PostForm { params, .. } => {
            assert_eq!(
                pairs(&params),
                vec![
                    ("action", "checktoken"),
                    ("token", "tok"),
                    ("type", "csrf"),
                    ("format", "json"),
                ]
            );
        },
        _ => panic!("a token check must encode as a form POST"),
    }
}

#[test]
fn edit_encodes_as_form_post_with_bot_flag() {
    let a = Action::EditArticle {
        article: MwArticle {
            title: "T".to_string(),
            text: "body".to_string(),
            summary: "sum".to_string(),
        },
        bot: true,
        token: "tok".to_string(),
    };
    match a.encode("SID=1".to_string()) {
        HttpRequest::PostForm { params, cookie } => {
            assert_eq!(cookie, "SID=1");
            assert_eq!(
                pairs(&params),
                vec![
                    ("action", "edit"),
                    ("title", "T"),
                    ("text", "body"),
                    ("summary", "sum"),
                    ("bot", "true"),
                    ("token", "tok"),
                    ("format", "json"),
                ]
            );
        },
        _ => panic!("an edit must encode as a form POST"),
    }
}

#[test]
fn upload_encodes_as_multipart() {
    let a = Action::Upload {
        filename: "thumb.jpg".to_string(),
        bytes: vec![1, 2, 3],
        token: "tok".to_string(),
    };
    match a.encode(String::new()) {
        HttpRequest::PostMultipart { fields, .. } => {
            assert_eq!(fields.len(), 4);
            match &fields[0] {
                MultipartField::Text { name, value } => {
                    assert_eq!(name, "action");
                    assert_eq!(value, "upload");
                },
                _ => panic!("first field must be the action marker"),
            }
            match &fields[1] {
                MultipartField::File { name, filename, bytes } => {
                    assert_eq!(name, "file");
                    assert_eq!(filename, "thumb.jpg");
                    assert_eq!(bytes, &vec![1, 2, 3]);
                },
                _ => panic!("second field must be the file"),
            }
            match &fields[2] {
                MultipartField::Text { name, value } => {
                    assert_eq!(name, "filename");
                    assert_eq!(value, "thumb.jpg");
                },
                _ => panic!("third field must be the file name"),
            }
            match &fields[3] {
                MultipartField::Text { name, value } => {
                    assert_eq!(name, "token");
                    assert_eq!(value, "tok");
                },
                _ => panic!("fourth field must be the token"),
            }
        },
        _ => panic!("an upload must encode as a multipart POST"),
    }
}

#[test]
fn user_info_query_encodes_as_get() {
    let a = Action::UiQuery {
        meta: "userinfo".to_string(),
        uiprop: "rights|hasmsg".to_string(),
    };
    match a.encode(String::new()) {
        HttpRequest::Get { params, .. } => {
            assert_eq!(
                pairs(&params),
                vec![
                    ("action", "query"),
                    ("meta", "userinfo"),
                    ("uiprop", "rights|hasmsg"),
                    ("format", "json"),
                ]
            );
        },
        _ => panic!("a user-info query must encode as a GET"),
    }
}
