use mwpack::json::{parse_json, Json};
use mwpack::protocol::{check_plain, decode_result, decode_token, decode_user, MwError};

#[test]
fn parse_json_builds_the_model() {
    let doc = parse_json(r#"{"a":[1,"two",true,null],"b":{"c":-5}}"#).unwrap();
    let a = doc.get("a").unwrap();
    match a {
        Json::Arr(items) => {
            assert!(matches!(items[0], Json::Int(1)));
            assert!(matches!(&items[1], Json::Str(s) if s == "two"));
            assert!(matches!(items[2], Json::Bool(true)));
            assert!(matches!(items[3], Json::Null));
        },
        _ => panic!("field a must be an array"),
    }
    let c = doc.get("b").unwrap().get("c").unwrap();
    assert_eq!(c.int_value(), Some(-5));
    assert!(parse_json("{{{").is_none());
}

#[test]
fn decode_token_reads_the_nested_token() {
    let t = decode_token(r#"{"query":{"tokens":{"logintoken":"abc+\\"}}}"#, "logintoken");
    assert_eq!(t.unwrap(), "abc+\\");
}

#[test]
fn decode_token_on_garbage_is_a_decode_error() {
    assert!(matches!(decode_token("not json", "logintoken"), Err(MwError::Decode)));
    assert!(matches!(
        decode_token(r#"{"query":{"tokens":{}}}"#, "logintoken"),
        Err(MwError::Decode)
    ));
}

#[test]
fn decode_token_prefers_the_error_envelope() {
    match decode_token(
        r#"{"error":{"code":"readapidenied","info":"denied"},"query":{"tokens":{"logintoken":"x"}}}"#,
        "logintoken",
    ) {
        Err(MwError::Api(e)) => {
            assert_eq!(e.code, "readapidenied");
            assert_eq!(e.info, "denied");
        },
        _ => panic!("an error envelope must beat the token shape"),
    }
}

#[test]
fn decode_result_reads_the_result_string() {
    assert_eq!(
        decode_result(r#"{"login":{"result":"NeedToken"}}"#, "login").unwrap(),
        "NeedToken"
    );
    assert!(matches!(
        decode_result(r#"{"login":{}}"#, "login"),
        Err(MwError::Decode)
    ));
}

#[test]
fn decode_user_reads_the_record() {
    let u = decode_user(
        r#"{"query":{"userinfo":{"id":7,"name":"N","rights":["read"]}}}"#,
    )
    .unwrap();
    assert_eq!(u.id, 7);
    assert_eq!(u.name, "N");
    assert_eq!(u.rights, vec!["read".to_string()]);
}

#[test]
fn decode_user_rejects_non_string_rights() {
    assert!(matches!(
        decode_user(r#"{"query":{"userinfo":{"id":7,"name":"N","rights":["read",5]}}}"#),
        Err(MwError::Decode)
    ));
}

#[test]
fn check_plain_reports_only_envelopes() {
    assert!(check_plain("anything, even garbage").is_none());
    assert!(check_plain(r#"{"edit":{"result":"Success"}}"#).is_none());
    let e = check_plain(r#"{"error":{"code":"c","info":"i"}}"#).unwrap();
    assert_eq!(e.code, "c");
    assert_eq!(e.info, "i");
}
