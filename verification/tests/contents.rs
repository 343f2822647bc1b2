use iaiken::contents::{
    write_bundle, write_bundles, write_text_array, ExecuteReply, ExecuteRequest, ShutdownReply,
    ShutdownRequest, Status,
};
use iaiken::json::{bool_value, field, null_value, number_value, text_value, to_bytes, write_array, write_object};
use iaiken::text::string_of;

#[test]
fn execute_request_needs_every_member() {
    let full = br#"{"code":"1","silent":true,"store_history":false,"user_expressions":{"a":"x"},"allow_stdin":true,"stop_on_error":false}"#;
    let r = ExecuteRequest::from_content(full).unwrap();
    assert_eq!(r.code, "1");
    assert!(r.silent && !r.store_history && r.allow_stdin && !r.stop_on_error);
    assert_eq!(r.user_expressions, vec![("a".to_string(), "x".to_string())]);
    for missing in [
        &br#"{"silent":true,"store_history":false,"user_expressions":{},"allow_stdin":true,"stop_on_error":false}"#[..],
        &br#"{"code":"1","store_history":false,"user_expressions":{},"allow_stdin":true,"stop_on_error":false}"#[..],
        &br#"{"code":"1","silent":true,"store_history":false,"allow_stdin":true,"stop_on_error":false}"#[..],
        &br#"{"code":"1","silent":true,"store_history":false,"user_expressions":{},"allow_stdin":true}"#[..],
        &br#"{"code":1,"silent":true,"store_history":false,"user_expressions":{},"allow_stdin":true,"stop_on_error":false}"#[..],
        &br#"{"code":"1","silent":"no","store_history":false,"user_expressions":{},"allow_stdin":true,"stop_on_error":false}"#[..],
        &b"{}"[..],
        &b"[]"[..],
        &b""[..],
    ] {
        assert!(ExecuteRequest::from_content(missing).is_none());
    }
}

#[test]
fn user_expressions_keep_the_strings() {
    let content = br#"{"code":"","silent":false,"store_history":false,"user_expressions":{"z":"last","n":1,"a":"first","o":{}},"allow_stdin":false,"stop_on_error":false}"#;
    let r = ExecuteRequest::from_content(content).unwrap();
    assert_eq!(
        r.user_expressions,
        vec![("a".to_string(), "first".to_string()), ("z".to_string(), "last".to_string())]
    );
    let null = br#"{"code":"","silent":false,"store_history":false,"user_expressions":null,"allow_stdin":false,"stop_on_error":false}"#;
    assert!(ExecuteRequest::from_content(null).unwrap().user_expressions.is_empty());
}

#[test]
fn execute_reply_is_tagged_by_status() {
    let ok = ExecuteReply::Success { execution_count: 7, user_expressions: None };
    assert_eq!(String::from_utf8(ok.to_json()).unwrap(), "{\"status\":\"ok\",\"execution_count\":7}");
    assert_eq!(ok.status(), Status::Success);
    assert_eq!(ok.execution_count(), 7);
    let with = ExecuteReply::Success {
        execution_count: 4294967295,
        user_expressions: Some(vec![("a".to_string(), "1 : Int".to_string())]),
    };
    assert_eq!(
        String::from_utf8(with.to_json()).unwrap(),
        "{\"status\":\"ok\",\"execution_count\":4294967295,\"user_expressions\":{\"a\":{\"text/plain\":\"1 : Int\"}}}"
    );
    let error = ExecuteReply::Error {
        execution_count: 0,
        ename: "AikenError".to_string(),
        evalue: "bad \"thing\"".to_string(),
        traceback: vec!["bad \"thing\"".to_string(), "\tat x".to_string()],
    };
    assert_eq!(
        String::from_utf8(error.to_json()).unwrap(),
        "{\"status\":\"error\",\"execution_count\":0,\"ename\":\"AikenError\",\"evalue\":\"bad \\\"thing\\\"\",\"traceback\":[\"bad \\\"thing\\\"\",\"\\tat x\"]}"
    );
    assert_eq!(error.status(), Status::Error);
    assert_eq!(error.execution_count(), 0);
}

#[test]
fn shutdown_contents() {
    assert_eq!(ShutdownRequest::from_content(b"{\"restart\":true}"), Some(ShutdownRequest { restart: true }));
    assert_eq!(ShutdownRequest::from_content(b"{\"restart\":false}"), Some(ShutdownRequest { restart: false }));
    assert_eq!(ShutdownRequest::from_content(b"{}"), None);
    assert_eq!(ShutdownRequest::from_content(b"{\"restart\":0}"), None);
    assert_eq!(ShutdownReply { restart: true }.to_json(), b"{\"restart\":true}".to_vec());
    assert_eq!(ShutdownReply { restart: false }.to_json(), b"{\"restart\":false}".to_vec());
}

#[test]
fn json_is_written_compactly_with_escapes() {
    assert_eq!(string_of(&text_value("a\"b\\c\n\u{1}\u{e9}")), "\"a\\\"b\\\\c\\n\\u0001\u{e9}\"");
    assert_eq!(string_of(&bool_value(true)), "true");
    assert_eq!(string_of(&bool_value(false)), "false");
    assert_eq!(string_of(&number_value(0)), "0");
    assert_eq!(string_of(&number_value(1234567890)), "1234567890");
    assert_eq!(string_of(&null_value()), "null");
    assert_eq!(string_of(&write_array(&Vec::new())), "[]");
    assert_eq!(string_of(&write_array(&vec![number_value(1), null_value()])), "[1,null]");
    assert_eq!(string_of(&write_object(&Vec::new())), "{}");
    let object = write_object(&vec![field("k\"", number_value(1)), field("b", bool_value(true))]);
    assert_eq!(string_of(&object), "{\"k\\\"\":1,\"b\":true}");
    assert_eq!(to_bytes(&['h', '\u{e9}']), "h\u{e9}".as_bytes().to_vec());
}

#[test]
fn bundles_and_text_arrays() {
    assert_eq!(string_of(&write_bundle("3 : Int")), "{\"text/plain\":\"3 : Int\"}");
    assert_eq!(string_of(&write_bundles(&Vec::new())), "{}");
    assert_eq!(
        string_of(&write_bundles(&vec![
            ("a".to_string(), "1".to_string()),
            ("b".to_string(), "2".to_string())
        ])),
        "{\"a\":{\"text/plain\":\"1\"},\"b\":{\"text/plain\":\"2\"}}"
    );
    assert_eq!(string_of(&write_text_array(&vec!["x".to_string(), "".to_string()])), "[\"x\",\"\"]");
}
