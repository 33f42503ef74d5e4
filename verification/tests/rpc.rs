use pincher_core::rpc::{
    engine_failure, handle_request_text, parse_failure, route_request, RpcCall, INTERNAL_ERROR, INVALID_PARAMS, METHOD_NOT_FOUND,
    PARSE_ERROR,
};

#[test]
fn methods_are_routed() {
    assert!(matches!(route_request("status", "", ""), Ok(RpcCall::Status)));
    assert!(matches!(route_request("list", "x", "y"), Ok(RpcCall::List)));
    match route_request("teach", "list files", "ls") {
        Ok(RpcCall::Teach { intent, action }) => assert_eq!((intent.as_str(), action.as_str()), ("list files", "ls")),
        other => panic!("unexpected {other:?}"),
    }
    match route_request("match", "list files", "") {
        Ok(RpcCall::Match { intent }) => assert_eq!(intent, "list files"),
        other => panic!("unexpected {other:?}"),
    }
    match route_request("do", "list files", "") {
        Ok(RpcCall::Do { intent }) => assert_eq!(intent, "list files"),
        other => panic!("unexpected {other:?}"),
    }
}

#[test]
fn missing_parameters_are_refused() {
    let f = route_request("teach", "list files", "").unwrap_err();
    assert_eq!(f.code, INVALID_PARAMS);
    assert_eq!(f.message, "Missing 'intent' or 'action' params");
    let f = route_request("do", "", "ls").unwrap_err();
    assert_eq!(f.code, -32602);
    assert_eq!(f.message, "Missing 'intent' param");
}

#[test]
fn unknown_methods_are_refused() {
    let f = route_request("mature", "", "").unwrap_err();
    assert_eq!(f.code, METHOD_NOT_FOUND);
    assert_eq!(f.code, -32601);
    assert_eq!(f.message, "Method not found: mature");
    assert_eq!(route_request("", "", "").unwrap_err().message, "Method not found: ");
}

#[test]
fn failures_carry_their_detail() {
    let p = parse_failure("expected value at line 1");
    assert_eq!(p.code, PARSE_ERROR);
    assert_eq!(p.code, -32700);
    assert_eq!(p.message, "Parse error: expected value at line 1");
    let call = RpcCall::Teach { intent: "a".to_string(), action: "b".to_string() };
    let e = engine_failure(&call, "disk full");
    assert_eq!(e.code, INTERNAL_ERROR);
    assert_eq!(e.message, "Teach error: disk full");
    assert_eq!(engine_failure(&RpcCall::List, "x").message, "List error: x");
}

#[test]
fn request_text_is_read_and_routed() {
    let (id, r) = handle_request_text(r#"{"jsonrpc":"2.0","id":7,"method":"teach","params":{"intent":"list files","action":"ls -la"}}"#);
    assert_eq!(id.as_deref(), Some("7"));
    match r {
        Ok(RpcCall::Teach { intent, action }) => assert_eq!((intent.as_str(), action.as_str()), ("list files", "ls -la")),
        other => panic!("unexpected {other:?}"),
    }
    let (id, r) = handle_request_text(r#"{"id":"abc","method":"status"}"#);
    assert_eq!(id.as_deref(), Some("\"abc\""));
    assert!(matches!(r, Ok(RpcCall::Status)));
}

#[test]
fn request_text_that_is_not_json_is_a_parse_error() {
    let (id, r) = handle_request_text("{not json");
    assert!(id.is_none());
    let f = r.unwrap_err();
    assert_eq!(f.code, PARSE_ERROR);
    assert!(f.message.starts_with("Parse error: "));
    assert!(f.message.len() > "Parse error: ".len());
}

#[test]
fn request_text_without_method_or_params() {
    // No method: routed as the empty method name, and no id.
    let (id, r) = handle_request_text(r#"{"params":{}}"#);
    assert!(id.is_none());
    let f = r.unwrap_err();
    assert_eq!(f.code, METHOD_NOT_FOUND);
    assert_eq!(f.message, "Method not found: ");
    // A parameter that is not a string counts as missing.
    let (id, r) = handle_request_text(r#"{"id":null,"method":"do","params":{"intent":5}}"#);
    assert_eq!(id.as_deref(), Some("null"));
    let f = r.unwrap_err();
    assert_eq!(f.code, INVALID_PARAMS);
    assert_eq!(f.message, "Missing 'intent' param");
    // JSON that is not an object has no members at all.
    let (id, r) = handle_request_text("[1, 2]");
    assert!(id.is_none());
    assert_eq!(r.unwrap_err().message, "Method not found: ");
}
