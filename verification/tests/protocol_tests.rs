use tendril::config::Config;
use tendril::protocol::{
    default_column_count, method_named, route, same_text, ConfigData, IpcMethod, JsonRpcError,
    JsonRpcRequest, JsonRpcResponse, INTERNAL_ERROR, INVALID_PARAMS, METHOD_GET_CONFIG,
    METHOD_LIST_WINDOWS, METHOD_NOT_FOUND, METHOD_SWITCH_WORKSPACE,
};

fn request(method: &str) -> JsonRpcRequest {
    JsonRpcRequest { jsonrpc: "2.0".to_string(), id: 7, method: method.to_string(), params: None }
}

#[test]
fn error_constructors() {
    let e = JsonRpcError::new(-32700, "parse error: eof");
    assert_eq!(e.code, -32700);
    assert_eq!(e.message, "parse error: eof");
    assert!(e.data.is_none());
    assert_eq!(JsonRpcError::invalid_params("bad").code, INVALID_PARAMS);
    assert_eq!(INVALID_PARAMS, -32602);
    let e = JsonRpcError::internal_error("compositor busy, try again");
    assert_eq!(e.code, INTERNAL_ERROR);
    assert_eq!(e.code, -32603);
    assert_eq!(e.message, "compositor busy, try again");
    let e = JsonRpcError::method_not_found("frobnicate");
    assert_eq!(e.code, METHOD_NOT_FOUND);
    assert_eq!(e.code, -32601);
    assert_eq!(e.message, "method not found: frobnicate");
}

#[test]
fn responses_carry_result_or_error() {
    let ok = JsonRpcResponse::success(3, serde_json::Value::Bool(true));
    assert_eq!(ok.jsonrpc, "2.0");
    assert_eq!(ok.id, 3);
    assert_eq!(ok.result, Some(serde_json::Value::Bool(true)));
    assert!(ok.error.is_none());
    let err = JsonRpcResponse::failure(4, JsonRpcError::invalid_params("x"));
    assert_eq!(err.jsonrpc, "2.0");
    assert_eq!(err.id, 4);
    assert!(err.result.is_none());
    assert_eq!(err.error.unwrap().code, INVALID_PARAMS);
}

#[test]
fn routing_known_and_unknown_methods() {
    assert_eq!(method_named(METHOD_LIST_WINDOWS), Some(IpcMethod::ListWindows));
    assert_eq!(method_named("get-config"), Some(IpcMethod::GetConfig));
    assert_eq!(method_named("scroll"), Some(IpcMethod::Scroll));
    assert_eq!(method_named("focus-window"), Some(IpcMethod::FocusWindow));
    assert_eq!(method_named("set-config"), Some(IpcMethod::SetConfig));
    assert_eq!(method_named("get-workspaces"), Some(IpcMethod::GetWorkspaces));
    assert_eq!(method_named(METHOD_SWITCH_WORKSPACE), Some(IpcMethod::SwitchWorkspace));
    assert_eq!(method_named("list-window"), None);
    assert_eq!(method_named(""), None);
    match route(&request(METHOD_GET_CONFIG)) {
        Ok(m) => assert_eq!(m, IpcMethod::GetConfig),
        Err(_) => panic!("get-config is served"),
    }
    match route(&request("bogus")) {
        Ok(_) => panic!("bogus is not served"),
        Err(resp) => {
            assert_eq!(resp.id, 7);
            assert!(resp.result.is_none());
            let e = resp.error.unwrap();
            assert_eq!(e.code, -32601);
            assert_eq!(e.message, "method not found: bogus");
        }
    }
}

#[test]
fn same_text_compares_characters() {
    assert!(same_text("abc", "abc"));
    assert!(!same_text("abc", "abd"));
    assert!(!same_text("abc", "ab"));
    assert!(same_text("", ""));
    assert!(same_text("héllo", "héllo"));
}

#[test]
fn config_data_round_trip() {
    let config = Config { window_height: 640, gaps: 4, visible_windows: 3 };
    let data = ConfigData::from_config(&config);
    assert_eq!(data.column_count, 2);
    assert_eq!(data.window_height, 640);
    assert_eq!(data.to_config(), config);
    assert_eq!(default_column_count(), 2);
}
