use vstd::prelude::*;

use crate::config::Config;

verus! {

/// A JSON document, as carried in the `params`, `result` and `data` members.
#[verifier::external_type_specification]
#[verifier::external_body]
pub struct ExValue(serde_json::Value);

/// Version tag of the protocol, sent in every message.
pub const JSONRPC_VERSION: &'static str = "2.0";

/// Error code for a request that is not valid JSON.
pub const PARSE_ERROR: i32 = -32700;
/// Error code for a request naming no known method.
pub const METHOD_NOT_FOUND: i32 = -32601;
/// Error code for a request whose parameters do not fit its method.
pub const INVALID_PARAMS: i32 = -32602;
/// Error code for a failure inside the compositor.
pub const INTERNAL_ERROR: i32 = -32603;

/// List all windows with their workspace, column and position.
pub const METHOD_LIST_WINDOWS: &'static str = "list-windows";
/// Scroll a column by a delta.
pub const METHOD_SCROLL: &'static str = "scroll";
/// Focus a window by identifier.
pub const METHOD_FOCUS_WINDOW: &'static str = "focus-window";
/// Show the current configuration.
pub const METHOD_GET_CONFIG: &'static str = "get-config";
/// Replace the configuration at run time.
pub const METHOD_SET_CONFIG: &'static str = "set-config";
/// List all workspaces with their windows.
pub const METHOD_GET_WORKSPACES: &'static str = "get-workspaces";
/// Switch to a workspace.
pub const METHOD_SWITCH_WORKSPACE: &'static str = "switch-workspace";

/// A request: protocol version, identifier, method name and optional
/// parameters.
pub struct JsonRpcRequest {
    pub jsonrpc: String,
    pub id: u64,
    pub method: String,
    pub params: Option<serde_json::Value>,
}

/// A response: protocol version, the identifier of the request it answers,
/// and either a result or an error.
pub struct JsonRpcResponse {
    pub jsonrpc: String,
    pub id: u64,
    pub result: Option<serde_json::Value>,
    pub error: Option<JsonRpcError>,
}

/// An error object: code, message and optional data.
pub struct JsonRpcError {
    pub code: i32,
    pub message: String,
    pub data: Option<serde_json::Value>,
}

impl JsonRpcError {
    /// An error with `code` and `message` and no data.
    pub fn new(code: i32, message: &str) -> (e: JsonRpcError)
        ensures
            e.code == code,
            e.message@ == message@,
            e.data is None,
    {
        JsonRpcError { code, message: String::from_str(message), data: None }
    }

    /// The error for parameters that do not fit the method.
    pub fn invalid_params(msg: &str) -> (e: JsonRpcError)
        ensures
            e.code == INVALID_PARAMS,
            e.message@ == msg@,
            e.data is None,
    {
        Self::new(INVALID_PARAMS, msg)
    }

    /// The error for an unknown method; the message names it.
    pub fn method_not_found(method: &str) -> (e: JsonRpcError)
        ensures
            e.code == METHOD_NOT_FOUND,
            e.message@ == "method not found: "@ + method@,
            e.data is None,
    {
        let message = String::from_str("method not found: ").concat(method);
        JsonRpcError { code: METHOD_NOT_FOUND, message, data: None }
    }

    /// The error for a failure inside the compositor.
    pub fn internal_error(msg: &str) -> (e: JsonRpcError)
        ensures
            e.code == INTERNAL_ERROR,
            e.message@ == msg@,
            e.data is None,
    {
        Self::new(INTERNAL_ERROR, msg)
    }
}

impl JsonRpcResponse {
    /// A successful response to request `id` carrying `result`.
    pub fn success(id: u64, result: serde_json::Value) -> (r: JsonRpcResponse)
        ensures
            r.jsonrpc@ == JSONRPC_VERSION@,
            r.id == id,
            r.result == Some(result),
            r.error is None,
    {
        JsonRpcResponse {
            jsonrpc: String::from_str(JSONRPC_VERSION),
            id,
            result: Some(result),
            error: None,
        }
    }

    /// A failed response to request `id` carrying `error`.
    pub fn failure(id: u64, error: JsonRpcError) -> (r: JsonRpcResponse)
        ensures
            r.jsonrpc@ == JSONRPC_VERSION@,
            r.id == id,
            r.result is None,
            r.error == Some(error),
    {
        JsonRpcResponse { jsonrpc: String::from_str(JSONRPC_VERSION), id, result: None, error: Some(error) }
    }
}

/// Parameters of `focus-window`.
pub struct FocusWindowParams {
    pub id: usize,
}

/// The configuration as the protocol carries it.
#[derive(Clone, Copy, Debug, PartialEq, Eq, Structural)]
pub struct ConfigData {
    pub window_height: u32,
    pub gaps: u32,
    pub visible_windows: u32,
    pub column_count: u32,
}

/// Column count reported when a message leaves it out: the layout has two.
pub fn default_column_count() -> (n: u32)
    ensures
        n == 2,
{
    2
}

/// The protocol form of `config`, with the default column count.
pub open spec fn spec_config_data(config: Config) -> ConfigData {
    ConfigData {
        window_height: config.window_height,
        gaps: config.gaps,
        visible_windows: config.visible_windows,
        column_count: 2,
    }
}

/// The settings a configuration message carries.
pub open spec fn spec_to_config(data: ConfigData) -> Config {
    Config {
        window_height: data.window_height,
        gaps: data.gaps,
        visible_windows: data.visible_windows,
    }
}

impl ConfigData {
    /// The protocol form of `config`, reporting the default column count.
    pub fn from_config(config: &Config) -> (d: ConfigData)
        ensures
            d == spec_config_data(*config),
            d.window_height == config.window_height,
            d.gaps == config.gaps,
            d.visible_windows == config.visible_windows,
            d.column_count == 2,
    {
        ConfigData {
            window_height: config.window_height,
            gaps: config.gaps,
            visible_windows: config.visible_windows,
            column_count: default_column_count(),
        }
    }

    /// The settings this message carries; the column count is fixed by the
    /// layout and is not a setting.
    pub fn to_config(&self) -> (c: Config)
        ensures
            c == spec_to_config(*self),
            c.window_height == self.window_height,
            c.gaps == self.gaps,
            c.visible_windows == self.visible_windows,
    {
        Config {
            window_height: self.window_height,
            gaps: self.gaps,
            visible_windows: self.visible_windows,
        }
    }
}

/// Parameters of `set-config`.
pub struct SetConfigParams {
    pub config: ConfigData,
}

/// Parameters of `switch-workspace`.
pub struct SwitchWorkspaceParams {
    pub id: usize,
}

/// The methods the control socket serves.
#[derive(Clone, Copy, Debug, PartialEq, Eq, Structural)]
pub enum IpcMethod {
    ListWindows,
    Scroll,
    FocusWindow,
    GetConfig,
    SetConfig,
    GetWorkspaces,
    SwitchWorkspace,
}

/// The method named `name`, if it is one the socket serves.
pub open spec fn spec_method_named(name: Seq<char>) -> Option<IpcMethod> {
    if name == METHOD_LIST_WINDOWS@ {
        Some(IpcMethod::ListWindows)
    } else if name == METHOD_SCROLL@ {
        Some(IpcMethod::Scroll)
    } else if name == METHOD_FOCUS_WINDOW@ {
        Some(IpcMethod::FocusWindow)
    } else if name == METHOD_GET_CONFIG@ {
        Some(IpcMethod::GetConfig)
    } else if name == METHOD_SET_CONFIG@ {
        Some(IpcMethod::SetConfig)
    } else if name == METHOD_GET_WORKSPACES@ {
        Some(IpcMethod::GetWorkspaces)
    } else if name == METHOD_SWITCH_WORKSPACE@ {
        Some(IpcMethod::SwitchWorkspace)
    } else {
        None
    }
}

/// Whether two strings hold the same characters.
pub fn same_text(a: &str, b: &str) -> (r: bool)
    ensures
        r == (a@ == b@),
{
    let n = a.unicode_len();
    if n != b.unicode_len() {
        return false;
    }
    let mut i: usize = 0;
    while i < n
        invariant
            0 <= i <= n,
            n == a@.len(),
            n == b@.len(),
            forall|k: int| 0 <= k < i ==> a@[k] == b@[k],
        decreases n - i,
    {
        if a.get_char(i) != b.get_char(i) {
            return false;
        }
        i += 1;
    }
    assert(a@ =~= b@);
    true
}

/// The method named `name`, if it is one the socket serves.
pub fn method_named(name: &str) -> (m: Option<IpcMethod>)
    ensures
        m == spec_method_named(name@),
{
    if same_text(name, METHOD_LIST_WINDOWS) {
        Some(IpcMethod::ListWindows)
    } else if same_text(name, METHOD_SCROLL) {
        Some(IpcMethod::Scroll)
    } else if same_text(name, METHOD_FOCUS_WINDOW) {
        Some(IpcMethod::FocusWindow)
    } else if same_text(name, METHOD_GET_CONFIG) {
        Some(IpcMethod::GetConfig)
    } else if same_text(name, METHOD_SET_CONFIG) {
        Some(IpcMethod::SetConfig)
    } else if same_text(name, METHOD_GET_WORKSPACES) {
        Some(IpcMethod::GetWorkspaces)
    } else if same_text(name, METHOD_SWITCH_WORKSPACE) {
        Some(IpcMethod::SwitchWorkspace)
    } else {
        None
    }
}

/// Routes a request: the method it names when the socket serves it, or else
/// the failure response that reports the unknown method.
pub fn route(request: &JsonRpcRequest) -> (r: Result<IpcMethod, JsonRpcResponse>)
    ensures
        spec_method_named(request.method@) matches Some(m) ==> r == Ok::<
            IpcMethod,
            JsonRpcResponse,
        >(m),
        spec_method_named(request.method@) is None ==> (r matches Err(resp) && {
            &&& resp.id == request.id
            &&& resp.jsonrpc@ == JSONRPC_VERSION@
            &&& resp.result is None
            &&& resp.error matches Some(e) && {
                &&& e.code == METHOD_NOT_FOUND
                &&& e.message@ == "method not found: "@ + request.method@
                &&& e.data is None
            }
        }),
{
    match method_named(request.method.as_str()) {
        Some(m) => Ok(m),
        None => Err(
            JsonRpcResponse::failure(
                request.id,
                JsonRpcError::method_not_found(request.method.as_str()),
            ),
        ),
    }
}

} // verus!
