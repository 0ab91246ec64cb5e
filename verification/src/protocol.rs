//! The messages of the protocol, as far as the server builds them itself.

use vstd::prelude::*;

verus! {

/// The version of the protocol that the server offers.
pub const PROTOCOL_VERSION: &'static str = "2024-11-05";

/// The name under which the server introduces itself.
pub const SERVER_NAME: &'static str = "konnect";

/// The version under which the server introduces itself: that of the package.
pub const SERVER_VERSION: &'static str = "0.1.0";

/// The JSON-RPC error code for a message that is not JSON.
pub const PARSE_ERROR: i64 = -32700;

/// The answer to an `initialize` request.
#[derive(Debug)]
pub struct InitializeResult {
    pub protocol_version: String,
    pub capabilities: ServerCapabilities,
    pub server_info: ServerInfo,
}

/// What the server can do beyond answering requests.
#[derive(Debug)]
pub struct ServerCapabilities {
    pub tools: Option<ToolsCapability>,
}

/// What the server can do with its tools.
#[derive(Debug)]
pub struct ToolsCapability {
    /// Whether the server announces changes of its list of tools.
    pub list_changed: Option<bool>,
}

/// How the server introduces itself.
#[derive(Debug)]
pub struct ServerInfo {
    pub name: String,
    pub version: String,
}

/// Why a request failed.
#[derive(Debug)]
pub struct JsonRpcError {
    pub code: i64,
    pub message: String,
    pub data: Option<serde_json::Value>,
}

/// The answer to a request: a result or an error.
#[derive(Debug)]
pub struct JsonRpcResponse {
    /// The id of the request that is answered. `None` stands for the JSON value `null`.
    pub id: Option<serde_json::Value>,
    pub result: Option<serde_json::Value>,
    pub error: Option<JsonRpcError>,
}

impl JsonRpcResponse {
    /// The answer to the request `id` that says it failed with `error`.
    pub fn error(id: Option<serde_json::Value>, error: JsonRpcError) -> (r: Self)
        ensures
            r == (JsonRpcResponse { id, result: None, error: Some(error) }),
    {
        JsonRpcResponse { id, result: None, error: Some(error) }
    }

    /// This is the answer to a message that is not JSON, where `reason` says what is wrong with
    /// it: an error with the code `PARSE_ERROR` and nothing else, for no known request.
    pub open spec fn reports_parse_error(self, reason: Seq<char>) -> bool {
        &&& self.id is None
        &&& self.result is None
        &&& self.error matches Some(error) && {
            &&& error.code == PARSE_ERROR
            &&& error.message@ == "Parse error: "@ + reason
            &&& error.data is None
        }
    }
}

} // verus!
