//! MCP server state machine: tracks initialization and session state.

use crate::protocol::{InitializeResult, ServerCapabilities, ServerInfo, ToolsCapability};
use crate::protocol::{PROTOCOL_VERSION, SERVER_NAME, SERVER_VERSION};
use std::sync::Arc;
use vstd::prelude::*;

verus! {

/// How far a session has got.
#[derive(Debug, Clone, Copy, PartialEq, Eq, Structural)]
pub enum ServerState {
    /// Waiting for the client's `initialize` request.
    Uninitialized,
    /// `initialize` received, `initialized` notification not yet sent.
    Initializing,
    /// Fully initialized; ready to handle requests.
    Ready,
}

/// The state of a server, with the router that finds its tools.
pub struct McpServerState<R> {
    pub state: ServerState,
    pub router: Arc<R>,
}

impl<R> McpServerState<R> {
    /// The session is fully initialized.
    pub open spec fn ready(self) -> bool {
        self.state == ServerState::Ready
    }

    /// The state of a server that no client has talked to yet.
    pub fn new(router: Arc<R>) -> (s: Self)
        ensures
            s.state == ServerState::Uninitialized,
            s.router == router,
            !s.ready(),
    {
        McpServerState { state: ServerState::Uninitialized, router }
    }

    /// The answer to an `initialize` request. It does not depend on the state.
    pub fn build_initialize_result() -> (r: InitializeResult)
        ensures
            r.protocol_version@ == PROTOCOL_VERSION@,
            r.capabilities.tools == Some(ToolsCapability { list_changed: Some(true) }),
            r.server_info.name@ == SERVER_NAME@,
            r.server_info.version@ == SERVER_VERSION@,
    {
        InitializeResult {
            protocol_version: PROTOCOL_VERSION.to_string(),
            capabilities: ServerCapabilities {
                tools: Some(ToolsCapability { list_changed: Some(true) }),
            },
            server_info: ServerInfo {
                name: SERVER_NAME.to_string(),
                version: SERVER_VERSION.to_string(),
            },
        }
    }

    /// Whether the session is fully initialized.
    pub fn is_ready(&self) -> (ready: bool)
        ensures
            ready == self.ready(),
    {
        self.state == ServerState::Ready
    }
}

/// A session is ready in one of its three states, the last.
pub proof fn law_ready_after_initialization_alone<R>(server: McpServerState<R>)
    ensures
        server.state is Uninitialized ==> !server.ready(),
        server.state is Initializing ==> !server.ready(),
        server.state is Ready ==> server.ready(),
{
}

} // verus!
