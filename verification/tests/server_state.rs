use konnect::error::SexpError;
use konnect::server::{McpServerState, ServerState};
use std::sync::Arc;

#[test]
fn new_server_waits_for_its_client() {
    let server = McpServerState::new(Arc::new(5u8));
    assert_eq!(server.state, ServerState::Uninitialized);
    assert_eq!(*server.router, 5);
    assert!(!server.is_ready());
}

#[test]
fn only_an_initialized_server_is_ready() {
    let mut server = McpServerState::new(Arc::new(()));
    server.state = ServerState::Initializing;
    assert!(!server.is_ready());
    server.state = ServerState::Ready;
    assert!(server.is_ready());
}

#[test]
fn initialize_result_introduces_the_server() {
    let result = McpServerState::<()>::build_initialize_result();
    assert_eq!(result.protocol_version, "2024-11-05");
    assert_eq!(result.capabilities.tools.unwrap().list_changed, Some(true));
    assert_eq!(result.server_info.name, "konnect");
    assert_eq!(result.server_info.version, "0.1.0");
}

#[test]
fn schematic_errors_are_shown() {
    let parse = |offset| SexpError::Parse { offset, message: "unbalanced".to_string() };
    assert_eq!(parse(0).to_string(), "Parse error at offset 0: unbalanced");
    assert_eq!(parse(9).to_string(), "Parse error at offset 9: unbalanced");
    assert_eq!(parse(10).to_string(), "Parse error at offset 10: unbalanced");
    assert_eq!(parse(12345).to_string(), "Parse error at offset 12345: unbalanced");
    assert_eq!(
        parse(usize::MAX).to_string(),
        format!("Parse error at offset {}: unbalanced", usize::MAX)
    );
    assert_eq!(SexpError::MissingNode("lib_symbols".to_string()).to_string(), "Missing node: lib_symbols");
    assert_eq!(SexpError::InvalidValue("1e".to_string()).to_string(), "Invalid value: 1e");
}

#[test]
fn io_errors_become_schematic_errors() {
    let error = SexpError::from(std::io::Error::new(std::io::ErrorKind::NotFound, "no file"));
    assert!(matches!(error, SexpError::Io(_)));
    assert_eq!(error.to_string(), "IO error: no file");
}
