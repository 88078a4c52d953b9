use lumicontrol::ipc::{default_pipe_name, validate_pipe_name, IpcError};

#[test]
fn the_default_pipe_name_is_accepted() {
    let name = default_pipe_name("S-1-5-21-1000");
    assert!(name.starts_with(r"\\.\pipe\LumiControl.Agent.v2."));
    assert!(validate_pipe_name(&name).is_ok());
}

#[test]
fn pipe_names_outside_the_namespace_or_too_long_are_refused() {
    match validate_pipe_name("LumiControl") {
        Err(IpcError::InvalidFrame(message)) => {
            assert_eq!(message, "invalid named pipe path: LumiControl")
        }
        _ => panic!("expected a refusal"),
    }
    let long = format!(r"\\.\pipe\{}", "x".repeat(232));
    assert_eq!(long.len(), 241);
    assert!(validate_pipe_name(&long).is_err());
    let limit = format!(r"\\.\pipe\{}", "x".repeat(231));
    assert!(validate_pipe_name(&limit).is_ok());
    let accented = format!(r"\\.\pipe\{}", "é".repeat(116));
    assert_eq!(accented.len(), 241);
    assert!(validate_pipe_name(&accented).is_err());
}
