use plex_mcp_extension::{LaunchDescriptor, PlexMediaServerExtension, UnknownServerError};

fn resolve(id: &str) -> Result<LaunchDescriptor, UnknownServerError> {
    PlexMediaServerExtension::new().context_server_command(id, &())
}

#[test]
fn plex_mcp_resolves_to_uv_run() {
    let d = resolve("plex-mcp").unwrap();
    assert_eq!(d.executable, "uv");
    assert_eq!(d.arguments, vec!["run".to_string(), "plex-mcp".to_string()]);
    assert!(d.environment.is_empty());
}

#[test]
fn unknown_identifier_is_rejected() {
    let e = resolve("nonexistent").unwrap_err();
    assert_eq!(e.id, "nonexistent");
}

#[test]
fn empty_identifier_is_rejected() {
    let e = resolve("").unwrap_err();
    assert_eq!(e.id, "");
}

#[test]
fn identifier_match_is_case_sensitive() {
    let e = resolve("Plex-MCP").unwrap_err();
    assert_eq!(e.id, "Plex-MCP");
}

#[test]
fn identifier_match_is_exact() {
    for id in ["plex-mcp ", " plex-mcp", "plex-mc", "plex-mcpx", "plex_mcp"] {
        let e = resolve(id).unwrap_err();
        assert_eq!(e.id, id);
    }
}

#[test]
fn unknown_server_message_names_identifier() {
    let e = resolve("nonexistent").unwrap_err();
    assert_eq!(e.message(), "Unknown server: nonexistent");
    let e = resolve("").unwrap_err();
    assert_eq!(e.message(), "Unknown server: ");
}

#[test]
fn repeated_resolution_gives_identical_outcomes() {
    let ext = PlexMediaServerExtension::new();
    let first = ext.context_server_command("plex-mcp", &());
    let second = ext.context_server_command("plex-mcp", &());
    assert_eq!(first, second);
    let first = ext.context_server_command("nonexistent", &());
    let second = ext.context_server_command("nonexistent", &());
    assert_eq!(first, second);
}

#[test]
fn project_context_does_not_change_outcome() {
    let ext = PlexMediaServerExtension::new();
    let with_unit = ext.context_server_command("plex-mcp", &());
    let with_number = ext.context_server_command("plex-mcp", &42u32);
    let with_text = ext.context_server_command("plex-mcp", &"some project".to_string());
    assert_eq!(with_unit, with_number);
    assert_eq!(with_unit, with_text);
    let a = ext.context_server_command("other", &0u8);
    let b = ext.context_server_command("other", &vec![1, 2, 3]);
    assert_eq!(a, b);
}
