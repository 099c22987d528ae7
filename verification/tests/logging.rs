use mcp_gateway::logging::{log_format, LogFormat};
use mcp_gateway::MCP_PROTOCOL_VERSION;

#[test]
fn json_format_selected_by_name() {
    assert_eq!(log_format(Some("json")), LogFormat::Json);
}

#[test]
fn other_formats_are_text() {
    assert_eq!(log_format(None), LogFormat::Text);
    assert_eq!(log_format(Some("")), LogFormat::Text);
    assert_eq!(log_format(Some("text")), LogFormat::Text);
    assert_eq!(log_format(Some("JSON")), LogFormat::Text);
    assert_eq!(log_format(Some("json ")), LogFormat::Text);
    assert_eq!(log_format(Some("jso")), LogFormat::Text);
}

#[test]
fn protocol_version() {
    assert_eq!(MCP_PROTOCOL_VERSION, "2025-11-25");
}
