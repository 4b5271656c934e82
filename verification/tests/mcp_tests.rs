use llama_launcher::mcp::{
    parse_mcp_servers, JsonNumber, JsonValue, McpConfigError, McpParseError,
};
use llama_launcher::settings::AppSettings;

/// The member names of an object value, in order.
fn object_keys(v: &JsonValue) -> Vec<String> {
    match v {
        JsonValue::Object(members) => members.iter().map(|(k, _)| k.clone()).collect(),
        _ => panic!("not an object"),
    }
}

fn message(text: &str) -> String {
    parse_mcp_servers(text).err().unwrap().message()
}

const MCP_TEST_JSON: &str = r#"{
    "mcpServers": {
        "comfyui": {
            "command": "python",
            "args": ["C:\\AI\\MCP\\ComfyUI\\server.py"]
        },
        "filesystem": {
            "command": "npx",
            "args": ["-y", "@example/filesystem-mcp"],
            "timeout_ms": 60000
        },
        "remote-only": {
            "url": "https://example.com/mcp"
        }
    }
}"#;

#[test]
fn mcp_parse_ok() {
    let servers = parse_mcp_servers(MCP_TEST_JSON).expect("a valid configuration parses");
    assert_eq!(servers.len(), 3);
    assert_eq!(servers[0].name, "comfyui");
    assert_eq!(servers[0].command, "python");
    assert_eq!(servers[0].args, vec!["C:\\AI\\MCP\\ComfyUI\\server.py"]);
    assert_eq!(servers[1].timeout_ms, 60000);
    assert!(servers[2].command.is_empty(), "an entry without command has an empty command");
}

#[test]
fn mcp_parse_errors() {
    assert!(parse_mcp_servers("{ not json").is_err());
    assert!(parse_mcp_servers("[1,2]").is_err());
    assert!(parse_mcp_servers(r#"{"foo":{}}"#).is_err());
    assert!(parse_mcp_servers(r#"{"mcpServers":[1]}"#).is_err());
    assert!(parse_mcp_servers(r#"{"mcpServers":{}}"#)
        .expect("an empty object parses")
        .is_empty());
}

#[test]
fn mcp_effective_partial_enable() {
    let mut settings = AppSettings::default();
    settings.mcp_enabled = true;
    settings.mcp_config_json = MCP_TEST_JSON.to_string();
    assert!(settings.build_effective_mcp_json().is_none());
    settings.mcp_server_states.insert("comfyui".to_string(), true);
    settings.mcp_server_states.insert("remote-only".to_string(), true);
    let out = settings.build_effective_mcp_json().expect("an enabled stdio server exists");
    let servers = out.get("mcpServers").expect("the output holds an mcpServers object");
    let keys = object_keys(servers);
    assert_eq!(keys.len(), 1, "remote-only is filtered out");
    assert!(keys.contains(&"comfyui".to_string()));
    settings.mcp_enabled = false;
    assert!(settings.build_effective_mcp_json().is_none());
}

#[test]
fn mcp_error_messages() {
    assert!(message("{ not json").starts_with("JSON: "));
    assert!(matches!(parse_mcp_servers("{ not json"), Err(McpParseError::Json(_))));
    assert_eq!(message("[1,2]"), "top-level must be an object");
    assert_eq!(message(r#"{"foo":{}}"#), "missing \"mcpServers\"");
    assert_eq!(message(r#"{"mcpServers":[1]}"#), "\"mcpServers\" must be an object");
    assert_eq!(
        parse_mcp_servers("[1,2]").err(),
        Some(McpParseError::Config(McpConfigError::TopLevelNotObject))
    );
    assert_eq!(McpConfigError::MissingServers.message(), "missing \"mcpServers\"");
}

#[test]
fn mcp_summary_fields() {
    let text = r#"{"mcpServers":{
        "a": {"command": 5, "args": ["x", 1, "y", null], "timeout_ms": -7},
        "b": [1, 2],
        "c": {"command": "run", "args": "not-an-array", "timeout_ms": 1.5},
        "d": {"timeout_ms": 18446744073709551615}
    }}"#;
    let s = parse_mcp_servers(text).unwrap();
    assert_eq!(s.len(), 4);
    assert_eq!(s[0].command, "");
    assert_eq!(s[0].args, vec!["x", "y"]);
    assert_eq!(s[0].timeout_ms, -7);
    assert!(s[0].is_object);
    assert!(!s[1].is_object);
    assert_eq!(s[1].timeout_ms, 30000);
    assert_eq!(s[2].command, "run");
    assert!(s[2].args.is_empty());
    assert_eq!(s[2].timeout_ms, 30000);
    assert_eq!(s[3].timeout_ms, 30000);
}

#[test]
fn mcp_effective_keeps_order_and_values() {
    let mut settings = AppSettings::default();
    settings.mcp_enabled = true;
    settings.mcp_config_json = r#" {"mcpServers":{
        "z": {"command": "b", "x": 1.25},
        "y": {"command": ""},
        "a": {"command": "c", "args": ["q"]}
    }} "#
        .to_string();
    settings.mcp_server_states.insert("z".to_string(), true);
    settings.mcp_server_states.insert("y".to_string(), true);
    settings.mcp_server_states.insert("a".to_string(), true);
    let out = settings.build_effective_mcp_json().unwrap();
    assert_eq!(object_keys(&out), vec!["mcpServers"]);
    let servers = out.get("mcpServers").unwrap();
    assert_eq!(object_keys(servers), vec!["z", "a"]);
    let x = servers.get("z").unwrap().get("x").unwrap();
    assert!(matches!(x, JsonValue::Number(JsonNumber::Float(b)) if *b == 1.25f64.to_bits()));
    let args = servers.get("a").unwrap().get("args").unwrap();
    assert_eq!(args.string_items(), vec!["q"]);
}

#[test]
fn mcp_blank_or_invalid_configuration_gives_nothing() {
    let mut settings = AppSettings::default();
    settings.mcp_enabled = true;
    settings.mcp_server_states.insert("a".to_string(), true);
    settings.mcp_config_json = " \n\t".to_string();
    assert!(!settings.mcp_config_present());
    assert!(settings.build_effective_mcp_json().is_none());
    settings.mcp_config_json = "{ broken".to_string();
    assert!(settings.mcp_config_present());
    assert!(settings.build_effective_mcp_json().is_none());
    settings.mcp_config_json = r#"{"other":{}}"#.to_string();
    assert!(settings.build_effective_mcp_json().is_none());
}
