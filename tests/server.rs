use cunzhi::server::{check_params, ProtocolError, ToolKind, ZhiServer};
use cunzhi::settings::{default_mcp_config, default_mcp_tools, tool_flag};
use cunzhi::tools::{get_default_mcp_config, is_valid_tool_id, McpConfig, McpToolConfig};
use cunzhi::enhance::{classify_intent, default_target_score, integrate_image_context};

fn flags(ji: bool, sou: bool) -> Vec<(String, bool)> {
    vec![("zhi".to_string(), true), ("ji".to_string(), ji), ("sou".to_string(), sou)]
}

fn ids(server: &ZhiServer, live: Option<&Vec<(String, bool)>>) -> Vec<String> {
    server.list_tools(live).into_iter().map(|t| t.id).collect()
}

#[test]
fn mandatory_tools_are_always_listed() {
    let server = ZhiServer::new(None);
    assert_eq!(ids(&server, None), vec!["zhi", "enhance"]);
    let off = flags(false, false);
    assert_eq!(ids(&server, Some(&off)), vec!["zhi", "enhance"]);
    let tools = server.list_tools(None);
    assert!(tools.iter().all(|t| t.mandatory));
}

#[test]
fn optional_tools_follow_the_live_switches() {
    let server = ZhiServer::new(None);
    let on = flags(true, true);
    assert_eq!(ids(&server, Some(&on)), vec!["zhi", "enhance", "ji", "sou"]);
    let sou_only = flags(false, true);
    assert_eq!(ids(&server, Some(&sou_only)), vec!["zhi", "enhance", "sou"]);
    let unlisted: Vec<(String, bool)> = Vec::new();
    assert_eq!(ids(&server, Some(&unlisted)), vec!["zhi", "enhance", "ji", "sou"]);
}

#[test]
fn failed_read_uses_the_snapshot() {
    let snapshot = flags(true, false);
    let server = ZhiServer::new(Some(&snapshot));
    assert_eq!(ids(&server, None), vec!["zhi", "enhance", "ji"]);
}

#[test]
fn disabled_tool_call_is_an_internal_error() {
    let server = ZhiServer::new(None);
    assert_eq!(server.route_call("sou", None), Err(ProtocolError::InternalError));
    assert_eq!(server.route_call("ji", None), Err(ProtocolError::InternalError));
    let on = flags(true, true);
    assert_eq!(server.route_call("sou", Some(&on)), Ok(ToolKind::Search));
    assert_eq!(server.route_call("ji", Some(&on)), Ok(ToolKind::Memory));
}

#[test]
fn unknown_tool_and_bad_params_are_distinct() {
    let server = ZhiServer::new(None);
    assert_eq!(server.route_call("nope", None), Err(ProtocolError::InvalidRequest));
    assert_eq!(server.route_call("zhi", None), Ok(ToolKind::Interaction));
    assert_eq!(server.route_call("enhance", None), Ok(ToolKind::Enhance));
    assert_eq!(check_params(Ok(ToolKind::Interaction), false), Err(ProtocolError::InvalidParams));
    assert_eq!(check_params(Ok(ToolKind::Interaction), true), Ok(ToolKind::Interaction));
    assert_eq!(check_params(Err(ProtocolError::InternalError), false), Err(ProtocolError::InternalError));
}

#[test]
fn tool_table_defaults_and_switching() {
    let mut config = get_default_mcp_config();
    assert_eq!(config.tools.len(), 3);
    assert!(config.is_tool_enabled("zhi"));
    assert!(!config.is_tool_enabled("ji"));
    assert!(!config.is_tool_enabled("other"));
    assert!(!config.set_tool_enabled("zhi", false));
    assert!(config.is_tool_enabled("zhi"));
    assert!(config.set_tool_enabled("ji", true));
    assert!(config.is_tool_enabled("ji"));
    assert!(!config.set_tool_enabled("other", true));
    assert_eq!(config.get_tool_config("sou").unwrap().tool_id, "sou");
    assert!(config.get_tool_config("x").is_none());
    assert_eq!(config.auto_continue_threshold, 1000);
    assert_eq!(config.continue_prompt, "请按照最佳实践继续");
    let t = McpToolConfig::new("x", true, false);
    assert_eq!(t.tool_id, "x");
    assert!(is_valid_tool_id("sou"));
    assert!(!is_valid_tool_id("enhance"));
    let d = McpConfig::default();
    assert_eq!(d.max_retry_count, 3);
}

#[test]
fn stored_switch_defaults() {
    let tools = default_mcp_tools();
    assert_eq!(tool_flag(&tools, "zhi"), Some(true));
    assert_eq!(tool_flag(&tools, "sou"), Some(false));
    assert_eq!(tool_flag(&tools, "x"), None);
    let c = default_mcp_config();
    assert!(c.acemcp_base_url.is_none());
    let a = c.acemcp_config();
    assert!(a.token.is_none());
}

#[test]
fn image_context_is_appended() {
    assert_eq!(integrate_image_context("p", &Vec::new()), "p");
    let d = vec!["one".to_string(), "two".to_string()];
    assert_eq!(integrate_image_context("p", &d), "p\n\n**附加图片上下文:**\none\ntwo");
    assert_eq!(classify_intent("请帮我写一个排序"), "code_generation");
    assert_eq!(classify_intent("解释这段代码"), "code_analysis");
    assert_eq!(classify_intent("hello"), "general");
    assert_eq!(default_target_score(), 90);
}
