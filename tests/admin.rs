use cunzhi::admin::{
    connection_precheck, debug_result, get_acemcp_config, save_acemcp_config, SaveAcemcpConfigArgs, TestAcemcpArgs,
    EMPTY_TOKEN_MESSAGE, INVALID_URL_MESSAGE,
};
use cunzhi::requests::{continue_prompt, default_category, default_is_markdown};
use cunzhi::settings::{
    default_auto_check_updates, default_custom_prompt_max_prompts, default_mcp_config, default_prompt_type,
    default_reply_config, default_shortcut_config, default_shortcuts,
};

#[test]
fn saved_settings_get_a_scheme() {
    let mut config = default_mcp_config();
    save_acemcp_config(
        &mut config,
        SaveAcemcpConfigArgs {
            base_url: "  api.example.com/ ".to_string(),
            token: "t".to_string(),
            batch_size: 5,
            max_lines_per_blob: 100,
            text_extensions: vec![".rs".to_string()],
            exclude_patterns: vec![],
        },
    );
    assert_eq!(config.acemcp_base_url.as_deref(), Some("http://api.example.com/"));
    assert_eq!(config.acemcp_batch_size, Some(5));
    let shown = get_acemcp_config(&config);
    assert_eq!(shown.batch_size, 5);
    assert_eq!(shown.max_lines_per_blob, 100);
}

#[test]
fn panel_defaults_fill_missing_settings() {
    let shown = get_acemcp_config(&default_mcp_config());
    assert_eq!(shown.batch_size, 10);
    assert_eq!(shown.max_lines_per_blob, 800);
    assert_eq!(shown.text_extensions, vec![".rs", ".ts", ".js", ".md", ".toml"]);
    assert_eq!(shown.exclude_patterns, vec!["node_modules", ".git", "target", "dist"]);
    assert!(shown.base_url.is_none());
}

#[test]
fn connection_precheck_rejects_bad_input() {
    let config = default_mcp_config();
    let bad_url = connection_precheck(&config, &TestAcemcpArgs { base_url: "h.io".to_string(), token: "t".to_string() });
    assert_eq!(bad_url.unwrap_err().message, INVALID_URL_MESSAGE);
    let blank = connection_precheck(&config, &TestAcemcpArgs { base_url: "https://h.io".to_string(), token: "  ".to_string() });
    let e = blank.unwrap_err();
    assert!(!e.success);
    assert_eq!(e.message, EMPTY_TOKEN_MESSAGE);
    let ok = connection_precheck(&config, &TestAcemcpArgs { base_url: "https://h.io/".to_string(), token: "k".to_string() });
    assert_eq!(ok.unwrap(), ("https://h.io".to_string(), "k".to_string()));
}

#[test]
fn debug_results_carry_text_or_error() {
    let ok = debug_result(Ok("r".to_string()));
    assert!(ok.success);
    assert_eq!(ok.result.as_deref(), Some("r"));
    let err = debug_result(Err("e".to_string()));
    assert!(!err.success);
    assert_eq!(err.error.as_deref(), Some("e"));
}

#[test]
fn stored_defaults() {
    let reply = default_reply_config();
    assert!(reply.enable_continue_reply);
    assert_eq!(reply.auto_continue_threshold, 1000);
    assert_eq!(reply.continue_prompt, "请按照最佳实践继续");
    assert!(default_auto_check_updates());
    assert_eq!(default_custom_prompt_max_prompts(), 50);
    assert_eq!(default_prompt_type(), "normal");
    let shortcuts = default_shortcuts();
    assert_eq!(shortcuts.len(), 3);
    assert_eq!(shortcuts[1].0, "enhance");
    assert!(shortcuts[1].1.key_combination.shift);
    assert_eq!(default_shortcut_config().shortcuts.len(), 3);
    assert!(default_is_markdown());
    assert_eq!(default_category(), "context");
    assert_eq!(continue_prompt(None), "请按照最佳实践继续");
    assert_eq!(continue_prompt(Some("go".to_string())), "go");
}
