//! Settings-panel operations on the search tool: saving its settings,
//! checking them before a connection test, and reporting them back.

use vstd::prelude::*;
use vstd::string::*;
use crate::search::{has_scheme, with_scheme, DEFAULT_BATCH_SIZE, DEFAULT_MAX_LINES_PER_BLOB};
use crate::settings::McpConfig;
use crate::text::{chars_of, clone_strings, has_prefix, string_of, trim, trim_of};

verus! {

/// Search-tool settings as the settings panel submits them.
#[derive(Debug)]
pub struct SaveAcemcpConfigArgs {
    pub base_url: String,
    pub token: String,
    pub batch_size: u32,
    pub max_lines_per_blob: u32,
    pub text_extensions: Vec<String>,
    pub exclude_patterns: Vec<String>,
}

/// Endpoint and token to try when the stored settings lack them.
#[derive(Debug)]
pub struct TestAcemcpArgs {
    pub base_url: String,
    pub token: String,
}

#[derive(Debug)]
pub struct TestConnectionResult {
    pub success: bool,
    pub message: String,
}

/// The stored search-tool settings, with defaults for what is missing.
#[derive(Debug)]
pub struct AcemcpConfigResponse {
    pub base_url: Option<String>,
    pub token: Option<String>,
    pub batch_size: u32,
    pub max_lines_per_blob: u32,
    pub text_extensions: Vec<String>,
    pub exclude_patterns: Vec<String>,
}

#[derive(Debug)]
pub struct DebugSearchResult {
    pub success: bool,
    pub result: Option<String>,
    pub error: Option<String>,
}

/// A base URL as saved: trimmed, with `http://` in front when no scheme is given.
pub fn with_default_scheme(input: &str) -> (r: String)
    ensures
        r@ == with_scheme(trim_of(input@)),
{
    let t = trim(input);
    if has_prefix(t, "http://") || has_prefix(t, "https://") {
        String::from_str(t)
    } else {
        let mut s = String::from_str("http://");
        s.append(t);
        s
    }
}

/// Stores submitted search-tool settings in the tool settings.
pub fn save_acemcp_config(config: &mut McpConfig, args: SaveAcemcpConfigArgs)
    ensures
        final(config).acemcp_base_url is Some,
        final(config).acemcp_base_url->0@ == with_scheme(trim_of(args.base_url@)),
        final(config).acemcp_token is Some,
        final(config).acemcp_token->0@ == args.token@,
        final(config).acemcp_batch_size == Some(args.batch_size),
        final(config).acemcp_max_lines_per_blob == Some(args.max_lines_per_blob),
        final(config).acemcp_text_extensions is Some,
        final(config).acemcp_text_extensions->0.deep_view() == args.text_extensions.deep_view(),
        final(config).acemcp_exclude_patterns is Some,
        final(config).acemcp_exclude_patterns->0.deep_view() == args.exclude_patterns.deep_view(),
        final(config).tools@ == old(config).tools@,
{
    let base_url = with_default_scheme(args.base_url.as_str());
    config.acemcp_base_url = Some(base_url);
    config.acemcp_token = Some(args.token);
    config.acemcp_batch_size = Some(args.batch_size);
    config.acemcp_max_lines_per_blob = Some(args.max_lines_per_blob);
    config.acemcp_text_extensions = Some(args.text_extensions);
    config.acemcp_exclude_patterns = Some(args.exclude_patterns);
}

pub const INVALID_URL_MESSAGE: &'static str = "无效的API端点URL格式，必须以 http:// 或 https:// 开头";

pub const EMPTY_TOKEN_MESSAGE: &'static str = "认证令牌不能为空";

/// Endpoint and token of a connection test: the stored ones, else those given.
pub open spec fn effective(stored: Option<String>, given: String) -> Seq<char> {
    match stored {
        Some(s) => s@,
        None => given@,
    }
}

pub open spec fn without_one_slash(u: Seq<char>) -> Seq<char> {
    if u.len() > 0 && u.last() == '/' {
        u.drop_last()
    } else {
        u
    }
}

/// Checks the endpoint and token of a connection test before any request:
/// the endpoint needs a scheme and the token must not be blank. On success
/// gives the endpoint without one trailing slash, and the token.
pub fn connection_precheck(config: &McpConfig, args: &TestAcemcpArgs) -> (r: Result<(String, String), TestConnectionResult>)
    ensures
        !has_scheme(effective(config.acemcp_base_url, args.base_url)) ==> (r matches Err(e) && !e.success
            && e.message@ == INVALID_URL_MESSAGE@),
        has_scheme(effective(config.acemcp_base_url, args.base_url)) && trim_of(
            effective(config.acemcp_token, args.token),
        ).len() == 0 ==> (r matches Err(e) && !e.success && e.message@ == EMPTY_TOKEN_MESSAGE@),
        r is Ok <==> has_scheme(effective(config.acemcp_base_url, args.base_url)) && trim_of(
            effective(config.acemcp_token, args.token),
        ).len() > 0,
        r is Ok ==> r->Ok_0.0@ == without_one_slash(effective(config.acemcp_base_url, args.base_url))
            && r->Ok_0.1@ == effective(config.acemcp_token, args.token),
{
    let base: &String = match &config.acemcp_base_url {
        Some(b) => b,
        None => &args.base_url,
    };
    let token: &String = match &config.acemcp_token {
        Some(t) => t,
        None => &args.token,
    };
    if !has_prefix(base.as_str(), "http://") && !has_prefix(base.as_str(), "https://") {
        return Err(TestConnectionResult { success: false, message: String::from_str(INVALID_URL_MESSAGE) });
    }
    if trim(token.as_str()).is_empty() {
        return Err(TestConnectionResult { success: false, message: String::from_str(EMPTY_TOKEN_MESSAGE) });
    }
    let mut chars = chars_of(base.as_str());
    let n = chars.len();
    if n > 0 && chars[n - 1] == '/' {
        chars.pop();
    }
    Ok((string_of(&chars), token.clone()))
}

fn default_extensions() -> (r: Vec<String>)
    ensures
        r.deep_view() == seq![".rs"@, ".ts"@, ".js"@, ".md"@, ".toml"@],
{
    let mut r: Vec<String> = Vec::new();
    r.push(String::from_str(".rs"));
    r.push(String::from_str(".ts"));
    r.push(String::from_str(".js"));
    r.push(String::from_str(".md"));
    r.push(String::from_str(".toml"));
    assert(r.deep_view() =~= seq![".rs"@, ".ts"@, ".js"@, ".md"@, ".toml"@]);
    r
}

fn default_exclusions() -> (r: Vec<String>)
    ensures
        r.deep_view() == seq!["node_modules"@, ".git"@, "target"@, "dist"@],
{
    let mut r: Vec<String> = Vec::new();
    r.push(String::from_str("node_modules"));
    r.push(String::from_str(".git"));
    r.push(String::from_str("target"));
    r.push(String::from_str("dist"));
    assert(r.deep_view() =~= seq!["node_modules"@, ".git"@, "target"@, "dist"@]);
    r
}

/// The stored search-tool settings as the settings panel shows them: batch
/// size 10 and 800 lines when unset, and default extension and exclusion lists.
pub fn get_acemcp_config(config: &McpConfig) -> (r: AcemcpConfigResponse)
    ensures
        r.base_url is Some <==> config.acemcp_base_url is Some,
        r.base_url is Some ==> r.base_url->0@ == config.acemcp_base_url->0@,
        r.token is Some <==> config.acemcp_token is Some,
        r.token is Some ==> r.token->0@ == config.acemcp_token->0@,
        r.batch_size == match config.acemcp_batch_size {
            Some(b) => b,
            None => DEFAULT_BATCH_SIZE,
        },
        r.max_lines_per_blob == match config.acemcp_max_lines_per_blob {
            Some(m) => m,
            None => DEFAULT_MAX_LINES_PER_BLOB,
        },
        config.acemcp_text_extensions is Some ==> r.text_extensions.deep_view()
            == config.acemcp_text_extensions->0.deep_view(),
        config.acemcp_text_extensions is None ==> r.text_extensions.deep_view() == seq![
            ".rs"@,
            ".ts"@,
            ".js"@,
            ".md"@,
            ".toml"@,
        ],
        config.acemcp_exclude_patterns is Some ==> r.exclude_patterns.deep_view()
            == config.acemcp_exclude_patterns->0.deep_view(),
        config.acemcp_exclude_patterns is None ==> r.exclude_patterns.deep_view() == seq![
            "node_modules"@,
            ".git"@,
            "target"@,
            "dist"@,
        ],
{
    let base_url = match &config.acemcp_base_url {
        Some(b) => Some(b.clone()),
        None => None,
    };
    let token = match &config.acemcp_token {
        Some(t) => Some(t.clone()),
        None => None,
    };
    let batch_size = match config.acemcp_batch_size {
        Some(b) => b,
        None => DEFAULT_BATCH_SIZE,
    };
    let max_lines_per_blob = match config.acemcp_max_lines_per_blob {
        Some(m) => m,
        None => DEFAULT_MAX_LINES_PER_BLOB,
    };
    let text_extensions = match &config.acemcp_text_extensions {
        Some(v) => clone_strings(v),
        None => default_extensions(),
    };
    let exclude_patterns = match &config.acemcp_exclude_patterns {
        Some(v) => clone_strings(v),
        None => default_exclusions(),
    };
    AcemcpConfigResponse { base_url, token, batch_size, max_lines_per_blob, text_extensions, exclude_patterns }
}

/// The debug panel's view of a search: its text, or why it failed.
pub fn debug_result(outcome: Result<String, String>) -> (r: DebugSearchResult)
    ensures
        r.success == outcome is Ok,
        outcome is Ok ==> r.result is Some && r.result->0@ == outcome->Ok_0@ && r.error is None,
        outcome is Err ==> r.error is Some && r.error->0@ == outcome->Err_0@ && r.result is None,
{
    match outcome {
        Ok(t) => DebugSearchResult { success: true, result: Some(t), error: None },
        Err(e) => DebugSearchResult { success: false, result: None, error: Some(e) },
    }
}

} // verus!
