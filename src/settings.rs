//! The stored application settings that the tool server reads: which tools
//! are enabled, the search tool's backend settings, and reply defaults.

use vstd::prelude::*;
use vstd::string::*;
use crate::search::AcemcpConfig;
use crate::text::{clone_strings, str_eq};
use crate::tools::{
    DEFAULT_AUTO_CONTINUE_THRESHOLD, DEFAULT_CONTINUE_PROMPT, DEFAULT_CONTINUE_REPLY_ENABLED, TOOL_JI,
    TOOL_SOU, TOOL_ZHI,
};

verus! {

/// Tool switches and search-tool settings as stored.
#[derive(Debug)]
pub struct McpConfig {
    /// Whether each tool is enabled, by tool identifier, one entry per tool.
    pub tools: Vec<(String, bool)>,
    pub acemcp_base_url: Option<String>,
    pub acemcp_token: Option<String>,
    pub acemcp_batch_size: Option<u32>,
    pub acemcp_max_lines_per_blob: Option<u32>,
    pub acemcp_text_extensions: Option<Vec<String>>,
    pub acemcp_exclude_patterns: Option<Vec<String>>,
}

/// Settings of the "continue" reply.
#[derive(Debug)]
pub struct ReplyConfig {
    pub enable_continue_reply: bool,
    pub auto_continue_threshold: u32,
    pub continue_prompt: String,
}

#[derive(Debug)]
pub struct UpdaterConfig {
    pub auto_check_updates: bool,
}

pub open spec fn flag_views(tools: Seq<(String, bool)>) -> Seq<(Seq<char>, bool)> {
    tools.map_values(|e: (String, bool)| (e.0@, e.1))
}

/// The switch of `id`: the value of its first entry, if any.
pub open spec fn flag_of(tools: Seq<(Seq<char>, bool)>, id: Seq<char>) -> Option<bool>
    decreases tools.len(),
{
    if tools.len() == 0 {
        None
    } else if tools[0].0 == id {
        Some(tools[0].1)
    } else {
        flag_of(tools.drop_first(), id)
    }
}

/// No tool has two entries.
pub open spec fn unique_ids(tools: Seq<(Seq<char>, bool)>) -> bool {
    forall|i: int, j: int| 0 <= i < j < tools.len() ==> tools[i].0 != tools[j].0
}

/// Looks up the switch of `id`.
pub fn tool_flag(tools: &Vec<(String, bool)>, id: &str) -> (r: Option<bool>)
    ensures
        r == flag_of(flag_views(tools@), id@),
{
    let ghost views = flag_views(tools@);
    let mut i: usize = 0;
    assert(views.skip(0) == views);
    while i < tools.len()
        invariant
            i <= tools@.len(),
            views == flag_views(tools@),
            flag_of(views, id@) == flag_of(views.skip(i as int), id@),
        decreases tools@.len() - i,
    {
        assert(views.skip(i as int).drop_first() == views.skip(i + 1));
        assert(views.skip(i as int)[0] == views[i as int]);
        if str_eq(tools[i].0.as_str(), id) {
            return Some(tools[i].1);
        }
        i += 1;
    }
    assert(views.skip(i as int).len() == 0);
    None
}

/// The default switches: `zhi` on, `ji` and `sou` off.
pub fn default_mcp_tools() -> (r: Vec<(String, bool)>)
    ensures
        flag_views(r@) == seq![(TOOL_ZHI@, true), (TOOL_JI@, false), (TOOL_SOU@, false)],
{
    let mut tools: Vec<(String, bool)> = Vec::new();
    tools.push((String::from_str(TOOL_ZHI), true));
    tools.push((String::from_str(TOOL_JI), false));
    tools.push((String::from_str(TOOL_SOU), false));
    assert(flag_views(tools@) =~= seq![(TOOL_ZHI@, true), (TOOL_JI@, false), (TOOL_SOU@, false)]);
    tools
}

/// Default tool settings: the default switches and no search-tool settings.
pub fn default_mcp_config() -> (r: McpConfig)
    ensures
        flag_views(r.tools@) == seq![(TOOL_ZHI@, true), (TOOL_JI@, false), (TOOL_SOU@, false)],
        r.acemcp_base_url is None,
        r.acemcp_token is None,
        r.acemcp_batch_size is None,
        r.acemcp_max_lines_per_blob is None,
        r.acemcp_text_extensions is None,
        r.acemcp_exclude_patterns is None,
{
    McpConfig {
        tools: default_mcp_tools(),
        acemcp_base_url: None,
        acemcp_token: None,
        acemcp_batch_size: None,
        acemcp_max_lines_per_blob: None,
        acemcp_text_extensions: None,
        acemcp_exclude_patterns: None,
    }
}

fn copy_opt_string(o: &Option<String>) -> (r: Option<String>)
    ensures
        o is Some <==> r is Some,
        o is Some ==> r->0@ == o->0@,
{
    match o {
        Some(s) => Some(s.clone()),
        None => None,
    }
}

fn copy_opt_strings(o: &Option<Vec<String>>) -> (r: Option<Vec<String>>)
    ensures
        o is Some <==> r is Some,
        o is Some ==> r->0.deep_view() == o->0.deep_view(),
{
    match o {
        Some(v) => Some(clone_strings(v)),
        None => None,
    }
}

impl McpConfig {
    /// The search tool's settings, field by field.
    pub fn acemcp_config(&self) -> (r: AcemcpConfig)
        ensures
            r.base_url is Some <==> self.acemcp_base_url is Some,
            r.base_url is Some ==> r.base_url->0@ == self.acemcp_base_url->0@,
            r.token is Some <==> self.acemcp_token is Some,
            r.token is Some ==> r.token->0@ == self.acemcp_token->0@,
            r.batch_size == self.acemcp_batch_size,
            r.max_lines_per_blob == self.acemcp_max_lines_per_blob,
            r.text_extensions is Some <==> self.acemcp_text_extensions is Some,
            r.text_extensions is Some ==> r.text_extensions->0.deep_view()
                == self.acemcp_text_extensions->0.deep_view(),
            r.exclude_patterns is Some <==> self.acemcp_exclude_patterns is Some,
            r.exclude_patterns is Some ==> r.exclude_patterns->0.deep_view()
                == self.acemcp_exclude_patterns->0.deep_view(),
    {
        AcemcpConfig {
            base_url: copy_opt_string(&self.acemcp_base_url),
            token: copy_opt_string(&self.acemcp_token),
            batch_size: self.acemcp_batch_size,
            max_lines_per_blob: self.acemcp_max_lines_per_blob,
            text_extensions: copy_opt_strings(&self.acemcp_text_extensions),
            exclude_patterns: copy_opt_strings(&self.acemcp_exclude_patterns),
        }
    }
}

pub fn default_enable_continue_reply() -> (r: bool)
    ensures
        r == DEFAULT_CONTINUE_REPLY_ENABLED,
{
    DEFAULT_CONTINUE_REPLY_ENABLED
}

pub fn default_auto_continue_threshold() -> (r: u32)
    ensures
        r == DEFAULT_AUTO_CONTINUE_THRESHOLD,
{
    DEFAULT_AUTO_CONTINUE_THRESHOLD
}

pub fn default_continue_prompt() -> (r: String)
    ensures
        r@ == DEFAULT_CONTINUE_PROMPT@,
{
    String::from_str(DEFAULT_CONTINUE_PROMPT)
}

pub fn default_reply_config() -> (r: ReplyConfig)
    ensures
        r.enable_continue_reply == DEFAULT_CONTINUE_REPLY_ENABLED,
        r.auto_continue_threshold == DEFAULT_AUTO_CONTINUE_THRESHOLD,
        r.continue_prompt@ == DEFAULT_CONTINUE_PROMPT@,
{
    ReplyConfig {
        enable_continue_reply: default_enable_continue_reply(),
        auto_continue_threshold: default_auto_continue_threshold(),
        continue_prompt: default_continue_prompt(),
    }
}

pub fn default_auto_check_updates() -> (r: bool)
    ensures
        r,
{
    true
}

pub fn default_updater_config() -> (r: UpdaterConfig)
    ensures
        r.auto_check_updates,
{
    UpdaterConfig { auto_check_updates: default_auto_check_updates() }
}

pub fn default_auto_resize() -> (r: bool)
    ensures
        r,
{
    true
}

pub fn default_prompt_type() -> (r: String)
    ensures
        r@ == "normal"@,
{
    String::from_str("normal")
}

pub fn default_prompt_state() -> (r: bool)
    ensures
        !r,
{
    false
}

pub fn default_custom_prompt_enabled() -> (r: bool)
    ensures
        r,
{
    true
}

pub fn default_custom_prompt_max_prompts() -> (r: u32)
    ensures
        r == 50,
{
    50
}

/// A user-defined prompt; a conditional one carries a switch and a template
/// for each of its states.
#[derive(Debug)]
pub struct CustomPrompt {
    pub id: String,
    pub name: String,
    pub content: String,
    pub description: Option<String>,
    pub sort_order: i32,
    pub created_at: String,
    pub updated_at: String,
    /// `normal` or `conditional`.
    pub prompt_type: String,
    pub condition_text: Option<String>,
    pub template_true: Option<String>,
    pub template_false: Option<String>,
    pub current_state: bool,
}

#[derive(Debug)]
pub struct CustomPromptConfig {
    pub prompts: Vec<CustomPrompt>,
    pub enabled: bool,
    pub max_prompts: u32,
}

/// A key with its modifiers.
#[derive(Debug)]
pub struct ShortcutKey {
    pub key: String,
    pub ctrl: bool,
    pub alt: bool,
    pub shift: bool,
    pub meta: bool,
}

#[derive(Debug)]
pub struct ShortcutBinding {
    pub id: String,
    pub name: String,
    pub description: String,
    pub action: String,
    pub key_combination: ShortcutKey,
    pub enabled: bool,
    pub scope: String,
}

/// Bindings by their identifier, one entry per identifier.
#[derive(Debug)]
pub struct ShortcutConfig {
    pub shortcuts: Vec<(String, ShortcutBinding)>,
}

fn binding(id: &str, name: &str, description: &str, action: &str, ctrl: bool, alt: bool, shift: bool) -> (r: (String, ShortcutBinding))
    ensures
        r.0@ == id@,
        r.1.id@ == id@,
        r.1.action@ == action@,
        r.1.key_combination.key@ == "Enter"@,
        r.1.key_combination.ctrl == ctrl,
        r.1.key_combination.alt == alt,
        r.1.key_combination.shift == shift,
        !r.1.key_combination.meta,
        r.1.enabled,
        r.1.scope@ == "popup"@,
{
    (
        String::from_str(id),
        ShortcutBinding {
            id: String::from_str(id),
            name: String::from_str(name),
            description: String::from_str(description),
            action: String::from_str(action),
            key_combination: ShortcutKey {
                key: String::from_str("Enter"),
                ctrl,
                alt,
                shift,
                meta: false,
            },
            enabled: true,
            scope: String::from_str("popup"),
        },
    )
}

/// The default bindings, all on Enter in the popup: Ctrl submits,
/// Ctrl+Shift enhances, Alt continues.
pub open spec fn default_bindings(r: Seq<(String, ShortcutBinding)>) -> bool {
    &&& r.len() == 3
    &&& r[0].0@ == "quick_submit"@ && r[0].1.action@ == "submit"@ && r[0].1.key_combination.ctrl
        && !r[0].1.key_combination.alt && !r[0].1.key_combination.shift
    &&& r[1].0@ == "enhance"@ && r[1].1.action@ == "enhance"@ && r[1].1.key_combination.ctrl
        && !r[1].1.key_combination.alt && r[1].1.key_combination.shift
    &&& r[2].0@ == "continue"@ && r[2].1.action@ == "continue"@ && !r[2].1.key_combination.ctrl
        && r[2].1.key_combination.alt && !r[2].1.key_combination.shift
    &&& forall|i: int|
        0 <= i < 3 ==> {
            &&& #[trigger] r[i].1.id@ == r[i].0@
            &&& r[i].1.enabled
            &&& r[i].1.scope@ == "popup"@
            &&& r[i].1.key_combination.key@ == "Enter"@
            &&& !r[i].1.key_combination.meta
        }
}

pub fn default_shortcuts() -> (r: Vec<(String, ShortcutBinding)>)
    ensures
        default_bindings(r@),
{
    let mut r: Vec<(String, ShortcutBinding)> = Vec::new();
    r.push(binding("quick_submit", "快速发送", "快速提交当前输入内容", "submit", true, false, false));
    r.push(binding("enhance", "增强", "增强当前输入内容", "enhance", true, false, true));
    r.push(binding("continue", "继续", "继续对话", "continue", false, true, false));
    r
}

pub fn default_shortcut_config() -> (r: ShortcutConfig)
    ensures
        default_bindings(r.shortcuts@),
{
    ShortcutConfig { shortcuts: default_shortcuts() }
}

} // verus!
