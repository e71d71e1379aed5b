//! Tool identifiers and the per-tool configuration table.

use vstd::prelude::*;
use vstd::string::*;
use crate::text::str_eq;

verus! {

/// The interaction tool; it cannot be disabled.
pub const TOOL_ZHI: &'static str = "zhi";

/// The memory tool; optional.
pub const TOOL_JI: &'static str = "ji";

/// The code-search tool; optional.
pub const TOOL_SOU: &'static str = "sou";

pub const DEFAULT_CONTINUE_REPLY_ENABLED: bool = true;

pub const DEFAULT_AUTO_CONTINUE_THRESHOLD: u32 = 1000;

pub const DEFAULT_CONTINUE_PROMPT: &'static str = "请按照最佳实践继续";

pub const REQUEST_TIMEOUT_MS: u64 = 30000;

pub const MAX_RETRY_COUNT: u32 = 3;

/// One tool's entry: whether it is on, and whether it may be turned off.
#[derive(Debug)]
pub struct McpToolConfig {
    pub tool_id: String,
    pub enabled: bool,
    pub can_disable: bool,
}

impl McpToolConfig {
    pub fn new(tool_id: &str, enabled: bool, can_disable: bool) -> (r: McpToolConfig)
        ensures
            r.tool_id@ == tool_id@,
            r.enabled == enabled,
            r.can_disable == can_disable,
    {
        McpToolConfig { tool_id: String::from_str(tool_id), enabled, can_disable }
    }
}

/// The tool table and the reply settings.
#[derive(Debug)]
pub struct McpConfig {
    pub tools: Vec<McpToolConfig>,
    pub continue_reply_enabled: bool,
    pub auto_continue_threshold: u32,
    pub continue_prompt: String,
    pub request_timeout_ms: u64,
    pub max_retry_count: u32,
}

/// `i` is the first entry of `tools` for `id`.
pub open spec fn first_tool(tools: Seq<McpToolConfig>, id: Seq<char>, i: int) -> bool {
    0 <= i < tools.len() && tools[i].tool_id@ == id && forall|k: int| 0 <= k < i ==> tools[k].tool_id@ != id
}

pub open spec fn has_tool(tools: Seq<McpToolConfig>, id: Seq<char>) -> bool {
    exists|i: int| 0 <= i < tools.len() && tools[i].tool_id@ == id
}

/// Whether the table turns `id` on: its first entry says so.
pub open spec fn tool_on(tools: Seq<McpToolConfig>, id: Seq<char>) -> bool {
    exists|i: int| first_tool(tools, id, i) && tools[i].enabled
}

impl McpConfig {
    /// The default table: `zhi` on and locked, `ji` and `sou` off and optional.
    pub open spec fn is_default(&self) -> bool {
        &&& self.tools@.len() == 3
        &&& self.tools@[0].tool_id@ == TOOL_ZHI@ && self.tools@[0].enabled && !self.tools@[0].can_disable
        &&& self.tools@[1].tool_id@ == TOOL_JI@ && !self.tools@[1].enabled && self.tools@[1].can_disable
        &&& self.tools@[2].tool_id@ == TOOL_SOU@ && !self.tools@[2].enabled && self.tools@[2].can_disable
        &&& self.continue_reply_enabled == DEFAULT_CONTINUE_REPLY_ENABLED
        &&& self.auto_continue_threshold == DEFAULT_AUTO_CONTINUE_THRESHOLD
        &&& self.continue_prompt@ == DEFAULT_CONTINUE_PROMPT@
        &&& self.request_timeout_ms == REQUEST_TIMEOUT_MS
        &&& self.max_retry_count == MAX_RETRY_COUNT
    }

    fn position(&self, tool_id: &str) -> (r: Option<usize>)
        ensures
            match r {
                Some(i) => first_tool(self.tools@, tool_id@, i as int),
                None => !has_tool(self.tools@, tool_id@),
            },
    {
        let mut i: usize = 0;
        while i < self.tools.len()
            invariant
                i <= self.tools@.len(),
                forall|k: int| 0 <= k < i ==> self.tools@[k].tool_id@ != tool_id@,
            decreases self.tools@.len() - i,
        {
            if str_eq(self.tools[i].tool_id.as_str(), tool_id) {
                return Some(i);
            }
            i += 1;
        }
        None
    }

    /// The first entry for `tool_id`, if any.
    pub fn get_tool_config(&self, tool_id: &str) -> (r: Option<&McpToolConfig>)
        ensures
            match r {
                Some(t) => exists|i: int| first_tool(self.tools@, tool_id@, i) && *t == self.tools@[i],
                None => !has_tool(self.tools@, tool_id@),
            },
    {
        match self.position(tool_id) {
            Some(i) => Some(&self.tools[i]),
            None => None,
        }
    }

    /// Whether `tool_id` is listed and on; an unlisted tool is off.
    pub fn is_tool_enabled(&self, tool_id: &str) -> (r: bool)
        ensures
            r == tool_on(self.tools@, tool_id@),
    {
        match self.position(tool_id) {
            Some(i) => self.tools[i].enabled,
            None => false,
        }
    }

    /// Turns `tool_id` on or off. Turning off a tool that cannot be disabled,
    /// or naming an unlisted tool, changes nothing and returns false.
    pub fn set_tool_enabled(&mut self, tool_id: &str, enabled: bool) -> (r: bool)
        ensures
            r == exists|i: int|
                first_tool(old(self).tools@, tool_id@, i) && (old(self).tools@[i].can_disable || enabled),
            final(self).tools@.len() == old(self).tools@.len(),
            forall|i: int|
                #![trigger final(self).tools@[i]]
                0 <= i < old(self).tools@.len() ==> {
                    &&& final(self).tools@[i].tool_id@ == old(self).tools@[i].tool_id@
                    &&& final(self).tools@[i].can_disable == old(self).tools@[i].can_disable
                    &&& final(self).tools@[i].enabled == if r && first_tool(old(self).tools@, tool_id@, i) {
                        enabled
                    } else {
                        old(self).tools@[i].enabled
                    }
                },
            final(self).continue_reply_enabled == old(self).continue_reply_enabled,
            final(self).auto_continue_threshold == old(self).auto_continue_threshold,
            final(self).continue_prompt@ == old(self).continue_prompt@,
            final(self).request_timeout_ms == old(self).request_timeout_ms,
            final(self).max_retry_count == old(self).max_retry_count,
    {
        match self.position(tool_id) {
            Some(i) => {
                if self.tools[i].can_disable || enabled {
                    let id = self.tools[i].tool_id.clone();
                    let can_disable = self.tools[i].can_disable;
                    self.tools.set(i, McpToolConfig { tool_id: id, enabled, can_disable });
                    proof {
                        assert forall|k: int| first_tool(old(self).tools@, tool_id@, k) implies k == i by {
                            if k < i { assert(old(self).tools@[k].tool_id@ != tool_id@); }
                            if k > i { assert(old(self).tools@[i as int].tool_id@ != tool_id@); }
                        }
                    }
                    true
                } else {
                    proof {
                        assert forall|k: int| first_tool(old(self).tools@, tool_id@, k) implies k == i by {
                            if k < i { assert(old(self).tools@[k].tool_id@ != tool_id@); }
                            if k > i { assert(old(self).tools@[i as int].tool_id@ != tool_id@); }
                        }
                    }
                    false
                }
            },
            None => false,
        }
    }
}

impl Default for McpConfig {
    fn default() -> (r: McpConfig)
        ensures
            r.is_default(),
    {
        let mut tools: Vec<McpToolConfig> = Vec::new();
        tools.push(McpToolConfig::new(TOOL_ZHI, true, false));
        tools.push(McpToolConfig::new(TOOL_JI, false, true));
        tools.push(McpToolConfig::new(TOOL_SOU, false, true));
        McpConfig {
            tools,
            continue_reply_enabled: DEFAULT_CONTINUE_REPLY_ENABLED,
            auto_continue_threshold: DEFAULT_AUTO_CONTINUE_THRESHOLD,
            continue_prompt: String::from_str(DEFAULT_CONTINUE_PROMPT),
            request_timeout_ms: REQUEST_TIMEOUT_MS,
            max_retry_count: MAX_RETRY_COUNT,
        }
    }
}

/// The default configuration.
pub fn get_default_mcp_config() -> (r: McpConfig)
    ensures
        r.is_default(),
{
    McpConfig::default()
}

pub open spec fn valid_tool_id(tool_id: Seq<char>) -> bool {
    tool_id == TOOL_ZHI@ || tool_id == TOOL_JI@ || tool_id == TOOL_SOU@
}

/// Whether `tool_id` names one of the three tools.
pub fn is_valid_tool_id(tool_id: &str) -> (r: bool)
    ensures
        r == valid_tool_id(tool_id@),
{
    str_eq(tool_id, TOOL_ZHI) || str_eq(tool_id, TOOL_JI) || str_eq(tool_id, TOOL_SOU)
}

} // verus!
