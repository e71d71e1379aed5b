//! Arguments of the interaction and memory tools, and the reply the
//! interaction popup sends back.

use vstd::prelude::*;
use vstd::string::*;
use crate::tools::DEFAULT_CONTINUE_PROMPT;

verus! {

/// Arguments of the interaction tool.
#[derive(Debug)]
pub struct ZhiRequest {
    pub message: String,
    pub predefined_options: Vec<String>,
    pub is_markdown: bool,
}

/// Arguments of the memory tool.
#[derive(Debug)]
pub struct JiyiRequest {
    pub action: String,
    pub project_path: String,
    pub content: String,
    pub category: String,
}

/// What the interaction popup is asked to show.
#[derive(Debug)]
pub struct PopupRequest {
    pub id: String,
    pub message: String,
    pub predefined_options: Option<Vec<String>>,
    pub is_markdown: bool,
}

#[derive(Debug)]
pub struct ImageAttachment {
    pub data: String,
    pub media_type: String,
    pub filename: Option<String>,
}

#[derive(Debug)]
pub struct ResponseMetadata {
    pub timestamp: Option<String>,
    pub request_id: Option<String>,
    pub source: Option<String>,
}

/// The user's reply from the popup.
#[derive(Debug)]
pub struct McpResponse {
    pub user_input: Option<String>,
    pub selected_options: Vec<String>,
    pub images: Vec<ImageAttachment>,
    pub metadata: ResponseMetadata,
}

/// Messages are Markdown unless the caller says otherwise.
pub fn default_is_markdown() -> (r: bool)
    ensures
        r,
{
    true
}

/// Memories go to the `context` category unless another is given.
pub fn default_category() -> (r: String)
    ensures
        r@ == "context"@,
{
    String::from_str("context")
}

/// The text of a "continue" reply: the configured prompt, or the default one
/// when the configuration could not be read.
pub fn continue_prompt(configured: Option<String>) -> (r: String)
    ensures
        configured is Some ==> r@ == configured->0@,
        configured is None ==> r@ == DEFAULT_CONTINUE_PROMPT@,
{
    match configured {
        Some(p) => p,
        None => String::from_str(DEFAULT_CONTINUE_PROMPT),
    }
}

} // verus!
