//! Pure steps of the prompt-enhancement tool: its request, intent
//! classification, and folding image descriptions into the prompt.

use vstd::prelude::*;
use vstd::string::*;
use crate::text::{contains_str, seq_contains};

verus! {

/// An image given to the enhancement tool, base64-encoded.
#[derive(Debug)]
pub struct ImageInput {
    pub data: String,
    pub media_type: String,
    pub filename: Option<String>,
}

/// Arguments of the enhancement tool.
#[derive(Debug)]
pub struct EnhanceRequest {
    pub prompt: String,
    pub images: Vec<ImageInput>,
    pub enable_pipeline: bool,
    pub enable_scoring: bool,
    /// Quality score to reach, from 0 to 100.
    pub target_score: u8,
}

pub fn default_enable_pipeline() -> (r: bool)
    ensures
        r,
{
    true
}

pub fn default_enable_scoring() -> (r: bool)
    ensures
        r,
{
    true
}

pub fn default_target_score() -> (r: u8)
    ensures
        r == 90,
{
    90
}

pub open spec fn asks_for_code(p: Seq<char>) -> bool {
    seq_contains(p, "帮我写"@) || seq_contains(p, "给我"@) || seq_contains(p, "实现"@) || seq_contains(p, "创建"@)
        || seq_contains(p, "生成"@)
}

pub open spec fn asks_for_analysis(p: Seq<char>) -> bool {
    seq_contains(p, "分析"@) || seq_contains(p, "解释"@)
}

/// The kind of request a prompt makes: code generation when it asks for
/// code to be written, analysis when it asks for an explanation, else general.
pub fn classify_intent(prompt: &str) -> (r: String)
    ensures
        asks_for_code(prompt@) ==> r@ == "code_generation"@,
        !asks_for_code(prompt@) && asks_for_analysis(prompt@) ==> r@ == "code_analysis"@,
        !asks_for_code(prompt@) && !asks_for_analysis(prompt@) ==> r@ == "general"@,
{
    if contains_str(prompt, "帮我写") || contains_str(prompt, "给我") || contains_str(prompt, "实现") || contains_str(
        prompt,
        "创建",
    ) || contains_str(prompt, "生成") {
        String::from_str("code_generation")
    } else if contains_str(prompt, "分析") || contains_str(prompt, "解释") {
        String::from_str("code_analysis")
    } else {
        String::from_str("general")
    }
}

/// The lines of `parts` joined by `'\n'`.
pub open spec fn joined_lines(parts: Seq<Seq<char>>) -> Seq<char>
    decreases parts.len(),
{
    if parts.len() == 0 {
        seq![]
    } else if parts.len() == 1 {
        parts[0]
    } else {
        joined_lines(parts.drop_last()) + seq!['\n'] + parts.last()
    }
}

pub const IMAGE_CONTEXT_HEADING: &'static str = "\n\n**附加图片上下文:**\n";

/// The prompt followed by the image descriptions, one per line, under a
/// heading; the prompt alone when there are none.
pub fn integrate_image_context(original_prompt: &str, image_descriptions: &Vec<String>) -> (r: String)
    ensures
        image_descriptions@.len() == 0 ==> r@ == original_prompt@,
        image_descriptions@.len() > 0 ==> r@ == original_prompt@ + IMAGE_CONTEXT_HEADING@ + joined_lines(
            image_descriptions.deep_view(),
        ),
{
    let mut r = String::from_str(original_prompt);
    if image_descriptions.len() == 0 {
        return r;
    }
    r.append(IMAGE_CONTEXT_HEADING);
    let ghost head = r@;
    let mut i: usize = 0;
    while i < image_descriptions.len()
        invariant
            i <= image_descriptions@.len(),
            r@ == head + joined_lines(image_descriptions.deep_view().take(i as int)),
        decreases image_descriptions@.len() - i,
    {
        let ghost parts = image_descriptions.deep_view().take(i + 1);
        assert(parts.drop_last() =~= image_descriptions.deep_view().take(i as int));
        if i > 0 {
            r.append("\n");
            proof {
                reveal_strlit("\n");
            }
        }
        r.append(image_descriptions[i].as_str());
        i += 1;
    }
    assert(image_descriptions.deep_view().take(i as int) =~= image_descriptions.deep_view());
    r
}

} // verus!
