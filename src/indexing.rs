//! The steps of one search-tool call that sit between the outside calls:
//! its errors, the checks between phases, the backend's endpoints, and the
//! text the tool answers with.

use vstd::prelude::*;
use vstd::string::*;
use crate::chunking::BlobItem;
use crate::incremental::merged_identities;
use crate::search::ConfigError;

verus! {

/// Why a search-tool call could not complete.
#[derive(Debug)]
pub enum IndexError {
    Config(ConfigError),
    /// The project root does not exist.
    RootMissing(String),
    /// No file of the project was admitted.
    NoIndexableFiles,
    /// After indexing, the project has no identities to search.
    NoBlobsAfterIndexing,
    /// The retrieval call failed after its retries; the text says why.
    Retrieval(String),
}

/// The text shown for each failure.
pub open spec fn error_text(e: IndexError) -> Seq<char> {
    match e {
        IndexError::Config(ConfigError::MissingBaseUrl) => "未配置 base_url"@,
        IndexError::Config(ConfigError::InvalidBaseUrl) => "无效的 base_url，请填写完整的 http(s)://host[:port] 格式"@,
        IndexError::Config(ConfigError::MissingToken) => "未配置 token"@,
        IndexError::Config(ConfigError::ZeroBatchSize) => "batch_size 必须大于 0"@,
        IndexError::Config(ConfigError::ZeroMaxLines) => "max_lines_per_blob 必须大于 0"@,
        IndexError::RootMissing(root) => "项目根目录不存在: "@ + root@,
        IndexError::NoIndexableFiles => "未在项目中找到可索引的文本文件"@,
        IndexError::NoBlobsAfterIndexing => "索引后未找到 blobs"@,
        IndexError::Retrieval(why) => "检索失败: "@ + why@,
    }
}

impl IndexError {
    /// The text shown to the caller.
    pub fn message(&self) -> (r: String)
        ensures
            r@ == error_text(*self),
            r@.len() > 0,
    {
        let r = match self {
            IndexError::Config(ConfigError::MissingBaseUrl) => String::from_str("未配置 base_url"),
            IndexError::Config(ConfigError::InvalidBaseUrl) => String::from_str(
                "无效的 base_url，请填写完整的 http(s)://host[:port] 格式",
            ),
            IndexError::Config(ConfigError::MissingToken) => String::from_str("未配置 token"),
            IndexError::Config(ConfigError::ZeroBatchSize) => String::from_str("batch_size 必须大于 0"),
            IndexError::Config(ConfigError::ZeroMaxLines) => String::from_str(
                "max_lines_per_blob 必须大于 0",
            ),
            IndexError::RootMissing(root) => {
                let mut s = String::from_str("项目根目录不存在: ");
                s.append(root.as_str());
                s
            },
            IndexError::NoIndexableFiles => String::from_str("未在项目中找到可索引的文本文件"),
            IndexError::NoBlobsAfterIndexing => String::from_str("索引后未找到 blobs"),
            IndexError::Retrieval(why) => {
                let mut s = String::from_str("检索失败: ");
                s.append(why.as_str());
                s
            },
        };
        proof {
            reveal_strlit("未配置 base_url");
            reveal_strlit("无效的 base_url，请填写完整的 http(s)://host[:port] 格式");
            reveal_strlit("未配置 token");
            reveal_strlit("batch_size 必须大于 0");
            reveal_strlit("max_lines_per_blob 必须大于 0");
            reveal_strlit("项目根目录不存在: ");
            reveal_strlit("未在项目中找到可索引的文本文件");
            reveal_strlit("索引后未找到 blobs");
            reveal_strlit("检索失败: ");
        }
        r
    }
}

/// Fails when the scan admitted no file.
pub fn check_collected(blobs: &Vec<BlobItem>) -> (r: Result<(), IndexError>)
    ensures
        r is Ok <==> blobs@.len() > 0,
        r matches Err(e) ==> e is NoIndexableFiles,
{
    if blobs.len() == 0 {
        Err(IndexError::NoIndexableFiles)
    } else {
        Ok(())
    }
}

/// The identities a run persists and searches: the kept ones, then those of
/// the confirmed batches. A project left with none cannot be searched.
pub fn finish_run(existing: &Vec<String>, confirmed: &Vec<String>) -> (r: Result<Vec<String>, IndexError>)
    ensures
        r is Ok <==> existing@.len() + confirmed@.len() > 0,
        r matches Ok(ids) ==> ids.deep_view() == existing.deep_view() + confirmed.deep_view(),
        r matches Err(e) ==> e is NoBlobsAfterIndexing,
{
    if existing.len() == 0 && confirmed.len() == 0 {
        Err(IndexError::NoBlobsAfterIndexing)
    } else {
        Ok(merged_identities(existing, confirmed))
    }
}

pub open spec fn endpoint(base: Seq<char>, path: Seq<char>) -> Seq<char> {
    base + path
}

/// Where batches of new blobs are posted.
pub fn upload_url(base_url: &str) -> (r: String)
    ensures
        r@ == endpoint(base_url@, "/batch-upload"@),
{
    let mut s = String::from_str(base_url);
    s.append("/batch-upload");
    s
}

/// Where retrieval queries are posted.
pub fn retrieval_url(base_url: &str) -> (r: String)
    ensures
        r@ == endpoint(base_url@, "/codebase-retrieval"@),
{
    let mut s = String::from_str(base_url);
    s.append("/codebase-retrieval");
    s
}

/// The value of the `Authorization` header.
pub fn bearer(token: &str) -> (r: String)
    ensures
        r@ == "Bearer "@ + token@,
{
    let mut s = String::from_str("Bearer ");
    s.append(token);
    s
}

pub const NO_CONTEXT: &'static str = "No relevant code context found for your query.";

/// The text a search returns: the backend's formatted retrieval, or a fixed
/// notice when that is missing or empty.
pub fn retrieval_text(formatted: Option<String>) -> (r: String)
    ensures
        formatted is Some && formatted->0@.len() > 0 ==> r@ == formatted->0@,
        !(formatted is Some && formatted->0@.len() > 0) ==> r@ == NO_CONTEXT@,
{
    match formatted {
        Some(t) => {
            if t.as_str().is_empty() {
                String::from_str(NO_CONTEXT)
            } else {
                t
            }
        },
        None => String::from_str(NO_CONTEXT),
    }
}

/// The result block of a tool call: its text, and whether it reports an error.
#[derive(Debug)]
pub struct ToolText {
    pub text: String,
    pub is_error: bool,
}

/// What the search tool answers: the retrieved text, or the failure's
/// message under a fixed prefix, marked as an error.
pub fn search_response(outcome: Result<String, IndexError>) -> (r: ToolText)
    ensures
        outcome is Ok ==> r.text@ == outcome->Ok_0@ && !r.is_error,
        outcome is Err ==> r.is_error && r.text@ == "Acemcp执行失败: "@ + error_text(outcome->Err_0),
{
    match outcome {
        Ok(t) => ToolText { text: t, is_error: false },
        Err(e) => {
            let mut s = String::from_str("Acemcp执行失败: ");
            let m = e.message();
            s.append(m.as_str());
            ToolText { text: s, is_error: true }
        },
    }
}

} // verus!
