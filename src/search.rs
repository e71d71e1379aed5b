//! Search-tool settings: the request, the configuration it reads, and the
//! checks that run before any network call.

use vstd::prelude::*;
use vstd::string::*;
use vstd::utf8::encode_utf8;
use crate::text::{chars_of, clone_strings, has_prefix, is_white, string_of, trim, trim_end_of, trim_of, trim_start_of};

verus! {

/// Arguments of the code-search tool.
#[derive(Clone, Debug)]
pub struct AcemcpRequest {
    /// Absolute path of the project root, with forward slashes.
    pub project_root_path: String,
    /// Natural-language query.
    pub query: String,
}

/// Search-tool configuration as stored; every field may be missing.
#[derive(Clone, Debug)]
pub struct AcemcpConfig {
    pub base_url: Option<String>,
    pub token: Option<String>,
    pub batch_size: Option<u32>,
    pub max_lines_per_blob: Option<u32>,
    pub text_extensions: Option<Vec<String>>,
    pub exclude_patterns: Option<Vec<String>>,
}

/// Settings of one indexing run, checked and with defaults filled in.
#[derive(Clone, Debug)]
pub struct IndexSettings {
    pub base_url: String,
    pub token: String,
    pub batch_size: usize,
    pub max_lines: usize,
    pub text_extensions: Vec<String>,
    pub exclude_patterns: Vec<String>,
}

/// Why a configuration cannot be used.
#[derive(Clone, Copy, Debug, PartialEq, Eq, Structural)]
pub enum ConfigError {
    MissingBaseUrl,
    InvalidBaseUrl,
    MissingToken,
    ZeroBatchSize,
    ZeroMaxLines,
}

pub const DEFAULT_BATCH_SIZE: u32 = 10;

pub const DEFAULT_MAX_LINES_PER_BLOB: u32 = 800;

pub open spec fn has_scheme(u: Seq<char>) -> bool {
    "http://"@.is_prefix_of(u) || "https://"@.is_prefix_of(u)
}

pub open spec fn with_scheme(u: Seq<char>) -> Seq<char> {
    if has_scheme(u) {
        u
    } else {
        "http://"@ + u
    }
}

pub open spec fn strip_trailing_slashes(u: Seq<char>) -> Seq<char>
    decreases u.len(),
{
    if u.len() > 0 && u.last() == '/' {
        strip_trailing_slashes(u.drop_last())
    } else {
        u
    }
}

/// A base URL as requests use it: trimmed, `http://` in front when no
/// scheme is given, and no trailing slashes.
pub open spec fn normalized_url(input: Seq<char>) -> Seq<char> {
    strip_trailing_slashes(with_scheme(trim_of(input)))
}

/// A usable base URL has a scheme and, trimmed, more bytes than `https://`.
pub open spec fn url_is_valid(u: Seq<char>) -> bool {
    has_scheme(u) && encode_utf8(trim_of(u)).len() > 8
}

/// A base URL written without scheme, surrounding white space or trailing
/// slash (such as `example.com:8080`) is used as `http://` followed by it.
pub proof fn lemma_scheme_added(u: Seq<char>)
    requires
        u.len() > 0,
        !is_white(u[0]),
        !is_white(u.last()),
        u.last() != '/',
        !has_scheme(u),
    ensures
        normalized_url(u) == "http://"@ + u,
{
    assert(trim_start_of(u) == u);
    assert(trim_end_of(u) == u);
    let w = "http://"@ + u;
    assert(w.last() == u.last());
    assert(strip_trailing_slashes(w) == w);
}

/// Normalizes a configured base URL.
pub fn normalize_base_url(input: &str) -> (r: String)
    ensures
        r@ == normalized_url(input@),
{
    let t = trim(input);
    let mut chars = if has_prefix(t, "http://") || has_prefix(t, "https://") {
        chars_of(t)
    } else {
        let mut s = String::from_str("http://");
        s.append(t);
        chars_of(s.as_str())
    };
    let ghost full = chars@;
    assert(full == with_scheme(trim_of(input@)));
    while chars.len() > 0 && chars[chars.len() - 1] == '/'
        invariant
            strip_trailing_slashes(chars@) == strip_trailing_slashes(full),
        decreases chars.len(),
    {
        let ghost before = chars@;
        chars.pop();
        assert(chars@ == before.drop_last());
    }
    string_of(&chars)
}

/// Whether a normalized base URL may be used.
pub fn base_url_is_valid(u: &str) -> (r: bool)
    ensures
        r == url_is_valid(u@),
{
    (has_prefix(u, "http://") || has_prefix(u, "https://")) && trim(u).as_bytes().len() > 8
}

pub open spec fn opt_strings(o: Option<Vec<String>>) -> Seq<Seq<char>> {
    match o {
        Some(v) => v.deep_view(),
        None => seq![],
    }
}

fn empty_strings() -> (r: Vec<String>)
    ensures
        r.deep_view() == Seq::<Seq<char>>::empty(),
{
    let r: Vec<String> = Vec::new();
    assert(r.deep_view() =~= Seq::<Seq<char>>::empty());
    r
}

/// Checks a configuration and fills in defaults: the base URL is normalized
/// and must be valid, a token must be given, and the batch size (10 when
/// missing) and line limit (800 when missing) must not be zero.
pub fn resolve_config(config: &AcemcpConfig) -> (r: Result<IndexSettings, ConfigError>)
    ensures
        config.base_url is None ==> r == Err::<IndexSettings, ConfigError>(ConfigError::MissingBaseUrl),
        config.base_url is Some && !url_is_valid(normalized_url(config.base_url->0@)) ==> r == Err::<
            IndexSettings,
            ConfigError,
        >(ConfigError::InvalidBaseUrl),
        config.base_url is Some && url_is_valid(normalized_url(config.base_url->0@))
            && config.token is None ==> r == Err::<IndexSettings, ConfigError>(
            ConfigError::MissingToken,
        ),
        config.base_url is Some && url_is_valid(normalized_url(config.base_url->0@))
            && config.token is Some && config.batch_size == Some(0u32) ==> r == Err::<
            IndexSettings,
            ConfigError,
        >(ConfigError::ZeroBatchSize),
        config.base_url is Some && url_is_valid(normalized_url(config.base_url->0@))
            && config.token is Some && config.batch_size != Some(0u32)
            && config.max_lines_per_blob == Some(0u32) ==> r == Err::<IndexSettings, ConfigError>(
            ConfigError::ZeroMaxLines,
        ),
        r is Ok <==> (config.base_url is Some && url_is_valid(normalized_url(config.base_url->0@))
            && config.token is Some && config.batch_size != Some(0u32)
            && config.max_lines_per_blob != Some(0u32)),
        r matches Ok(s) ==> {
            &&& s.base_url@ == normalized_url(config.base_url->0@)
            &&& s.token@ == config.token->0@
            &&& s.batch_size == (match config.batch_size {
                Some(b) => b,
                None => DEFAULT_BATCH_SIZE,
            })
            &&& s.max_lines == (match config.max_lines_per_blob {
                Some(m) => m,
                None => DEFAULT_MAX_LINES_PER_BLOB,
            })
            &&& s.text_extensions.deep_view() == opt_strings(config.text_extensions)
            &&& s.exclude_patterns.deep_view() == opt_strings(config.exclude_patterns)
        },
{
    let base_url = match &config.base_url {
        Some(b) => normalize_base_url(b.as_str()),
        None => {
            return Err(ConfigError::MissingBaseUrl);
        },
    };
    if !base_url_is_valid(base_url.as_str()) {
        return Err(ConfigError::InvalidBaseUrl);
    }
    let token = match &config.token {
        Some(t) => t.clone(),
        None => {
            return Err(ConfigError::MissingToken);
        },
    };
    let batch_size: u32 = match config.batch_size {
        Some(b) => b,
        None => DEFAULT_BATCH_SIZE,
    };
    if batch_size == 0 {
        return Err(ConfigError::ZeroBatchSize);
    }
    let max_lines: u32 = match config.max_lines_per_blob {
        Some(m) => m,
        None => DEFAULT_MAX_LINES_PER_BLOB,
    };
    if max_lines == 0 {
        return Err(ConfigError::ZeroMaxLines);
    }
    let text_extensions = match &config.text_extensions {
        Some(v) => clone_strings(v),
        None => empty_strings(),
    };
    let exclude_patterns = match &config.exclude_patterns {
        Some(v) => clone_strings(v),
        None => empty_strings(),
    };
    Ok(
        IndexSettings {
            base_url,
            token,
            batch_size: batch_size as usize,
            max_lines: max_lines as usize,
            text_extensions,
            exclude_patterns,
        },
    )
}

} // verus!
