//! JSON framing of what is sent to the retrieval backend and of the
//! per-user project document. Only string quoting and document parsing are
//! delegated to `serde_json`; the shapes are written out here.

use vstd::prelude::*;
use vstd::string::*;
use crate::chunking::BlobItem;
use crate::identity::hex_digit;
use crate::incremental::blob_views;
use crate::indexing::IndexError;
use crate::projects::{lemma_lookup_absent, lemma_lookup_append, lemma_lookup_first, lookup, ProjectEntry, ProjectIndex};

verus! {

/// How one character stands in a JSON string: quote and backslash escaped,
/// the short escapes for backspace, tab, line feed, form feed and carriage
/// return, `\u00xx` (lower-case hex) for the other control characters, and
/// every other character as it is.
pub open spec fn json_escape(c: char) -> Seq<char> {
    if c == '"' {
        seq!['\\', '"']
    } else if c == '\\' {
        seq!['\\', '\\']
    } else if c == '\u{8}' {
        seq!['\\', 'b']
    } else if c == '\t' {
        seq!['\\', 't']
    } else if c == '\n' {
        seq!['\\', 'n']
    } else if c == '\u{c}' {
        seq!['\\', 'f']
    } else if c == '\r' {
        seq!['\\', 'r']
    } else if (c as u32) < 0x20 {
        seq!['\\', 'u', '0', '0', hex_digit((c as u32) as int / 16), hex_digit((c as u32) as int % 16)]
    } else {
        seq![c]
    }
}

pub open spec fn json_escaped(s: Seq<char>) -> Seq<char>
    decreases s.len(),
{
    if s.len() == 0 {
        seq![]
    } else {
        json_escaped(s.drop_last()) + json_escape(s.last())
    }
}

/// The JSON string literal of `s`: its escaped characters between quotes.
pub open spec fn json_quoted(s: Seq<char>) -> Seq<char> {
    seq!['"'] + json_escaped(s) + seq!['"']
}

/// Relies on `serde_json::to_string` on a `&str`: the JSON string literal,
/// escaped by serde_json's table (`format_escaped_str_contents`).
#[verifier::external_body]
fn quote(s: &str) -> (r: String)
    ensures
        r@ == json_quoted(s@),
{
    match serde_json::to_string(s) {
        Ok(q) => q,
        Err(_) => String::new(),
    }
}

/// `items` with `sep` between consecutive ones.
pub open spec fn joined(items: Seq<Seq<char>>, sep: Seq<char>) -> Seq<char>
    decreases items.len(),
{
    if items.len() == 0 {
        seq![]
    } else if items.len() == 1 {
        items[0]
    } else {
        joined(items.drop_last(), sep) + sep + items.last()
    }
}

pub open spec fn json_list(items: Seq<Seq<char>>) -> Seq<char> {
    "["@ + joined(items, ","@) + "]"@
}

pub open spec fn quoted_all(v: Seq<Seq<char>>) -> Seq<Seq<char>> {
    v.map_values(|s: Seq<char>| json_quoted(s))
}

pub open spec fn blob_object(b: (Seq<char>, Seq<char>)) -> Seq<char> {
    "{\"path\":"@ + json_quoted(b.0) + ",\"content\":"@ + json_quoted(b.1) + "}"@
}

/// Body of an upload: `{"blobs":[{"path":..,"content":..},..]}`.
pub open spec fn upload_body_of(blobs: Seq<(Seq<char>, Seq<char>)>) -> Seq<char> {
    "{\"blobs\":"@ + json_list(blobs.map_values(|b: (Seq<char>, Seq<char>)| blob_object(b))) + "}"@
}

pub const RETRIEVAL_HEAD: &'static str = "{\"information_request\":";

pub const RETRIEVAL_BLOBS: &'static str = ",\"blobs\":{\"checkpoint_id\":null,\"added_blobs\":";

pub const RETRIEVAL_TAIL: &'static str = ",\"deleted_blobs\":[]},\"dialog\":[],\"max_output_length\":0,\"disable_codebase_retrieval\":false,\"enable_commit_retrieval\":false}";

/// Body of a retrieval query: the question, every identity as added, no
/// checkpoint, nothing deleted, no dialog.
pub open spec fn retrieval_body_of(query: Seq<char>, ids: Seq<Seq<char>>) -> Seq<char> {
    RETRIEVAL_HEAD@ + json_quoted(query) + RETRIEVAL_BLOBS@ + json_list(quoted_all(ids)) + RETRIEVAL_TAIL@
}

pub open spec fn entry_member(e: (Seq<char>, Seq<Seq<char>>)) -> Seq<char> {
    json_quoted(e.0) + ":"@ + json_list(quoted_all(e.1))
}

/// The project document: one member per root, its identities as a list.
pub open spec fn projects_document_of(entries: Seq<(Seq<char>, Seq<Seq<char>>)>) -> Seq<char> {
    "{"@ + joined(entries.map_values(|e: (Seq<char>, Seq<Seq<char>>)| entry_member(e)), ","@) + "}"@
}

/// Appends `items` separated by `sep`.
fn append_joined(out: &mut String, items: &Vec<String>, sep: &str)
    ensures
        final(out)@ == old(out)@ + joined(items.deep_view(), sep@),
{
    let ghost start = out@;
    let mut i: usize = 0;
    while i < items.len()
        invariant
            i <= items@.len(),
            out@ == start + joined(items.deep_view().take(i as int), sep@),
        decreases items@.len() - i,
    {
        let ghost parts = items.deep_view().take(i + 1);
        assert(parts.drop_last() =~= items.deep_view().take(i as int));
        if i > 0 {
            out.append(sep);
        }
        out.append(items[i].as_str());
        i += 1;
    }
    assert(items.deep_view().take(i as int) =~= items.deep_view());
}

fn quote_all(v: &Vec<String>) -> (r: Vec<String>)
    ensures
        r.deep_view() == quoted_all(v.deep_view()),
{
    let mut r: Vec<String> = Vec::new();
    let mut i: usize = 0;
    while i < v.len()
        invariant
            i <= v@.len(),
            r.deep_view() == quoted_all(v.deep_view().take(i as int)),
        decreases v@.len() - i,
    {
        let ghost prev = r.deep_view();
        let q = quote(v[i].as_str());
        r.push(q);
        assert(r.deep_view() =~= prev.push(q@));
        assert(quoted_all(v.deep_view().take(i + 1)) =~= quoted_all(v.deep_view().take(i as int)).push(
            json_quoted(v@[i as int]@),
        ));
        i += 1;
    }
    assert(v.deep_view().take(i as int) =~= v.deep_view());
    r
}

fn append_list(out: &mut String, items: &Vec<String>)
    ensures
        final(out)@ == old(out)@ + json_list(items.deep_view()),
{
    out.append("[");
    append_joined(out, items, ",");
    out.append("]");
}

/// The body of an upload of `blobs`.
pub fn upload_body(blobs: &Vec<BlobItem>) -> (r: String)
    ensures
        r@ == upload_body_of(blob_views(blobs@)),
{
    let mut objects: Vec<String> = Vec::new();
    let mut i: usize = 0;
    while i < blobs.len()
        invariant
            i <= blobs@.len(),
            objects.deep_view() == blob_views(blobs@).take(i as int).map_values(
                |b: (Seq<char>, Seq<char>)| blob_object(b),
            ),
        decreases blobs@.len() - i,
    {
        let mut o = String::from_str("{\"path\":");
        let p = quote(blobs[i].path.as_str());
        o.append(p.as_str());
        o.append(",\"content\":");
        let c = quote(blobs[i].content.as_str());
        o.append(c.as_str());
        o.append("}");
        let ghost prev = objects.deep_view();
        objects.push(o);
        assert(objects.deep_view() =~= prev.push(o@));
        assert(blob_views(blobs@).take(i + 1).map_values(|b: (Seq<char>, Seq<char>)| blob_object(b))
            =~= prev.push(blob_object(blobs@[i as int]@)));
        i += 1;
    }
    assert(blob_views(blobs@).take(i as int) =~= blob_views(blobs@));
    let mut body = String::from_str("{\"blobs\":");
    append_list(&mut body, &objects);
    body.append("}");
    body
}

/// The body of a retrieval query for `query` over `ids`.
pub fn retrieval_body(query: &str, ids: &Vec<String>) -> (r: String)
    ensures
        r@ == retrieval_body_of(query@, ids.deep_view()),
{
    let mut body = String::from_str(RETRIEVAL_HEAD);
    let q = quote(query);
    body.append(q.as_str());
    body.append(RETRIEVAL_BLOBS);
    let quoted = quote_all(ids);
    append_list(&mut body, &quoted);
    body.append(RETRIEVAL_TAIL);
    body
}

/// What `serde_json` reads from a project document: each root with its
/// identities, in key order; `None` when the text is not such a document.
pub uninterp spec fn parsed_projects(text: Seq<char>) -> Option<Seq<(Seq<char>, Seq<Seq<char>>)>>;

pub open spec fn pair_views(v: Seq<(String, Vec<String>)>) -> Seq<(Seq<char>, Seq<Seq<char>>)> {
    v.map_values(|e: (String, Vec<String>)| (e.0@, e.1.deep_view()))
}

/// Relies on `serde_json::from_str` into a `BTreeMap<String, Vec<String>>`:
/// the document's members in key order, or `None` when it does not parse.
#[verifier::external_body]
fn parse_projects(text: &str) -> (r: Option<Vec<(String, Vec<String>)>>)
    ensures
        r is None <==> parsed_projects(text@) is None,
        r is Some ==> pair_views(r->0@) == parsed_projects(text@)->0,
{
    match serde_json::from_str::<std::collections::BTreeMap<String, Vec<String>>>(text) {
        Ok(m) => Some(m.into_iter().collect()),
        Err(_) => None,
    }
}

impl ProjectIndex {
    /// The index a project document holds, a root's first member winning;
    /// empty when the document does not parse.
    pub fn from_document(text: &str) -> (r: ProjectIndex)
        ensures
            r.wf(),
            parsed_projects(text@) is Some ==> forall|root: Seq<char>|
                lookup(r.view(), root) == lookup(parsed_projects(text@)->0, root),
            parsed_projects(text@) is None ==> r.view().len() == 0,
    {
        let mut index = ProjectIndex::new();
        match parse_projects(text) {
            Some(pairs) => {
                let ghost pv = pair_views(pairs@);
                let mut rest = pairs;
                let mut i: usize = 0;
                let n = rest.len();
                let ghost all = rest@;
                while i < n
                    invariant
                        n == all.len(),
                        i <= n,
                        pv == pair_views(all),
                        rest@ == all.subrange(i as int, n as int),
                        index.wf(),
                        forall|root: Seq<char>| lookup(index.view(), root) == lookup(pv.take(i as int), root),
                    decreases n - i,
                {
                    let (root, ids) = rest.remove(0);
                    assert(all[i as int] == (root, ids));
                    let ghost e = (root@, ids.deep_view());
                    assert(pv[i as int] == e);
                    assert(pv.take(i + 1) =~= pv.take(i as int).push(e));
                    match index.find(root.as_str()) {
                        Some(j) => {
                            proof {
                                lemma_lookup_first(index.view(), root@, j as int);
                                assert forall|k: Seq<char>|
                                    #[trigger] lookup(index.view(), k) == lookup(pv.take(i + 1), k) by {
                                    lemma_lookup_append(pv.take(i as int), e, k);
                                }
                            }
                        },
                        None => {
                            proof {
                                lemma_lookup_absent(index.view(), root@);
                            }
                            let ghost before = index.view();
                            index.entries.push(ProjectEntry { root, ids });
                            assert(index.view() =~= before.push(e));
                            assert forall|k: Seq<char>|
                                #[trigger] lookup(index.view(), k) == lookup(pv.take(i + 1), k) by {
                                lemma_lookup_append(before, e, k);
                                lemma_lookup_append(pv.take(i as int), e, k);
                            }
                        },
                    }
                    assert(rest@ =~= all.subrange(i + 1, n as int));
                    i += 1;
                }
                assert(pv.take(n as int) =~= pv);
                index
            },
            None => index,
        }
    }

    /// The project document of this index.
    pub fn to_document(&self) -> (r: String)
        ensures
            r@ == projects_document_of(self.view()),
    {
        let mut members: Vec<String> = Vec::new();
        let mut i: usize = 0;
        while i < self.entries.len()
            invariant
                i <= self.entries@.len(),
                members.deep_view() == self.view().take(i as int).map_values(
                    |e: (Seq<char>, Seq<Seq<char>>)| entry_member(e),
                ),
            decreases self.entries@.len() - i,
        {
            let mut m = quote(self.entries[i].root.as_str());
            m.append(":");
            let quoted = quote_all(&self.entries[i].ids);
            append_list(&mut m, &quoted);
            let ghost prev = members.deep_view();
            members.push(m);
            assert(members.deep_view() =~= prev.push(m@));
            assert(self.view().take(i + 1).map_values(|e: (Seq<char>, Seq<Seq<char>>)| entry_member(e))
                =~= prev.push(entry_member(self.view()[i as int])));
            i += 1;
        }
        assert(self.view().take(i as int) =~= self.view());
        let mut doc = String::from_str("{");
        append_joined(&mut doc, &members, ",");
        doc.append("}");
        doc
    }
}

/// What `serde_json` finds under `field` of the JSON object `body`, when it
/// is an array: each item's text when it is a string. `None` when `body` is
/// not JSON or `field` holds no array.
pub uninterp spec fn json_field_items(body: Seq<char>, field: Seq<char>) -> Option<Seq<Option<Seq<char>>>>;

pub open spec fn opt_views(v: Seq<Option<String>>) -> Seq<Option<Seq<char>>> {
    v.map_values(|o: Option<String>| match o {
        Some(s) => Some(s@),
        None => None,
    })
}

/// Relies on `serde_json::from_str` into a `Value`, then `Value::get`,
/// `Value::as_array` and `Value::as_str`: the items under `field`.
#[verifier::external_body]
fn field_items(body: &str, field: &str) -> (r: Option<Vec<Option<String>>>)
    ensures
        r is None <==> json_field_items(body@, field@) is None,
        r is Some ==> opt_views(r->0@) == json_field_items(body@, field@)->0,
{
    let value: serde_json::Value = serde_json::from_str(body).ok()?;
    let items = value.get(field)?.as_array()?;
    Some(items.iter().map(|i| i.as_str().map(|s| s.to_string())).collect())
}

/// The strings among `items`, in order.
pub open spec fn strings_among(items: Seq<Option<Seq<char>>>) -> Seq<Seq<char>>
    decreases items.len(),
{
    if items.len() == 0 {
        seq![]
    } else {
        let rest = strings_among(items.drop_last());
        match items.last() {
            Some(s) => rest.push(s),
            None => rest,
        }
    }
}

/// The names an upload answer lists under `blob_names`, skipping items that
/// are not strings; `None` when the answer has no such list.
pub fn blob_names(body: &str) -> (r: Option<Vec<String>>)
    ensures
        r is None <==> json_field_items(body@, "blob_names"@) is None,
        r is Some ==> r->0.deep_view() == strings_among(json_field_items(body@, "blob_names"@)->0),
{
    let items = match field_items(body, "blob_names") {
        Some(v) => v,
        None => {
            return None;
        },
    };
    let ghost iv = opt_views(items@);
    let mut names: Vec<String> = Vec::new();
    let mut i: usize = 0;
    while i < items.len()
        invariant
            i <= items@.len(),
            iv == opt_views(items@),
            names.deep_view() == strings_among(iv.take(i as int)),
        decreases items@.len() - i,
    {
        assert(iv.take(i + 1).drop_last() =~= iv.take(i as int));
        match &items[i] {
            Some(s) => {
                let ghost prev = names.deep_view();
                names.push(s.clone());
                assert(names.deep_view() =~= prev.push(s@));
            },
            None => {},
        }
        i += 1;
    }
    assert(iv.take(i as int) =~= iv);
    Some(names)
}

/// What `serde_json` finds under `field` of `body`: `None` when `body` is
/// not JSON, else the field's text when it holds a string.
pub uninterp spec fn json_field_text(body: Seq<char>, field: Seq<char>) -> Option<Option<Seq<char>>>;

/// Relies on `serde_json::from_str` into a `Value`, then `Value::get` and
/// `Value::as_str`: whether `body` parses, and the text under `field`.
#[verifier::external_body]
fn field_text(body: &str, field: &str) -> (r: Option<Option<String>>)
    ensures
        r is None <==> json_field_text(body@, field@) is None,
        r is Some ==> (r->0 is Some <==> json_field_text(body@, field@)->0 is Some),
        r is Some && r->0 is Some ==> r->0->0@ == json_field_text(body@, field@)->0->0,
{
    let value: serde_json::Value = serde_json::from_str(body).ok()?;
    Some(value.get(field).and_then(|f| f.as_str()).map(|s| s.to_string()))
}

pub const NOT_JSON: &'static str = "检索响应不是有效的 JSON";

/// The text of a retrieval answer under `formatted_retrieval`; a retrieval
/// failure when the answer is not JSON.
pub fn formatted_retrieval(body: &str) -> (r: Result<Option<String>, IndexError>)
    ensures
        r is Err <==> json_field_text(body@, "formatted_retrieval"@) is None,
        r is Err ==> (r->Err_0 is Retrieval
            && r->Err_0->Retrieval_0@ == NOT_JSON@),
        r is Ok ==> (r->Ok_0 is Some <==> json_field_text(body@, "formatted_retrieval"@)->0 is Some),
        r is Ok && r->Ok_0 is Some ==> r->Ok_0->0@ == json_field_text(body@, "formatted_retrieval"@)->0->0,
{
    match field_text(body, "formatted_retrieval") {
        Some(t) => Ok(t),
        None => Err(IndexError::Retrieval(String::from_str(NOT_JSON))),
    }
}

} // verus!
