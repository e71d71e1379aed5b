//! The tool dispatcher: which tools are advertised and where a call goes.
//!
//! The live switches are read by the caller before each decision and handed
//! in; `None` stands for a failed read, in which case the snapshot taken when
//! the server was made is used.

use vstd::prelude::*;
use vstd::string::*;
use crate::settings::{default_mcp_tools, flag_of, flag_views, tool_flag};
use crate::text::str_eq;
use crate::tools::{TOOL_JI, TOOL_SOU, TOOL_ZHI};

verus! {

/// The prompt-enhancement tool; always offered.
pub const TOOL_ENHANCE: &'static str = "enhance";

/// One advertised tool.
#[derive(Debug)]
pub struct ToolDescriptor {
    pub id: String,
    /// Mandatory tools are offered whatever the switches say.
    pub mandatory: bool,
}

/// Where a call is routed.
#[derive(Clone, Copy, Debug, PartialEq, Eq, Structural)]
pub enum ToolKind {
    Interaction,
    Enhance,
    Memory,
    Search,
}

/// Protocol-level failures of a call, each a distinct signal.
#[derive(Clone, Copy, Debug, PartialEq, Eq, Structural)]
pub enum ProtocolError {
    /// The tool exists but is switched off.
    InternalError,
    /// No tool has that name.
    InvalidRequest,
    /// The arguments do not fit the tool's schema.
    InvalidParams,
}

#[derive(Debug)]
pub struct ZhiServer {
    /// Switches as read when the server was made.
    pub enabled_tools: Vec<(String, bool)>,
}

/// A tool is on unless its switch says otherwise.
pub open spec fn switched_on(tools: Seq<(Seq<char>, bool)>, id: Seq<char>) -> bool {
    match flag_of(tools, id) {
        Some(b) => b,
        None => true,
    }
}

impl ZhiServer {
    /// The switches that decide, given what the live read returned.
    pub open spec fn effective(&self, live: Option<Seq<(Seq<char>, bool)>>) -> Seq<(Seq<char>, bool)> {
        match live {
            Some(t) => t,
            None => flag_views(self.enabled_tools@),
        }
    }

    pub open spec fn enabled(&self, live: Option<Seq<(Seq<char>, bool)>>, id: Seq<char>) -> bool {
        switched_on(self.effective(live), id)
    }

    /// A server whose snapshot is the switches read now, or the defaults
    /// when the read failed.
    pub fn new(live: Option<&Vec<(String, bool)>>) -> (r: ZhiServer)
        ensures
            live is Some ==> flag_views(r.enabled_tools@) == flag_views(live->0@),
            live is None ==> flag_views(r.enabled_tools@) == seq![
                (TOOL_ZHI@, true),
                (TOOL_JI@, false),
                (TOOL_SOU@, false),
            ],
    {
        let enabled_tools = match live {
            Some(t) => copy_flags(t),
            None => default_mcp_tools(),
        };
        ZhiServer { enabled_tools }
    }

    /// Whether tool `id` is on, by the live switches or else the snapshot.
    pub fn is_tool_enabled(&self, id: &str, live: Option<&Vec<(String, bool)>>) -> (r: bool)
        ensures
            r == self.enabled(live_views(live), id@),
    {
        let flag = match live {
            Some(t) => tool_flag(t, id),
            None => tool_flag(&self.enabled_tools, id),
        };
        match flag {
            Some(b) => b,
            None => true,
        }
    }

    /// The tools to advertise: `zhi` and `enhance` always, then `ji` and
    /// `sou` each when switched on.
    pub fn list_tools(&self, live: Option<&Vec<(String, bool)>>) -> (r: Vec<ToolDescriptor>)
        ensures
            descriptor_views(r@) == listed(
                self.enabled(live_views(live), TOOL_JI@),
                self.enabled(live_views(live), TOOL_SOU@),
            ),
    {
        let mut tools: Vec<ToolDescriptor> = Vec::new();
        tools.push(ToolDescriptor { id: String::from_str(TOOL_ZHI), mandatory: true });
        tools.push(ToolDescriptor { id: String::from_str(TOOL_ENHANCE), mandatory: true });
        let ji = self.is_tool_enabled(TOOL_JI, live);
        if ji {
            tools.push(ToolDescriptor { id: String::from_str(TOOL_JI), mandatory: false });
        }
        let sou = self.is_tool_enabled(TOOL_SOU, live);
        if sou {
            tools.push(ToolDescriptor { id: String::from_str(TOOL_SOU), mandatory: false });
        }
        assert(descriptor_views(tools@) =~= listed(ji, sou));
        tools
    }

    /// Where a call to `name` goes, before its arguments are read: optional
    /// tools that are switched off fail with an internal error, unknown names
    /// with an invalid request.
    pub fn route_call(&self, name: &str, live: Option<&Vec<(String, bool)>>) -> (r: Result<ToolKind, ProtocolError>)
        ensures
            r == routed(name@, self.enabled(live_views(live), TOOL_JI@), self.enabled(live_views(live), TOOL_SOU@)),
    {
        if str_eq(name, TOOL_ZHI) {
            Ok(ToolKind::Interaction)
        } else if str_eq(name, TOOL_ENHANCE) {
            Ok(ToolKind::Enhance)
        } else if str_eq(name, TOOL_JI) {
            if self.is_tool_enabled(TOOL_JI, live) {
                Ok(ToolKind::Memory)
            } else {
                Err(ProtocolError::InternalError)
            }
        } else if str_eq(name, TOOL_SOU) {
            if self.is_tool_enabled(TOOL_SOU, live) {
                Ok(ToolKind::Search)
            } else {
                Err(ProtocolError::InternalError)
            }
        } else {
            Err(ProtocolError::InvalidRequest)
        }
    }
}

pub open spec fn live_views(live: Option<&Vec<(String, bool)>>) -> Option<Seq<(Seq<char>, bool)>> {
    match live {
        Some(t) => Some(flag_views(t@)),
        None => None,
    }
}

pub open spec fn descriptor_views(d: Seq<ToolDescriptor>) -> Seq<(Seq<char>, bool)> {
    d.map_values(|t: ToolDescriptor| (t.id@, t.mandatory))
}

/// The advertised list for the given states of the two optional tools.
pub open spec fn listed(ji: bool, sou: bool) -> Seq<(Seq<char>, bool)> {
    let base = seq![(TOOL_ZHI@, true), (TOOL_ENHANCE@, true)];
    let with_ji = if ji { base.push((TOOL_JI@, false)) } else { base };
    if sou { with_ji.push((TOOL_SOU@, false)) } else { with_ji }
}

pub open spec fn routed(name: Seq<char>, ji: bool, sou: bool) -> Result<ToolKind, ProtocolError> {
    if name == TOOL_ZHI@ {
        Ok(ToolKind::Interaction)
    } else if name == TOOL_ENHANCE@ {
        Ok(ToolKind::Enhance)
    } else if name == TOOL_JI@ {
        if ji { Ok(ToolKind::Memory) } else { Err(ProtocolError::InternalError) }
    } else if name == TOOL_SOU@ {
        if sou { Ok(ToolKind::Search) } else { Err(ProtocolError::InternalError) }
    } else {
        Err(ProtocolError::InvalidRequest)
    }
}

/// What a call whose arguments were read answers before the tool runs:
/// arguments that do not fit the schema fail with invalid params.
pub fn check_params(route: Result<ToolKind, ProtocolError>, params_ok: bool) -> (r: Result<ToolKind, ProtocolError>)
    ensures
        route is Err ==> r == route,
        route is Ok && !params_ok ==> r == Err::<ToolKind, ProtocolError>(ProtocolError::InvalidParams),
        route is Ok && params_ok ==> r == route,
{
    match route {
        Ok(k) => {
            if params_ok {
                Ok(k)
            } else {
                Err(ProtocolError::InvalidParams)
            }
        },
        Err(e) => Err(e),
    }
}

fn copy_flags(t: &Vec<(String, bool)>) -> (r: Vec<(String, bool)>)
    ensures
        flag_views(r@) == flag_views(t@),
{
    let mut r: Vec<(String, bool)> = Vec::new();
    let mut i: usize = 0;
    while i < t.len()
        invariant
            i <= t@.len(),
            flag_views(r@) == flag_views(t@).take(i as int),
        decreases t@.len() - i,
    {
        let ghost prev = r@;
        let e = (t[i].0.clone(), t[i].1);
        assert(e.0@ == t@[i as int].0@);
        r.push(e);
        assert(r@ == prev.push(e));
        assert(flag_views(r@) =~= flag_views(prev).push((e.0@, e.1)));
        assert(flag_views(t@).take(i + 1) =~= flag_views(t@).take(i as int).push(flag_views(t@)[i as int]));
        i += 1;
    }
    assert(flag_views(t@).take(t@.len() as int) =~= flag_views(t@));
    r
}

proof fn lemma_tool_names_distinct()
    ensures
        TOOL_ZHI@ != TOOL_ENHANCE@,
        TOOL_ZHI@ != TOOL_JI@,
        TOOL_ZHI@ != TOOL_SOU@,
        TOOL_ENHANCE@ != TOOL_JI@,
        TOOL_ENHANCE@ != TOOL_SOU@,
        TOOL_JI@ != TOOL_SOU@,
{
    reveal_strlit("zhi");
    reveal_strlit("enhance");
    reveal_strlit("ji");
    reveal_strlit("sou");
    assert(TOOL_ZHI@ =~= seq!['z', 'h', 'i']);
    assert(TOOL_ENHANCE@ =~= seq!['e', 'n', 'h', 'a', 'n', 'c', 'e']);
    assert(TOOL_JI@ =~= seq!['j', 'i']);
    assert(TOOL_SOU@ =~= seq!['s', 'o', 'u']);
    assert(TOOL_ZHI@[0] != TOOL_ENHANCE@[0]);
    assert(TOOL_ZHI@[0] != TOOL_JI@[0]);
    assert(TOOL_ZHI@[0] != TOOL_SOU@[0]);
    assert(TOOL_ENHANCE@[0] != TOOL_JI@[0]);
    assert(TOOL_ENHANCE@[0] != TOOL_SOU@[0]);
    assert(TOOL_JI@[0] != TOOL_SOU@[0]);
}

/// The two mandatory tools are always listed; an optional tool is listed
/// exactly when the switches consulted at that moment turn it on.
pub proof fn lemma_listing(ji: bool, sou: bool)
    ensures
        listed(ji, sou).len() >= 2,
        listed(ji, sou)[0] == (TOOL_ZHI@, true),
        listed(ji, sou)[1] == (TOOL_ENHANCE@, true),
        listed(ji, sou).contains((TOOL_JI@, false)) <==> ji,
        listed(ji, sou).contains((TOOL_SOU@, false)) <==> sou,
{
    lemma_tool_names_distinct();
    let l = listed(ji, sou);
    if ji {
        assert(l[2] == (TOOL_JI@, false));
    }
    if sou {
        assert(l[l.len() - 1] == (TOOL_SOU@, false));
    }
    if l.contains((TOOL_JI@, false)) {
        let k = choose|k: int| 0 <= k < l.len() && l[k] == (TOOL_JI@, false);
        assert(k >= 2);
    }
    if l.contains((TOOL_SOU@, false)) {
        let k = choose|k: int| 0 <= k < l.len() && l[k] == (TOOL_SOU@, false);
        assert(k >= 2);
    }
}

/// A call to an optional tool that is switched off is refused with an
/// internal error before anything runs.
pub proof fn lemma_disabled_refused(name: Seq<char>, ji: bool, sou: bool)
    requires
        (name == TOOL_JI@ && !ji) || (name == TOOL_SOU@ && !sou),
    ensures
        routed(name, ji, sou) == Err::<ToolKind, ProtocolError>(ProtocolError::InternalError),
{
    lemma_tool_names_distinct();
}

} // verus!
