//! The display topology model and its textual forms.
use vstd::prelude::*;
use crate::text::{lowercase_text, is_ascii_text, no_ascii_upper, lemma_lowercase_unchanged, spec_trim, is_white_space, lemma_trim_unchanged, has_prefix, strip_prefixes, trim_str, to_lowercase_str, starts_with, str_equal, tail_from, trim_start_matches};

verus! {

/// A display topology: one of the four standard Windows topologies, or a
/// single monitor named by `"AdapterLow:AdapterHigh:TargetId"`.
#[derive(Debug)]
pub enum TopologyMode {
    Internal,
    External,
    Extend,
    Clone,
    Single(String),
}

/// The mathematical value of a [`TopologyMode`].
pub enum ModeView {
    Internal,
    External,
    Extend,
    Clone,
    Single(Seq<char>),
}

impl View for TopologyMode {
    type V = ModeView;

    open spec fn view(&self) -> ModeView {
        match self {
            TopologyMode::Internal => ModeView::Internal,
            TopologyMode::External => ModeView::External,
            TopologyMode::Extend => ModeView::Extend,
            TopologyMode::Clone => ModeView::Clone,
            TopologyMode::Single(id) => ModeView::Single(id@),
        }
    }
}

/// The view of an optional mode.
pub open spec fn opt_mode_view(m: Option<TopologyMode>) -> Option<ModeView> {
    match m {
        Some(x) => Some(x@),
        None => None,
    }
}

impl TopologyMode {
    /// Whether two modes are the same topology.
    pub fn same_as(&self, other: &TopologyMode) -> (r: bool)
        ensures
            r == (self@ == other@),
    {
        match (self, other) {
            (TopologyMode::Internal, TopologyMode::Internal) => true,
            (TopologyMode::External, TopologyMode::External) => true,
            (TopologyMode::Extend, TopologyMode::Extend) => true,
            (TopologyMode::Clone, TopologyMode::Clone) => true,
            (TopologyMode::Single(a), TopologyMode::Single(b)) => { let r = a.eq(b); r },
            _ => false,
        }
    }
}

impl Clone for TopologyMode {
    fn clone(&self) -> (r: Self)
        ensures
            r@ == self@,
    {
        match self {
            TopologyMode::Internal => TopologyMode::Internal,
            TopologyMode::External => TopologyMode::External,
            TopologyMode::Extend => TopologyMode::Extend,
            TopologyMode::Clone => TopologyMode::Clone,
            TopologyMode::Single(id) => TopologyMode::Single(id.clone()),
        }
    }
}

impl PartialEq for TopologyMode {
    fn eq(&self, other: &Self) -> (r: bool) {
        self.same_as(other)
    }
}

impl vstd::std_specs::cmp::PartialEqSpecImpl for TopologyMode {
    open spec fn obeys_eq_spec() -> bool {
        true
    }

    open spec fn eq_spec(&self, other: &Self) -> bool {
        self@ == other@
    }
}

} // verus!

verus! {

/// The text by which the agent protocol names a mode: `clone`, `extend`,
/// `internal`, `external`, or `single:` followed by the monitor id.
pub open spec fn mode_text(m: ModeView) -> Seq<char> {
    match m {
        ModeView::Clone => "clone"@,
        ModeView::Extend => "extend"@,
        ModeView::Internal => "internal"@,
        ModeView::External => "external"@,
        ModeView::Single(id) => "single:"@ + id,
    }
}

/// The standard mode that a keyword names, if any.
pub open spec fn keyword_mode(t: Seq<char>) -> Option<ModeView> {
    if t == "clone"@ {
        Some(ModeView::Clone)
    } else if t == "extend"@ {
        Some(ModeView::Extend)
    } else if t == "internal"@ {
        Some(ModeView::Internal)
    } else if t == "external"@ {
        Some(ModeView::External)
    } else {
        None
    }
}

/// The mode named by an already normalised text: a keyword, or `single:`
/// followed by the id.
pub open spec fn mode_from_text(t: Seq<char>) -> Option<ModeView> {
    if keyword_mode(t) is Some {
        keyword_mode(t)
    } else if has_prefix(t, "single:"@) {
        Some(ModeView::Single(t.skip("single:"@.len() as int)))
    } else {
        None
    }
}

/// The mode that `parse_topology_from_str` reads out of raw text.
pub open spec fn parsed_mode(s: Seq<char>) -> Option<ModeView> {
    mode_from_text(lowercase_text(spec_trim(s)))
}

/// The mode that the agent's `set` command reads out of its argument: a
/// `single:` argument keeps its case and loses every leading `single:`; any
/// other argument is lowercased and must be a keyword.
pub open spec fn agent_set_mode(s: Seq<char>) -> Option<ModeView> {
    if has_prefix(s, "single:"@) {
        Some(ModeView::Single(strip_prefixes(s, "single:"@)))
    } else {
        keyword_mode(lowercase_text(s))
    }
}

/// A fresh string holding the characters of a literal.
fn lit(s: &str) -> (r: String)
    ensures
        r@ == s@,
{
    String::from_str(s)
}

/// Renders a mode as the agent protocol names it.
pub fn topology_to_mode_str(mode: &TopologyMode) -> (r: String)
    ensures
        r@ == mode_text(mode@),
{
    match mode {
        TopologyMode::Clone => lit("clone"),
        TopologyMode::Extend => lit("extend"),
        TopologyMode::Internal => lit("internal"),
        TopologyMode::External => lit("external"),
        TopologyMode::Single(id) => lit("single:").concat(id.as_str()),
    }
}

/// The standard mode named by a keyword, compared exactly.
pub fn keyword_to_mode(t: &str) -> (r: Option<TopologyMode>)
    ensures
        opt_mode_view(r) == keyword_mode(t@),
{
    if str_equal(t, "clone") {
        Some(TopologyMode::Clone)
    } else if str_equal(t, "extend") {
        Some(TopologyMode::Extend)
    } else if str_equal(t, "internal") {
        Some(TopologyMode::Internal)
    } else if str_equal(t, "external") {
        Some(TopologyMode::External)
    } else {
        None
    }
}

/// Reads a mode out of text that is already trimmed and lowercased.
pub fn mode_from_normalized(t: &str) -> (r: Option<TopologyMode>)
    ensures
        opt_mode_view(r) == mode_from_text(t@),
{
    proof {
        reveal_strlit("single:");
    }
    let k = keyword_to_mode(t);
    if k.is_some() {
        return k;
    }
    if starts_with(t, "single:") {
        let id = tail_from(t, 7);
        Some(TopologyMode::Single(id))
    } else {
        None
    }
}

/// Reads a mode out of the agent's `get` output (or any text naming a mode):
/// trims white space, lowercases, then accepts a keyword or `single:<id>`.
pub fn parse_topology_from_str(s: &str) -> (r: Option<TopologyMode>)
    ensures
        opt_mode_view(r) == parsed_mode(s@),
{
    let t = trim_str(s);
    let lower = to_lowercase_str(t);
    mode_from_normalized(lower.as_str())
}

/// Reads the argument of the agent's `set` command; `None` is the agent's
/// "Invalid mode" error.
pub fn parse_agent_set_mode(mode: &str) -> (r: Option<TopologyMode>)
    ensures
        opt_mode_view(r) == agent_set_mode(mode@),
{
    if starts_with(mode, "single:") {
        let id = trim_start_matches(mode, "single:");
        Some(TopologyMode::Single(id))
    } else {
        let lower = to_lowercase_str(mode);
        keyword_to_mode(lower.as_str())
    }
}

/// The topology that `QueryDisplayConfig` reports by its flag value
/// (1 internal, 2 clone, 4 extend, 8 external); any other value is unknown.
pub open spec fn topology_code_mode(code: u32) -> Option<ModeView> {
    if code == 1 {
        Some(ModeView::Internal)
    } else if code == 2 {
        Some(ModeView::Clone)
    } else if code == 4 {
        Some(ModeView::Extend)
    } else if code == 8 {
        Some(ModeView::External)
    } else {
        None
    }
}

/// Maps a reported topology flag to its mode; `None` is "Unknown topology".
pub fn topology_from_code(code: u32) -> (r: Option<TopologyMode>)
    ensures
        opt_mode_view(r) == topology_code_mode(code),
{
    match code {
        1 => Some(TopologyMode::Internal),
        2 => Some(TopologyMode::Clone),
        4 => Some(TopologyMode::Extend),
        8 => Some(TopologyMode::External),
        _ => None,
    }
}

/// Reading back the text that names a mode gives that mode: what
/// `topology_to_mode_str` writes, `mode_from_normalized` reads.
pub proof fn lemma_mode_text_roundtrip(m: ModeView)
    ensures
        mode_from_text(mode_text(m)) == Some(m),
{
    reveal_strlit("clone");
    reveal_strlit("extend");
    reveal_strlit("internal");
    reveal_strlit("external");
    reveal_strlit("single:");
    match m {
        ModeView::Single(id) => {
            let t = "single:"@ + id;
            assert(t.take(7) =~= "single:"@);
            assert(t.skip(7) =~= id);
            assert(t.len() >= 7);
            assert(t != "clone"@);
            assert(t != "extend"@);
            assert(t[0] == 's');
            assert("internal"@[0] == 'i');
            assert("external"@[0] == 'e');
            assert(t != "internal"@);
            assert(t != "external"@);
        },
        ModeView::Clone => {},
        ModeView::Extend => {
            assert("extend"@[0] != "clone"@[0]);
        },
        ModeView::Internal => {
            assert("internal"@[0] != "clone"@[0]);
            assert("internal"@[0] != "extend"@[0]);
        },
        ModeView::External => {
            assert("external"@[0] != "clone"@[0]);
            assert("external"@.len() != "extend"@.len());
            assert("external"@[0] != "internal"@[0]);
        },
    }
}

/// The text of a standard mode, and the `single:` before an id, are ASCII
/// without capitals, so lowercasing leaves them as they are.
proof fn lemma_mode_text_plain(m: ModeView)
    ensures
        !(m is Single) ==> lowercase_text(mode_text(m)) == mode_text(m) && !is_white_space(mode_text(m).last()),
        (m matches ModeView::Single(id) && is_ascii_text(id) && no_ascii_upper(id))
            ==> lowercase_text(mode_text(m)) == mode_text(m),
{
    reveal_strlit("clone");
    reveal_strlit("extend");
    reveal_strlit("internal");
    reveal_strlit("external");
    reveal_strlit("single:");
    let t = mode_text(m);
    match m {
        ModeView::Single(id) => {
            if is_ascii_text(id) && no_ascii_upper(id) {
                let p = "single:"@;
                assert forall|i: int| 0 <= i < t.len() implies (#[trigger] t[i] as u32) < 128 && !('A' <= t[i] && t[i] <= 'Z') by {
                    if i < 7 {
                        assert(t[i] == p[i]);
                    } else {
                        assert(t[i] == id[i - 7]);
                    }
                }
                lemma_lowercase_unchanged(t);
            }
        },
        _ => {
            assert forall|i: int| 0 <= i < t.len() implies (#[trigger] t[i] as u32) < 128 && !('A' <= t[i] && t[i] <= 'Z') by {
                assert(0 <= i < 8);
            }
            lemma_lowercase_unchanged(t);
        },
    }
}

/// The agent protocol from end to end: the service names a mode as
/// `topology_to_mode_str` writes it, and the agent's `get` and `set` read
/// back that same mode. For a standard mode both always do; for a
/// single-monitor mode, `get` does whenever the id is ASCII without
/// capitals and does not end in white space (as the numeric
/// `low:high:target` ids are), and `set` whenever the id does not itself
/// begin with `single:` (whose case `set` keeps). More generally, `get`
/// reads back any mode whose text lowercasing leaves as it is and that does
/// not end in white space.
pub proof fn lemma_agent_protocol_roundtrip(m: ModeView)
    ensures
        (lowercase_text(mode_text(m)) == mode_text(m) && !is_white_space(mode_text(m).last()))
            ==> parsed_mode(mode_text(m)) == Some(m),
        !(m is Single) ==> parsed_mode(mode_text(m)) == Some(m) && agent_set_mode(mode_text(m)) == Some(m),
        (m matches ModeView::Single(id) && is_ascii_text(id) && no_ascii_upper(id)
            && (id.len() == 0 || !is_white_space(id.last()))) ==> parsed_mode(mode_text(m)) == Some(m),
        (m matches ModeView::Single(id) && !has_prefix(id, "single:"@)) ==> agent_set_mode(mode_text(m)) == Some(m),
{
    lemma_mode_text_roundtrip(m);
    reveal_strlit("clone");
    reveal_strlit("extend");
    reveal_strlit("internal");
    reveal_strlit("external");
    reveal_strlit("single:");
    let t = mode_text(m);
    assert(!is_white_space(t[0]));
    if !is_white_space(t.last()) {
        lemma_trim_unchanged(t);
    }
    lemma_mode_text_plain(m);
    match m {
        ModeView::Single(id) => {
            assert(t.take(7) =~= "single:"@);
            assert(t.skip(7) =~= id);
            assert(has_prefix(t, "single:"@));
            assert(strip_prefixes(t, "single:"@) == strip_prefixes(id, "single:"@));
        },
        ModeView::Clone => {
            assert(!has_prefix(t, "single:"@));
        },
        ModeView::Extend => {
            assert(!has_prefix(t, "single:"@));
        },
        ModeView::Internal => {
            assert(t.take(7)[0] == 'i');
            assert(!has_prefix(t, "single:"@));
        },
        ModeView::External => {
            assert(t.take(7)[0] == 'e');
            assert(!has_prefix(t, "single:"@));
        },
    }
}

/// The `SetDisplayConfig` topology flag of a standard mode (the same values
/// as the reported topology: 1 internal, 2 clone, 4 extend, 8 external); a
/// single-monitor mode has none.
pub fn topology_code(mode: &TopologyMode) -> (r: Option<u32>)
    ensures
        match r {
            Some(code) => topology_code_mode(code) == Some(mode@),
            None => mode@ is Single,
        },
{
    match mode {
        TopologyMode::Internal => Some(1),
        TopologyMode::Clone => Some(2),
        TopologyMode::Extend => Some(4),
        TopologyMode::External => Some(8),
        TopologyMode::Single(_) => None,
    }
}

} // verus!
