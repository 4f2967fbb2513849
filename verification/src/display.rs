//! The monitor list and the single-monitor target, built from the display
//! paths that the Connecting-and-Configuring-Displays API reports.
use vstd::prelude::*;
use crate::text::{
    decimal, decimal_text, signed_decimal, signed_text, trim_char, trim_matches_char, str_equal, split_on, split_char,
    strings_view, parse_u32_text, parse_i32_text, parse_u32, parse_i32, is_digit, lemma_decimal_lacks,
    lemma_parse_u32_decimal, lemma_parse_i32_signed, lemma_split_three,
};

verus! {

/// A monitor as the program lists it.
#[derive(Debug)]
pub struct MonitorInfo {
    /// The target as `"AdapterLow:AdapterHigh:TargetId"`, the id that
    /// `single:<id>` takes.
    pub id: String,
    pub name: String,
    /// The resolution of the target's source mode (0 when it has none).
    pub width: u32,
    pub height: u32,
    pub is_primary: bool,
    pub device_string: String,
    pub is_active: bool,
    pub is_attached: bool,
    pub adapter_id_low: u32,
    /// The adapter id's high part, as its bits.
    pub adapter_id_high: u32,
    pub target_id: u32,
}

/// One display path as `QueryDisplayConfig(QDC_ALL_PATHS)` reports it.
pub struct DisplayPath {
    pub adapter_id_low: u32,
    pub adapter_id_high: i32,
    pub target_id: u32,
    pub source_id: u32,
    pub flags: u32,
    /// The width and height of the path's source mode, 0 when the path
    /// has no source mode.
    pub width: u32,
    pub height: u32,
    /// The target's friendly name when `DisplayConfigGetDeviceInfo`
    /// succeeded (decoded from UTF-16, NULs still in place).
    pub friendly_name: Option<String>,
}

pub struct MonitorView {
    pub id: Seq<char>,
    pub name: Seq<char>,
    pub width: u32,
    pub height: u32,
    pub is_primary: bool,
    pub device_string: Seq<char>,
    pub is_active: bool,
    pub is_attached: bool,
    pub adapter_id_low: u32,
    pub adapter_id_high: u32,
    pub target_id: u32,
}

pub struct PathView {
    pub adapter_id_low: u32,
    pub adapter_id_high: i32,
    pub target_id: u32,
    pub source_id: u32,
    pub flags: u32,
    pub width: u32,
    pub height: u32,
    pub friendly_name: Option<Seq<char>>,
}

impl View for MonitorInfo {
    type V = MonitorView;

    open spec fn view(&self) -> MonitorView {
        MonitorView {
            id: self.id@,
            name: self.name@,
            width: self.width,
            height: self.height,
            device_string: self.device_string@,
            is_active: self.is_active,
            is_attached: self.is_attached,
            is_primary: self.is_primary,
            adapter_id_low: self.adapter_id_low,
            adapter_id_high: self.adapter_id_high,
            target_id: self.target_id,
        }
    }
}

impl View for DisplayPath {
    type V = PathView;

    open spec fn view(&self) -> PathView {
        PathView {
            adapter_id_low: self.adapter_id_low,
            adapter_id_high: self.adapter_id_high,
            target_id: self.target_id,
            source_id: self.source_id,
            flags: self.flags,
            width: self.width,
            height: self.height,
            friendly_name: match self.friendly_name {
                Some(n) => Some(n@),
                None => None,
            },
        }
    }
}

/// The identity by which the listing tells targets apart: adapter low
/// part, high part (as its bits), target id.
pub type TargetKey = (u32, u32, u32);

/// A target as `single:<id>` names it: adapter low part, high part (as the
/// signed value it is), target id.
pub type TargetId = (u32, i32, u32);

/// The id of a target: `"AdapterLow:AdapterHigh:TargetId"` in decimal.
pub open spec fn target_id_text(k: TargetId) -> Seq<char> {
    decimal_text(k.0 as nat) + seq![':'] + signed_text(k.1 as int) + seq![':'] + decimal_text(k.2 as nat)
}

pub open spec fn path_key(p: PathView) -> TargetKey {
    (p.adapter_id_low, p.adapter_id_high as u32, p.target_id)
}

pub open spec fn path_target(p: PathView) -> TargetId {
    (p.adapter_id_low, p.adapter_id_high, p.target_id)
}

pub open spec fn monitor_key(m: MonitorView) -> TargetKey {
    (m.adapter_id_low, m.adapter_id_high, m.target_id)
}

/// The monitor's id reads back as its own target: `single:<id>` names the
/// adapter and target that the monitor reports.
pub open spec fn id_names(m: MonitorView) -> bool {
    match target_id_parse(m.id) {
        Ok((low, high, target)) => low == m.adapter_id_low && high as u32 == m.adapter_id_high && target == m.target_id,
        Err(_) => false,
    }
}

/// `DISPLAYCONFIG_PATH_ACTIVE` (bit 0) is set.
pub open spec fn path_active(flags: u32) -> bool {
    flags % 2 == 1
}

/// The friendly name of a path, when it has a non-empty one.
pub open spec fn usable_name(p: PathView) -> Option<Seq<char>> {
    match p.friendly_name {
        Some(raw) => {
            let t = trim_char(raw, '\0');
            if t.len() > 0 { Some(t) } else { None }
        },
        None => None,
    }
}

/// The name used for the `index`-th listed monitor that reported none.
pub open spec fn fallback_name(index: nat) -> Seq<char> {
    "Monitor "@ + decimal_text(index + 1)
}

/// Scans the paths in order. A target seen before is skipped (even when its
/// first path was left out); a path with no usable name that is not active
/// is left out as a phantom; every other path becomes the next monitor.
/// Gives the targets seen and the monitors listed.
pub open spec fn scan_paths(paths: Seq<PathView>) -> (Seq<TargetKey>, Seq<MonitorView>)
    decreases paths.len(),
{
    if paths.len() == 0 {
        (seq![], seq![])
    } else {
        let (seen, out) = scan_paths(paths.drop_last());
        let p = paths.last();
        let key = path_key(p);
        if seen.contains(key) {
            (seen, out)
        } else {
            let seen2 = seen.push(key);
            let name = match usable_name(p) {
                Some(n) => n,
                None => fallback_name(out.len()),
            };
            let device = match usable_name(p) {
                Some(n) => n,
                None => "Generic Monitor"@,
            };
            let active = path_active(p.flags);
            if device == "Generic Monitor"@ && !active {
                (seen2, out)
            } else {
                (seen2, out.push(MonitorView {
                    id: target_id_text(path_target(p)),
                    name,
                    width: p.width,
                    height: p.height,
                    device_string: device,
                    is_active: active,
                    is_attached: true,
                    is_primary: p.source_id == 0,
                    adapter_id_low: p.adapter_id_low,
                    adapter_id_high: p.adapter_id_high as u32,
                    target_id: p.target_id,
                }))
            }
        }
    }
}

pub open spec fn monitor_list(paths: Seq<PathView>) -> Seq<MonitorView> {
    scan_paths(paths).1
}

pub open spec fn paths_view(paths: Seq<DisplayPath>) -> Seq<PathView> {
    paths.map_values(|p: DisplayPath| p@)
}

pub open spec fn monitors_view(ms: Seq<MonitorInfo>) -> Seq<MonitorView> {
    ms.map_values(|m: MonitorInfo| m@)
}

/// Whether `key` is among the targets seen so far. The targets are kept in
/// a `Vec` and scanned: the key is a tuple, and vstd's specification of
/// `HashSet` gives a key model to integer keys only.
fn key_seen(seen: &Vec<TargetKey>, key: TargetKey) -> (r: bool)
    ensures
        r == seen@.contains(key),
{
    let mut i: usize = 0;
    while i < seen.len()
        invariant
            i <= seen@.len(),
            forall|j: int| 0 <= j < i ==> seen@[j] != key,
        decreases seen@.len() - i,
    {
        if seen[i].0 == key.0 && seen[i].1 == key.1 && seen[i].2 == key.2 {
            assert(seen@[i as int] == key);
            return true;
        }
        i = i + 1;
    }
    false
}

fn is_active_flag(flags: u32) -> (r: bool)
    ensures
        r == path_active(flags),
{
    assert((flags & 1u32 != 0) == (flags % 2 == 1)) by (bit_vector);
    flags & 1 != 0
}

fn path_name(p: &DisplayPath) -> (r: Option<String>)
    ensures
        match (r, usable_name(p@)) {
            (Some(a), Some(b)) => a@ == b,
            (None, None) => true,
            _ => false,
        },
{
    match &p.friendly_name {
        Some(raw) => {
            let t = trim_matches_char(raw.as_str(), '\0');
            if t.unicode_len() > 0 {
                Some(t)
            } else {
                None
            }
        },
        None => None,
    }
}

/// Writes the id of a target.
pub fn target_id_string(adapter_low: u32, adapter_high: i32, target_id: u32) -> (r: String)
    ensures
        r@ == target_id_text((adapter_low, adapter_high, target_id)),
{
    proof {
        reveal_strlit(":");
    }
    let r = decimal(adapter_low as u64).concat(":").concat(signed_decimal(adapter_high).as_str()).concat(":").concat(
        decimal(target_id as u64).as_str(),
    );
    assert(":"@ =~= seq![':']);
    r
}

/// Lists the monitors that the display paths describe. See [`scan_paths`].
pub fn build_monitor_list(paths: &Vec<DisplayPath>) -> (r: Vec<MonitorInfo>)
    ensures
        monitors_view(r@) == monitor_list(paths_view(paths@)),
{
    let ghost pv = paths_view(paths@);
    let mut seen: Vec<TargetKey> = Vec::new();
    let mut monitors: Vec<MonitorInfo> = Vec::new();
    let mut i: usize = 0;
    assert(pv.take(0) =~= Seq::<PathView>::empty());
    assert(monitors_view(monitors@) =~= Seq::<MonitorView>::empty());
    while i < paths.len()
        invariant
            i <= paths@.len(),
            pv == paths_view(paths@),
            pv.len() == paths@.len(),
            scan_paths(pv.take(i as int)) == (seen@, monitors_view(monitors@)),
            monitors@.len() <= i,
        decreases paths@.len() - i,
    {
        let p = &paths[i];
        assert(pv.take(i + 1).drop_last() =~= pv.take(i as int));
        assert(pv.take(i + 1).last() == p@);
        let key: TargetKey = (p.adapter_id_low, p.adapter_id_high as u32, p.target_id);
        if !key_seen(&seen, key) {
            seen.push(key);
            let found = path_name(p);
            let active = is_active_flag(p.flags);
            let (name, device) = match found {
                Some(n) => (n.clone(), n),
                None => {
                    let idx = decimal((monitors.len() + 1) as u64);
                    let name = String::from_str("Monitor ").concat(idx.as_str());
                    (name, String::from_str("Generic Monitor"))
                },
            };
            if !(str_equal(device.as_str(), "Generic Monitor") && !active) {
                let m = MonitorInfo {
                    id: target_id_string(p.adapter_id_low, p.adapter_id_high, p.target_id),
                    name,
                    width: p.width,
                    height: p.height,
                    device_string: device,
                    is_active: active,
                    is_attached: true,
                    is_primary: p.source_id == 0,
                    adapter_id_low: p.adapter_id_low,
                    adapter_id_high: p.adapter_id_high as u32,
                    target_id: p.target_id,
                };
                let ghost before = monitors@;
                monitors.push(m);
                assert(monitors_view(monitors@) =~= monitors_view(before).push(m@));
            }
        }
        i = i + 1;
    }
    assert(pv.take(paths@.len() as int) =~= pv);
    monitors
}

/// Finds the first path whose target is `(adapter_low, adapter_high, target_id)`.
pub fn find_target_path(paths: &Vec<(u32, i32, u32)>, adapter_low: u32, adapter_high: i32, target_id: u32) -> (r: Option<usize>)
    ensures
        match r {
            Some(i) => i < paths@.len() && paths@[i as int] == (adapter_low, adapter_high, target_id)
                && forall|j: int| 0 <= j < i ==> paths@[j] != (adapter_low, adapter_high, target_id),
            None => !paths@.contains((adapter_low, adapter_high, target_id)),
        },
{
    let mut i: usize = 0;
    while i < paths.len()
        invariant
            i <= paths@.len(),
            forall|j: int| 0 <= j < i ==> paths@[j] != (adapter_low, adapter_high, target_id),
        decreases paths@.len() - i,
    {
        let k = paths[i];
        if k.0 == adapter_low && k.1 == adapter_high && k.2 == target_id {
            return Some(i);
        }
        i = i + 1;
    }
    None
}

/// What the listing promises: each monitor's id reads back as its target,
/// no target is listed twice, only targets of the given paths are listed,
/// and no inactive monitor without a name (a phantom "Generic Monitor") is
/// listed.
pub proof fn lemma_monitor_list_sound(paths: Seq<PathView>)
    ensures
        ({
            let (seen, out) = scan_paths(paths);
            &&& forall|i: int| 0 <= i < out.len() ==> id_names(#[trigger] out[i])
            &&& forall|i: int, j: int| 0 <= i < j < out.len() ==> monitor_key(#[trigger] out[i]) != monitor_key(#[trigger] out[j])
            &&& forall|i: int| 0 <= i < out.len() ==> seen.contains(monitor_key(#[trigger] out[i]))
            &&& forall|k: TargetKey| seen.contains(k) ==> exists|j: int| 0 <= j < paths.len() && path_key(#[trigger] paths[j]) == k
            &&& forall|i: int| 0 <= i < out.len() ==> !(#[trigger] out[i].device_string == "Generic Monitor"@ && !out[i].is_active)
            &&& out.len() <= paths.len()
        }),
    decreases paths.len(),
{
    if paths.len() > 0 {
        let init = paths.drop_last();
        lemma_monitor_list_sound(init);
        let (seen0, out0) = scan_paths(init);
        let p = paths.last();
        let (seen, out) = scan_paths(paths);
        assert forall|k: TargetKey| seen.contains(k) implies exists|j: int| 0 <= j < paths.len() && path_key(#[trigger] paths[j]) == k by {
            if seen0.contains(k) {
                let j = choose|j: int| 0 <= j < init.len() && path_key(#[trigger] init[j]) == k;
                assert(paths[j] == init[j]);
            } else {
                assert(k == path_key(p));
                assert(paths[paths.len() - 1] == p);
            }
        }
        assert forall|i: int| 0 <= i < out.len() implies seen.contains(monitor_key(#[trigger] out[i])) by {
            if i < out0.len() {
                assert(out[i] == out0[i]);
                assert(seen0.contains(monitor_key(out0[i])));
                if !seen0.contains(path_key(p)) {
                    assert(seen == seen0.push(path_key(p)));
                    let w = choose|w: int| 0 <= w < seen0.len() && seen0[w] == monitor_key(out0[i]);
                    assert(seen[w] == seen0[w]);
                }
            } else {
                assert(seen[seen.len() - 1] == path_key(p));
            }
        }
        assert forall|i: int, j: int| 0 <= i < j < out.len() implies monitor_key(#[trigger] out[i]) != monitor_key(#[trigger] out[j]) by {
            if j >= out0.len() {
                assert(out[i] == out0[i]);
                assert(seen0.contains(monitor_key(out0[i])));
                assert(!seen0.contains(path_key(p)));
            } else {
                assert(out[i] == out0[i]);
                assert(out[j] == out0[j]);
            }
        }
        assert forall|i: int| 0 <= i < out.len() implies id_names(#[trigger] out[i]) by {
            if i < out0.len() {
                assert(out[i] == out0[i]);
            } else {
                lemma_target_id_roundtrip(path_target(p));
            }
        }
        assert forall|i: int| 0 <= i < out.len() implies !(#[trigger] out[i].device_string == "Generic Monitor"@ && !out[i].is_active) by {
            if i < out0.len() {
                assert(out[i] == out0[i]);
            }
        }
    }
}

/// The first path of a target that is `j`-th in `paths`.
pub open spec fn first_of_target(paths: Seq<PathView>, j: int) -> bool {
    forall|i: int| 0 <= i < j ==> path_key(#[trigger] paths[i]) != path_key(paths[j])
}

/// What the listing keeps: the first path of each target is listed when it
/// is active or carries a usable friendly name (other than the placeholder
/// "Generic Monitor"), inactive or not; it is listed under that name, with
/// its activity as the path reports it. So a connected but inactive monitor
/// with a name can still be chosen.
pub proof fn lemma_named_or_active_targets_listed(paths: Seq<PathView>)
    ensures
        forall|j: int| 0 <= j < paths.len() && first_of_target(paths, j)
            && (path_active(paths[j].flags) || (usable_name(paths[j]) matches Some(n) && n != "Generic Monitor"@))
            ==> exists|k: int| 0 <= k < monitor_list(paths).len()
                && #[trigger] monitor_key(monitor_list(paths)[k]) == path_key(#[trigger] paths[j])
                && monitor_list(paths)[k].is_active == path_active(paths[j].flags)
                && (usable_name(paths[j]) matches Some(n) ==> monitor_list(paths)[k].name == n),
    decreases paths.len(),
{
    if paths.len() > 0 {
        let init = paths.drop_last();
        lemma_named_or_active_targets_listed(init);
        lemma_monitor_list_sound(init);
        let (seen0, out0) = scan_paths(init);
        let out = monitor_list(paths);
        let last = paths.len() - 1;
        let p = paths.last();
        assert(out.len() >= out0.len());
        assert forall|k: int| 0 <= k < out0.len() implies out[k] == out0[k] by {}
        assert forall|j: int| 0 <= j < paths.len() && first_of_target(paths, j)
            && (path_active(paths[j].flags) || (usable_name(paths[j]) matches Some(n) && n != "Generic Monitor"@))
            implies exists|k: int| 0 <= k < out.len()
                && #[trigger] monitor_key(out[k]) == path_key(#[trigger] paths[j])
                && out[k].is_active == path_active(paths[j].flags)
                && (usable_name(paths[j]) matches Some(n) ==> out[k].name == n) by {
            if j < last {
                assert(paths[j] == init[j]);
                assert(first_of_target(init, j)) by {
                    assert forall|i: int| 0 <= i < j implies path_key(#[trigger] init[i]) != path_key(init[j]) by {
                        assert(init[i] == paths[i]);
                    }
                }
                let k = choose|k: int| 0 <= k < out0.len()
                    && #[trigger] monitor_key(out0[k]) == path_key(#[trigger] init[j])
                    && out0[k].is_active == path_active(init[j].flags)
                    && (usable_name(init[j]) matches Some(n) ==> out0[k].name == n);
                assert(out[k] == out0[k]);
            } else {
                assert(paths[j] == p);
                assert(!seen0.contains(path_key(p))) by {
                    if seen0.contains(path_key(p)) {
                        let i = choose|i: int| 0 <= i < init.len() && path_key(#[trigger] init[i]) == path_key(p);
                        assert(init[i] == paths[i]);
                    }
                }
                assert(out == out0.push(out[out0.len() as int]));
                assert(monitor_key(out[out0.len() as int]) == path_key(paths[j]));
            }
        }
    }
}

/// A target's id reads back as that target: `parse_target_id` accepts
/// what `target_id_string` writes and gives the same three parts.
pub proof fn lemma_target_id_roundtrip(k: TargetId)
    ensures
        target_id_parse(target_id_text(k)) == Ok::<TargetId, TargetIdError>(k),
{
    assert(!is_digit(':'));
    let a = decimal_text(k.0 as nat);
    let b = signed_text(k.1 as int);
    let d = decimal_text(k.2 as nat);
    lemma_decimal_lacks(k.0 as nat, ':');
    lemma_decimal_lacks(k.2 as nat, ':');
    if k.1 < 0 {
        lemma_decimal_lacks((-k.1) as nat, ':');
        let m = decimal_text((-k.1) as nat);
        assert(!b.contains(':')) by {
            if b.contains(':') {
                let i = choose|i: int| 0 <= i < b.len() && b[i] == ':';
                assert(i > 0);
                assert(b[i] == m[i - 1]);
            }
        }
    } else {
        lemma_decimal_lacks(k.1 as nat, ':');
    }
    lemma_split_three(a, b, d, ':');
    lemma_parse_u32_decimal(k.0);
    lemma_parse_i32_signed(k.1);
    lemma_parse_u32_decimal(k.2);
}

/// Every listed monitor can be chosen by its id: `single:<id>` names
/// exactly the listed target.
pub proof fn lemma_listed_ids_select(paths: Seq<PathView>)
    ensures
        forall|i: int| 0 <= i < monitor_list(paths).len() ==> id_names(#[trigger] monitor_list(paths)[i]),
{
    lemma_monitor_list_sound(paths);
}

/// Why a single-monitor id was refused.
#[derive(Debug, Clone, Copy, PartialEq, Eq, Structural)]
pub enum TargetIdError {
    /// Not three `:`-separated parts.
    InvalidFormat,
    InvalidAdapterLow,
    InvalidAdapterHigh,
    InvalidTargetId,
}

impl TargetIdError {
    /// The message reported for this error.
    pub fn message(&self) -> (r: String)
        ensures
            r@ == target_id_error_text(*self),
    {
        match self {
            TargetIdError::InvalidFormat => String::from_str("Invalid ID format"),
            TargetIdError::InvalidAdapterLow => String::from_str("Invalid adapter low"),
            TargetIdError::InvalidAdapterHigh => String::from_str("Invalid adapter high"),
            TargetIdError::InvalidTargetId => String::from_str("Invalid target id"),
        }
    }
}

pub open spec fn target_id_error_text(e: TargetIdError) -> Seq<char> {
    match e {
        TargetIdError::InvalidFormat => "Invalid ID format"@,
        TargetIdError::InvalidAdapterLow => "Invalid adapter low"@,
        TargetIdError::InvalidAdapterHigh => "Invalid adapter high"@,
        TargetIdError::InvalidTargetId => "Invalid target id"@,
    }
}

/// The target named by `"AdapterLow:AdapterHigh:TargetId"`: the low part
/// and the target id as `u32`, the high part as `i32`; the first part that
/// fails decides the error.
pub open spec fn target_id_parse(s: Seq<char>) -> Result<(u32, i32, u32), TargetIdError> {
    let parts = split_on(s, ':');
    if parts.len() != 3 {
        Err(TargetIdError::InvalidFormat)
    } else {
        match parse_u32_text(parts[0]) {
            None => Err(TargetIdError::InvalidAdapterLow),
            Some(low) => match parse_i32_text(parts[1]) {
                None => Err(TargetIdError::InvalidAdapterHigh),
                Some(high) => match parse_u32_text(parts[2]) {
                    None => Err(TargetIdError::InvalidTargetId),
                    Some(target) => Ok((low, high, target)),
                },
            },
        }
    }
}

/// Reads the id of a single-monitor mode.
pub fn parse_target_id(id: &str) -> (r: Result<(u32, i32, u32), TargetIdError>)
    ensures
        r == target_id_parse(id@),
{
    let parts = split_char(id, ':');
    if parts.len() != 3 {
        return Err(TargetIdError::InvalidFormat);
    }
    assert(strings_view(parts@)[0] == parts@[0]@);
    assert(strings_view(parts@)[1] == parts@[1]@);
    assert(strings_view(parts@)[2] == parts@[2]@);
    let low = match parse_u32(parts[0].as_str()) {
        Some(v) => v,
        None => return Err(TargetIdError::InvalidAdapterLow),
    };
    let high = match parse_i32(parts[1].as_str()) {
        Some(v) => v,
        None => return Err(TargetIdError::InvalidAdapterHigh),
    };
    let target = match parse_u32(parts[2].as_str()) {
        Some(v) => v,
        None => return Err(TargetIdError::InvalidTargetId),
    };
    Ok((low, high, target))
}

} // verus!
