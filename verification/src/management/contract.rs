//! The vendored contract.
//!
//! The client derives every bound it enforces from the contract the daemon is
//! tested against: the version window, the per-method minimums and the
//! transport limits. This module is the one place those numbers live.

use vstd::prelude::*;

use crate::text::{chars_eq, chars_of};

verus! {

/// The inclusive range of protocol versions a peer accepts.
#[derive(Clone, Copy, Debug, PartialEq, Eq, Structural)]
pub struct VersionRange {
    pub min: u32,
    pub max: u32,
}

impl VersionRange {
    /// Whether this range carries a version.
    pub fn contains(&self, version: u32) -> (r: bool)
        ensures
            r == (self.min <= version <= self.max),
    {
        version >= self.min && version <= self.max
    }
}

/// The transport and envelope bounds the contract publishes.
#[derive(Clone, Copy, Debug, PartialEq, Eq, Structural)]
pub struct Limits {
    pub max_frame_bytes: usize,
    pub max_params_bytes: usize,
    pub max_result_bytes: usize,
    pub max_error_details_bytes: usize,
    pub max_json_depth: u32,
    pub max_json_collection_items: u32,
}

/// The protocol version the contract publishes as current.
pub open spec fn current_version() -> u32 {
    3
}

/// The window of versions the contract declares.
pub open spec fn window() -> VersionRange {
    VersionRange { min: 2, max: 3 }
}

/// The published bounds.
pub open spec fn published_limits() -> Limits {
    Limits {
        max_frame_bytes: 4_194_304,
        max_params_bytes: 1_048_576,
        max_result_bytes: 4_194_304,
        max_error_details_bytes: 16_384,
        max_json_depth: 64,
        max_json_collection_items: 10_000,
    }
}

/// Every method the contract publishes, with its minimum version, in the
/// order of their names.
pub open spec fn method_table() -> Seq<(Seq<char>, u32)> {
    seq![
        ("auth.import.start"@, 2u32),
        ("auth.logout"@, 2u32),
        ("auth.start"@, 2u32),
        ("capabilities.install.start"@, 2u32),
        ("computer_use.permissions.get"@, 2u32),
        ("diagnostics.build"@, 2u32),
        ("doctor.cancel"@, 2u32),
        ("doctor.get"@, 2u32),
        ("doctor.start"@, 2u32),
        ("hello"@, 2u32),
        ("job.cancel"@, 2u32),
        ("job.get"@, 2u32),
        ("job.list"@, 2u32),
        ("lifecycle.commit"@, 2u32),
        ("lifecycle.prepare"@, 2u32),
        ("logs.query"@, 2u32),
        ("meetings.signin.start"@, 2u32),
        ("overview.get"@, 2u32),
        ("plugins.check.start"@, 2u32),
        ("plugins.disable"@, 2u32),
        ("plugins.disconnect"@, 2u32),
        ("plugins.enable"@, 2u32),
        ("plugins.install.start"@, 2u32),
        ("plugins.list"@, 2u32),
        ("plugins.oauth_client.set"@, 2u32),
        ("plugins.setting.set"@, 2u32),
        ("plugins.workspace.select.start"@, 2u32),
        ("plugins.workspaces.discover.start"@, 2u32),
        ("providers.models.list"@, 2u32),
        ("providers.probe.start"@, 2u32),
        ("providers.set_primary"@, 2u32),
        ("secret.clear"@, 2u32),
        ("secret.migrate_to_keyring"@, 3u32),
        ("secret.set"@, 2u32),
        ("settings.apply"@, 2u32),
        ("settings.get"@, 2u32),
        ("settings.reload"@, 2u32),
        ("settings.sections"@, 2u32),
        ("setup.detect"@, 2u32),
        ("setup.session.create"@, 2u32),
        ("setup.state.get"@, 2u32),
    ]
}

/// The minimum of the first row published for one method, or nothing.
pub open spec fn minimum_in(table: Seq<(Seq<char>, u32)>, method: Seq<char>) -> Option<u32>
    decreases table.len(),
{
    if table.len() == 0 {
        None
    } else if table[0].0 == method {
        Some(table[0].1)
    } else {
        minimum_in(table.drop_first(), method)
    }
}

/// The protocol version this contract publishes as current.
pub fn protocol_version() -> (v: u32)
    ensures
        v == current_version(),
{
    3
}

/// The window of versions the contract declares.
pub fn supported_range() -> (r: VersionRange)
    ensures
        r == window(),
{
    VersionRange { min: 2, max: 3 }
}

/// The published bounds.
pub fn limits() -> (l: Limits)
    ensures
        l == published_limits(),
{
    Limits {
        max_frame_bytes: 4_194_304,
        max_params_bytes: 1_048_576,
        max_result_bytes: 4_194_304,
        max_error_details_bytes: 16_384,
        max_json_depth: 64,
        max_json_collection_items: 10_000,
    }
}

/// Every method the contract publishes, with its minimum.
pub fn methods() -> (m: Vec<(&'static str, u32)>)
    ensures
        m@.len() == method_table().len(),
        forall|i: int|
            0 <= i < m@.len() ==> (#[trigger] m@[i]).0@ == method_table()[i].0 && m@[i].1
                == method_table()[i].1,
{
    let m = vec![
        ("auth.import.start", 2u32),
        ("auth.logout", 2u32),
        ("auth.start", 2u32),
        ("capabilities.install.start", 2u32),
        ("computer_use.permissions.get", 2u32),
        ("diagnostics.build", 2u32),
        ("doctor.cancel", 2u32),
        ("doctor.get", 2u32),
        ("doctor.start", 2u32),
        ("hello", 2u32),
        ("job.cancel", 2u32),
        ("job.get", 2u32),
        ("job.list", 2u32),
        ("lifecycle.commit", 2u32),
        ("lifecycle.prepare", 2u32),
        ("logs.query", 2u32),
        ("meetings.signin.start", 2u32),
        ("overview.get", 2u32),
        ("plugins.check.start", 2u32),
        ("plugins.disable", 2u32),
        ("plugins.disconnect", 2u32),
        ("plugins.enable", 2u32),
        ("plugins.install.start", 2u32),
        ("plugins.list", 2u32),
        ("plugins.oauth_client.set", 2u32),
        ("plugins.setting.set", 2u32),
        ("plugins.workspace.select.start", 2u32),
        ("plugins.workspaces.discover.start", 2u32),
        ("providers.models.list", 2u32),
        ("providers.probe.start", 2u32),
        ("providers.set_primary", 2u32),
        ("secret.clear", 2u32),
        ("secret.migrate_to_keyring", 3u32),
        ("secret.set", 2u32),
        ("settings.apply", 2u32),
        ("settings.get", 2u32),
        ("settings.reload", 2u32),
        ("settings.sections", 2u32),
        ("setup.detect", 2u32),
        ("setup.session.create", 2u32),
        ("setup.state.get", 2u32),
    ];
    m
}

/// The minimum protocol version one method needs, or `None` for a method this
/// contract does not publish.
pub fn method_minimum(method: &str) -> (r: Option<u32>)
    ensures
        r == minimum_in(method_table(), method@),
{
    let table = methods();
    let wanted = chars_of(method);
    let mut i: usize = 0;
    assert(method_table().skip(0) =~= method_table());
    while i < table.len()
        invariant
            i <= table@.len(),
            wanted@ == method@,
            table@.len() == method_table().len(),
            forall|k: int|
                0 <= k < table@.len() ==> (#[trigger] table@[k]).0@ == method_table()[k].0
                    && table@[k].1 == method_table()[k].1,
            minimum_in(method_table(), method@) == minimum_in(
                method_table().skip(i as int),
                method@,
            ),
        decreases table@.len() - i,
    {
        let name = chars_of(table[i].0);
        proof {
            assert(method_table().skip(i as int).drop_first() =~= method_table().skip(i + 1));
        }
        if chars_eq(name.as_slice(), wanted.as_slice()) {
            return Some(table[i].1);
        }
        i = i + 1;
    }
    proof {
        assert(method_table().skip(i as int) =~= Seq::<(Seq<char>, u32)>::empty());
    }
    None
}

/// Every method the contract publishes declares a minimum inside the window,
/// and `hello` is reachable at its floor.
pub proof fn every_minimum_is_inside_the_window()
    ensures
        forall|i: int|
            0 <= i < method_table().len() ==> window().min <= (#[trigger] method_table()[i]).1
                <= window().max,
        window().min <= current_version() <= window().max,
{
}


// ---------------------------------------------------------------------------
// The order of the published methods
// ---------------------------------------------------------------------------

/// Whether two names part at position `k`: they agree before it, and there
/// the first either ends while the second goes on, or holds the smaller
/// character.
pub open spec fn parts_at(a: Seq<char>, b: Seq<char>, k: int) -> bool {
    &&& 0 <= k <= a.len()
    &&& k <= b.len()
    &&& forall|j: int| 0 <= j < k ==> a[j] == b[j]
    &&& (k == a.len() && k < b.len()) || (k < a.len() && k < b.len() && (a[k] as u32) < (b[k] as u32))
}

/// Whether one name comes strictly before another in the order of their
/// characters.
pub open spec fn precedes(a: Seq<char>, b: Seq<char>) -> bool {
    exists|k: int| #[trigger] parts_at(a, b, k)
}

proof fn precedes_is_transitive(a: Seq<char>, b: Seq<char>, c: Seq<char>)
    requires
        precedes(a, b),
        precedes(b, c),
    ensures
        precedes(a, c),
{
    let k1 = choose|k: int| #[trigger] parts_at(a, b, k);
    let k2 = choose|k: int| #[trigger] parts_at(b, c, k);
    if k1 <= k2 {
        assert(parts_at(a, c, k1));
    } else {
        assert(parts_at(a, c, k2));
    }
}

proof fn precedes_is_strict(a: Seq<char>, b: Seq<char>)
    requires
        precedes(a, b),
    ensures
        a != b,
{
    let k = choose|k: int| #[trigger] parts_at(a, b, k);
    if a == b {
        assert(a.len() == b.len());
    }
}

proof fn ascending_throughout(t: Seq<(Seq<char>, u32)>, i: int, j: int)
    requires
        0 <= i < j < t.len(),
        forall|k: int| 0 <= k < t.len() - 1 ==> precedes(#[trigger] t[k].0, t[k + 1].0),
    ensures
        precedes(t[i].0, t[j].0),
    decreases j - i,
{
    assert(precedes(t[j - 1].0, t[j].0));
    if i < j - 1 {
        ascending_throughout(t, i, j - 1);
        precedes_is_transitive(t[i].0, t[j - 1].0, t[j].0);
    }
}

proof fn first_row_of_a_listed_name(t: Seq<(Seq<char>, u32)>, i: int)
    requires
        0 <= i < t.len(),
        forall|a: int, b: int| 0 <= a < b < t.len() ==> #[trigger] t[a].0 != #[trigger] t[b].0,
    ensures
        minimum_in(t, t[i].0) == Some(t[i].1),
    decreases i,
{
    if i > 0 {
        let rest = t.drop_first();
        assert(t[0].0 != t[i].0);
        assert(rest[i - 1] == t[i]);
        assert forall|a: int, b: int| 0 <= a < b < rest.len() implies #[trigger] rest[a].0
            != #[trigger] rest[b].0 by {
            assert(rest[a] == t[a + 1] && rest[b] == t[b + 1]);
        }
        first_row_of_a_listed_name(rest, i - 1);
    }
}

proof fn adjacent_methods_ascend_0()
    ensures
        forall|k: int| 0 <= k < 10 ==> precedes(#[trigger] method_table()[k].0, method_table()[k + 1].0),
{
    reveal_strlit("auth.import.start");
    reveal_strlit("auth.logout");
    reveal_strlit("auth.start");
    reveal_strlit("capabilities.install.start");
    reveal_strlit("computer_use.permissions.get");
    reveal_strlit("diagnostics.build");
    reveal_strlit("doctor.cancel");
    reveal_strlit("doctor.get");
    reveal_strlit("doctor.start");
    reveal_strlit("hello");
    reveal_strlit("job.cancel");
    let t = method_table();
    assert(parts_at(t[0].0, t[1].0, 5));
    assert(parts_at(t[1].0, t[2].0, 5));
    assert(parts_at(t[2].0, t[3].0, 0));
    assert(parts_at(t[3].0, t[4].0, 1));
    assert(parts_at(t[4].0, t[5].0, 0));
    assert(parts_at(t[5].0, t[6].0, 1));
    assert(parts_at(t[6].0, t[7].0, 7));
    assert(parts_at(t[7].0, t[8].0, 7));
    assert(parts_at(t[8].0, t[9].0, 0));
    assert(parts_at(t[9].0, t[10].0, 0));
}

proof fn adjacent_methods_ascend_1()
    ensures
        forall|k: int| 10 <= k < 20 ==> precedes(#[trigger] method_table()[k].0, method_table()[k + 1].0),
{
    reveal_strlit("job.cancel");
    reveal_strlit("job.get");
    reveal_strlit("job.list");
    reveal_strlit("lifecycle.commit");
    reveal_strlit("lifecycle.prepare");
    reveal_strlit("logs.query");
    reveal_strlit("meetings.signin.start");
    reveal_strlit("overview.get");
    reveal_strlit("plugins.check.start");
    reveal_strlit("plugins.disable");
    reveal_strlit("plugins.disconnect");
    let t = method_table();
    assert(parts_at(t[10].0, t[11].0, 4));
    assert(parts_at(t[11].0, t[12].0, 4));
    assert(parts_at(t[12].0, t[13].0, 0));
    assert(parts_at(t[13].0, t[14].0, 10));
    assert(parts_at(t[14].0, t[15].0, 1));
    assert(parts_at(t[15].0, t[16].0, 0));
    assert(parts_at(t[16].0, t[17].0, 0));
    assert(parts_at(t[17].0, t[18].0, 0));
    assert(parts_at(t[18].0, t[19].0, 8));
    assert(parts_at(t[19].0, t[20].0, 11));
}

proof fn adjacent_methods_ascend_2()
    ensures
        forall|k: int| 20 <= k < 30 ==> precedes(#[trigger] method_table()[k].0, method_table()[k + 1].0),
{
    reveal_strlit("plugins.disconnect");
    reveal_strlit("plugins.enable");
    reveal_strlit("plugins.install.start");
    reveal_strlit("plugins.list");
    reveal_strlit("plugins.oauth_client.set");
    reveal_strlit("plugins.setting.set");
    reveal_strlit("plugins.workspace.select.start");
    reveal_strlit("plugins.workspaces.discover.start");
    reveal_strlit("providers.models.list");
    reveal_strlit("providers.probe.start");
    reveal_strlit("providers.set_primary");
    let t = method_table();
    assert(parts_at(t[20].0, t[21].0, 8));
    assert(parts_at(t[21].0, t[22].0, 8));
    assert(parts_at(t[22].0, t[23].0, 8));
    assert(parts_at(t[23].0, t[24].0, 8));
    assert(parts_at(t[24].0, t[25].0, 8));
    assert(parts_at(t[25].0, t[26].0, 8));
    assert(parts_at(t[26].0, t[27].0, 17));
    assert(parts_at(t[27].0, t[28].0, 1));
    assert(parts_at(t[28].0, t[29].0, 10));
    assert(parts_at(t[29].0, t[30].0, 10));
}

proof fn adjacent_methods_ascend_3()
    ensures
        forall|k: int| 30 <= k < 40 ==> precedes(#[trigger] method_table()[k].0, method_table()[k + 1].0),
{
    reveal_strlit("providers.set_primary");
    reveal_strlit("secret.clear");
    reveal_strlit("secret.migrate_to_keyring");
    reveal_strlit("secret.set");
    reveal_strlit("settings.apply");
    reveal_strlit("settings.get");
    reveal_strlit("settings.reload");
    reveal_strlit("settings.sections");
    reveal_strlit("setup.detect");
    reveal_strlit("setup.session.create");
    reveal_strlit("setup.state.get");
    let t = method_table();
    assert(parts_at(t[30].0, t[31].0, 0));
    assert(parts_at(t[31].0, t[32].0, 7));
    assert(parts_at(t[32].0, t[33].0, 7));
    assert(parts_at(t[33].0, t[34].0, 2));
    assert(parts_at(t[34].0, t[35].0, 9));
    assert(parts_at(t[35].0, t[36].0, 9));
    assert(parts_at(t[36].0, t[37].0, 9));
    assert(parts_at(t[37].0, t[38].0, 3));
    assert(parts_at(t[38].0, t[39].0, 6));
    assert(parts_at(t[39].0, t[40].0, 7));
}

/// The contract publishes at least one method, each once, in ascending order
/// of its name; looking a published method up finds its own minimum.
pub proof fn every_method_is_published_once_in_order()
    ensures
        method_table().len() > 0,
        forall|i: int, j: int|
            0 <= i < j < method_table().len() ==> precedes(
                #[trigger] method_table()[i].0,
                #[trigger] method_table()[j].0,
            ),
        forall|i: int|
            0 <= i < method_table().len() ==> minimum_in(method_table(), #[trigger] method_table()[i].0)
                == Some(method_table()[i].1),
{
    adjacent_methods_ascend_0();
    adjacent_methods_ascend_1();
    adjacent_methods_ascend_2();
    adjacent_methods_ascend_3();
    let t = method_table();
    assert forall|i: int, j: int| 0 <= i < j < t.len() implies precedes(
        #[trigger] t[i].0,
        #[trigger] t[j].0,
    ) by {
        ascending_throughout(t, i, j);
    }
    assert forall|a: int, b: int| 0 <= a < b < t.len() implies #[trigger] t[a].0 != #[trigger] t[b].0 by {
        precedes_is_strict(t[a].0, t[b].0);
    }
    assert forall|i: int| 0 <= i < t.len() implies minimum_in(t, #[trigger] t[i].0) == Some(t[i].1) by {
        first_row_of_a_listed_name(t, i);
    }
}

} // verus!
