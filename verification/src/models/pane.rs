//! The thirteen panes, in four groups.
//!
//! One table. The model routes and persists through it, the pane list draws it,
//! and a deep link from an attention row or a Doctor remediation lands on it.
//! The panes themselves are the daemon's: `settings.sections` names one per
//! section, and this table says which group each sits in, what the product
//! calls it, and whether its content is a descriptor or a hand-built surface.

use vstd::prelude::*;
use crate::copy::Key;
use crate::management::types::SettingsPane;
use crate::management::vocabulary::{reads_back, 
    opt_str_view, pane_for_slug, pane_slug, routable_panes, slug_of,
};

verus! {

/// How a pane's content is built.
#[derive(Debug, Clone, Copy, PartialEq, Eq, Structural)]
pub enum PaneKind {
    /// Every row comes from `settings.get` through the one descriptor form.
    Descriptor,
    /// The descriptor form, under statements the platform owes a person before
    /// they touch a control. One pane is this: Voice, whose controls open a
    /// microphone this platform does not gate.
    StatedDescriptor,
    /// The pane is hand-built, because its flows are interaction rather than
    /// values.
    HandBuilt,
}

/// One pane's place in the product.
#[derive(Debug, Clone, Copy, PartialEq, Eq, Structural)]
pub struct PaneRow {
    pub pane: SettingsPane,
    pub group: Key,
    pub title: Key,
    pub kind: PaneKind,
}

/// The four groups, in order.
pub open spec fn group_table() -> Seq<Key> {
    seq![
        Key::SettingsGroupAssistant,
        Key::SettingsGroupConnections,
        Key::SettingsGroupCapabilities,
        Key::SettingsGroupSystem,
    ]
}

/// The thirteen panes, in the order the sidebar lists them.
pub open spec fn pane_table() -> Seq<PaneRow> {
    seq![
        PaneRow { pane: SettingsPane::Providers, group: Key::SettingsGroupAssistant, title: Key::PaneProviders, kind: PaneKind::HandBuilt },
        PaneRow { pane: SettingsPane::Personality, group: Key::SettingsGroupAssistant, title: Key::PanePersonality, kind: PaneKind::Descriptor },
        PaneRow { pane: SettingsPane::Memory, group: Key::SettingsGroupAssistant, title: Key::PaneMemory, kind: PaneKind::Descriptor },
        PaneRow { pane: SettingsPane::Channels, group: Key::SettingsGroupConnections, title: Key::PaneChannels, kind: PaneKind::HandBuilt },
        PaneRow { pane: SettingsPane::Integrations, group: Key::SettingsGroupConnections, title: Key::PaneIntegrations, kind: PaneKind::HandBuilt },
        PaneRow { pane: SettingsPane::Voice, group: Key::SettingsGroupCapabilities, title: Key::PaneVoice, kind: PaneKind::StatedDescriptor },
        PaneRow { pane: SettingsPane::Meetings, group: Key::SettingsGroupCapabilities, title: Key::PaneMeetings, kind: PaneKind::HandBuilt },
        PaneRow { pane: SettingsPane::Computer, group: Key::SettingsGroupCapabilities, title: Key::PaneComputer, kind: PaneKind::HandBuilt },
        PaneRow { pane: SettingsPane::Coding, group: Key::SettingsGroupCapabilities, title: Key::PaneCodingAgents, kind: PaneKind::Descriptor },
        PaneRow { pane: SettingsPane::Search, group: Key::SettingsGroupCapabilities, title: Key::PaneSearch, kind: PaneKind::Descriptor },
        PaneRow { pane: SettingsPane::Images, group: Key::SettingsGroupCapabilities, title: Key::PaneImages, kind: PaneKind::Descriptor },
        PaneRow { pane: SettingsPane::Sandbox, group: Key::SettingsGroupSystem, title: Key::PaneSandbox, kind: PaneKind::Descriptor },
        PaneRow { pane: SettingsPane::Permissions, group: Key::SettingsGroupSystem, title: Key::PanePermissions, kind: PaneKind::HandBuilt },
    ]
}

/// The four groups, in order.
pub fn groups() -> (r: Vec<Key>)
    ensures
        r@ == group_table(),
{
    let r = vec![
        Key::SettingsGroupAssistant,
        Key::SettingsGroupConnections,
        Key::SettingsGroupCapabilities,
        Key::SettingsGroupSystem,
    ];
    assert(r@ =~= group_table());
    r
}

/// The thirteen panes, in the order the sidebar lists them.
pub fn panes() -> (r: Vec<PaneRow>)
    ensures
        r@ == pane_table(),
{
    let r = vec![
        PaneRow { pane: SettingsPane::Providers, group: Key::SettingsGroupAssistant, title: Key::PaneProviders, kind: PaneKind::HandBuilt },
        PaneRow { pane: SettingsPane::Personality, group: Key::SettingsGroupAssistant, title: Key::PanePersonality, kind: PaneKind::Descriptor },
        PaneRow { pane: SettingsPane::Memory, group: Key::SettingsGroupAssistant, title: Key::PaneMemory, kind: PaneKind::Descriptor },
        PaneRow { pane: SettingsPane::Channels, group: Key::SettingsGroupConnections, title: Key::PaneChannels, kind: PaneKind::HandBuilt },
        PaneRow { pane: SettingsPane::Integrations, group: Key::SettingsGroupConnections, title: Key::PaneIntegrations, kind: PaneKind::HandBuilt },
        PaneRow { pane: SettingsPane::Voice, group: Key::SettingsGroupCapabilities, title: Key::PaneVoice, kind: PaneKind::StatedDescriptor },
        PaneRow { pane: SettingsPane::Meetings, group: Key::SettingsGroupCapabilities, title: Key::PaneMeetings, kind: PaneKind::HandBuilt },
        PaneRow { pane: SettingsPane::Computer, group: Key::SettingsGroupCapabilities, title: Key::PaneComputer, kind: PaneKind::HandBuilt },
        PaneRow { pane: SettingsPane::Coding, group: Key::SettingsGroupCapabilities, title: Key::PaneCodingAgents, kind: PaneKind::Descriptor },
        PaneRow { pane: SettingsPane::Search, group: Key::SettingsGroupCapabilities, title: Key::PaneSearch, kind: PaneKind::Descriptor },
        PaneRow { pane: SettingsPane::Images, group: Key::SettingsGroupCapabilities, title: Key::PaneImages, kind: PaneKind::Descriptor },
        PaneRow { pane: SettingsPane::Sandbox, group: Key::SettingsGroupSystem, title: Key::PaneSandbox, kind: PaneKind::Descriptor },
        PaneRow { pane: SettingsPane::Permissions, group: Key::SettingsGroupSystem, title: Key::PanePermissions, kind: PaneKind::HandBuilt },
    ];
    assert(r@ =~= pane_table());
    r
}

/// The first pane, which is what a window with nothing remembered opens on.
pub fn first() -> (p: SettingsPane)
    ensures
        p == pane_table()[0].pane,
{
    SettingsPane::Providers
}

/// One pane's row.
pub fn row(pane: SettingsPane) -> (r: Option<PaneRow>)
    ensures
        match r {
            Some(found) => found.pane == pane && pane_table().contains(found),
            None => forall|i: int| 0 <= i < pane_table().len() ==> (#[trigger] pane_table()[i]).pane != pane,
        },
{
    let table = panes();
    let mut i: usize = 0;
    while i < table.len()
        invariant
            i <= table@.len(),
            table@ == pane_table(),
            forall|k: int| 0 <= k < i ==> (#[trigger] table@[k]).pane != pane,
        decreases table@.len() - i,
    {
        if table[i].pane == pane {
            assert(pane_table()[i as int] == table@[i as int]);
            return Some(table[i]);
        }
        i = i + 1;
    }
    None
}

/// How one pane is written down, for persistence and for a stack page name.
pub fn slug(pane: SettingsPane) -> (r: Option<&'static str>)
    ensures
        opt_str_view(r) == slug_of(pane),
{
    pane_slug(pane)
}

/// One pane, read back from what was persisted.
pub fn for_slug(slug: &str) -> (r: Option<SettingsPane>)
    ensures
        reads_back(slug@, r),
{
    pane_for_slug(slug)
}

/// The panes of one group, in order.
pub fn of_group(group: Key) -> (r: Vec<PaneRow>)
    ensures
        r@ == pane_table().filter(|row: PaneRow| row.group == group),
{
    let table = panes();
    let mut r: Vec<PaneRow> = Vec::new();
    let mut i: usize = 0;
    while i < table.len()
        invariant
            i <= table@.len(),
            table@ == pane_table(),
            r@ == pane_table().take(i as int).filter(|row: PaneRow| row.group == group),
        decreases table@.len() - i,
    {
        proof {
            pane_table().take(i as int).lemma_filter_push(table@[i as int], |row: PaneRow| row.group == group);
            assert(pane_table().take(i + 1) =~= pane_table().take(i as int).push(table@[i as int]));
        }
        if table[i].group == group {
            r.push(table[i]);
        }
        i = i + 1;
    }
    proof {
        assert(pane_table().take(13) =~= pane_table());
    }
    r
}

/// Every pane in the table is written down once and reads back as itself:
/// its slug exists, and the pane that slug reads back as is the pane.
pub proof fn every_pane_reads_back_through_its_slug(i: int)
    requires
        0 <= i < pane_table().len(),
    ensures
        slug_of(pane_table()[i].pane) is Some,
        routable_panes().contains(pane_table()[i].pane),
        forall|other: SettingsPane|
            #![trigger slug_of(other)]
            slug_of(other) == slug_of(pane_table()[i].pane) ==> other == pane_table()[i].pane,
        forall|r: Option<SettingsPane>|
            #[trigger] reads_back(slug_of(pane_table()[i].pane)->0, r) ==> r == Some(pane_table()[i].pane),
{
    assert(routable_panes()[i] == pane_table()[i].pane);
    crate::management::vocabulary::every_routable_pane_round_trips(pane_table()[i].pane);
}

} // verus!
