//! Computer use, as data.
//!
//! The verdict is the daemon's: the computer-use probe says whether the helper
//! is installed and which of the two rights it holds, and it never prompts.
//!
//! What this session knows about itself is used for one thing only: choosing
//! which finished sentence explains a machine the helper cannot be installed on
//! at all. The protocol publishes `installed`, the two grants and the time they
//! were read, and no platform or display server, so the statements are keyed
//! on facts this process holds first hand (the architecture it was compiled
//! for and the session the desktop put it in) and the session is named in the
//! sentence so a person can check it. Nothing here decides that a right is
//! held: only the probe does that.

use vstd::prelude::*;
use crate::copy::Key;
use crate::management::types::{ComputerUsePermissions, JobView, SettingValue, SettingsRow};
use crate::models::settings_model::{shown_value, Sentence, State};
use crate::service::DesktopFacts;
use crate::text::{chars_of, owned, str_eq};

verus! {

/// The section the daemon publishes the computer-use rows under.
pub const SECTION: &'static str = "computer_use";

/// The row that turns the feature on.
pub const ENABLED_KEY: &'static str = "computer_use_enabled";

/// The architecture the helper has no build for.
pub const ARM64: &'static str = "aarch64";

/// The session type the helper cannot drive.
pub const WAYLAND: &'static str = "wayland";

/// What the pane says about this machine, in the order the design resolves it.
#[derive(Debug, Clone, PartialEq, Eq)]
pub enum Standing {
    /// The helper has no build for this architecture, so there is nothing to
    /// install.
    NoBuildForArchitecture,
    /// There is no display server running at all.
    NoGraphicalSession,
    /// A session the helper cannot drive, named so the sentence is checkable.
    UnsupportedSession(String),
    /// The helper can be installed here and is not installed.
    Installable,
    /// The helper is installed, and the two rights are the probe's answer.
    Installed,
    /// Nothing has been read yet, so nothing is said.
    Unread,
}

/// Where a machine stands, with the session it names as characters.
pub enum StandingView {
    NoBuildForArchitecture,
    NoGraphicalSession,
    UnsupportedSession(Seq<char>),
    Installable,
    Installed,
    Unread,
}

impl View for Standing {
    type V = StandingView;

    open spec fn view(&self) -> StandingView {
        match self {
            Standing::NoBuildForArchitecture => StandingView::NoBuildForArchitecture,
            Standing::NoGraphicalSession => StandingView::NoGraphicalSession,
            Standing::UnsupportedSession(s) => StandingView::UnsupportedSession(s@),
            Standing::Installable => StandingView::Installable,
            Standing::Installed => StandingView::Installed,
            Standing::Unread => StandingView::Unread,
        }
    }
}

impl Standing {
    /// The statement for a machine the helper cannot run on.
    pub fn statement(&self) -> (k: Option<Key>)
        ensures
            k == match *self {
                Standing::NoBuildForArchitecture => Some(Key::ComputerArm64),
                Standing::NoGraphicalSession => Some(Key::ComputerNoGraphicalSession),
                Standing::UnsupportedSession(_) => Some(Key::ComputerWaylandSession),
                Standing::Installable => Some(Key::ComputerInstallStatement),
                Standing::Installed | Standing::Unread => None,
            },
    {
        match self {
            Standing::NoBuildForArchitecture => Some(Key::ComputerArm64),
            Standing::NoGraphicalSession => Some(Key::ComputerNoGraphicalSession),
            Standing::UnsupportedSession(_) => Some(Key::ComputerWaylandSession),
            Standing::Installable => Some(Key::ComputerInstallStatement),
            Standing::Installed | Standing::Unread => None,
        }
    }

    /// Whether the pane offers to install anything.
    pub fn offers_install(&self) -> (r: bool)
        ensures
            r == (*self matches Standing::Installable),
    {
        match self {
            Standing::Installable => true,
            _ => false,
        }
    }
}

/// One probe result, read as the word a person sees.
pub open spec fn verdict_of(held: Option<bool>) -> Key {
    match held {
        Some(true) => Key::ComputerVerdictAvailable,
        Some(false) => Key::ComputerVerdictUnavailable,
        None => Key::ComputerProbeUnread,
    }
}

/// One probe result, read as the word a person sees.
pub fn verdict(held: Option<bool>) -> (k: Key)
    ensures
        k == verdict_of(held),
{
    match held {
        Some(true) => Key::ComputerVerdictAvailable,
        Some(false) => Key::ComputerVerdictUnavailable,
        None => Key::ComputerProbeUnread,
    }
}

/// A character's code with ASCII capitals folded to lower case.
pub open spec fn folded(c: char) -> u32 {
    if 'A' <= c <= 'Z' {
        (c as u32 + 32) as u32
    } else {
        c as u32
    }
}

/// Whether two strings are the same ignoring ASCII case.
pub open spec fn same_ignoring_ascii_case(a: Seq<char>, b: Seq<char>) -> bool {
    a.len() == b.len() && forall|i: int| 0 <= i < a.len() ==> folded(#[trigger] a[i]) == folded(b[i])
}

fn fold(c: char) -> (r: u32)
    ensures
        r == folded(c),
{
    let x = c as u32;
    if 'A' <= c && c <= 'Z' {
        x + 32
    } else {
        x
    }
}

/// `str::eq_ignore_ascii_case`.
pub fn eq_ignore_ascii_case(a: &str, b: &str) -> (r: bool)
    ensures
        r == same_ignoring_ascii_case(a@, b@),
{
    let va = chars_of(a);
    let vb = chars_of(b);
    if va.len() != vb.len() {
        return false;
    }
    let mut i: usize = 0;
    while i < va.len()
        invariant
            i <= va@.len(),
            va@ == a@,
            vb@ == b@,
            va@.len() == vb@.len(),
            forall|k: int| 0 <= k < i ==> folded(#[trigger] va@[k]) == folded(vb@[k]),
        decreases va@.len() - i,
    {
        if fold(va[i]) != fold(vb[i]) {
            return false;
        }
        i = i + 1;
    }
    true
}

/// Where this machine stands: unread until probed, installed where the probe
/// says so, and otherwise the reason the helper cannot be installed here, or
/// that it can.
pub open spec fn standing_of(
    permissions: Option<ComputerUsePermissions>,
    arch: Seq<char>,
    facts: DesktopFacts,
) -> StandingView {
    match permissions {
        None => StandingView::Unread,
        Some(p) => if p.installed {
            StandingView::Installed
        } else if arch == ARM64@ {
            StandingView::NoBuildForArchitecture
        } else if !facts.display_present {
            StandingView::NoGraphicalSession
        } else {
            match facts.session_type {
                Some(session) => if same_ignoring_ascii_case(session@, WAYLAND@) {
                    StandingView::UnsupportedSession(session@)
                } else {
                    StandingView::Installable
                },
                None => StandingView::Installable,
            }
        },
    }
}

/// Where this machine stands. `arch` is the architecture this binary was
/// compiled for; `facts` is what this session says about itself.
pub fn standing(
    permissions: Option<&ComputerUsePermissions>,
    arch: &str,
    facts: &DesktopFacts,
) -> (r: Standing)
    ensures
        r@ == standing_of(
            match permissions {
                Some(p) => Some(*p),
                None => None,
            },
            arch@,
            *facts,
        ),
{
    let permissions = match permissions {
        Some(p) => p,
        None => {
            return Standing::Unread;
        },
    };
    if permissions.installed {
        return Standing::Installed;
    }
    // Nothing below decides a capability: the helper is not installed, and
    // these are the reasons it cannot be.
    if str_eq(arch, ARM64) {
        return Standing::NoBuildForArchitecture;
    }
    if !facts.display_present {
        return Standing::NoGraphicalSession;
    }
    match &facts.session_type {
        Some(session) => {
            if eq_ignore_ascii_case(session.as_str(), WAYLAND) {
                Standing::UnsupportedSession(session.clone())
            } else {
                Standing::Installable
            }
        },
        None => Standing::Installable,
    }
}

/// The first row with a key, where there is one.
pub open spec fn row_in(rows: Seq<SettingsRow>, key: Seq<char>) -> Option<SettingsRow>
    decreases rows.len(),
{
    if rows.len() == 0 {
        None
    } else if rows[0].key@ == key {
        Some(rows[0])
    } else {
        row_in(rows.drop_first(), key)
    }
}

/// The value one row shows: its draft, then its value in flight, then the
/// daemon's own, where the section has been read and carries the row.
pub open spec fn row_value_of(state: State, section: Seq<char>, key: Seq<char>) -> Option<SettingValue> {
    if state.descriptors@.contains_key(section) {
        match row_in(state.descriptors@[section].rows@, key) {
            Some(row) => match shown_value(state.drafts@, state.in_flight@, (section, key)) {
                Some(v) => Some(v),
                None => Some(row.value),
            },
            None => None,
        }
    } else {
        None
    }
}

fn find_row<'a>(rows: &'a Vec<SettingsRow>, key: &str) -> (r: Option<&'a SettingsRow>)
    ensures
        match r {
            Some(row) => row_in(rows@, key@) == Some(*row),
            None => row_in(rows@, key@) is None,
        },
{
    let mut i: usize = 0;
    proof {
        assert(rows@.skip(0) =~= rows@);
    }
    while i < rows.len()
        invariant
            i <= rows@.len(),
            row_in(rows@, key@) == row_in(rows@.skip(i as int), key@),
        decreases rows@.len() - i,
    {
        proof {
            assert(rows@.skip(i as int).drop_first() =~= rows@.skip(i + 1));
            assert(rows@.skip(i as int)[0] == rows@[i as int]);
        }
        if str_eq(rows[i].key.as_str(), key) {
            return Some(&rows[i]);
        }
        i = i + 1;
    }
    proof {
        assert(rows@.skip(i as int) =~= Seq::<SettingsRow>::empty());
    }
    None
}

/// Whether a row shows a switch that is on.
pub fn toggle_on(state: &State, section: &str, key: &str) -> (r: bool)
    ensures
        r == (row_value_of(*state, section@, key@) matches Some(SettingValue::Toggle(true))),
{
    let owner = owned(section);
    let descriptor = match state.descriptors.get(&owner) {
        Some(d) => d,
        None => {
            return false;
        },
    };
    let row = match find_row(&descriptor.rows, key) {
        Some(row) => row,
        None => {
            return false;
        },
    };
    let id = (owned(section), owned(key));
    let value = match state.value_of(&id) {
        Some(v) => v,
        None => &row.value,
    };
    match value {
        SettingValue::Toggle(on) => *on,
        _ => false,
    }
}

/// Whether the feature is on, as the daemon's own row says, under whatever a
/// person has typed or sent.
pub fn enabled(state: &State) -> (r: bool)
    ensures
        r == (row_value_of(*state, SECTION@, ENABLED_KEY@) matches Some(SettingValue::Toggle(true))),
{
    toggle_on(state, SECTION, ENABLED_KEY)
}

/// What the install's terminal outcome asks for.
#[derive(Debug, Clone)]
pub enum InstallFinish {
    /// The failure's own sentence, kept as the pane's refusal and answered
    /// with.
    Refuse(Sentence),
    /// The switch written on: this value under this section and key.
    SwitchOn { section: &'static str, key: &'static str, value: SettingValue },
}

/// The install has reached a terminal outcome: a job that carries a failure
/// is refused with the daemon's own sentence; otherwise the switch is written
/// on. The ledger is read again and the observers told either way.
pub fn install_finished(job: Option<&JobView>) -> (r: InstallFinish)
    ensures
        match job {
            Some(j) => match j.failure {
                Some(f) => r matches InstallFinish::Refuse(s) && s.code is None && s.reason is None
                    && s.text@ == f.sentence@,
                None => r matches InstallFinish::SwitchOn { section, key, value } && section@
                    == SECTION@ && key@ == ENABLED_KEY@ && value == SettingValue::Toggle(true),
            },
            None => r matches InstallFinish::SwitchOn { section, key, value } && section@ == SECTION@
                && key@ == ENABLED_KEY@ && value == SettingValue::Toggle(true),
        },
{
    let failure = match job {
        Some(j) => match &j.failure {
            Some(f) => Some(f.sentence.clone()),
            None => None,
        },
        None => None,
    };
    match failure {
        Some(text) => InstallFinish::Refuse(Sentence { code: None, text, reason: None }),
        None => InstallFinish::SwitchOn { section: SECTION, key: ENABLED_KEY, value: SettingValue::Toggle(true) },
    }
}

} // verus!
