//! Home, as data.
//!
//! One snapshot per read: the state word, the rows that need someone, the
//! runtime facts and the two background controls. Every value in it is the
//! daemon's, the command line's or this session's; nothing here decides a state
//! any of them already decided.

use vstd::prelude::*;
use crate::copy::{fill_rendered, filled, pair_views, render, rendered, renders, translation, Key};
use crate::management::types::{SettingsPane, SetupProviderRow, SettingsSection};
use crate::management::vocabulary::{
    gap_views, gaps, gaps_of, detail_keys, opt_view, readiness_of, Gap, GapView, Readiness,
};
use crate::models::settings_model::State;
use crate::service::{Alignment, DesktopFacts, GuiAlignment};
use crate::text::{concat, concat3, decimal, decimal_string, joined_with, owned, str_eq, views};

verus! {

/// How often Home re-reads the overview while it is in front of someone, in
/// milliseconds.
pub const POLL_INTERVAL_MS: u64 = 5000;

/// The most polls one visible stretch performs: six hours at the interval
/// above. Reaching it stops the poll, and the next time the page is shown or
/// the window is brought forward it starts again.
pub const POLL_CAP: u32 = 4320;

/// The state word, which is one of exactly four, or none yet.
#[derive(Debug, Clone, Copy, PartialEq, Eq, Structural)]
pub enum StatusWord {
    Running,
    SetupRequired,
    RestartToFinishUpdating,
    NotRunning,
    /// Nothing has been read yet, so nothing is claimed.
    Unknown,
}

/// The words each state is shown with.
pub open spec fn status_key(word: StatusWord) -> Key {
    match word {
        StatusWord::Running => Key::HomeStatusRunning,
        StatusWord::SetupRequired => Key::HomeStatusSetupRequired,
        StatusWord::RestartToFinishUpdating => Key::HomeStatusRestartToFinishUpdating,
        StatusWord::NotRunning => Key::HomeStatusNotRunning,
        StatusWord::Unknown => Key::HomeRuntimeUnavailable,
    }
}

impl StatusWord {
    /// The word for this state.
    pub fn key(self) -> (k: Key)
        ensures
            k == status_key(self),
    {
        match self {
            StatusWord::Running => Key::HomeStatusRunning,
            StatusWord::SetupRequired => Key::HomeStatusSetupRequired,
            StatusWord::RestartToFinishUpdating => Key::HomeStatusRestartToFinishUpdating,
            StatusWord::NotRunning => Key::HomeStatusNotRunning,
            StatusWord::Unknown => Key::HomeRuntimeUnavailable,
        }
    }
}

/// The one prominent toolbar action, while its condition holds.
#[derive(Debug, Clone, Copy, PartialEq, Eq, Structural)]
pub enum ToolbarAction {
    ContinueSetup,
    FinishUpdating,
}

impl ToolbarAction {
    /// The words on the button.
    pub fn key(self) -> (k: Key)
        ensures
            k == match self {
                ToolbarAction::ContinueSetup => Key::HomeToolbarContinueSetup,
                ToolbarAction::FinishUpdating => Key::HomeToolbarFinishUpdating,
            },
    {
        match self {
            ToolbarAction::ContinueSetup => Key::HomeToolbarContinueSetup,
            ToolbarAction::FinishUpdating => Key::HomeToolbarFinishUpdating,
        }
    }
}

/// What one attention row's button does.
#[derive(Debug, Clone, Copy, PartialEq, Eq, Structural)]
pub enum AttentionAction {
    /// Open the pane that can close this gap.
    OpenPane(SettingsPane, Key),
    /// Open the restart dialog.
    Restart,
    /// The same confirmation, under the words fixed for the one row that
    /// finishes an update.
    FinishUpdating,
    /// Read the settings file again.
    Reload,
    /// Open Doctor, where the engine's own check and remediation for this live.
    OpenDoctor,
    /// Quit, so the version the package installed is the one that opens next.
    /// This process cannot reopen itself, and the row says so.
    Quit,
}

/// The words on each action's button.
pub open spec fn action_key(action: AttentionAction) -> Key {
    match action {
        AttentionAction::OpenPane(_, key) => key,
        AttentionAction::Restart => Key::MenuRestart,
        AttentionAction::FinishUpdating => Key::SkewRestartToFinish,
        AttentionAction::Reload => Key::BannerReloadFromDisk,
        AttentionAction::OpenDoctor => Key::AttentionOpenDoctorAction,
        AttentionAction::Quit => Key::MenuQuit,
    }
}

impl AttentionAction {
    /// The words on the button.
    pub fn key(&self) -> (k: Key)
        ensures
            k == action_key(*self),
    {
        match self {
            AttentionAction::OpenPane(_, key) => *key,
            AttentionAction::Restart => Key::MenuRestart,
            AttentionAction::FinishUpdating => Key::SkewRestartToFinish,
            AttentionAction::Reload => Key::BannerReloadFromDisk,
            AttentionAction::OpenDoctor => Key::AttentionOpenDoctorAction,
            AttentionAction::Quit => Key::MenuQuit,
        }
    }
}

/// What a row is called.
#[derive(Debug, Clone, PartialEq, Eq)]
pub enum RowTitle {
    /// The product's words for a gap it has a template for.
    Words(Key),
    /// The identifier the daemon wrote, for a gap this build has no words for.
    /// Shown as an identifier, because an id with its first letter raised is a
    /// spelling the application invented.
    Identifier(String),
}

/// A row title, with its identifier as characters.
pub enum TitleView {
    Words(Key),
    Identifier(Seq<char>),
}

impl View for RowTitle {
    type V = TitleView;

    open spec fn view(&self) -> TitleView {
        match self {
            RowTitle::Words(key) => TitleView::Words(*key),
            RowTitle::Identifier(id) => TitleView::Identifier(id@),
        }
    }
}

/// One row under Attention.
#[derive(Debug, Clone, PartialEq, Eq)]
pub struct AttentionRow {
    /// The daemon's own key for this gap, which is the row's identity.
    pub id: String,
    /// The product's words for what the gap is.
    pub title: RowTitle,
    /// What the daemon named inside it: a channel, a provider, a path. Rendered
    /// as the daemon wrote it.
    pub detail: Option<String>,
    /// The one thing to do about it.
    pub action: Option<AttentionAction>,
}

/// One labelled runtime fact.
#[derive(Debug, Clone, PartialEq, Eq)]
pub struct Fact {
    pub label: Key,
    pub value: String,
}

/// Everything Home draws, in one read.
#[derive(Debug, Clone, PartialEq, Eq)]
pub struct HomeSnapshot {
    pub status: StatusWord,
    pub toolbar: Option<ToolbarAction>,
    pub attention: Vec<AttentionRow>,
    pub facts: Vec<Fact>,
    pub background_enabled: bool,
    pub open_at_login: bool,
}

// ---------------------------------------------------------------------------
// The state word
// ---------------------------------------------------------------------------

/// The readiness behind the status word.
///
/// `overview.get` is the source named for Status, and it is the read that is
/// available one release back. The setup state answers only when the overview
/// has not been read yet or said nothing this build knows: the two are the
/// same daemon, and preferring the one the design names keeps one answer
/// rather than two.
pub open spec fn home_readiness(state: State) -> Readiness {
    let from_setup = match state.setup {
        Some(setup) => readiness_of(opt_view(setup.readiness.status)),
        None => Readiness::Unknown,
    };
    match state.overview {
        Some(overview) => {
            let said = readiness_of(opt_view(overview.readiness.status));
            if said == Readiness::Unknown {
                from_setup
            } else {
                said
            }
        },
        None => from_setup,
    }
}

/// The unit's alignment, where the command line has answered.
pub open spec fn alignment_of(state: State) -> Option<Alignment> {
    match state.service {
        Some(status) => Some(status.alignment),
        None => None,
    }
}

/// The state word, in the order the four are decided.
pub open spec fn status_word_of(state: State) -> StatusWord {
    match state.reachable {
        None => StatusWord::Unknown,
        Some(false) => StatusWord::NotRunning,
        Some(true) => if home_readiness(state) == Readiness::SetupRequired {
            StatusWord::SetupRequired
        } else if alignment_of(state) == Some(Alignment::PendingRestart) {
            StatusWord::RestartToFinishUpdating
        } else {
            StatusWord::Running
        },
    }
}

/// The one prominent action for a state.
pub open spec fn toolbar_of(state: State) -> Option<ToolbarAction> {
    match status_word_of(state) {
        StatusWord::SetupRequired => Some(ToolbarAction::ContinueSetup),
        StatusWord::RestartToFinishUpdating => Some(ToolbarAction::FinishUpdating),
        _ => None,
    }
}

/// Whether the overview's readiness reads one word.
pub open spec fn overview_says(state: State, word: Seq<char>) -> bool {
    match state.overview {
        Some(o) => opt_view(o.readiness.status) == Some(word),
        None => false,
    }
}

/// Whether the setup state's readiness reads one word.
pub open spec fn setup_says(state: State, word: Seq<char>) -> bool {
    match state.setup {
        Some(setup) => opt_view(setup.readiness.status) == Some(word),
        None => false,
    }
}

/// Home's word follows the daemon: nothing read claims nothing, a daemon that
/// does not answer is not running, and a live daemon whose readiness reads
/// `setup_required`, in the overview or, where there is no overview, in the
/// setup state, asks for setup, with Continue setup as the one action. A live
/// daemon that reads `ready` and runs a previous version asks for the update
/// to finish; one that is ready and current is running. Setup is only ever
/// asked of a live daemon.
pub proof fn the_status_word_follows_the_daemon(state: State)
    ensures
        state.reachable is None ==> status_word_of(state) == StatusWord::Unknown,
        state.reachable == Some(false) ==> status_word_of(state) == StatusWord::NotRunning,
        state.reachable == Some(true) && overview_says(state, "setup_required"@) ==> status_word_of(
            state,
        ) == StatusWord::SetupRequired && toolbar_of(state) == Some(ToolbarAction::ContinueSetup),
        state.reachable == Some(true) && state.overview is None && setup_says(state, "setup_required"@)
            ==> status_word_of(state) == StatusWord::SetupRequired && toolbar_of(state) == Some(
            ToolbarAction::ContinueSetup,
        ),
        state.reachable == Some(true) && overview_says(state, "ready"@) && alignment_of(state) == Some(
            Alignment::PendingRestart,
        ) ==> status_word_of(state) == StatusWord::RestartToFinishUpdating && toolbar_of(state)
            == Some(ToolbarAction::FinishUpdating),
        state.reachable == Some(true) && overview_says(state, "ready"@) && alignment_of(state) != Some(
            Alignment::PendingRestart,
        ) ==> status_word_of(state) == StatusWord::Running && toolbar_of(state) is None,
        status_word_of(state) == StatusWord::SetupRequired ==> state.reachable == Some(true),
{
    reveal_strlit("ready");
    reveal_strlit("setup_required");
    assert("setup_required"@.len() != "ready"@.len());
    assert(readiness_of(Some("setup_required"@)) == Readiness::SetupRequired);
    assert(readiness_of(Some("ready"@)) == Readiness::Ready);
}

fn status_text(s: &Option<String>) -> (r: Option<&str>)
    ensures
        match r {
            Some(t) => opt_view(*s) == Some(t@),
            None => s is None,
        },
{
    match s {
        Some(t) => Some(t.as_str()),
        None => None,
    }
}

fn readiness(state: &State) -> (r: Readiness)
    ensures
        r == home_readiness(*state),
{
    let from_setup = match &state.setup {
        Some(setup) => Readiness::parse(status_text(&setup.readiness.status)),
        None => Readiness::Unknown,
    };
    match &state.overview {
        Some(overview) => {
            let said = Readiness::parse(status_text(&overview.readiness.status));
            if said == Readiness::Unknown {
                from_setup
            } else {
                said
            }
        },
        None => from_setup,
    }
}

fn alignment(state: &State) -> (r: Option<Alignment>)
    ensures
        r == alignment_of(*state),
{
    match &state.service {
        Some(status) => Some(status.alignment),
        None => None,
    }
}

/// The state word, in the order the four are decided: nothing read yet,
/// a daemon that does not answer, one that needs setting up, one that needs
/// a restart to finish updating, and one that runs.
pub fn status_word(state: &State) -> (w: StatusWord)
    ensures
        w == status_word_of(*state),
{
    match state.reachable {
        None => StatusWord::Unknown,
        Some(false) => StatusWord::NotRunning,
        Some(true) => {
            if readiness(state) == Readiness::SetupRequired {
                return StatusWord::SetupRequired;
            }
            if alignment(state) == Some(Alignment::PendingRestart) {
                return StatusWord::RestartToFinishUpdating;
            }
            StatusWord::Running
        },
    }
}

/// The one prominent action, and only while its condition holds.
pub fn toolbar_action(state: &State) -> (a: Option<ToolbarAction>)
    ensures
        a == toolbar_of(*state),
{
    match status_word(state) {
        StatusWord::SetupRequired => Some(ToolbarAction::ContinueSetup),
        StatusWord::RestartToFinishUpdating => Some(ToolbarAction::FinishUpdating),
        _ => None,
    }
}

// ---------------------------------------------------------------------------
// Attention
// ---------------------------------------------------------------------------

/// What one gap is called, and the one thing to do about it.
pub open spec fn words_and_action_of(gap: GapView, pane: Option<SettingsPane>) -> (
    TitleView,
    Option<AttentionAction>,
) {
    match gap {
        GapView::Personalization => (
            TitleView::Words(Key::AttentionPersonalizationTitle),
            Some(AttentionAction::OpenPane(SettingsPane::Personality, Key::AttentionPersonalizationAction)),
        ),
        GapView::Provider(_) => (
            TitleView::Words(Key::AttentionProviderTitle),
            Some(AttentionAction::OpenPane(SettingsPane::Providers, Key::AttentionProviderAction)),
        ),
        GapView::Channel(_) => (
            TitleView::Words(Key::AttentionChannelTitle),
            Some(AttentionAction::OpenPane(SettingsPane::Channels, Key::AttentionChannelAction)),
        ),
        GapView::Realtime => (
            TitleView::Words(Key::AttentionRealtimeTitle),
            Some(AttentionAction::OpenPane(SettingsPane::Voice, Key::AttentionRealtimeAction)),
        ),
        GapView::RestartPending => (
            TitleView::Words(Key::AttentionRestartPendingTitle),
            Some(AttentionAction::Restart),
        ),
        GapView::ExternalConfigChange => (
            TitleView::Words(Key::BannerExternalChangeTitle),
            Some(AttentionAction::Reload),
        ),
        GapView::ConfigUnreadable => (TitleView::Words(Key::RecoveryConfigUnreadableTitle), None),
        GapView::LegacyServiceUnit => (
            TitleView::Words(Key::AttentionLegacyServiceUnitTitle),
            Some(AttentionAction::OpenDoctor),
        ),
        GapView::EnginePathBaseline => (
            TitleView::Words(Key::AttentionEnginePathBaselineTitle),
            Some(AttentionAction::OpenDoctor),
        ),
        GapView::Unrecognized(key) => (
            TitleView::Identifier(key),
            match pane {
                Some(p) => if p != SettingsPane::Unrecognized {
                    Some(AttentionAction::OpenPane(p, Key::ActionOpenSettingsPane))
                } else {
                    None
                },
                None => None,
            },
        ),
    }
}

/// A recognised gap reads the same whatever pane it was published against,
/// and offers something to do unless it is an unreadable file, for which
/// there is no reload to offer.
pub proof fn a_recognised_gap_ignores_its_pane(
    gap: GapView,
    one: Option<SettingsPane>,
    other: Option<SettingsPane>,
)
    requires
        !(gap is Unrecognized),
    ensures
        words_and_action_of(gap, one) == words_and_action_of(gap, other),
        words_and_action_of(gap, one).1 is None <==> gap == GapView::ConfigUnreadable,
        gap == GapView::ExternalConfigChange ==> words_and_action_of(gap, one).1 == Some(
            AttentionAction::Reload,
        ),
        gap == GapView::RestartPending ==> words_and_action_of(gap, one).1 == Some(
            AttentionAction::Restart,
        ),
        gap == GapView::LegacyServiceUnit || gap == GapView::EnginePathBaseline
            ==> words_and_action_of(gap, one).1 == Some(AttentionAction::OpenDoctor),
        gap == GapView::Personalization ==> words_and_action_of(gap, one).1 == Some(
            AttentionAction::OpenPane(SettingsPane::Personality, Key::AttentionPersonalizationAction),
        ),
        gap is Provider ==> words_and_action_of(gap, one).1 == Some(
            AttentionAction::OpenPane(SettingsPane::Providers, Key::AttentionProviderAction),
        ),
        gap is Channel ==> words_and_action_of(gap, one).1 == Some(
            AttentionAction::OpenPane(SettingsPane::Channels, Key::AttentionChannelAction),
        ),
        gap == GapView::Realtime ==> words_and_action_of(gap, one).1 == Some(
            AttentionAction::OpenPane(SettingsPane::Voice, Key::AttentionRealtimeAction),
        ),
{
}

/// What one gap is called, and the one thing to do about it.
pub fn words_and_action(gap: &Gap, pane: Option<SettingsPane>) -> (r: (RowTitle, Option<AttentionAction>))
    ensures
        r.0@ == words_and_action_of(gap@, pane).0,
        r.1 == words_and_action_of(gap@, pane).1,
{
    match gap {
        Gap::Personalization => (
            RowTitle::Words(Key::AttentionPersonalizationTitle),
            Some(AttentionAction::OpenPane(SettingsPane::Personality, Key::AttentionPersonalizationAction)),
        ),
        Gap::Provider(_) => (
            RowTitle::Words(Key::AttentionProviderTitle),
            Some(AttentionAction::OpenPane(SettingsPane::Providers, Key::AttentionProviderAction)),
        ),
        Gap::Channel(_) => (
            RowTitle::Words(Key::AttentionChannelTitle),
            Some(AttentionAction::OpenPane(SettingsPane::Channels, Key::AttentionChannelAction)),
        ),
        Gap::Realtime => (
            RowTitle::Words(Key::AttentionRealtimeTitle),
            Some(AttentionAction::OpenPane(SettingsPane::Voice, Key::AttentionRealtimeAction)),
        ),
        Gap::RestartPending => (
            RowTitle::Words(Key::AttentionRestartPendingTitle),
            Some(AttentionAction::Restart),
        ),
        Gap::ExternalConfigChange => (
            RowTitle::Words(Key::BannerExternalChangeTitle),
            Some(AttentionAction::Reload),
        ),
        // The settings file cannot be read, so there is no reload to offer: the
        // reload would re-run the read that failed. Recovery is where this goes,
        // and the banner is what takes someone there.
        Gap::ConfigUnreadable => (RowTitle::Words(Key::RecoveryConfigUnreadableTitle), None),
        Gap::LegacyServiceUnit => (
            RowTitle::Words(Key::AttentionLegacyServiceUnitTitle),
            Some(AttentionAction::OpenDoctor),
        ),
        Gap::EnginePathBaseline => (
            RowTitle::Words(Key::AttentionEnginePathBaselineTitle),
            Some(AttentionAction::OpenDoctor),
        ),
        // A gap this build has no words for renders under the daemon's own
        // component name, with the deep link the daemon published if this build
        // can route to it.
        Gap::Unrecognized(key) => (
            RowTitle::Identifier(key.clone()),
            match pane {
                Some(p) => {
                    if p != SettingsPane::Unrecognized {
                        Some(AttentionAction::OpenPane(p, Key::ActionOpenSettingsPane))
                    } else {
                        None
                    }
                },
                None => None,
            },
        ),
    }
}

/// The identity of one gap's row.
pub open spec fn identity_of(gap: GapView) -> Seq<char> {
    match gap {
        GapView::Personalization => "personalization"@,
        GapView::Provider(Some(provider)) => "provider:"@ + provider,
        GapView::Provider(None) => "provider"@,
        GapView::Channel(name) => "channel:"@ + name,
        GapView::Realtime => "realtime"@,
        GapView::RestartPending => "restart"@,
        GapView::ExternalConfigChange => "external-change"@,
        GapView::ConfigUnreadable => "unreadable"@,
        GapView::LegacyServiceUnit => "legacy-unit"@,
        GapView::EnginePathBaseline => "path-baseline"@,
        GapView::Unrecognized(key) => key,
    }
}

fn identity(gap: &Gap) -> (r: String)
    ensures
        r@ == identity_of(gap@),
{
    match gap {
        Gap::Personalization => owned("personalization"),
        Gap::Provider(Some(provider)) => concat("provider:", provider.as_str()),
        Gap::Provider(None) => owned("provider"),
        Gap::Channel(name) => concat("channel:", name.as_str()),
        Gap::Realtime => owned("realtime"),
        Gap::RestartPending => owned("restart"),
        Gap::ExternalConfigChange => owned("external-change"),
        Gap::ConfigUnreadable => owned("unreadable"),
        Gap::LegacyServiceUnit => owned("legacy-unit"),
        Gap::EnginePathBaseline => owned("path-baseline"),
        Gap::Unrecognized(key) => key.clone(),
    }
}

/// The label of the first provider row with an id, where there is one.
pub open spec fn label_among(rows: Seq<SetupProviderRow>, id: Seq<char>) -> Option<Seq<char>>
    decreases rows.len(),
{
    if rows.len() == 0 {
        None
    } else if rows[0].id@ == id {
        Some(rows[0].label@)
    } else {
        label_among(rows.drop_first(), id)
    }
}

/// The title of the first section with an id, where there is one.
pub open spec fn title_among(sections: Seq<SettingsSection>, id: Seq<char>) -> Option<Seq<char>>
    decreases sections.len(),
{
    if sections.len() == 0 {
        None
    } else if sections[0].id@ == id {
        Some(sections[0].title@)
    } else {
        title_among(sections.drop_first(), id)
    }
}

/// The product's name for a provider: the daemon's label where it published
/// one, and the identifier exactly as the daemon wrote it otherwise.
pub open spec fn provider_label_of(state: State, provider: Seq<char>) -> Seq<char> {
    match state.setup {
        Some(setup) => match label_among(setup.providers@, provider) {
            Some(label) => label,
            None => provider,
        },
        None => provider,
    }
}

/// The product's name for a channel, which is its section's own title.
pub open spec fn channel_label_of(state: State, channel: Seq<char>) -> Seq<char> {
    match title_among(state.sections@, "channels."@ + channel) {
        Some(title) => title,
        None => channel,
    }
}

fn provider_label(state: &State, provider: &str) -> (r: String)
    ensures
        r@ == provider_label_of(*state, provider@),
{
    match &state.setup {
        Some(setup) => {
            let rows = &setup.providers;
            let mut i: usize = 0;
            proof {
                assert(rows@.skip(0) =~= rows@);
            }
            while i < rows.len()
                invariant
                    i <= rows@.len(),
                    state.setup matches Some(s) && s.providers@ == rows@,
                    label_among(rows@, provider@) == label_among(rows@.skip(i as int), provider@),
                decreases rows@.len() - i,
            {
                proof {
                    assert(rows@.skip(i as int).drop_first() =~= rows@.skip(i + 1));
                }
                if str_eq(rows[i].id.as_str(), provider) {
                    assert(rows@.skip(i as int)[0] == rows@[i as int]);
                    return rows[i].label.clone();
                }
                i = i + 1;
            }
            proof {
                assert(rows@.skip(i as int) =~= Seq::<SetupProviderRow>::empty());
            }
            owned(provider)
        },
        None => owned(provider),
    }
}

fn channel_label(state: &State, channel: &str) -> (r: String)
    ensures
        r@ == channel_label_of(*state, channel@),
{
    let section = concat("channels.", channel);
    let sections = &state.sections;
    let mut i: usize = 0;
    proof {
        assert(sections@.skip(0) =~= sections@);
    }
    while i < sections.len()
        invariant
            i <= sections@.len(),
            sections@ == state.sections@,
            section@ == "channels."@ + channel@,
            title_among(sections@, section@) == title_among(sections@.skip(i as int), section@),
        decreases sections@.len() - i,
    {
        proof {
            assert(sections@.skip(i as int).drop_first() =~= sections@.skip(i + 1));
        }
        if str_eq(sections[i].id.as_str(), section.as_str()) {
            assert(sections@.skip(i as int)[0] == sections@[i as int]);
            return sections[i].title.clone();
        }
        i = i + 1;
    }
    owned(channel)
}

/// The sentences of the restart reasons, in order.
pub open spec fn reason_sentences(state: State) -> Seq<Seq<char>> {
    state.restart.reasons@.map_values(|r: crate::management::types::RestartReason| r.sentence@)
}

/// The daemon's own supporting fact for one gap, where the wire carries one.
pub open spec fn detail_of(state: State, gap: GapView) -> Option<Seq<char>> {
    match gap {
        GapView::Provider(Some(provider)) => Some(provider_label_of(state, provider)),
        GapView::Channel(name) => Some(channel_label_of(state, name)),
        GapView::RestartPending => if reason_sentences(state).len() == 0 {
            None
        } else {
            Some(joined_with(reason_sentences(state), " "@))
        },
        GapView::ConfigUnreadable => match state.unreadable {
            Some(reason) => Some(reason.text@),
            None => None,
        },
        GapView::LegacyServiceUnit => match state.setup {
            Some(setup) => opt_view(setup.coexistence.legacy_service_unit.path),
            None => None,
        },
        GapView::EnginePathBaseline => match state.service {
            Some(status) => Some(status.path_source@),
            None => None,
        },
        _ => None,
    }
}

fn copy_opt(s: &Option<String>) -> (r: Option<String>)
    ensures
        opt_view(r) == opt_view(*s),
{
    match s {
        Some(t) => Some(t.clone()),
        None => None,
    }
}

fn detail(state: &State, gap: &Gap) -> (r: Option<String>)
    ensures
        opt_view(r) == detail_of(*state, gap@),
{
    match gap {
        Gap::Provider(Some(provider)) => Some(provider_label(state, provider.as_str())),
        Gap::Channel(name) => Some(channel_label(state, name.as_str())),
        Gap::RestartPending => {
            let reasons = &state.restart.reasons;
            let mut sentences: Vec<String> = Vec::new();
            let mut i: usize = 0;
            while i < reasons.len()
                invariant
                    i <= reasons@.len(),
                    reasons@ == state.restart.reasons@,
                    views(sentences@) == reason_sentences(*state).take(i as int),
                decreases reasons@.len() - i,
            {
                let ghost before = sentences@;
                sentences.push(reasons[i].sentence.clone());
                proof {
                    assert(views(sentences@) =~= views(before).push(reasons@[i as int].sentence@));
                    assert(reason_sentences(*state).take(i + 1) =~= reason_sentences(*state).take(
                        i as int,
                    ).push(reasons@[i as int].sentence@));
                }
                i = i + 1;
            }
            proof {
                assert(reason_sentences(*state).take(reasons@.len() as int) =~= reason_sentences(
                    *state,
                ));
            }
            if sentences.len() == 0 {
                None
            } else {
                let joined = crate::text::join(&sentences, " ");
                Some(joined)
            }
        },
        Gap::ConfigUnreadable => match &state.unreadable {
            Some(reason) => Some(reason.text.clone()),
            None => None,
        },
        Gap::LegacyServiceUnit => match &state.setup {
            Some(setup) => copy_opt(&setup.coexistence.legacy_service_unit.path),
            None => None,
        },
        Gap::EnginePathBaseline => match &state.service {
            Some(status) => Some(status.path_source.clone()),
            None => None,
        },
        _ => None,
    }
}

/// Whether one row is the row a gap draws, with the deep link it was
/// published with.
pub open spec fn is_gap_row(
    state: State,
    row: AttentionRow,
    gap: GapView,
    pane: Option<SettingsPane>,
) -> bool {
    &&& row.id@ == identity_of(gap)
    &&& row.title@ == words_and_action_of(gap, pane).0
    &&& opt_view(row.detail) == detail_of(state, gap)
    &&& row.action == words_and_action_of(gap, pane).1
}

fn attention_row(state: &State, gap: &Gap, pane: Option<SettingsPane>) -> (r: AttentionRow)
    ensures
        is_gap_row(*state, r, gap@, pane),
{
    let (title, action) = words_and_action(gap, pane);
    AttentionRow { id: identity(gap), title, detail: detail(state, gap), action }
}

/// The gaps one state's setup snapshot reports, in order.
pub open spec fn gaps_in(state: State) -> Seq<GapView> {
    match state.setup {
        Some(setup) => gaps_of(
            detail_keys(setup),
            setup.restart.required,
            setup.coexistence.config_state,
            setup.coexistence.legacy_service_unit.present,
        ),
        None => Seq::empty(),
    }
}

/// The deep link the `i`th failure was published with, where there is one.
pub open spec fn pane_at(state: State, i: int) -> Option<SettingsPane> {
    match state.setup {
        Some(setup) => if 0 <= i < setup.readiness.failures@.len() {
            Some(setup.readiness.failures@[i].pane)
        } else {
            None
        },
        None => None,
    }
}

/// Whether a list of rows is one row per gap, in the order reported.
pub open spec fn gap_rows_hold(state: State, rows: Seq<AttentionRow>) -> bool {
    &&& rows.len() == gaps_in(state).len()
    &&& forall|i: int|
        0 <= i < rows.len() ==> is_gap_row(state, #[trigger] rows[i], gaps_in(state)[i], pane_at(state, i))
}

/// One row per gap the daemon reported, in the order it reported them.
pub fn attention_rows(state: &State) -> (r: Vec<AttentionRow>)
    ensures
        gap_rows_hold(*state, r@),
{
    let setup = match &state.setup {
        Some(setup) => setup,
        None => {
            return Vec::new();
        },
    };
    let found = gaps(setup);
    let failures = &setup.readiness.failures;
    let mut rows: Vec<AttentionRow> = Vec::new();
    let mut i: usize = 0;
    while i < found.len()
        invariant
            i <= found@.len(),
            state.setup == Some(*setup),
            failures@ == setup.readiness.failures@,
            gap_views(found@) == gaps_in(*state),
            rows@.len() == i,
            forall|k: int|
                0 <= k < i ==> is_gap_row(*state, #[trigger] rows@[k], gaps_in(*state)[k], pane_at(*state, k)),
        decreases found@.len() - i,
    {
        let pane = if i < failures.len() {
            Some(failures[i].pane)
        } else {
            None
        };
        proof {
            assert(gap_views(found@)[i as int] == found@[i as int]@);
        }
        let row = attention_row(state, &found[i], pane);
        rows.push(row);
        i = i + 1;
    }
    rows
}

/// One row of the build comparison: its identity, its title, its body and
/// its action.
pub type SkewPlan = (Seq<char>, Key, Key, Option<AttentionAction>);

/// The rows comparing builds draws, in order.
///
/// Three facts, each with its own row: what is installed against what is
/// running, and this window against the application on disk. An identity that
/// could not be established draws the row that says so rather than none, and
/// never one that claims alignment.
pub open spec fn skew_plan(state: State, gui: GuiAlignment) -> Seq<SkewPlan> {
    let engine: Seq<SkewPlan> = match alignment_of(state) {
        Some(Alignment::PendingRestart) => seq![(
            "engine-skew"@,
            Key::SkewNewerInstalledTitle,
            Key::SkewNewerInstalledDetail,
            Some(AttentionAction::FinishUpdating),
        )],
        Some(Alignment::Unknown) => seq![(
            "engine-unknown"@,
            Key::SkewUnknownIdentityTitle,
            Key::SkewUnknownIdentityBody,
            None,
        )],
        Some(Alignment::OwnershipConflict) => seq![(
            "engine-conflict"@,
            Key::SkewOwnershipConflictTitle,
            Key::SkewOwnershipConflictBody,
            None,
        )],
        _ => Seq::empty(),
    };
    if gui == GuiAlignment::Stale {
        engine.push(("gui-skew"@, Key::SkewStaleGuiTitle, Key::SkewStaleGuiBody, Some(AttentionAction::Quit)))
    } else {
        engine
    }
}

/// Whether one row draws one planned build comparison.
pub open spec fn follows_plan(row: AttentionRow, plan: SkewPlan) -> bool {
    &&& row.id@ == plan.0
    &&& row.title@ == TitleView::Words(plan.1)
    &&& row.detail matches Some(d) && renders(plan.2, d@)
    &&& row.action == plan.3
}

/// Whether a list of rows draws the build comparison for a state.
pub open spec fn skew_rows_hold(state: State, gui: GuiAlignment, rows: Seq<AttentionRow>) -> bool {
    &&& rows.len() == skew_plan(state, gui).len()
    &&& forall|i: int| 0 <= i < rows.len() ==> follows_plan(#[trigger] rows[i], skew_plan(state, gui)[i])
}

/// What gettext answered for the words of one planned row: the window's own
/// row reads the second answer, and the engine's row the first.
pub open spec fn skew_translation(plan: SkewPlan, engine: Seq<char>, window: Seq<char>) -> Seq<char> {
    if plan.1 == Key::SkewStaleGuiTitle {
        window
    } else {
        engine
    }
}

/// Whether a list of rows draws the build comparison for a state, each
/// row's body read from what gettext answered for its words.
pub open spec fn skew_rows_read(
    state: State,
    gui: GuiAlignment,
    engine: Seq<char>,
    window: Seq<char>,
    rows: Seq<AttentionRow>,
) -> bool {
    &&& skew_rows_hold(state, gui, rows)
    &&& forall|i: int|
        0 <= i < rows.len() ==> ((#[trigger] rows[i]).detail matches Some(d) && d@ == rendered(
            skew_plan(state, gui)[i].2,
            skew_translation(skew_plan(state, gui)[i], engine, window),
        ))
}

fn skew_row(id: &str, title: Key, body: Key, action: Option<AttentionAction>, translated: &str) -> (r:
    AttentionRow)
    requires
        body != Key::Count,
    ensures
        follows_plan(r, (id@, title, body, action)),
        r.detail matches Some(d) && d@ == rendered(body, translated@),
{
    let words = render(body, translated);
    proof {
        assert(renders(body, words@));
    }
    AttentionRow { id: owned(id), title: RowTitle::Words(title), detail: Some(words), action }
}

/// The words of the engine's row of the build comparison, where it draws one.
pub fn engine_skew_words(state: &State) -> (k: Option<Key>)
    ensures
        k == match alignment_of(*state) {
            Some(Alignment::PendingRestart) => Some(Key::SkewNewerInstalledDetail),
            Some(Alignment::Unknown) => Some(Key::SkewUnknownIdentityBody),
            Some(Alignment::OwnershipConflict) => Some(Key::SkewOwnershipConflictBody),
            _ => None::<Key>,
        },
{
    match alignment(state) {
        Some(Alignment::PendingRestart) => Some(Key::SkewNewerInstalledDetail),
        Some(Alignment::Unknown) => Some(Key::SkewUnknownIdentityBody),
        Some(Alignment::OwnershipConflict) => Some(Key::SkewOwnershipConflictBody),
        _ => None,
    }
}

/// The rows that come from comparing builds, given what gettext answered for
/// the words of the engine's row and of the window's.
pub fn skew_rows_in(state: &State, gui: GuiAlignment, engine: &str, window: &str) -> (r: Vec<AttentionRow>)
    ensures
        skew_rows_read(*state, gui, engine@, window@, r@),
{
    let mut rows: Vec<AttentionRow> = Vec::new();
    match alignment(state) {
        Some(Alignment::PendingRestart) => rows.push(
            skew_row(
                "engine-skew",
                Key::SkewNewerInstalledTitle,
                Key::SkewNewerInstalledDetail,
                Some(AttentionAction::FinishUpdating),
                engine,
            ),
        ),
        Some(Alignment::Unknown) => rows.push(
            skew_row(
                "engine-unknown",
                Key::SkewUnknownIdentityTitle,
                Key::SkewUnknownIdentityBody,
                None,
                engine,
            ),
        ),
        Some(Alignment::OwnershipConflict) => rows.push(
            skew_row(
                "engine-conflict",
                Key::SkewOwnershipConflictTitle,
                Key::SkewOwnershipConflictBody,
                None,
                engine,
            ),
        ),
        _ => {},
    }
    let ghost before = rows@;
    if gui == GuiAlignment::Stale {
        rows.push(
            skew_row(
                "gui-skew",
                Key::SkewStaleGuiTitle,
                Key::SkewStaleGuiBody,
                Some(AttentionAction::Quit),
                window,
            ),
        );
    }
    proof {
        let plan = skew_plan(*state, gui);
        assert(rows@.len() == plan.len());
        assert forall|i: int| 0 <= i < rows@.len() implies follows_plan(#[trigger] rows@[i], plan[i])
            && (rows@[i].detail matches Some(d) && d@ == rendered(
            plan[i].2,
            skew_translation(plan[i], engine@, window@),
        )) by {
            if i < before.len() {
                assert(rows@[i] == before[i]);
            }
        }
    }
    rows
}

/// The rows that come from comparing builds rather than from the daemon's own
/// readiness.
pub fn skew_rows(state: &State, gui: GuiAlignment) -> (r: Vec<AttentionRow>)
    ensures
        skew_rows_hold(*state, gui, r@),
{
    let engine = match engine_skew_words(state) {
        Some(key) => translation(key),
        None => String::new(),
    };
    let window = translation(Key::SkewStaleGuiBody);
    skew_rows_in(state, gui, engine.as_str(), window.as_str())
}

/// How many rows the daemon's own gaps draw.
pub open spec fn gap_row_count(state: State) -> int {
    gaps_in(state).len() as int
}

/// Every row under Attention: the daemon's own gaps first, then what comparing
/// builds says.
pub fn attention(state: &State, gui: GuiAlignment) -> (r: Vec<AttentionRow>)
    ensures
        gap_rows_hold(*state, r@.take(gap_row_count(*state))),
        skew_rows_hold(*state, gui, r@.skip(gap_row_count(*state))),
        r@.len() == gap_row_count(*state) + skew_plan(*state, gui).len(),
{
    let mut rows = attention_rows(state);
    let mut skew = skew_rows(state, gui);
    let ghost first = rows@;
    let ghost second = skew@;
    rows.append(&mut skew);
    proof {
        assert(rows@.take(gap_row_count(*state)) =~= first);
        assert(rows@.skip(gap_row_count(*state)) =~= second);
    }
    rows
}

// ---------------------------------------------------------------------------
// Runtime facts
// ---------------------------------------------------------------------------

/// Two facts on one line, around a middle dot. The separator is punctuation,
/// not a word: it carries no meaning to translate and no casing to get wrong.
pub open spec fn joined_text(leading: Seq<char>, trailing: Seq<char>) -> Seq<char> {
    leading + seq![' ', '\u{00b7}', ' '] + trailing
}

/// Two facts on one line.
pub fn joined(leading: &str, trailing: &str) -> (r: String)
    ensures
        r@ == joined_text(leading@, trailing@),
{
    let r = concat3(leading, " \u{00b7} ", trailing);
    proof {
        reveal_strlit(" \u{00b7} ");
    }
    r
}

/// The words a duration is read with, and the values its markers take: the
/// two largest units that fit.
pub open spec fn uptime_plan(milliseconds: u64) -> (Key, Seq<(Seq<char>, Seq<char>)>) {
    let seconds = milliseconds / 1000;
    if seconds >= 86400 {
        (
            Key::HomeUptimeDaysHours,
            seq![
                ("{days}"@, decimal((seconds / 86400) as nat)),
                ("{hours}"@, decimal(((seconds % 86400) / 3600) as nat)),
            ],
        )
    } else if seconds >= 3600 {
        (
            Key::HomeUptimeHoursMinutes,
            seq![
                ("{hours}"@, decimal((seconds / 3600) as nat)),
                ("{minutes}"@, decimal(((seconds % 3600) / 60) as nat)),
            ],
        )
    } else if seconds >= 60 {
        (Key::HomeUptimeMinutes, seq![("{minutes}"@, decimal((seconds / 60) as nat))])
    } else {
        (Key::HomeUptimeJustStarted, Seq::empty())
    }
}

/// Whether a text reads a duration: the words its plan names, as gettext
/// answered for them, with its markers filled in.
pub open spec fn uptime_reads(milliseconds: u64, text: Seq<char>) -> bool {
    exists|t: Seq<char>|
        text == #[trigger] filled(rendered(uptime_plan(milliseconds).0, t), uptime_plan(milliseconds).1)
}

/// The words a duration is read with.
pub fn uptime_key(milliseconds: u64) -> (k: Key)
    ensures
        k == uptime_plan(milliseconds).0,
{
    let seconds = milliseconds / 1000;
    if seconds >= 86400 {
        Key::HomeUptimeDaysHours
    } else if seconds >= 3600 {
        Key::HomeUptimeHoursMinutes
    } else if seconds >= 60 {
        Key::HomeUptimeMinutes
    } else {
        Key::HomeUptimeJustStarted
    }
}

/// A duration read in the two largest units that fit, given what gettext
/// answered for the source of [`uptime_key`].
pub fn uptime_in(milliseconds: u64, translated: &str) -> (r: String)
    ensures
        r@ == filled(rendered(uptime_plan(milliseconds).0, translated@), uptime_plan(milliseconds).1),
{
    let key = uptime_key(milliseconds);
    let words = render(key, translated);
    let seconds = milliseconds / 1000;
    if seconds >= 86400 {
        let days = decimal_string(seconds / 86400);
        let hours = decimal_string((seconds % 86400) / 3600);
        let values = [("{days}", days.as_str()), ("{hours}", hours.as_str())];
        proof {
            assert(pair_views(values@) =~= uptime_plan(milliseconds).1);
        }
        return fill_rendered(words, &values);
    }
    if seconds >= 3600 {
        let hours = decimal_string(seconds / 3600);
        let minutes = decimal_string((seconds % 3600) / 60);
        let values = [("{hours}", hours.as_str()), ("{minutes}", minutes.as_str())];
        proof {
            assert(pair_views(values@) =~= uptime_plan(milliseconds).1);
        }
        return fill_rendered(words, &values);
    }
    if seconds >= 60 {
        let minutes = decimal_string(seconds / 60);
        let values = [("{minutes}", minutes.as_str())];
        proof {
            assert(pair_views(values@) =~= uptime_plan(milliseconds).1);
        }
        return fill_rendered(words, &values);
    }
    proof {
        assert(filled(words@, uptime_plan(milliseconds).1) == words@);
    }
    words
}

/// How long the daemon has been up, in the two largest units that fit.
///
/// Unit abbreviations rather than words, because a duration in words needs a
/// plural rule per language and this one is read at a glance.
pub fn uptime(milliseconds: u64) -> (r: String)
    ensures
        uptime_reads(milliseconds, r@),
{
    let key = uptime_key(milliseconds);
    let translated = translation(key);
    let r = uptime_in(milliseconds, translated.as_str());
    proof {
        assert(r@ == filled(rendered(uptime_plan(milliseconds).0, translated@), uptime_plan(milliseconds).1));
    }
    r
}

/// What one fact's value is: the words something else said, the word for a
/// fact not answered yet, the word for a fact answered with nothing, or a
/// duration read.
pub enum FactValue {
    Said(Seq<char>),
    Unavailable,
    Nothing,
    Uptime(u64),
}

/// What gettext answered for the words the facts are read with: the sources
/// of "Unavailable" and "None", and of the uptime's words.
pub struct FactWords {
    pub unavailable: String,
    pub none: String,
    pub uptime: String,
}

/// The text of one fact's value, given what gettext answered.
pub open spec fn fact_text(value: FactValue, words: FactWords) -> Seq<char> {
    match value {
        FactValue::Said(s) => s,
        FactValue::Unavailable => rendered(Key::HomeRuntimeUnavailable, words.unavailable@),
        FactValue::Nothing => rendered(Key::HomeRuntimeNone, words.none@),
        FactValue::Uptime(ms) => filled(
            rendered(uptime_plan(ms).0, words.uptime@),
            uptime_plan(ms).1,
        ),
    }
}

/// The nine facts' labels, in the order they are listed.
pub open spec fn fact_labels() -> Seq<Key> {
    seq![
        Key::HomeRuntimeEngine,
        Key::HomeRuntimeManagementProtocol,
        Key::HomeRuntimeUptime,
        Key::HomeRuntimeProvider,
        Key::HomeRuntimeChannels,
        Key::HomeRuntimeSkills,
        Key::HomeRuntimeTools,
        Key::HomeRuntimeService,
        Key::HomeRuntimeSession,
    ]
}

/// The names of the channels that are switched on, in order.
pub open spec fn enabled_names(channels: Seq<crate::management::types::OverviewChannel>) -> Seq<Seq<char>>
    decreases channels.len(),
{
    if channels.len() == 0 {
        Seq::empty()
    } else if channels.last().enabled {
        enabled_names(channels.drop_last()).push(channels.last().name@)
    } else {
        enabled_names(channels.drop_last())
    }
}

/// The provider fact: the active provider's name, with its model beside it.
pub open spec fn provider_fact_of(state: State, overview: crate::management::types::OverviewResult) -> Option<Seq<char>> {
    match overview.provider.active {
        Some(active) => if active@.len() == 0 {
            None
        } else {
            let label = provider_label_of(state, active@);
            match overview.provider.model {
                Some(model) => if model@.len() > 0 {
                    Some(joined_text(label, model@))
                } else {
                    Some(label)
                },
                None => Some(label),
            }
        },
        None => None,
    }
}

/// What this session says about itself, on one line.
pub open spec fn session_fact_of(desktop: DesktopFacts) -> Option<Seq<char>> {
    match (desktop.session_type, desktop.desktop) {
        (Some(session), Some(name)) => Some(joined_text(session@, name@)),
        (Some(session), None) => Some(session@),
        (None, Some(name)) => Some(name@),
        (None, None) => None,
    }
}

/// What each fact's value is, in order.
pub open spec fn fact_values(
    state: State,
    desktop: Option<DesktopFacts>,
    protocol: Option<u32>,
) -> Seq<FactValue> {
    let unavailable = FactValue::Unavailable;
    seq![
        match state.hello {
            Some(hello) => FactValue::Said(hello.engine.product_version@),
            None => match state.overview {
                Some(overview) => match overview.daemon.version {
                    Some(v) => FactValue::Said(v@),
                    None => unavailable,
                },
                None => unavailable,
            },
        },
        match protocol {
            Some(v) => FactValue::Said(decimal(v as nat)),
            None => unavailable,
        },
        match state.overview {
            Some(overview) => match overview.daemon.uptime_ms {
                Some(ms) => FactValue::Uptime(ms),
                None => unavailable,
            },
            None => unavailable,
        },
        match state.overview {
            Some(overview) => match provider_fact_of(state, overview) {
                Some(p) => FactValue::Said(p),
                None => FactValue::Nothing,
            },
            None => unavailable,
        },
        match state.overview {
            Some(overview) => if enabled_names(overview.channels@).len() == 0 {
                FactValue::Nothing
            } else {
                FactValue::Said(joined_with(enabled_names(overview.channels@), ", "@))
            },
            None => unavailable,
        },
        match state.overview {
            Some(overview) => FactValue::Said(decimal(overview.capabilities.skill as nat)),
            None => unavailable,
        },
        match state.overview {
            Some(overview) => FactValue::Said(
                decimal((overview.capabilities.builtin + overview.capabilities.mcp) as nat),
            ),
            None => unavailable,
        },
        match state.service {
            Some(status) => match status.sub_state {
                Some(sub) => FactValue::Said(sub@),
                None => unavailable,
            },
            None => unavailable,
        },
        match desktop {
            Some(d) => match session_fact_of(d) {
                Some(s) => FactValue::Said(s),
                None => unavailable,
            },
            None => unavailable,
        },
    ]
}

fn unavailable(words: &FactWords) -> (r: String)
    ensures
        r@ == fact_text(FactValue::Unavailable, *words),
{
    render(Key::HomeRuntimeUnavailable, words.unavailable.as_str())
}

fn none(words: &FactWords) -> (r: String)
    ensures
        r@ == fact_text(FactValue::Nothing, *words),
{
    render(Key::HomeRuntimeNone, words.none.as_str())
}

fn engine_fact(state: &State, words: &FactWords) -> (r: String)
    ensures
        r@ == fact_text(fact_values(*state, None, None)[0], *words),
{
    match &state.hello {
        Some(hello) => hello.engine.product_version.clone(),
        None => match &state.overview {
            Some(overview) => match &overview.daemon.version {
                Some(v) => v.clone(),
                None => unavailable(words),
            },
            None => unavailable(words),
        },
    }
}

fn uptime_fact(state: &State, words: &FactWords) -> (r: String)
    ensures
        r@ == fact_text(fact_values(*state, None, None)[2], *words),
{
    match &state.overview {
        Some(overview) => match overview.daemon.uptime_ms {
            Some(ms) => uptime_in(ms, words.uptime.as_str()),
            None => unavailable(words),
        },
        None => unavailable(words),
    }
}

fn provider_fact(state: &State, overview: &crate::management::types::OverviewResult) -> (r: Option<String>)
    ensures
        opt_view(r) == provider_fact_of(*state, *overview),
{
    let active = match &overview.provider.active {
        Some(active) => active,
        None => {
            return None;
        },
    };
    if crate::text::chars_of(active.as_str()).len() == 0 {
        return None;
    }
    let label = provider_label(state, active.as_str());
    match &overview.provider.model {
        Some(model) => {
            if crate::text::chars_of(model.as_str()).len() > 0 {
                Some(joined(label.as_str(), model.as_str()))
            } else {
                Some(label)
            }
        },
        None => Some(label),
    }
}

fn channels_fact(state: &State, words: &FactWords) -> (r: String)
    ensures
        r@ == fact_text(fact_values(*state, None, None)[4], *words),
{
    let overview = match &state.overview {
        Some(overview) => overview,
        None => {
            return unavailable(words);
        },
    };
    let channels = &overview.channels;
    let mut enabled: Vec<String> = Vec::new();
    let mut i: usize = 0;
    while i < channels.len()
        invariant
            i <= channels@.len(),
            views(enabled@) == enabled_names(channels@.take(i as int)),
        decreases channels@.len() - i,
    {
        proof {
            assert(channels@.take(i + 1).drop_last() =~= channels@.take(i as int));
        }
        if channels[i].enabled {
            let ghost before = enabled@;
            enabled.push(channels[i].name.clone());
            proof {
                assert(views(enabled@) =~= views(before).push(channels@[i as int].name@));
            }
        }
        i = i + 1;
    }
    proof {
        assert(channels@.take(channels@.len() as int) =~= channels@);
    }
    if enabled.len() == 0 {
        return none(words);
    }
    crate::text::join(&enabled, ", ")
}

fn session_fact(desktop: &DesktopFacts) -> (r: Option<String>)
    ensures
        opt_view(r) == session_fact_of(*desktop),
{
    match (&desktop.session_type, &desktop.desktop) {
        (Some(session), Some(name)) => Some(joined(session.as_str(), name.as_str())),
        (Some(session), None) => Some(session.clone()),
        (None, Some(name)) => Some(name.clone()),
        (None, None) => None,
    }
}

/// Whether a list of facts is the nine facts of a state, in order, read with
/// the given answers from gettext.
pub open spec fn facts_read(
    state: State,
    desktop: Option<DesktopFacts>,
    protocol: Option<u32>,
    words: FactWords,
    facts: Seq<Fact>,
) -> bool {
    &&& facts.len() == 9
    &&& forall|i: int|
        0 <= i < 9 ==> (#[trigger] facts[i]).label == fact_labels()[i] && facts[i].value@
            == fact_text(fact_values(state, desktop, protocol)[i], words)
}

/// Whether a list of facts is the nine facts of a state, in order, read with
/// whatever gettext answered.
pub open spec fn facts_hold(
    state: State,
    desktop: Option<DesktopFacts>,
    protocol: Option<u32>,
    facts: Seq<Fact>,
) -> bool {
    exists|words: FactWords| #[trigger] facts_read(state, desktop, protocol, words, facts)
}

/// The desktop facts, as a value.
pub open spec fn desktop_view(desktop: Option<&DesktopFacts>) -> Option<DesktopFacts> {
    match desktop {
        Some(d) => Some(*d),
        None => None,
    }
}

/// The nine labelled facts, in the order they are listed, given what gettext
/// answered for the words they are read with.
pub fn facts_in(
    state: &State,
    desktop: Option<&DesktopFacts>,
    protocol: Option<u32>,
    words: &FactWords,
) -> (r: Vec<Fact>)
    ensures
        facts_read(*state, desktop_view(desktop), protocol, *words, r@),
{
    let ghost d = desktop_view(desktop);
    let engine = engine_fact(state, words);
    let protocol_value = match protocol {
        Some(version) => decimal_string(version as u64),
        None => unavailable(words),
    };
    let uptime_value = uptime_fact(state, words);
    let provider_value = match &state.overview {
        Some(overview) => match provider_fact(state, overview) {
            Some(p) => p,
            None => none(words),
        },
        None => unavailable(words),
    };
    let channels_value = channels_fact(state, words);
    let skills_value = match &state.overview {
        Some(overview) => decimal_string(overview.capabilities.skill as u64),
        None => unavailable(words),
    };
    // Tools are the callable population: what this build ships plus what the
    // integrations add. Skills are counted separately.
    let tools_value = match &state.overview {
        Some(overview) => decimal_string(
            overview.capabilities.builtin as u64 + overview.capabilities.mcp as u64,
        ),
        None => unavailable(words),
    };
    let service_value = match &state.service {
        Some(status) => match &status.sub_state {
            Some(sub) => sub.clone(),
            None => unavailable(words),
        },
        None => unavailable(words),
    };
    let session_value = match desktop {
        Some(facts) => match session_fact(facts) {
            Some(s) => s,
            None => unavailable(words),
        },
        None => unavailable(words),
    };
    let r = vec![
        Fact { label: Key::HomeRuntimeEngine, value: engine },
        Fact { label: Key::HomeRuntimeManagementProtocol, value: protocol_value },
        Fact { label: Key::HomeRuntimeUptime, value: uptime_value },
        Fact { label: Key::HomeRuntimeProvider, value: provider_value },
        Fact { label: Key::HomeRuntimeChannels, value: channels_value },
        Fact { label: Key::HomeRuntimeSkills, value: skills_value },
        Fact { label: Key::HomeRuntimeTools, value: tools_value },
        Fact { label: Key::HomeRuntimeService, value: service_value },
        Fact { label: Key::HomeRuntimeSession, value: session_value },
    ];
    proof {
        let values = fact_values(*state, d, protocol);
        assert(values[0] == fact_values(*state, None, None)[0]);
        assert(values[2] == fact_values(*state, None, None)[2]);
        assert(values[4] == fact_values(*state, None, None)[4]);
        assert forall|i: int| 0 <= i < 9 implies (#[trigger] r@[i]).label == fact_labels()[i]
            && r@[i].value@ == fact_text(values[i], *words) by {
        }
    }
    r
}

/// The nine labelled facts, in the order they are listed, read with what
/// gettext answers for their words.
pub fn facts(state: &State, desktop: Option<&DesktopFacts>, protocol: Option<u32>) -> (r: Vec<Fact>)
    ensures
        facts_hold(*state, desktop_view(desktop), protocol, r@),
{
    let uptime_words = match &state.overview {
        Some(overview) => match overview.daemon.uptime_ms {
            Some(ms) => translation(uptime_key(ms)),
            None => String::new(),
        },
        None => String::new(),
    };
    let words = FactWords {
        unavailable: translation(Key::HomeRuntimeUnavailable),
        none: translation(Key::HomeRuntimeNone),
        uptime: uptime_words,
    };
    let r = facts_in(state, desktop, protocol, &words);
    assert(facts_read(*state, desktop_view(desktop), protocol, words, r@));
    r
}

/// Everything Home draws, in one read.
pub fn snapshot_of(
    state: &State,
    gui: GuiAlignment,
    desktop: Option<&DesktopFacts>,
    protocol: Option<u32>,
) -> (s: HomeSnapshot)
    ensures
        s.status == status_word_of(*state),
        s.toolbar == toolbar_of(*state),
        gap_rows_hold(*state, s.attention@.take(gap_row_count(*state))),
        skew_rows_hold(*state, gui, s.attention@.skip(gap_row_count(*state))),
        s.attention@.len() == gap_row_count(*state) + skew_plan(*state, gui).len(),
        facts_hold(*state, desktop_view(desktop), protocol, s.facts@),
        s.background_enabled == match state.background_pending {
            Some(pending) => pending,
            None => match state.service {
                Some(status) => status.enabled,
                None => false,
            },
        },
        s.open_at_login == state.open_at_login,
{
    HomeSnapshot {
        status: status_word(state),
        toolbar: toolbar_action(state),
        attention: attention(state, gui),
        facts: facts(state, desktop, protocol),
        background_enabled: state.background_enabled(),
        open_at_login: state.open_at_login,
    }
}

} // verus!
