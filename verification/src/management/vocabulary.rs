//! The closed vocabularies the wire publishes as atoms, read as types.
//!
//! Every atom the daemon publishes is spelled here and nowhere else, so the
//! comparison happens once, in the decoding layer, and everything above it
//! matches on an enum. Nothing here renders a word.

use vstd::prelude::*;

use crate::management::errors::WireError;
use crate::management::types::{ConfigState, SettingsPane, SetupStateResult};
use crate::text::{chars_eq, chars_of, concat, is_prefix, owned, str_eq, strip_prefix};

verus! {

/// How ready the daemon says it is.
#[derive(Debug, Clone, Copy, PartialEq, Eq, Structural)]
pub enum Readiness {
    /// Everything configured is present.
    Ready,
    /// At least one gap the person has to close.
    SetupRequired,
    /// A word this build has never seen, or none at all. Nothing is claimed.
    Unknown,
}

/// The readiness one published status names.
pub open spec fn readiness_of(status: Option<Seq<char>>) -> Readiness {
    match status {
        Some(word) => if word == "ready"@ {
            Readiness::Ready
        } else if word == "setup_required"@ {
            Readiness::SetupRequired
        } else {
            Readiness::Unknown
        },
        None => Readiness::Unknown,
    }
}

/// The view of an optional string.
pub open spec fn opt_view(s: Option<String>) -> Option<Seq<char>> {
    match s {
        Some(s) => Some(s@),
        None => None,
    }
}

/// The view of an optional borrowed string.
pub open spec fn opt_str_view(s: Option<&str>) -> Option<Seq<char>> {
    match s {
        Some(s) => Some(s@),
        None => None,
    }
}

impl Readiness {
    /// The status the daemon published, as a type.
    pub fn parse(status: Option<&str>) -> (r: Self)
        ensures
            r == readiness_of(opt_str_view(status)),
    {
        match status {
            Some(word) => {
                if str_eq(word, "ready") {
                    Readiness::Ready
                } else if str_eq(word, "setup_required") {
                    Readiness::SetupRequired
                } else {
                    Readiness::Unknown
                }
            },
            None => Readiness::Unknown,
        }
    }
}

/// What one daemon-reported gap is.
///
/// A row's wording is keyed on what the gap *is* and never on the pane it
/// happens to route to. A key this build has never seen is kept rather than
/// folded onto a neighbour: it renders under the component the daemon named.
#[derive(Debug, Clone, PartialEq, Eq)]
pub enum Gap {
    /// Fermix does not know who it is working for yet.
    Personalization,
    /// No provider it can answer with. The id is the daemon's, where it named
    /// one.
    Provider(Option<String>),
    /// One channel is switched on and not finished.
    Channel(String),
    /// Voice is switched on and not finished.
    Realtime,
    /// Settings changed since the daemon started.
    RestartPending,
    /// The settings file was written by something other than Fermix.
    ExternalConfigChange,
    /// The settings file cannot be read.
    ConfigUnreadable,
    /// A generated unit is shadowing the packaged one.
    LegacyServiceUnit,
    /// The resolved PATH is not the one the packaged engine installs with.
    EnginePathBaseline,
    /// A gap this build has no template for, under the daemon's own key.
    Unrecognized(String),
}

/// A gap, with its strings as character sequences.
pub enum GapView {
    Personalization,
    Provider(Option<Seq<char>>),
    Channel(Seq<char>),
    Realtime,
    RestartPending,
    ExternalConfigChange,
    ConfigUnreadable,
    LegacyServiceUnit,
    EnginePathBaseline,
    Unrecognized(Seq<char>),
}

impl View for Gap {
    type V = GapView;

    open spec fn view(&self) -> GapView {
        match self {
            Gap::Personalization => GapView::Personalization,
            Gap::Provider(p) => GapView::Provider(opt_view(*p)),
            Gap::Channel(name) => GapView::Channel(name@),
            Gap::Realtime => GapView::Realtime,
            Gap::RestartPending => GapView::RestartPending,
            Gap::ExternalConfigChange => GapView::ExternalConfigChange,
            Gap::ConfigUnreadable => GapView::ConfigUnreadable,
            Gap::LegacyServiceUnit => GapView::LegacyServiceUnit,
            Gap::EnginePathBaseline => GapView::EnginePathBaseline,
            Gap::Unrecognized(key) => GapView::Unrecognized(key@),
        }
    }
}

/// A parameter that says nothing is no parameter.
pub open spec fn non_empty_view(s: Seq<char>) -> Option<Seq<char>> {
    if s.len() == 0 {
        None
    } else {
        Some(s)
    }
}

/// The provider family whose key names missing credentials.
pub open spec fn provider_credentials_prefix() -> Seq<char> {
    "provider:missing_credentials:"@
}

/// The gap one `detail_key` names.
pub open spec fn gap_of(key: Seq<char>) -> GapView {
    if key == "personalization"@ {
        GapView::Personalization
    } else if key == "restart_pending"@ {
        GapView::RestartPending
    } else if key == "external_config_change"@ {
        GapView::ExternalConfigChange
    } else if key == "config_unreadable"@ {
        GapView::ConfigUnreadable
    } else if key == "legacy_service_unit"@ {
        GapView::LegacyServiceUnit
    } else if key == "engine_path_baseline"@ {
        GapView::EnginePathBaseline
    } else if is_prefix(provider_credentials_prefix(), key) {
        GapView::Provider(
            non_empty_view(key.skip(provider_credentials_prefix().len() as int)),
        )
    } else if is_prefix("provider:"@, key) {
        GapView::Provider(None)
    } else if is_prefix("channel:"@, key) {
        match non_empty_view(key.skip("channel:"@.len() as int)) {
            Some(name) => GapView::Channel(name),
            None => GapView::Unrecognized(key),
        }
    } else if is_prefix("realtime:"@, key) {
        GapView::Realtime
    } else {
        GapView::Unrecognized(key)
    }
}

/// The identifier one gap names, where it names one.
pub open spec fn identifier_of(gap: GapView) -> Option<Seq<char>> {
    match gap {
        GapView::Provider(p) => p,
        GapView::Channel(name) => Some(name),
        GapView::Unrecognized(key) => Some(key),
        _ => None,
    }
}

/// A gap never invents what it names: the identifier it carries, where it
/// carries one, is the end of the daemon's own key as the daemon wrote it, and
/// a key this build does not know is kept whole.
pub proof fn a_gap_names_only_what_its_key_says(key: Seq<char>)
    ensures
        match identifier_of(gap_of(key)) {
            Some(id) => id.len() <= key.len() && key.skip(key.len() - id.len()) == id,
            None => true,
        },
        gap_of(key) matches GapView::Unrecognized(k) ==> k == key,
{
    match identifier_of(gap_of(key)) {
        Some(id) => {
            assert(key.skip(key.len() - id.len()) =~= id);
        },
        None => {},
    }
}

/// A parameter, or nothing where it is empty.
pub fn non_empty(value: &str) -> (r: Option<String>)
    ensures
        opt_view(r) == non_empty_view(value@),
{
    let v = chars_of(value);
    if v.len() == 0 {
        None
    } else {
        Some(owned(value))
    }
}

impl Gap {
    /// One `detail_key`, read.
    pub fn parse(detail_key: &str) -> (g: Self)
        ensures
            g@ == gap_of(detail_key@),
    {
        if str_eq(detail_key, "personalization") {
            return Gap::Personalization;
        }
        if str_eq(detail_key, "restart_pending") {
            return Gap::RestartPending;
        }
        if str_eq(detail_key, "external_config_change") {
            return Gap::ExternalConfigChange;
        }
        if str_eq(detail_key, "config_unreadable") {
            return Gap::ConfigUnreadable;
        }
        if str_eq(detail_key, "legacy_service_unit") {
            return Gap::LegacyServiceUnit;
        }
        if str_eq(detail_key, "engine_path_baseline") {
            return Gap::EnginePathBaseline;
        }
        if let Some(provider) = strip_prefix(detail_key, "provider:missing_credentials:") {
            return Gap::Provider(non_empty(provider.as_str()));
        }
        if let Some(_) = strip_prefix(detail_key, "provider:") {
            return Gap::Provider(None);
        }
        if let Some(channel) = strip_prefix(detail_key, "channel:") {
            return match non_empty(channel.as_str()) {
                Some(name) => Gap::Channel(name),
                None => Gap::Unrecognized(owned(detail_key)),
            };
        }
        if let Some(_) = strip_prefix(detail_key, "realtime:") {
            return Gap::Realtime;
        }
        Gap::Unrecognized(owned(detail_key))
    }

    /// The identifier the daemon named inside this gap, where it named one,
    /// rendered as the daemon wrote it.
    pub fn identifier(&self) -> (r: Option<&str>)
        ensures
            opt_str_view(r) == identifier_of(self@),
    {
        match self {
            Gap::Provider(provider) => match provider {
                Some(p) => Some(p.as_str()),
                None => None,
            },
            Gap::Channel(name) => Some(name.as_str()),
            Gap::Unrecognized(key) => Some(key.as_str()),
            _ => None,
        }
    }

    /// Whether two gaps are the same gap.
    pub fn same(&self, other: &Gap) -> (r: bool)
        ensures
            r == (self@ == other@),
    {
        match (self, other) {
            (Gap::Personalization, Gap::Personalization) => true,
            (Gap::Provider(a), Gap::Provider(b)) => match (a, b) {
                (Some(a), Some(b)) => str_eq(a.as_str(), b.as_str()),
                (None, None) => true,
                _ => false,
            },
            (Gap::Channel(a), Gap::Channel(b)) => str_eq(a.as_str(), b.as_str()),
            (Gap::Realtime, Gap::Realtime) => true,
            (Gap::RestartPending, Gap::RestartPending) => true,
            (Gap::ExternalConfigChange, Gap::ExternalConfigChange) => true,
            (Gap::ConfigUnreadable, Gap::ConfigUnreadable) => true,
            (Gap::LegacyServiceUnit, Gap::LegacyServiceUnit) => true,
            (Gap::EnginePathBaseline, Gap::EnginePathBaseline) => true,
            (Gap::Unrecognized(a), Gap::Unrecognized(b)) => str_eq(a.as_str(), b.as_str()),
            _ => false,
        }
    }
}

// ---------------------------------------------------------------------------
// Panes
// ---------------------------------------------------------------------------

/// The wire's own spelling of one settings pane. A pane a newer daemon
/// publishes has no spelling this build can persist or route to.
pub open spec fn slug_of(pane: SettingsPane) -> Option<Seq<char>> {
    match pane {
        SettingsPane::Providers => Some("providers"@),
        SettingsPane::Personality => Some("personality"@),
        SettingsPane::Memory => Some("memory"@),
        SettingsPane::Channels => Some("channels"@),
        SettingsPane::Integrations => Some("integrations"@),
        SettingsPane::Voice => Some("voice"@),
        SettingsPane::Meetings => Some("meetings"@),
        SettingsPane::Computer => Some("computer"@),
        SettingsPane::Coding => Some("coding"@),
        SettingsPane::Search => Some("search"@),
        SettingsPane::Images => Some("images"@),
        SettingsPane::Sandbox => Some("sandbox"@),
        SettingsPane::Permissions => Some("permissions"@),
        SettingsPane::Unrecognized => None,
    }
}

/// The thirteen panes this build can route to, in the order the wire lists
/// them.
pub open spec fn routable_panes() -> Seq<SettingsPane> {
    seq![
        SettingsPane::Providers,
        SettingsPane::Personality,
        SettingsPane::Memory,
        SettingsPane::Channels,
        SettingsPane::Integrations,
        SettingsPane::Voice,
        SettingsPane::Meetings,
        SettingsPane::Computer,
        SettingsPane::Coding,
        SettingsPane::Search,
        SettingsPane::Images,
        SettingsPane::Sandbox,
        SettingsPane::Permissions,
    ]
}

/// The wire's own spelling for one settings pane.
pub fn pane_slug(pane: SettingsPane) -> (r: Option<&'static str>)
    ensures
        opt_str_view(r) == slug_of(pane),
{
    match pane {
        SettingsPane::Providers => Some("providers"),
        SettingsPane::Personality => Some("personality"),
        SettingsPane::Memory => Some("memory"),
        SettingsPane::Channels => Some("channels"),
        SettingsPane::Integrations => Some("integrations"),
        SettingsPane::Voice => Some("voice"),
        SettingsPane::Meetings => Some("meetings"),
        SettingsPane::Computer => Some("computer"),
        SettingsPane::Coding => Some("coding"),
        SettingsPane::Search => Some("search"),
        SettingsPane::Images => Some("images"),
        SettingsPane::Sandbox => Some("sandbox"),
        SettingsPane::Permissions => Some("permissions"),
        SettingsPane::Unrecognized => None,
    }
}

fn routable() -> (r: Vec<SettingsPane>)
    ensures
        r@ == routable_panes(),
{
    let r = vec![
        SettingsPane::Providers,
        SettingsPane::Personality,
        SettingsPane::Memory,
        SettingsPane::Channels,
        SettingsPane::Integrations,
        SettingsPane::Voice,
        SettingsPane::Meetings,
        SettingsPane::Computer,
        SettingsPane::Coding,
        SettingsPane::Search,
        SettingsPane::Images,
        SettingsPane::Sandbox,
        SettingsPane::Permissions,
    ];
    assert(r@ =~= routable_panes());
    r
}

/// Whether a pane is what one persisted spelling reads back as: a routable
/// pane spelled that way, or nothing where no routable pane is.
pub open spec fn reads_back(slug: Seq<char>, r: Option<SettingsPane>) -> bool {
    match r {
        Some(pane) => routable_panes().contains(pane) && slug_of(pane) == Some(slug),
        None => forall|i: int|
            0 <= i < routable_panes().len() ==> slug_of(#[trigger] routable_panes()[i]) != Some(slug),
    }
}

/// One pane, read back from what was persisted: the first routable pane
/// spelled that way, or nothing.
pub fn pane_for_slug(slug: &str) -> (r: Option<SettingsPane>)
    ensures
        reads_back(slug@, r),
{
    let panes = routable();
    let mut i: usize = 0;
    while i < panes.len()
        invariant
            i <= panes@.len(),
            panes@ == routable_panes(),
            forall|j: int| 0 <= j < i ==> slug_of(#[trigger] routable_panes()[j]) != Some(slug@),
        decreases panes@.len() - i,
    {
        let pane = panes[i];
        match pane_slug(pane) {
            Some(spelled) => {
                if str_eq(spelled, slug) {
                    return Some(pane);
                }
            },
            None => {},
        }
        i = i + 1;
    }
    None
}

/// Every pane this build routes to is spelled, and reads back as itself: the
/// persisted selection survives a restart.
pub proof fn every_routable_pane_round_trips(pane: SettingsPane)
    requires
        pane != SettingsPane::Unrecognized,
    ensures
        slug_of(pane) is Some,
        routable_panes().contains(pane),
        forall|other: SettingsPane|
            #![trigger slug_of(other)]
            slug_of(other) == slug_of(pane) ==> other == pane,
        forall|r: Option<SettingsPane>| #[trigger] reads_back(slug_of(pane)->0, r) ==> r == Some(pane),
        slug_of(SettingsPane::Unrecognized) is None,
{
    reveal_strlit("providers");
    reveal_strlit("personality");
    reveal_strlit("memory");
    reveal_strlit("channels");
    reveal_strlit("integrations");
    reveal_strlit("voice");
    reveal_strlit("meetings");
    reveal_strlit("computer");
    reveal_strlit("coding");
    reveal_strlit("search");
    reveal_strlit("images");
    reveal_strlit("sandbox");
    reveal_strlit("permissions");
    let panes = routable_panes();
    assert(panes[0] == SettingsPane::Providers);
    assert(panes[1] == SettingsPane::Personality);
    assert(panes[2] == SettingsPane::Memory);
    assert(panes[3] == SettingsPane::Channels);
    assert(panes[4] == SettingsPane::Integrations);
    assert(panes[5] == SettingsPane::Voice);
    assert(panes[6] == SettingsPane::Meetings);
    assert(panes[7] == SettingsPane::Computer);
    assert(panes[8] == SettingsPane::Coding);
    assert(panes[9] == SettingsPane::Search);
    assert(panes[10] == SettingsPane::Images);
    assert(panes[11] == SettingsPane::Sandbox);
    assert(panes[12] == SettingsPane::Permissions);
    assert forall|other: SettingsPane| #![trigger slug_of(other)]
        slug_of(other) == slug_of(pane) implies other == pane by {
        if other != pane && slug_of(other) is Some {
            let a = slug_of(other).unwrap();
            let b = slug_of(pane).unwrap();
            assert(a.len() != b.len() || a[0] != b[0] || a[1] != b[1] || a[2] != b[2] || a[3] != b[3]);
        }
    }
    assert forall|r: Option<SettingsPane>| #[trigger] reads_back(slug_of(pane)->0, r) implies r == Some(
        pane,
    ) by {
        if r is None {
            let i = choose|i: int| 0 <= i < panes.len() && panes[i] == pane;
            assert(slug_of(panes[i]) == Some(slug_of(pane)->0));
        }
    }
}

// ---------------------------------------------------------------------------
// Configuration, refusals and rows
// ---------------------------------------------------------------------------

/// The configuration state, as a type the surfaces can match on.
#[derive(Debug, Clone, Copy, PartialEq, Eq, Structural)]
pub enum ConfigCondition {
    /// Every write lands.
    Clear,
    /// The file was written by something else; every write refuses until it is
    /// read again.
    ExternalChange,
    /// The file cannot be read at all. There is no reload to offer.
    Unreadable,
    /// A state this build has never seen. Nothing is claimed.
    Unknown,
}

/// The condition one published state names.
pub open spec fn condition_of(state: ConfigState) -> ConfigCondition {
    match state {
        ConfigState::Clear => ConfigCondition::Clear,
        ConfigState::ExternalChange => ConfigCondition::ExternalChange,
        ConfigState::ConfigUnreadable => ConfigCondition::Unreadable,
        ConfigState::Unrecognized => ConfigCondition::Unknown,
    }
}

impl ConfigCondition {
    /// The state the daemon published, as a type.
    pub fn of(state: ConfigState) -> (r: Self)
        ensures
            r == condition_of(state),
    {
        match state {
            ConfigState::Clear => ConfigCondition::Clear,
            ConfigState::ExternalChange => ConfigCondition::ExternalChange,
            ConfigState::ConfigUnreadable => ConfigCondition::Unreadable,
            ConfigState::Unrecognized => ConfigCondition::Unknown,
        }
    }

    /// Every write lands, which is where a fresh model starts.
    pub fn clear() -> (r: Self)
        ensures
            r == ConfigCondition::Clear,
    {
        ConfigCondition::Clear
    }
}

/// The refusals a surface behaves differently about. Everything else is one
/// refusal with the daemon's own sentence.
#[derive(Debug, Clone, Copy, PartialEq, Eq, Structural)]
pub enum Refusal {
    /// The file was written by something else.
    ExternalChange,
    /// The settings file cannot be read.
    ConfigUnreadable,
    /// The log cursor predates a rotation.
    CursorExpired,
    /// This host had nowhere to put a secret, so nothing was saved.
    SecretStoreFailed,
    /// Another operation of this kind is already running.
    Busy,
    /// Everything else: the sentence is the whole answer.
    Other,
}

/// The refusal one published code names.
pub open spec fn refusal_of(code: Seq<char>) -> Refusal {
    if code == "external_change"@ {
        Refusal::ExternalChange
    } else if code == "config_unreadable"@ {
        Refusal::ConfigUnreadable
    } else if code == "cursor_expired"@ {
        Refusal::CursorExpired
    } else if code == "secret_store_failed"@ {
        Refusal::SecretStoreFailed
    } else if code == "busy"@ {
        Refusal::Busy
    } else {
        Refusal::Other
    }
}

impl Refusal {
    /// One wire error, read.
    pub fn of(error: &WireError) -> (r: Self)
        ensures
            r == refusal_of(error.code@),
    {
        Refusal::of_code(error.code.as_str())
    }

    /// One published code, read.
    pub fn of_code(code: &str) -> (r: Self)
        ensures
            r == refusal_of(code@),
    {
        if str_eq(code, "external_change") {
            Refusal::ExternalChange
        } else if str_eq(code, "config_unreadable") {
            Refusal::ConfigUnreadable
        } else if str_eq(code, "cursor_expired") {
            Refusal::CursorExpired
        } else if str_eq(code, "secret_store_failed") {
            Refusal::SecretStoreFailed
        } else if str_eq(code, "busy") {
            Refusal::Busy
        } else {
            Refusal::Other
        }
    }
}

/// Where one channel stands, as its own row publishes it.
#[derive(Debug, Clone, Copy, PartialEq, Eq, Structural)]
pub enum ChannelStanding {
    /// Connected and answering.
    Working,
    /// Switched on with something still missing.
    NotFinished,
    /// The daemon published no status at all, or one this build has no word
    /// for.
    Unreported,
}

/// The standing one published status names.
pub open spec fn channel_standing_of(status: Option<Seq<char>>) -> ChannelStanding {
    match status {
        Some(word) => if word == "ok"@ {
            ChannelStanding::Working
        } else if word == "setup_required"@ {
            ChannelStanding::NotFinished
        } else {
            ChannelStanding::Unreported
        },
        None => ChannelStanding::Unreported,
    }
}

impl ChannelStanding {
    /// One published status, read.
    pub fn of(status: Option<&str>) -> (r: Self)
        ensures
            r == channel_standing_of(opt_str_view(status)),
    {
        match status {
            Some(word) => {
                if str_eq(word, "ok") {
                    ChannelStanding::Working
                } else if str_eq(word, "setup_required") {
                    ChannelStanding::NotFinished
                } else {
                    ChannelStanding::Unreported
                }
            },
            None => ChannelStanding::Unreported,
        }
    }
}

/// The notetaker, as `capabilities.install.start` spells it.
pub const MEETBOT_TARGET: &'static str = "meetbot";
/// The computer-use helper, as the contract spells it.
pub const COMPUTER_USE_SIDECAR_TARGET: &'static str = "computer_use_sidecar";
/// The one fixed credential id `secret.set` takes.
pub const SETUP_TOKEN: &'static str = "anthropic_setup_token";

/// The `secret.set` and `auth.start` spelling for one plugin.
pub fn plugin_id(name: &str) -> (r: String)
    ensures
        r@ == "plugin:"@ + name@,
{
    concat("plugin:", name)
}

/// The `secret.set` spelling for one sign-in client's secret.
pub fn oauth_client_id(provider: &str) -> (r: String)
    ensures
        r@ == "oauth_client:"@ + provider@,
{
    concat("oauth_client:", provider)
}

/// How a provider signs in, as its row publishes it.
#[derive(Debug, Clone, Copy, PartialEq, Eq, Structural)]
pub enum AuthMode {
    /// A browser hop.
    Oauth,
    /// A key the operator types.
    ApiKey,
    /// No credential at all: the wire's `none`.
    NoCredential,
    /// A mode a newer daemon publishes. Kept rather than folded onto a
    /// neighbour.
    Unrecognized,
}

/// The mode one published word names.
pub open spec fn auth_mode_of(mode: Seq<char>) -> AuthMode {
    if mode == "oauth"@ {
        AuthMode::Oauth
    } else if mode == "api_key"@ {
        AuthMode::ApiKey
    } else if mode == "none"@ {
        AuthMode::NoCredential
    } else {
        AuthMode::Unrecognized
    }
}

/// How one mode is written on the wire.
pub open spec fn auth_mode_word(mode: AuthMode) -> Seq<char> {
    match mode {
        AuthMode::Oauth => "oauth"@,
        AuthMode::ApiKey => "api_key"@,
        AuthMode::NoCredential => "none"@,
        AuthMode::Unrecognized => ""@,
    }
}

impl AuthMode {
    /// One mode, read.
    pub fn parse(mode: &str) -> (r: Self)
        ensures
            r == auth_mode_of(mode@),
    {
        if str_eq(mode, "oauth") {
            AuthMode::Oauth
        } else if str_eq(mode, "api_key") {
            AuthMode::ApiKey
        } else if str_eq(mode, "none") {
            AuthMode::NoCredential
        } else {
            AuthMode::Unrecognized
        }
    }

    /// Every mode one provider publishes, read.
    pub fn of(modes: &[String]) -> (r: Vec<AuthMode>)
        ensures
            r@.len() == modes@.len(),
            forall|i: int| 0 <= i < modes@.len() ==> r@[i] == auth_mode_of(#[trigger] modes@[i]@),
    {
        let mut r: Vec<AuthMode> = Vec::new();
        let mut i: usize = 0;
        while i < modes.len()
            invariant
                i <= modes@.len(),
                r@.len() == i,
                forall|j: int| 0 <= j < i ==> r@[j] == auth_mode_of(#[trigger] modes@[j]@),
            decreases modes@.len() - i,
        {
            r.push(AuthMode::parse(modes[i].as_str()));
            i = i + 1;
        }
        r
    }

    /// How this mode is written on the wire, for the one row that writes a mode
    /// back.
    pub fn recorded(self) -> (r: &'static str)
        ensures
            r@ == auth_mode_word(self),
    {
        match self {
            AuthMode::Oauth => "oauth",
            AuthMode::ApiKey => "api_key",
            AuthMode::NoCredential => "none",
            AuthMode::Unrecognized => "",
        }
    }
}

/// What a provider's stored token is worth, as the daemon reports it.
#[derive(Debug, Clone, Copy, PartialEq, Eq, Structural)]
pub enum TokenState {
    /// The credential is there and works as far as the daemon knows.
    Usable,
    /// The credential is there and no longer works.
    Stale,
    /// The daemon reported no token state at all.
    Unreported,
}

/// The token state one published word names.
pub open spec fn token_state_of(state: Option<Seq<char>>) -> TokenState {
    match state {
        None => TokenState::Unreported,
        Some(word) => if word == "expired"@ || word == "invalid"@ || word == "revoked"@ {
            TokenState::Stale
        } else {
            TokenState::Usable
        },
    }
}

impl TokenState {
    /// One token state, read.
    pub fn of(state: Option<&str>) -> (r: Self)
        ensures
            r == token_state_of(opt_str_view(state)),
    {
        match state {
            None => TokenState::Unreported,
            Some(word) => {
                if str_eq(word, "expired") || str_eq(word, "invalid") || str_eq(word, "revoked") {
                    TokenState::Stale
                } else {
                    TokenState::Usable
                }
            },
        }
    }

    /// Whether the credential is there and no longer works.
    pub fn is_stale(self) -> (r: bool)
        ensures
            r == (self == TokenState::Stale),
    {
        self == TokenState::Stale
    }
}

// ---------------------------------------------------------------------------
// The gaps of one setup state
// ---------------------------------------------------------------------------

/// A list with one more gap at its end, unless it already holds that gap.
pub open spec fn with_once(found: Seq<GapView>, gap: GapView) -> Seq<GapView> {
    if found.contains(gap) {
        found
    } else {
        found.push(gap)
    }
}

/// Every gap one setup state reports, in the order Home renders them: the
/// readiness failures the daemon listed, then the standing descriptors it
/// publishes separately, each once.
pub open spec fn gaps_of(
    detail_keys: Seq<Seq<char>>,
    restart_required: bool,
    config: ConfigState,
    legacy_unit: bool,
) -> Seq<GapView> {
    let listed = detail_keys.map_values(|key: Seq<char>| gap_of(key));
    let restarted = if restart_required {
        with_once(listed, GapView::RestartPending)
    } else {
        listed
    };
    let configured = match condition_of(config) {
        ConfigCondition::ExternalChange => with_once(restarted, GapView::ExternalConfigChange),
        ConfigCondition::Unreadable => with_once(restarted, GapView::ConfigUnreadable),
        _ => restarted,
    };
    if legacy_unit {
        with_once(configured, GapView::LegacyServiceUnit)
    } else {
        configured
    }
}

/// The detail keys of a setup state's readiness failures, in order.
pub open spec fn detail_keys(state: SetupStateResult) -> Seq<Seq<char>> {
    state.readiness.failures@.map_values(|f: crate::management::types::ReadinessFailure| f.detail_key@)
}

/// The views of a list of gaps.
pub open spec fn gap_views(gaps: Seq<Gap>) -> Seq<GapView> {
    gaps.map_values(|g: Gap| g@)
}

fn contains_gap(found: &Vec<Gap>, gap: &Gap) -> (r: bool)
    ensures
        r == gap_views(found@).contains(gap@),
{
    let mut i: usize = 0;
    while i < found.len()
        invariant
            i <= found@.len(),
            forall|j: int| 0 <= j < i ==> found@[j]@ != gap@,
        decreases found@.len() - i,
    {
        if found[i].same(gap) {
            assert(gap_views(found@)[i as int] == gap@);
            return true;
        }
        i = i + 1;
    }
    assert forall|j: int| 0 <= j < gap_views(found@).len() implies gap_views(found@)[j]
        != gap@ by {
        assert(gap_views(found@)[j] == found@[j]@);
    }
    false
}

/// Add a gap at the end, unless it is already listed.
pub fn push_once(found: &mut Vec<Gap>, gap: Gap)
    ensures
        gap_views(final(found)@) == with_once(gap_views(old(found)@), gap@),
{
    if !contains_gap(found, &gap) {
        let ghost before = found@;
        found.push(gap);
        assert(gap_views(found@) =~= gap_views(before).push(gap@));
    }
}

/// Every gap `setup.state.get` reports, in the order Home renders them.
///
/// `secret_acl_restricted` is deliberately absent: the Secret Service has no
/// per-item access-control list to be restricted by, so the descriptor is
/// refused on this platform rather than carried as a row that always passed.
pub fn gaps(state: &SetupStateResult) -> (r: Vec<Gap>)
    ensures
        gap_views(r@) == gaps_of(
            detail_keys(*state),
            state.restart.required,
            state.coexistence.config_state,
            state.coexistence.legacy_service_unit.present,
        ),
{
    let failures = &state.readiness.failures;
    let mut found: Vec<Gap> = Vec::new();
    let mut i: usize = 0;
    while i < failures.len()
        invariant
            i <= failures@.len(),
            failures@ == state.readiness.failures@,
            gap_views(found@) == detail_keys(*state).take(i as int).map_values(
                |key: Seq<char>| gap_of(key),
            ),
        decreases failures@.len() - i,
    {
        let gap = Gap::parse(failures[i].detail_key.as_str());
        let ghost before = found@;
        found.push(gap);
        proof {
            assert(gap_views(found@) =~= gap_views(before).push(gap@));
            assert(detail_keys(*state).take(i + 1) =~= detail_keys(*state).take(i as int).push(
                failures@[i as int].detail_key@,
            ));
            assert(detail_keys(*state).take(i + 1).map_values(|key: Seq<char>| gap_of(key))
                =~= detail_keys(*state).take(i as int).map_values(|key: Seq<char>| gap_of(key)).push(
                gap_of(failures@[i as int].detail_key@),
            ));
        }
        i = i + 1;
    }
    proof {
        assert(detail_keys(*state).take(failures@.len() as int) =~= detail_keys(*state));
    }
    if state.restart.required {
        push_once(&mut found, Gap::RestartPending);
    }
    match ConfigCondition::of(state.coexistence.config_state) {
        ConfigCondition::ExternalChange => push_once(&mut found, Gap::ExternalConfigChange),
        ConfigCondition::Unreadable => push_once(&mut found, Gap::ConfigUnreadable),
        _ => {},
    }
    if state.coexistence.legacy_service_unit.present {
        push_once(&mut found, Gap::LegacyServiceUnit);
    }
    found
}

} // verus!
