//! Integrations, as data.
//!
//! Every word on an integration row is the daemon's: the status sentence, the
//! consent sentence, the disclosure and the verbs. What this file owns is which
//! method each published action id runs, the four counted filters, the one
//! search rule both row kinds are read by, and the order of the one chain a
//! person starts with a single gesture.
//!
//! The pairing is the contract's and it is never crossed: a button is painted
//! with `verbs[i]` and runs `actions[i]`. Routing on a word, or inferring the
//! next operation from a status atom, is how a button came to say one thing and
//! do another.

use vstd::prelude::*;
use crate::copy::{renders, text, Key};
use crate::management::types::{
    PluginAccessProfile, PluginAction, PluginRow, PluginRuntimeKind, PluginSetting,
    PluginWorkspace, SettingsPane, SetupFeatures,
};
use crate::management::vocabulary::opt_view;
use crate::models::settings_model::Sentence;
use crate::text::{
    chars_contain, chars_of, contains_seq, lowercase_mapping, to_lowercase, trim, trimmed,
};

verus! {

/// The four counted filters.
#[derive(Debug, Clone, Copy, PartialEq, Eq, Structural)]
pub enum IntegrationFilter {
    Installed,
    Available,
    Mcps,
    Features,
}

/// The filters, in the order they are drawn.
pub fn filters() -> (r: Vec<IntegrationFilter>)
    ensures
        r@ == seq![
            IntegrationFilter::Installed,
            IntegrationFilter::Available,
            IntegrationFilter::Mcps,
            IntegrationFilter::Features,
        ],
{
    let r = vec![
        IntegrationFilter::Installed,
        IntegrationFilter::Available,
        IntegrationFilter::Mcps,
        IntegrationFilter::Features,
    ];
    assert(r@ =~= seq![
        IntegrationFilter::Installed,
        IntegrationFilter::Available,
        IntegrationFilter::Mcps,
        IntegrationFilter::Features,
    ]);
    r
}

/// Whether one row belongs under a filter.
pub open spec fn admitted(filter: IntegrationFilter, installed: bool, kind: Option<PluginRuntimeKind>) -> bool {
    match filter {
        IntegrationFilter::Installed => installed,
        IntegrationFilter::Available => !installed,
        IntegrationFilter::Mcps => kind == Some(PluginRuntimeKind::RemoteMcp) || kind == Some(
            PluginRuntimeKind::LocalStdio,
        ),
        IntegrationFilter::Features => false,
    }
}

impl IntegrationFilter {
    /// The word on the toggle.
    pub fn key(self) -> (k: Key)
        ensures
            k == match self {
                IntegrationFilter::Installed => Key::IntegrationsFilterInstalled,
                IntegrationFilter::Available => Key::IntegrationsFilterAvailable,
                IntegrationFilter::Mcps => Key::IntegrationsFilterMcps,
                IntegrationFilter::Features => Key::IntegrationsFilterFeatures,
            },
    {
        match self {
            IntegrationFilter::Installed => Key::IntegrationsFilterInstalled,
            IntegrationFilter::Available => Key::IntegrationsFilterAvailable,
            IntegrationFilter::Mcps => Key::IntegrationsFilterMcps,
            IntegrationFilter::Features => Key::IntegrationsFilterFeatures,
        }
    }

    /// Whether one plugin row belongs under this filter.
    ///
    /// The runtime kinds are the one runtime vocabulary this door reads, and it
    /// reads them to filter rather than to word anything.
    pub fn admits(self, row: &IntegrationRow) -> (r: bool)
        ensures
            r == admitted(self, row.installed, row.runtime_kind),
    {
        match self {
            IntegrationFilter::Installed => row.installed,
            IntegrationFilter::Available => !row.installed,
            IntegrationFilter::Mcps => match row.runtime_kind {
                Some(PluginRuntimeKind::RemoteMcp) | Some(PluginRuntimeKind::LocalStdio) => true,
                _ => false,
            },
            IntegrationFilter::Features => false,
        }
    }
}

/// One integration row, as the daemon published it.
#[derive(Debug, Clone, PartialEq, Eq)]
pub struct IntegrationRow {
    pub name: String,
    pub title: String,
    /// The manifest's own one-line description.
    pub summary: Option<String>,
    /// The daemon's own sentence for where this plugin stands.
    pub status: String,
    pub primary_verb: Option<String>,
    pub primary_action: Option<PluginAction>,
    /// The words to paint, paired index for index with the actions below.
    pub verbs: Vec<String>,
    pub actions: Vec<PluginAction>,
    pub installed: bool,
    pub enabled: bool,
    pub runtime_kind: Option<PluginRuntimeKind>,
    pub credential_present: bool,
    /// The sign-in family this plugin belongs to, which is what names its entry
    /// among the sign-in clients.
    pub auth_provider: Option<String>,
    pub consent: String,
    pub disclosure: Option<String>,
    pub settings: Vec<PluginSetting>,
    pub access_profiles: Vec<PluginAccessProfile>,
    pub workspaces: Vec<PluginWorkspace>,
    pub workspace_label: Option<String>,
}

/// The row's second line: the daemon's status sentence for an installed row,
/// and the manifest summary otherwise, where it is not blank.
pub open spec fn subtitle_of(installed: bool, status: Seq<char>, summary: Option<Seq<char>>) -> Seq<char> {
    if installed {
        status
    } else {
        match summary {
            Some(s) => if trimmed(s).len() > 0 {
                s
            } else {
                status
            },
            None => status,
        }
    }
}

/// Whether a detail draws a button for one action.
pub open spec fn draws(action: PluginAction) -> bool {
    !(action == PluginAction::AddToken || action == PluginAction::ReplaceToken || action
        == PluginAction::Unrecognized)
}

/// The pairs a detail draws: each word with its action, minus those that draw
/// no button. Pairs past the shorter list are not pairs.
pub open spec fn drawn_pairs(verbs: Seq<Seq<char>>, actions: Seq<PluginAction>) -> Seq<(Seq<char>, PluginAction)>
    decreases actions.len(),
{
    let n = if verbs.len() < actions.len() {
        verbs.len()
    } else {
        actions.len()
    };
    if n == 0 {
        Seq::empty()
    } else {
        let rest = drawn_pairs(verbs.take(n - 1), actions.take(n - 1));
        if draws(actions[n - 1]) {
            rest.push((verbs[n - 1], actions[n - 1]))
        } else {
            rest
        }
    }
}

impl IntegrationRow {
    /// The row's second line.
    ///
    /// An installed row reads the daemon's own status sentence, because where
    /// it stands is the whole question about something already on this machine.
    /// A row that is not installed reads the manifest summary, because what it
    /// does is the only question there is about it yet.
    pub fn subtitle(&self) -> (r: &str)
        ensures
            r@ == subtitle_of(self.installed, self.status@, opt_view(self.summary)),
    {
        if self.installed {
            return self.status.as_str();
        }
        match &self.summary {
            Some(summary) => {
                let t = trim(summary.as_str());
                if chars_of(t.as_str()).len() > 0 {
                    summary.as_str()
                } else {
                    self.status.as_str()
                }
            },
            None => self.status.as_str(),
        }
    }

    /// The buttons a detail draws: the daemon's own pairs, minus the ones
    /// answered by a slot of their own and the ones this build cannot route.
    pub fn buttons(&self) -> (r: Vec<(String, PluginAction)>)
        ensures
            r@.map_values(|p: (String, PluginAction)| (p.0@, p.1)) == drawn_pairs(
                crate::text::views(self.verbs@),
                self.actions@,
            ),
    {
        let n = if self.verbs.len() < self.actions.len() {
            self.verbs.len()
        } else {
            self.actions.len()
        };
        let ghost vs = crate::text::views(self.verbs@);
        let mut out: Vec<(String, PluginAction)> = Vec::new();
        let mut i: usize = 0;
        while i < n
            invariant
                i <= n,
                n <= self.verbs@.len(),
                n <= self.actions@.len(),
                vs == crate::text::views(self.verbs@),
                out@.map_values(|p: (String, PluginAction)| (p.0@, p.1)) == drawn_pairs(
                    vs.take(i as int),
                    self.actions@.take(i as int),
                ),
            decreases n - i,
        {
            proof {
                let v1 = vs.take(i + 1);
                let a1 = self.actions@.take(i + 1);
                assert(v1.take(i as int) =~= vs.take(i as int));
                assert(a1.take(i as int) =~= self.actions@.take(i as int));
                assert(v1[i as int] == self.verbs@[i as int]@);
            }
            let action = self.actions[i];
            if draws_button(action) {
                let ghost before = out@;
                out.push((self.verbs[i].clone(), action));
                proof {
                    assert(out@.map_values(|p: (String, PluginAction)| (p.0@, p.1)) =~= before.map_values(
                        |p: (String, PluginAction)| (p.0@, p.1),
                    ).push((self.verbs@[i as int]@, action)));
                }
            }
            i = i + 1;
        }
        proof {
            if self.verbs@.len() < self.actions@.len() {
                assert(vs.take(n as int) =~= vs);
            } else {
                assert(self.actions@.take(n as int) =~= self.actions@);
            }
            let m = if vs.len() < self.actions@.len() { vs.len() } else { self.actions@.len() };
            if m > 0 {
                assert(vs.take(n as int).take(m - 1) =~= vs.take(m - 1));
            }
            lemma_drawn_pairs_prefix(vs, self.actions@);
        }
        out
    }

    /// Whether this plugin binds to a workspace at all.
    pub fn binds_workspace(&self) -> (r: bool)
        ensures
            r == (self.access_profiles@.len() > 0),
    {
        self.access_profiles.len() > 0
    }

    /// Whether the search matches this row.
    pub fn matches(&self, query: &str) -> (r: bool)
        ensures
            r == search_matches(query@, self.title@, opt_view(self.summary)),
    {
        let summary = match &self.summary {
            Some(s) => Some(s.as_str()),
            None => None,
        };
        matches(query, self.title.as_str(), summary)
    }
}

/// The pairs of two lists are those of the lists cut to the shorter one.
proof fn lemma_drawn_pairs_prefix(verbs: Seq<Seq<char>>, actions: Seq<PluginAction>)
    ensures
        ({
            let n = if verbs.len() < actions.len() {
                verbs.len()
            } else {
                actions.len()
            };
            drawn_pairs(verbs, actions) == drawn_pairs(verbs.take(n as int), actions.take(n as int))
        }),
{
    let n = if verbs.len() < actions.len() {
        verbs.len()
    } else {
        actions.len()
    };
    let v = verbs.take(n as int);
    let a = actions.take(n as int);
    if n > 0 {
        assert(v.take(n - 1) =~= verbs.take(n - 1));
        assert(a.take(n - 1) =~= actions.take(n - 1));
    }
}

/// Whether a detail draws a button for one action.
///
/// Neither token verb does: the credential slot is the secret row, which is the
/// one door to that slot, and a button beside it would be a second control for
/// one thing. An id this build cannot route draws nothing either, because a
/// button that routes nowhere is worse than none.
pub fn draws_button(action: PluginAction) -> (r: bool)
    ensures
        r == draws(action),
{
    match action {
        PluginAction::AddToken | PluginAction::ReplaceToken | PluginAction::Unrecognized => false,
        _ => true,
    }
}

/// Whether an action is answered by a dialog rather than by a call.
pub fn answered_by_dialog(action: PluginAction) -> (r: bool)
    ensures
        r == (action == PluginAction::AddToken || action == PluginAction::ReplaceToken || action
            == PluginAction::SetUpClient || action == PluginAction::ChooseWorkspace),
{
    match action {
        PluginAction::AddToken
        | PluginAction::ReplaceToken
        | PluginAction::SetUpClient
        | PluginAction::ChooseWorkspace => true,
        _ => false,
    }
}

/// Whether an action is a door the operator walks through.
pub open spec fn operator_step(action: PluginAction) -> bool {
    action == PluginAction::SignIn || action == PluginAction::AddToken || action
        == PluginAction::SetUpClient || action == PluginAction::ChooseWorkspace
}

/// The leading steps a person has to carry out themselves.
///
/// These four are the ids whose method is a door the operator walks through, so
/// the row's detail is opened on them once a switch-on has landed. Every other
/// id is either something the daemon does on its own or something the switch
/// just did.
pub fn needs_the_operator(action: PluginAction) -> (r: bool)
    ensures
        r == operator_step(action),
{
    match action {
        PluginAction::SignIn
        | PluginAction::AddToken
        | PluginAction::SetUpClient
        | PluginAction::ChooseWorkspace => true,
        _ => false,
    }
}

/// The page's one search rule: a blank query matches everything, and any
/// other, trimmed and lower-cased, is looked for in the lower-cased name and
/// one-line description.
pub open spec fn search_matches(query: Seq<char>, title: Seq<char>, summary: Option<Seq<char>>) -> bool {
    let needle = lowercase_mapping(trimmed(query));
    needle.len() == 0 || contains_seq(lowercase_mapping(title), needle) || contains_seq(
        lowercase_mapping(
            match summary {
                Some(s) => s,
                None => Seq::empty(),
            },
        ),
        needle,
    )
}

/// The page's search looks in both places: a query found in the name
/// matches whatever the description says, a query found in the description
/// matches whatever the name says, a blank query matches every row, and a
/// query found in neither matches nothing.
pub proof fn a_query_in_the_name_or_the_description_matches(
    query: Seq<char>,
    title: Seq<char>,
    summary: Option<Seq<char>>,
)
    ensures
        contains_seq(lowercase_mapping(title), lowercase_mapping(trimmed(query))) ==> search_matches(
            query,
            title,
            summary,
        ),
        (summary matches Some(s) && contains_seq(lowercase_mapping(s), lowercase_mapping(trimmed(query))))
            ==> search_matches(query, title, summary),
        lowercase_mapping(trimmed(query)).len() == 0 ==> search_matches(query, title, summary),
        (summary matches Some(s) && lowercase_mapping(trimmed(query)).len() > 0 && !contains_seq(
            lowercase_mapping(title),
            lowercase_mapping(trimmed(query)),
        ) && !contains_seq(lowercase_mapping(s), lowercase_mapping(trimmed(query))))
            ==> !search_matches(query, title, summary),
{
}

/// The page's one search rule: the name and the one-line description.
pub fn matches(query: &str, title: &str, summary: Option<&str>) -> (r: bool)
    ensures
        r == search_matches(
            query@,
            title@,
            match summary {
                Some(s) => Some(s@),
                None => None,
            },
        ),
{
    let trimmed_query = trim(query);
    let needle = to_lowercase(trimmed_query.as_str());
    let n = chars_of(needle.as_str());
    if n.len() == 0 {
        return true;
    }
    let t = chars_of(to_lowercase(title).as_str());
    if chars_contain(t.as_slice(), n.as_slice()) {
        return true;
    }
    let s = match summary {
        Some(s) => to_lowercase(s),
        None => to_lowercase(""),
    };
    proof {
        reveal_strlit("");
        assert(""@ =~= Seq::<char>::empty());
    }
    let sv = chars_of(s.as_str());
    chars_contain(sv.as_slice(), n.as_slice())
}

/// One native driver feature, which is a daemon setting rather than a plugin.
///
/// A row here says where it stands and opens the pane that owns its switch. It
/// draws no switch of its own: a second writer of one daemon key would need
/// that key's name written here, which is the field inventory the design
/// forbids.
#[derive(Debug, Clone, Copy, PartialEq, Eq)]
pub struct FeatureRow {
    /// The mark key, which is the app's own name for this driver.
    pub id: &'static str,
    pub title: Key,
    pub summary: Key,
    /// Where the daemon says it stands, or nothing where nothing has been read.
    /// Three-valued, because off on an unread snapshot is a claim about a
    /// daemon nobody asked.
    pub enabled: Option<bool>,
    /// The pane that owns this feature's switch.
    pub pane: SettingsPane,
}

/// The word for where a feature stands.
pub open spec fn feature_standing(enabled: Option<bool>) -> Key {
    match enabled {
        Some(true) => Key::StateOn,
        Some(false) => Key::StateOff,
        None => Key::StateNotReported,
    }
}

impl FeatureRow {
    /// The word for where it stands.
    pub fn standing(&self) -> (k: Key)
        ensures
            k == feature_standing(self.enabled),
    {
        match self.enabled {
            Some(true) => Key::StateOn,
            Some(false) => Key::StateOff,
            None => Key::StateNotReported,
        }
    }

    /// Whether the search matches this row, by its title and summary as they
    /// read in this locale.
    pub fn matches(&self, query: &str) -> (r: bool)
        requires
            self.title != Key::Count,
            self.summary != Key::Count,
        ensures
            exists|title: Seq<char>, summary: Seq<char>|
                #![trigger renders(self.title, title), renders(self.summary, summary)]
                renders(self.title, title) && renders(self.summary, summary) && r
                    == search_matches(query@, title, Some(summary)),
    {
        let title = text(self.title);
        let summary = text(self.summary);
        let r = matches(query, title.as_str(), Some(summary.as_str()));
        assert(renders(self.title, title@) && renders(self.summary, summary@));
        r
    }
}

/// The native driver rows, from the daemon's own feature flags.
///
/// Two, not three: computer history has no driver on this platform, so no row
/// is rendered for it anywhere. An unread snapshot still draws both, because a
/// row that vanished while the daemon was being read would move the count for
/// a reason nobody could see.
pub fn feature_rows(features: Option<&SetupFeatures>) -> (r: Vec<FeatureRow>)
    ensures
        r@.len() == 2,
        r@[0].id@ == "computer_use"@,
        r@[0].title == Key::IntegrationsFeatureComputerUse,
        r@[0].summary == Key::IntegrationsFeatureComputerUseBody,
        r@[0].pane == SettingsPane::Computer,
        r@[0].enabled == match features {
            Some(f) => Some(f.computer_use),
            None => None,
        },
        r@[1].id@ == "meetings"@,
        r@[1].title == Key::IntegrationsFeatureMeetings,
        r@[1].summary == Key::IntegrationsFeatureMeetingsBody,
        r@[1].pane == SettingsPane::Meetings,
        r@[1].enabled == match features {
            Some(f) => Some(f.meetings),
            None => None,
        },
{
    let computer = match features {
        Some(f) => Some(f.computer_use),
        None => None,
    };
    let meetings = match features {
        Some(f) => Some(f.meetings),
        None => None,
    };
    vec![
        FeatureRow {
            id: "computer_use",
            title: Key::IntegrationsFeatureComputerUse,
            summary: Key::IntegrationsFeatureComputerUseBody,
            enabled: computer,
            pane: SettingsPane::Computer,
        },
        FeatureRow {
            id: "meetings",
            title: Key::IntegrationsFeatureMeetings,
            summary: Key::IntegrationsFeatureMeetingsBody,
            enabled: meetings,
            pane: SettingsPane::Meetings,
        },
    ]
}

/// What a switch-on left behind.
#[derive(Debug, Clone, PartialEq, Eq)]
pub enum EnableOutcome {
    /// The daemon refused a stage. The chain stops and the sentence is shown.
    Refused(Sentence),
    /// The daemon's next step needs the person, so the detail is opened on it.
    Configure(Box<IntegrationRow>),
    /// Nothing is left to do here.
    Done,
}

/// What the daemon's own answer says is left to do on one row: its detail
/// is opened where its leading step needs the operator.
pub fn next_step(row: Option<IntegrationRow>) -> (r: EnableOutcome)
    ensures
        match row {
            Some(found) => match found.primary_action {
                Some(action) => if operator_step(action) {
                    r matches EnableOutcome::Configure(b) && *b == found
                } else {
                    r is Done
                },
                None => r is Done,
            },
            None => r is Done,
        },
{
    let row = match row {
        Some(row) => row,
        None => {
            return EnableOutcome::Done;
        },
    };
    match row.primary_action {
        Some(action) => {
            if needs_the_operator(action) {
                EnableOutcome::Configure(Box::new(row))
            } else {
                EnableOutcome::Done
            }
        },
        None => EnableOutcome::Done,
    }
}

/// The call one action runs, as a method and whether it answers with a job.
/// An action answered by a dialog, a sign-in the surface that started it owns,
/// and an id this build cannot route run nothing here.
pub fn call_for(action: PluginAction) -> (r: Option<(&'static str, bool)>)
    ensures
        match action {
            PluginAction::Install => r matches Some((m, job)) && m@ == "plugins.install.start"@ && job,
            PluginAction::Check => r matches Some((m, job)) && m@ == "plugins.check.start"@ && job,
            PluginAction::Enable => r matches Some((m, job)) && m@ == "plugins.enable"@ && !job,
            PluginAction::Disable => r matches Some((m, job)) && m@ == "plugins.disable"@ && !job,
            PluginAction::Disconnect => r matches Some((m, job)) && m@ == "plugins.disconnect"@
                && !job,
            _ => r is None,
        },
{
    match action {
        PluginAction::Install => Some(("plugins.install.start", true)),
        PluginAction::Check => Some(("plugins.check.start", true)),
        PluginAction::Enable => Some(("plugins.enable", false)),
        PluginAction::Disable => Some(("plugins.disable", false)),
        PluginAction::Disconnect => Some(("plugins.disconnect", false)),
        _ => None,
    }
}

/// How many rows a filter counts: the feature rows under Features, and the
/// plugin rows it admits under the rest.
pub fn count(rows: &Vec<IntegrationRow>, features: usize, filter: IntegrationFilter) -> (n: usize)
    ensures
        filter == IntegrationFilter::Features ==> n == features,
        filter != IntegrationFilter::Features ==> n == rows@.filter(
            |row: IntegrationRow| admitted(filter, row.installed, row.runtime_kind),
        ).len(),
{
    if filter == IntegrationFilter::Features {
        return features;
    }
    let ghost f = |row: IntegrationRow| admitted(filter, row.installed, row.runtime_kind);
    let mut n: usize = 0;
    let mut i: usize = 0;
    while i < rows.len()
        invariant
            i <= rows@.len(),
            n <= i,
            f == (|row: IntegrationRow| admitted(filter, row.installed, row.runtime_kind)),
            n == rows@.take(i as int).filter(f).len(),
        decreases rows@.len() - i,
    {
        proof {
            rows@.take(i as int).lemma_filter_push(rows@[i as int], f);
            assert(rows@.take(i + 1) =~= rows@.take(i as int).push(rows@[i as int]));
        }
        if filter.admits(&rows[i]) {
            n = n + 1;
        }
        i = i + 1;
    }
    proof {
        assert(rows@.take(i as int) =~= rows@);
    }
    n
}

fn copy_opt(s: &Option<String>) -> (r: Option<String>)
    ensures
        opt_view(r) == opt_view(*s),
{
    match s {
        Some(t) => Some(t.clone()),
        None => None,
    }
}

fn copy_settings(v: &Vec<PluginSetting>) -> (r: Vec<PluginSetting>)
    ensures
        r@ == v@,
{
    let mut r: Vec<PluginSetting> = Vec::new();
    let mut i: usize = 0;
    while i < v.len()
        invariant
            i <= v@.len(),
            r@ == v@.take(i as int),
        decreases v@.len() - i,
    {
        let s = &v[i];
        let value = match &s.value {
            Some(t) => Some(t.clone()),
            None => None,
        };
        r.push(PluginSetting {
            key: s.key.clone(),
            label: s.label.clone(),
            value,
            required: s.required,
            kind: s.kind,
        });
        proof {
            assert(v@.take(i + 1) =~= v@.take(i as int).push(v@[i as int]));
        }
        i = i + 1;
    }
    proof {
        assert(v@.take(i as int) =~= v@);
    }
    r
}

fn copy_profiles(v: &Vec<PluginAccessProfile>) -> (r: Vec<PluginAccessProfile>)
    ensures
        r@ == v@,
{
    let mut r: Vec<PluginAccessProfile> = Vec::new();
    let mut i: usize = 0;
    while i < v.len()
        invariant
            i <= v@.len(),
            r@ == v@.take(i as int),
        decreases v@.len() - i,
    {
        r.push(PluginAccessProfile { id: v[i].id.clone(), label: v[i].label.clone(), write: v[i].write });
        proof {
            assert(v@.take(i + 1) =~= v@.take(i as int).push(v@[i as int]));
        }
        i = i + 1;
    }
    proof {
        assert(v@.take(i as int) =~= v@);
    }
    r
}

fn copy_workspaces(v: &Vec<PluginWorkspace>) -> (r: Vec<PluginWorkspace>)
    ensures
        r@ == v@,
{
    let mut r: Vec<PluginWorkspace> = Vec::new();
    let mut i: usize = 0;
    while i < v.len()
        invariant
            i <= v@.len(),
            r@ == v@.take(i as int),
        decreases v@.len() - i,
    {
        r.push(PluginWorkspace { id: v[i].id.clone(), label: v[i].label.clone() });
        proof {
            assert(v@.take(i + 1) =~= v@.take(i as int).push(v@[i as int]));
        }
        i = i + 1;
    }
    proof {
        assert(v@.take(i as int) =~= v@);
    }
    r
}

/// One published plugin, as a row.
pub fn row_of(plugin: &PluginRow) -> (r: IntegrationRow)
    ensures
        r.name@ == plugin.name@,
        r.title@ == plugin.title@,
        opt_view(r.summary) == opt_view(plugin.summary),
        r.status@ == plugin.status_sentence@,
        opt_view(r.primary_verb) == opt_view(plugin.primary_verb),
        r.primary_action == plugin.primary_action,
        crate::text::views(r.verbs@) == crate::text::views(plugin.verbs@),
        r.actions@ == plugin.actions@,
        r.installed == plugin.installed,
        r.enabled == plugin.enabled,
        r.runtime_kind == plugin.runtime_kind,
        r.credential_present == plugin.credential_present,
        opt_view(r.auth_provider) == opt_view(plugin.auth_provider),
        r.consent@ == plugin.consent_sentence@,
        opt_view(r.disclosure) == opt_view(plugin.remote_disclosure),
        r.settings@ == plugin.settings@,
        r.access_profiles@ == plugin.access_profiles@,
        r.workspaces@ == plugin.workspaces@,
        opt_view(r.workspace_label) == opt_view(plugin.workspace_label),
{
    let mut verbs: Vec<String> = Vec::new();
    let mut i: usize = 0;
    while i < plugin.verbs.len()
        invariant
            i <= plugin.verbs@.len(),
            crate::text::views(verbs@) == crate::text::views(plugin.verbs@).take(i as int),
        decreases plugin.verbs@.len() - i,
    {
        let ghost before = verbs@;
        verbs.push(plugin.verbs[i].clone());
        proof {
            assert(crate::text::views(verbs@) =~= crate::text::views(before).push(plugin.verbs@[i as int]@));
            assert(crate::text::views(plugin.verbs@).take(i + 1) =~= crate::text::views(plugin.verbs@).take(
                i as int,
            ).push(plugin.verbs@[i as int]@));
        }
        i = i + 1;
    }
    proof {
        assert(crate::text::views(plugin.verbs@).take(i as int) =~= crate::text::views(plugin.verbs@));
    }
    let mut actions: Vec<PluginAction> = Vec::new();
    let mut k: usize = 0;
    while k < plugin.actions.len()
        invariant
            k <= plugin.actions@.len(),
            actions@ == plugin.actions@.take(k as int),
        decreases plugin.actions@.len() - k,
    {
        actions.push(plugin.actions[k]);
        proof {
            assert(plugin.actions@.take(k + 1) =~= plugin.actions@.take(k as int).push(plugin.actions@[k as int]));
        }
        k = k + 1;
    }
    proof {
        assert(plugin.actions@.take(k as int) =~= plugin.actions@);
    }
    IntegrationRow {
        name: plugin.name.clone(),
        title: plugin.title.clone(),
        summary: copy_opt(&plugin.summary),
        status: plugin.status_sentence.clone(),
        primary_verb: copy_opt(&plugin.primary_verb),
        primary_action: plugin.primary_action,
        verbs,
        actions,
        installed: plugin.installed,
        enabled: plugin.enabled,
        runtime_kind: plugin.runtime_kind,
        credential_present: plugin.credential_present,
        auth_provider: copy_opt(&plugin.auth_provider),
        consent: plugin.consent_sentence.clone(),
        disclosure: copy_opt(&plugin.remote_disclosure),
        settings: copy_settings(&plugin.settings),
        access_profiles: copy_profiles(&plugin.access_profiles),
        workspaces: copy_workspaces(&plugin.workspaces),
        workspace_label: copy_opt(&plugin.workspace_label),
    }
}

} // verus!
