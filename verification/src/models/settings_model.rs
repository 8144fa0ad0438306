//! The one settings model's state, and every decision about it.
//!
//! The model holds the setup snapshot, the per-section descriptors, the
//! restart state, the configuration state, the service's own view of the
//! unit, the drafts a person has not committed and the values waiting for the
//! daemon to confirm them. The application performs each read and write and
//! hands what came back to one of the transitions below; views read the state
//! and never copy it.
//!
//! Three rules run through every transition here:
//!
//! 1. **Every answer is checked against the epoch it was issued under** before
//!    it reaches a transition (see `models::api::accept`).
//! 2. **Every write is optimistic in the control and confirmed by the daemon.**
//!    The typed value is held until the accepted re-read lands; a refusal puts
//!    the daemon's value back and keeps the daemon's own sentence under the row.
//! 3. **A refresh never disturbs an edit.** A draft outlives navigation and a
//!    poll, and only the person who typed it can end it.

use vstd::prelude::*;
use crate::copy::{renders, text, Key};
use crate::management::errors::{
    detail_at, management_message, wire_rendered, ManagementError, TransportError,
};
use crate::management::types::{
    restart_view, ConfigState, DetectResult, DetectTarget, HelloResult, JobView, OverviewResult,
    RestartState, SecretResult, SettingValue, SettingsApplyResult, SettingsGetResult, SettingsPane,
    SettingsReloadResult, SettingsSection, SetupStateResult, Json, SettingsOption, SettingsRow,
};
use crate::models::secret_store::{store_kind_of, StoreKind};
use crate::management::vocabulary::{condition_of, refusal_of, ConfigCondition, Refusal};
use crate::models::table::{in_section, Table};
use crate::service::{ServiceError, ServiceStatus};
use crate::text::{concat, ends_with_slash, owned};

verus! {

/// One row, by the section it belongs to and the key it writes.
pub type RowId = (String, String);

/// What changed. Views subscribe to the model and redraw the part they own.
#[derive(Debug, PartialEq, Eq)]
pub enum Change {
    /// The daemon's own snapshot, or whether it is answering at all.
    Daemon,
    /// Readiness, the restart state, the configuration state.
    Setup,
    /// The section inventory.
    Sections,
    /// One section's rows.
    Section(String),
    /// One row's draft, optimistic value, refusal or busy state.
    Row(RowId),
    /// The unit's own state, and the two background controls.
    Service,
    /// The jobs this daemon retains.
    Jobs,
    /// What this machine was found to already have.
    Detections,
    /// The selected settings pane.
    Pane,
}

/// A refusal a person is shown: the daemon's or the command line's own
/// sentence, never one composed here.
#[derive(Clone, Debug, PartialEq, Eq)]
pub struct Sentence {
    /// The code, where the surface routes on one.
    pub code: Option<String>,
    /// The words.
    pub text: String,
    /// `details.reason`, where the code publishes one.
    ///
    /// A code alone cannot separate a locked keyring from an absent one: both
    /// arrive under the same store refusal, and only the reason says which.
    pub reason: Option<String>,
}

/// The views of an optional string.
pub open spec fn opt_view(s: Option<String>) -> Option<Seq<char>> {
    match s {
        Some(t) => Some(t@),
        None => None,
    }
}

/// What a sentence says: its code, its words and its reason.
pub open spec fn sentence_view(s: Sentence) -> (Option<Seq<char>>, Seq<char>, Option<Seq<char>>) {
    (opt_view(s.code), s.text@, opt_view(s.reason))
}

/// The text `details.reason` carries, where it carries text.
pub open spec fn reason_of(details: Seq<(String, Json)>) -> Option<Seq<char>> {
    match detail_at(details, "reason"@) {
        Some(Json::Text(t)) => Some(t@),
        _ => None,
    }
}

/// The sentence one management refusal is shown as.
pub open spec fn sentence_of(error: ManagementError) -> (
    Option<Seq<char>>,
    Seq<char>,
    Option<Seq<char>>,
) {
    match error {
        ManagementError::Wire(wire) => (
            Some(wire.code@),
            wire_rendered(wire),
            reason_of(wire.details@),
        ),
        other => (None, management_message(other), None),
    }
}

/// The sentence one command line refusal is shown as.
pub open spec fn service_sentence_of(error: ServiceError) -> (
    Option<Seq<char>>,
    Seq<char>,
    Option<Seq<char>>,
) {
    match error {
        ServiceError::Refused { code, sentence } => (Some(code@), sentence@, None),
        ServiceError::Failed(words) => (None, words@, None),
    }
}

impl Sentence {
    /// One management refusal, as the sentence a person is shown.
    pub fn of(error: &ManagementError) -> (s: Self)
        ensures
            sentence_view(s) == sentence_of(*error),
    {
        match error {
            ManagementError::Wire(wire) => {
                let reason = match wire.detail("reason") {
                    Some(r) => Some(owned(r)),
                    None => None,
                };
                proof {
                    reveal_strlit("reason");
                }
                Sentence { code: Some(wire.code.clone()), text: owned(wire.rendered()), reason }
            },
            other => Sentence { code: None, text: other.message(), reason: None },
        }
    }

    /// One command line refusal, as the sentence a person is shown.
    ///
    /// The typed command line publishes no reason, so this carries none rather
    /// than parsing one out of the words.
    pub fn of_service(error: &ServiceError) -> (s: Self)
        ensures
            sentence_view(s) == service_sentence_of(*error),
    {
        match error {
            ServiceError::Refused { code, sentence } => Sentence {
                code: Some(code.clone()),
                text: sentence.clone(),
                reason: None,
            },
            ServiceError::Failed(words) => Sentence { code: None, text: words.clone(), reason: None },
        }
    }
}

/// The one refusal the application itself answers with: the bounds on work
/// in flight are the application's own, so the sentence for hitting them is
/// the application's own too.
pub fn busy_sentence() -> (s: Sentence)
    ensures
        opt_view(s.code) == Some("busy"@),
        renders(Key::BusyQueueFull, s.text@),
        s.reason is None,
{
    Sentence { code: Some(owned("busy")), text: text(Key::BusyQueueFull), reason: None }
}

/// The control socket's name inside a home.
pub const SOCKET_NAME: &'static str = "daemon.sock";

/// A name joined under a directory, as a path joins a relative name: a
/// separator is put between them unless the directory is empty or already
/// ends in one.
pub open spec fn joined_path(base: Seq<char>, name: Seq<char>) -> Seq<char> {
    if base.len() == 0 {
        name
    } else if base.last() == '/' {
        base + name
    } else {
        base + seq!['/'] + name
    }
}

/// A relative name under a directory.
pub fn join_path(base: &str, name: &str) -> (r: String)
    ensures
        r@ == joined_path(base@, name@),
{
    let b = crate::text::chars_of(base);
    if b.len() == 0 {
        owned(name)
    } else if ends_with_slash(b.as_slice()) {
        concat(base, name)
    } else {
        let r = crate::text::concat3(base, "/", name);
        proof {
            reveal_strlit("/");
        }
        r
    }
}

/// The control socket of the home this account is bound to.
///
/// One resolver: the home the command line reports, and the socket name
/// fixed inside it. Nothing here searches for a home or guesses a default.
pub fn bound_socket(status: &ServiceStatus) -> (r: Option<String>)
    ensures
        match status.bound_home {
            Some(home) => r matches Some(p) && p@ == joined_path(
                home@,
                SOCKET_NAME@,
            ),
            _ => r is None,
        },
{
    match &status.bound_home {
        Some(home) => Some(join_path(home.as_str(), SOCKET_NAME)),
        None => None,
    }
}

/// Whether an error means the daemon is not there, as opposed to refusing.
///
/// A missing socket file and a socket nothing accepts on are the same fact to
/// a person. A deadline is not: the peer answered the connection and then
/// said nothing, which is a daemon in trouble rather than a daemon that is
/// gone.
pub fn is_stopped(error: &ManagementError) -> (r: bool)
    ensures
        r == (*error matches ManagementError::Transport(TransportError::NotRunning)),
{
    match error {
        ManagementError::Transport(TransportError::NotRunning) => true,
        _ => false,
    }
}

/// Everything the model holds.
pub struct State {
    /// The daemon's identity, from `hello`.
    pub hello: Option<HelloResult>,
    /// The last `overview.get`.
    pub overview: Option<OverviewResult>,
    /// The last `setup.state.get`.
    pub setup: Option<SetupStateResult>,
    /// The published section inventory.
    pub sections: Vec<SettingsSection>,
    /// One section's rows, as the daemon last served them.
    pub descriptors: Table<String, SettingsGetResult>,
    /// The restart state the daemon publishes. Never a list composed here.
    pub restart: RestartState,
    /// Whether writes land, refuse, or have nowhere to go.
    pub config: ConfigCondition,
    /// The parser's own sentence, while the settings file cannot be read.
    pub unreadable: Option<Sentence>,
    /// The command line's view of the unit.
    pub service: Option<ServiceStatus>,
    /// The command line's own refusal, where it refused.
    pub service_refusal: Option<Sentence>,
    /// Whether the daemon answered at all. `None` until it has been asked.
    pub reachable: Option<bool>,
    /// The jobs the daemon retains.
    pub jobs: Vec<JobView>,
    /// What this machine was found to already have, one answer per target.
    pub detections: Vec<DetectResult>,
    /// The pane Settings is showing.
    pub pane: SettingsPane,
    /// What a person typed and has not committed. It survives navigation.
    pub drafts: Table<RowId, SettingValue>,
    /// What has been sent and not yet confirmed by an accepted re-read.
    pub in_flight: Table<RowId, SettingValue>,
    /// The daemon's own sentence under one row.
    pub refusals: Table<RowId, Sentence>,
    /// The rows with a write outstanding.
    pub busy: Table<RowId, ()>,
    /// Whether Fermix opens at login.
    pub open_at_login: bool,
    /// The background switch's optimistic position, while a mutation runs.
    pub background_pending: Option<bool>,
}

/// The key a row is looked up by.
pub open spec fn row_key(id: RowId) -> (Seq<char>, Seq<char>) {
    id@
}

/// Whether two states hold the same row records: drafts, values in flight,
/// refusals and busy rows.
pub open spec fn same_edits(a: State, b: State) -> bool {
    &&& a.drafts@ == b.drafts@
    &&& a.in_flight@ == b.in_flight@
    &&& a.refusals@ == b.refusals@
    &&& a.busy@ == b.busy@
}

/// The value one row shows, by its records alone: a draft first, then an
/// unconfirmed write, and otherwise none (the daemon's own).
pub open spec fn shown_value(
    drafts: Map<(Seq<char>, Seq<char>), SettingValue>,
    in_flight: Map<(Seq<char>, Seq<char>), SettingValue>,
    key: (Seq<char>, Seq<char>),
) -> Option<SettingValue> {
    if drafts.contains_key(key) {
        Some(drafts[key])
    } else if in_flight.contains_key(key) {
        Some(in_flight[key])
    } else {
        None
    }
}

/// The configuration condition a refusal moves the surface to, where it moves
/// it at all.
pub open spec fn condition_after(error: ManagementError) -> Option<ConfigCondition> {
    match error {
        ManagementError::Wire(wire) => match refusal_of(wire.code@) {
            Refusal::ExternalChange => Some(ConfigCondition::ExternalChange),
            Refusal::ConfigUnreadable => Some(ConfigCondition::Unreadable),
            _ => None,
        },
        _ => None,
    }
}

impl Default for State {
    fn default() -> (s: Self)
        ensures
            s.hello is None,
            s.overview is None,
            s.setup is None,
            s.sections@.len() == 0,
            s.descriptors@ == Map::<Seq<char>, SettingsGetResult>::empty(),
            !s.restart.required,
            s.restart.reasons@.len() == 0,
            s.config == ConfigCondition::Clear,
            s.unreadable is None,
            s.service is None,
            s.service_refusal is None,
            s.reachable is None,
            s.jobs@.len() == 0,
            s.detections@.len() == 0,
            s.pane == SettingsPane::Providers,
            s.drafts@ == Map::<(Seq<char>, Seq<char>), SettingValue>::empty(),
            s.in_flight@ == Map::<(Seq<char>, Seq<char>), SettingValue>::empty(),
            s.refusals@ == Map::<(Seq<char>, Seq<char>), Sentence>::empty(),
            s.busy@ == Map::<(Seq<char>, Seq<char>), ()>::empty(),
            !s.open_at_login,
            s.background_pending is None,
    {
        State {
            hello: None,
            overview: None,
            setup: None,
            sections: Vec::new(),
            descriptors: Table::new(),
            restart: RestartState::none(),
            config: ConfigCondition::clear(),
            unreadable: None,
            service: None,
            service_refusal: None,
            reachable: None,
            jobs: Vec::new(),
            detections: Vec::new(),
            pane: SettingsPane::Providers,
            drafts: Table::new(),
            in_flight: Table::new(),
            refusals: Table::new(),
            busy: Table::new(),
            open_at_login: false,
            background_pending: None,
        }
    }
}


/// A copy of a list of strings.
pub fn copy_strings(v: &Vec<String>) -> (r: Vec<String>)
    ensures
        r@ == v@,
{
    let mut r: Vec<String> = Vec::new();
    let mut i: usize = 0;
    while i < v.len()
        invariant
            i <= v@.len(),
            r@ == v@.take(i as int),
        decreases v@.len() - i,
    {
        r.push(v[i].clone());
        proof {
            assert(v@.take(i + 1) =~= v@.take(i as int).push(v@[i as int]));
        }
        i = i + 1;
    }
    proof {
        assert(v@.take(i as int) =~= v@);
    }
    r
}

/// A copy of an optional string.
pub fn copy_text(o: &Option<String>) -> (r: Option<String>)
    ensures
        r == *o,
{
    match o {
        Some(s) => Some(s.clone()),
        None => None,
    }
}

/// Whether two values say the same thing: the same list of strings, or the
/// same scalar.
pub open spec fn same_value(a: SettingValue, b: SettingValue) -> bool {
    match (a, b) {
        (SettingValue::List(x), SettingValue::List(y)) => x@ == y@,
        _ => a == b,
    }
}

/// Whether two optional values say the same thing.
pub open spec fn same_shown(a: Option<SettingValue>, b: Option<SettingValue>) -> bool {
    match (a, b) {
        (Some(x), Some(y)) => same_value(x, y),
        (None, None) => true,
        _ => false,
    }
}

/// Whether two rows say the same thing, field by field.
pub open spec fn same_row(a: SettingsRow, b: SettingsRow) -> bool {
    &&& a.key == b.key
    &&& a.kind == b.kind
    &&& a.label == b.label
    &&& a.footer == b.footer
    &&& same_value(a.value, b.value)
    &&& a.present == b.present
    &&& a.options@ == b.options@
    &&& a.min == b.min
    &&& a.max == b.max
    &&& a.step == b.step
    &&& a.restart == b.restart
    &&& a.read_only == b.read_only
    &&& a.suggestions == b.suggestions
    &&& a.unit == b.unit
    &&& a.format == b.format
}

/// A copy of one row's value.
pub fn copy_value(v: &SettingValue) -> (r: SettingValue)
    ensures
        same_value(r, *v),
{
    match v {
        SettingValue::List(items) => {
            let copied = copy_strings(items);
            proof {
                assert(copied@ =~= items@);
            }
            SettingValue::List(copied)
        },
        SettingValue::Toggle(b) => SettingValue::Toggle(*b),
        SettingValue::Number(n) => SettingValue::Number(*n),
        SettingValue::Text(t) => SettingValue::Text(t.clone()),
        SettingValue::Absent => SettingValue::Absent,
    }
}

/// A copy of one choice.
pub fn copy_option(o: &SettingsOption) -> (r: SettingsOption)
    ensures
        r == *o,
{
    SettingsOption {
        value: o.value.clone(),
        label: o.label.clone(),
        hint: copy_text(&o.hint),
        disabled: o.disabled,
    }
}

/// A copy of one row, showing `value` in place of its own.
pub fn row_showing(row: &SettingsRow, value: SettingValue) -> (r: SettingsRow)
    ensures
        same_row(r, SettingsRow { value: value, ..*row }),
{
    let mut options: Vec<SettingsOption> = Vec::new();
    let mut i: usize = 0;
    while i < row.options.len()
        invariant
            i <= row.options@.len(),
            options@ == row.options@.take(i as int),
        decreases row.options@.len() - i,
    {
        options.push(copy_option(&row.options[i]));
        proof {
            assert(row.options@.take(i + 1) =~= row.options@.take(i as int).push(row.options@[i as int]));
        }
        i = i + 1;
    }
    proof {
        assert(row.options@.take(i as int) =~= row.options@);
        assert(options@ =~= row.options@);
    }
    SettingsRow {
        key: row.key.clone(),
        kind: row.kind,
        label: row.label.clone(),
        footer: copy_text(&row.footer),
        value,
        present: row.present,
        options,
        min: row.min,
        max: row.max,
        step: row.step,
        restart: row.restart,
        read_only: row.read_only,
        suggestions: row.suggestions,
        unit: copy_text(&row.unit),
        format: row.format,
    }
}

/// One row as it is drawn: the value it shows laid over the daemon's own.
pub open spec fn drawn_row(row: SettingsRow, shown: Option<SettingValue>) -> SettingsRow {
    match shown {
        Some(v) => SettingsRow { value: v, ..row },
        None => row,
    }
}

/// The daemon's own value for the first row with one key.
pub open spec fn daemon_value_in(rows: Seq<SettingsRow>, key: Seq<char>) -> Option<SettingValue>
    decreases rows.len(),
{
    if rows.len() == 0 {
        None
    } else if rows[0].key@ == key {
        Some(rows[0].value)
    } else {
        daemon_value_in(rows.drop_first(), key)
    }
}

impl State {
    /// One section's rows, as they should be drawn: the daemon's rows with the
    /// draft and the in-flight value laid over them.
    pub fn rows(&self, section: &str) -> (r: Vec<SettingsRow>)
        ensures
            !self.descriptors@.contains_key(section@) ==> r@.len() == 0,
            self.descriptors@.contains_key(section@) ==> {
                let d = self.descriptors@[section@];
                &&& r@.len() == d.rows@.len()
                &&& forall|i: int|
                    0 <= i < r@.len() ==> same_row(
                        #[trigger] r@[i],
                        drawn_row(
                            d.rows@[i],
                            shown_value(self.drafts@, self.in_flight@, (section@, d.rows@[i].key@)),
                        ),
                    )
            },
    {
        let mut out: Vec<SettingsRow> = Vec::new();
        let name = owned(section);
        let descriptor = match self.descriptors.get(&name) {
            Some(d) => d,
            None => {
                return out;
            },
        };
        let mut i: usize = 0;
        while i < descriptor.rows.len()
            invariant
                i <= descriptor.rows@.len(),
                out@.len() == i,
                name@ == section@,
                self.descriptors@.contains_key(section@),
                *descriptor == self.descriptors@[section@],
                forall|k: int|
                    0 <= k < i ==> same_row(
                        #[trigger] out@[k],
                        drawn_row(
                            descriptor.rows@[k],
                            shown_value(self.drafts@, self.in_flight@, (section@, descriptor.rows@[k].key@)),
                        ),
                    ),
            decreases descriptor.rows@.len() - i,
        {
            let row = &descriptor.rows[i];
            let id: RowId = (owned(section), row.key.clone());
            let drawn = match self.value_of(&id) {
                Some(v) => row_showing(row, copy_value(v)),
                None => row_showing(row, copy_value(&row.value)),
            };
            proof {
                assert(id@ == (section@, descriptor.rows@[i as int].key@));
            }
            out.push(drawn);
            i = i + 1;
        }
        out
    }

    /// The daemon's own value for one row, which is what Escape restores.
    pub fn daemon_value(&self, section: &str, key: &str) -> (r: Option<SettingValue>)
        ensures
            same_shown(
                r,
                if self.descriptors@.contains_key(section@) {
                    daemon_value_in(self.descriptors@[section@].rows@, key@)
                } else {
                    None
                },
            ),
    {
        let name = owned(section);
        let descriptor = match self.descriptors.get(&name) {
            Some(d) => d,
            None => {
                return None;
            },
        };
        let rows = &descriptor.rows;
        let mut i: usize = 0;
        proof {
            assert(rows@.skip(0) =~= rows@);
        }
        while i < rows.len()
            invariant
                i <= rows@.len(),
                daemon_value_in(rows@, key@) == daemon_value_in(rows@.skip(i as int), key@),
                name@ == section@,
                self.descriptors@.contains_key(section@),
                *descriptor == self.descriptors@[section@],
                rows@ == descriptor.rows@,
            decreases rows@.len() - i,
        {
            proof {
                assert(rows@.skip(i as int).drop_first() =~= rows@.skip(i + 1));
                assert(rows@.skip(i as int)[0] == rows@[i as int]);
            }
            if crate::text::str_eq(rows[i].key.as_str(), key) {
                return Some(copy_value(&rows[i].value));
            }
            i = i + 1;
        }
        proof {
            assert(rows@.skip(i as int) =~= Seq::<SettingsRow>::empty());
        }
        None
    }

    /// The draft for one row, where there is one.
    pub fn draft(&self, section: &str, key: &str) -> (r: Option<SettingValue>)
        ensures
            same_shown(
                r,
                if self.drafts@.contains_key((section@, key@)) {
                    Some(self.drafts@[(section@, key@)])
                } else {
                    None
                },
            ),
    {
        let id: RowId = (owned(section), owned(key));
        match self.drafts.get(&id) {
            Some(v) => Some(copy_value(v)),
            None => None,
        }
    }

    /// Where this home's secrets live, as the engine published it: `None`
    /// when it published nothing this build knows, which is not a claim that
    /// there is no store.
    pub fn secret_store_kind(&self) -> (r: Option<StoreKind>)
        ensures
            r == match self.setup {
                Some(setup) => match setup.secrets {
                    Some(secrets) => store_kind_of(secrets.store@),
                    None => None,
                },
                None => None,
            },
    {
        match &self.setup {
            Some(setup) => match &setup.secrets {
                Some(secrets) => StoreKind::of(secrets.store.as_str()),
                None => None,
            },
            None => None,
        }
    }

    /// The pane Settings is showing.
    pub fn pane(&self) -> (p: SettingsPane)
        ensures
            p == self.pane,
    {
        self.pane
    }

    /// Whether the unit is enabled, as the switch shows it: the optimistic
    /// position while a mutation runs, and the command line's answer otherwise.
    pub fn background_enabled(&self) -> (r: bool)
        ensures
            r == match self.background_pending {
                Some(pending) => pending,
                None => match self.service {
                    Some(status) => status.enabled,
                    None => false,
                },
            },
    {
        match self.background_pending {
            Some(pending) => pending,
            None => match &self.service {
                Some(status) => status.enabled,
                None => false,
            },
        }
    }

    /// The value one row should show: a draft first, then an unconfirmed
    /// write; `None` where the daemon's own value stands.
    pub fn value_of(&self, id: &RowId) -> (r: Option<&SettingValue>)
        ensures
            match r {
                Some(v) => shown_value(self.drafts@, self.in_flight@, id@) == Some(*v),
                None => shown_value(self.drafts@, self.in_flight@, id@) is None,
            },
    {
        match self.drafts.get(id) {
            Some(v) => Some(v),
            None => self.in_flight.get(id),
        }
    }

    /// The sentence under one row, where there is one.
    pub fn refusal(&self, id: &RowId) -> (r: Option<&Sentence>)
        ensures
            match r {
                Some(s) => self.refusals@.contains_key(id@) && *s == self.refusals@[id@],
                None => !self.refusals@.contains_key(id@),
            },
    {
        self.refusals.get(id)
    }

    /// Whether one row has a write outstanding.
    pub fn is_busy(&self, id: &RowId) -> (r: bool)
        ensures
            r == self.busy@.contains_key(id@),
    {
        self.busy.contains(id)
    }

    /// One detection, where it has been taken.
    ///
    /// Absent is not false: a target nobody has asked about and a target that
    /// answered no are different answers.
    pub fn detection(&self, target: DetectTarget) -> (r: Option<&DetectResult>)
        ensures
            match r {
                Some(d) => exists|i: int|
                    0 <= i < self.detections@.len() && self.detections@[i] == *d && d.target
                        == target && forall|j: int|
                        0 <= j < i ==> (#[trigger] self.detections@[j]).target != target,
                None => forall|i: int|
                    0 <= i < self.detections@.len() ==> (#[trigger] self.detections@[i]).target
                        != target,
            },
    {
        let mut i: usize = 0;
        while i < self.detections.len()
            invariant
                i <= self.detections@.len(),
                forall|j: int| 0 <= j < i ==> (#[trigger] self.detections@[j]).target != target,
            decreases self.detections@.len() - i,
        {
            if self.detections[i].target == target {
                return Some(&self.detections[i]);
            }
            i = i + 1;
        }
        None
    }

    /// The sections that render under one pane, in published order.
    pub fn sections_of(&self, pane: SettingsPane) -> (r: Vec<&SettingsSection>)
        ensures
            r@.map_values(|s: &SettingsSection| *s) == self.sections@.filter(
                |s: SettingsSection| s.pane == pane,
            ),
    {
        let ghost f = |s: SettingsSection| s.pane == pane;
        let mut out: Vec<&SettingsSection> = Vec::new();
        let mut i: usize = 0;
        while i < self.sections.len()
            invariant
                i <= self.sections@.len(),
                f == (|s: SettingsSection| s.pane == pane),
                out@.map_values(|s: &SettingsSection| *s) == self.sections@.take(i as int).filter(f),
            decreases self.sections@.len() - i,
        {
            let ghost before = out@;
            proof {
                self.sections@.take(i as int).lemma_filter_push(self.sections@[i as int], f);
                assert(self.sections@.take(i + 1) =~= self.sections@.take(i as int).push(self.sections@[i as int]));
            }
            if self.sections[i].pane == pane {
                out.push(&self.sections[i]);
                proof {
                    assert(out@.map_values(|s: &SettingsSection| *s) =~= before.map_values(
                        |s: &SettingsSection| *s,
                    ).push(self.sections@[i as int]));
                }
            }
            i = i + 1;
        }
        proof {
            assert(self.sections@.take(i as int) =~= self.sections@);
        }
        out
    }

    /// How many sections render under one pane.
    pub fn count_sections_of(&self, pane: SettingsPane) -> (n: usize)
        ensures
            n == self.sections@.filter(|s: SettingsSection| s.pane == pane).len(),
    {
        let mut n: usize = 0;
        let mut i: usize = 0;
        while i < self.sections.len()
            invariant
                i <= self.sections@.len(),
                n == self.sections@.take(i as int).filter(|s: SettingsSection| s.pane == pane).len(),
                n <= i,
            decreases self.sections@.len() - i,
        {
            proof {
                assert(self.sections@.take(i + 1).drop_last() =~= self.sections@.take(i as int));
                broadcast use vstd::seq_lib::group_filter_ensures;
                let f = |s: SettingsSection| s.pane == pane;
                self.sections@.take(i as int).lemma_filter_push(self.sections@[i as int], f);
                assert(self.sections@.take(i + 1) =~= self.sections@.take(i as int).push(self.sections@[i as int]));
            }
            if self.sections[i].pane == pane {
                n = n + 1;
            }
            i = i + 1;
        }
        proof {
            assert(self.sections@.take(i as int) =~= self.sections@);
        }
        n
    }

    // ---- Reads landing --------------------------------------------------

    /// `overview.get` answered. A result says the daemon is answering; a
    /// stopped daemon says it is not and takes the overview away; a refusal or
    /// a failed exchange claims nothing.
    pub fn overview_landed(
        &mut self,
        result: Result<OverviewResult, ManagementError>,
        hello: Option<HelloResult>,
    )
        ensures
            same_edits(*final(self), *old(self)),
            final(self).setup == old(self).setup,
            final(self).pane == old(self).pane,
            match result {
                Ok(overview) => final(self).reachable == Some(true) && final(self).overview
                    == Some(overview) && final(self).hello == hello,
                Err(error) => if error matches ManagementError::Transport(
                    TransportError::NotRunning,
                ) {
                    final(self).reachable == Some(false) && final(self).overview is None
                        && final(self).hello == old(self).hello
                } else {
                    final(self).reachable == old(self).reachable && final(self).overview == old(self).overview && final(self).hello == old(self).hello
                },
            },
    {
        match result {
            Ok(overview) => {
                self.reachable = Some(true);
                self.hello = hello;
                self.overview = Some(overview);
            },
            Err(error) => {
                if is_stopped(&error) {
                    self.reachable = Some(false);
                    self.overview = None;
                }
            },
        }
    }

    /// `setup.state.get` answered: readiness, the restart state and the
    /// configuration state, all in one read.
    pub fn setup_landed(&mut self, setup: SetupStateResult)
        ensures
            same_edits(*final(self), *old(self)),
            final(self).setup == Some(setup),
            restart_view(final(self).restart) == restart_view(setup.restart),
            final(self).config == condition_of(setup.coexistence.config_state),
            setup.coexistence.config_state != ConfigState::ConfigUnreadable ==> final(self).unreadable is None,
            setup.coexistence.config_state == ConfigState::ConfigUnreadable ==> final(self).unreadable == old(self).unreadable,
            final(self).overview == old(self).overview,
            final(self).reachable == old(self).reachable,
            final(self).pane == old(self).pane,
    {
        self.restart = setup.restart.copied();
        self.config = ConfigCondition::of(setup.coexistence.config_state);
        if setup.coexistence.config_state != ConfigState::ConfigUnreadable {
            self.unreadable = None;
        }
        self.setup = Some(setup);
    }

    /// `settings.sections` answered: the one inventory the pane list and the
    /// search index are built from.
    pub fn sections_landed(&mut self, sections: Vec<SettingsSection>)
        ensures
            same_edits(*final(self), *old(self)),
            final(self).sections == sections,
            final(self).descriptors@ == old(self).descriptors@,
            final(self).pane == old(self).pane,
    {
        self.sections = sections;
    }

    /// `setup.detect` answered: each answer replaces whatever its target said
    /// before, and targets it did not answer for keep theirs.
    pub fn detections_landed(&mut self, results: Vec<DetectResult>)
        ensures
            same_edits(*final(self), *old(self)),
            forall|d: DetectResult|
                #[trigger] final(self).detections@.contains(d) ==> results@.contains(d) || (old(self).detections@.contains(d) && unanswered(results@, d.target)),
            forall|d: DetectResult|
                #[trigger] old(self).detections@.contains(d) && unanswered(results@, d.target)
                    ==> final(self).detections@.contains(d),
            forall|i: int|
                0 <= i < results@.len() && unanswered(results@.skip(i + 1), results@[i].target)
                    ==> final(self).detections@.contains(#[trigger] results@[i]),
            old_unique(old(self).detections@) ==> old_unique(final(self).detections@),
    {
        let ghost start = self.detections@;
        for answer in it: results.into_iter()
            invariant
                it.seq() == results@,
                same_edits(*self, *old(self)),
                start == old(self).detections@,
                forall|d: DetectResult|
                    #[trigger] self.detections@.contains(d) ==> results@.take(
                        it.index() as int,
                    ).contains(d) || (start.contains(d) && unanswered(
                        results@.take(it.index() as int),
                        d.target,
                    )),
                forall|d: DetectResult|
                    #[trigger] start.contains(d) && unanswered(
                        results@.take(it.index() as int),
                        d.target,
                    ) ==> self.detections@.contains(d),
                forall|i: int|
                    0 <= i < it.index() && unanswered(
                        results@.take(it.index() as int).skip(i + 1),
                        results@[i].target,
                    ) ==> self.detections@.contains(#[trigger] results@[i]),
                old_unique(start) ==> old_unique(self.detections@),
        {
            let ghost n = it.index() as int;
            let ghost before = self.detections@;
            proof {
                assert(results@.take(n + 1) =~= results@.take(n).push(answer));
            }
            self.replace_detection(answer);
            proof {
                let now = results@.take(n + 1);
                assert forall|d: DetectResult| #[trigger] self.detections@.contains(d) implies now.contains(d) || (start.contains(d) && unanswered(now, d.target)) by {
                    if d == answer {
                        assert(now[n] == answer);
                    } else {
                        assert(before.contains(d) && d.target != answer.target);
                        if results@.take(n).contains(d) {
                            let k = choose|k: int| 0 <= k < n && results@.take(n)[k] == d;
                            assert(now[k] == d);
                        }
                    }
                }
                assert forall|i: int| 0 <= i < n + 1 && unanswered(now.skip(i + 1), results@[i].target)
                    implies self.detections@.contains(#[trigger] results@[i]) by {
                    if i == n {
                        assert(results@[i] == answer);
                    } else {
                        assert(now.skip(i + 1)[n - i - 1] == answer);
                        assert(answer.target != results@[i].target);
                        assert forall|k: int| 0 <= k < results@.take(n).skip(i + 1).len() implies
                            (#[trigger] results@.take(n).skip(i + 1)[k]).target != results@[i].target by {
                            assert(results@.take(n).skip(i + 1)[k] == now.skip(i + 1)[k]);
                        }
                        assert(before.contains(results@[i]));
                    }
                }
            }
        }
        proof {
            assert(results@.take(results@.len() as int) =~= results@);
            assert forall|i: int| 0 <= i < results@.len() && unanswered(results@.skip(i + 1), results@[i].target)
                implies self.detections@.contains(#[trigger] results@[i]) by {
                assert(results@.take(results@.len() as int).skip(i + 1) =~= results@.skip(i + 1));
            }
        }
    }

    /// One answer in place of whatever its target said before.
    fn replace_detection(&mut self, answer: DetectResult)
        ensures
            same_edits(*final(self), *old(self)),
            final(self).detections@.contains(answer),
            forall|d: DetectResult|
                old(self).detections@.contains(d) && d.target != answer.target ==> final(self).detections@.contains(d),
            forall|d: DetectResult|
                #[trigger] final(self).detections@.contains(d) ==> d == answer || (old(self).detections@.contains(d) && d.target != answer.target),
            old_unique(old(self).detections@) ==> old_unique(final(self).detections@),
    {
        self.forget_detection(answer.target);
        let ghost mid = self.detections@;
        self.detections.push(answer);
        proof {
            broadcast use vstd::seq_lib::group_seq_properties;
            assert(self.detections@ == mid.push(answer));
            assert(self.detections@[mid.len() as int] == answer);
            assert forall|d: DetectResult| #[trigger] self.detections@.contains(d) implies d == answer
                || (old(self).detections@.contains(d) && d.target != answer.target) by {
                let k = choose|k: int| 0 <= k < self.detections@.len() && self.detections@[k] == d;
                if k < mid.len() {
                    assert(mid[k] == d);
                    assert(mid.contains(d));
                }
            }
            assert forall|d: DetectResult| old(self).detections@.contains(d) && d.target != answer.target
                implies self.detections@.contains(d) by {
                assert(mid.contains(d));
                let k = choose|k: int| 0 <= k < mid.len() && mid[k] == d;
                assert(self.detections@[k] == d);
            }
            if old_unique(old(self).detections@) {
                assert forall|j1: int, j2: int| 0 <= j1 < j2 < self.detections@.len() implies
                    self.detections@[j1].target != self.detections@[j2].target by {
                    if j2 == mid.len() {
                        assert(mid.contains(mid[j1]));
                        assert(self.detections@[j1] == mid[j1]);
                    } else {
                        assert(self.detections@[j1] == mid[j1] && self.detections@[j2] == mid[j2]);
                    }
                }
            }
        }
    }

    /// Forget what one target said.
    fn forget_detection(&mut self, target: DetectTarget)
        ensures
            same_edits(*final(self), *old(self)),
            forall|d: DetectResult|
                #[trigger] final(self).detections@.contains(d) <==> (old(self).detections@.contains(d) && d.target != target),
            old_unique(old(self).detections@) ==> old_unique(final(self).detections@),
            final(self).pane == old(self).pane,
    {
        let mut held: Vec<DetectResult> = Vec::new();
        std::mem::swap(&mut held, &mut self.detections);
        let ghost s = held@;
        let mut kept: Vec<DetectResult> = Vec::new();
        for d in it: held.into_iter()
            invariant
                it.seq() == s,
                kept@ == s.take(it.index() as int).filter(|e: DetectResult| e.target != target),
        {
            proof {
                assert(s.take(it.index() + 1).drop_last() =~= s.take(it.index() as int));
            }
            proof {
                s.take(it.index() as int).lemma_filter_push(d, |e: DetectResult| e.target != target);
                assert(s.take(it.index() + 1) =~= s.take(it.index() as int).push(d));
            }
            if d.target != target {
                kept.push(d);
            }
        }
        proof {
            assert(s.take(s.len() as int) =~= s);
            let f = |e: DetectResult| e.target != target;
            assert forall|d: DetectResult| #[trigger] kept@.contains(d) <==> (s.contains(d) && d.target != target) by {
                if kept@.contains(d) {
                    s.lemma_filter_contains_rev(f, d);
                    let k = choose|k: int| 0 <= k < kept@.len() && kept@[k] == d;
                    s.lemma_filter_pred(f, k);
                }
                if s.contains(d) && d.target != target {
                    let k = choose|k: int| 0 <= k < s.len() && s[k] == d;
                    s.lemma_filter_contains(f, k);
                }
            }
        }
        self.detections = kept;
        proof {
            if old_unique(s) {
                filter_keeps_unique(s, target);
            }
        }
    }

    /// `setup.detect` refused. A refused probe is not a negative answer, and
    /// nothing is claimed from one: the targets asked about say nothing now.
    pub fn detections_refused(&mut self, targets: &[DetectTarget])
        ensures
            same_edits(*final(self), *old(self)),
            forall|d: DetectResult|
                #[trigger] final(self).detections@.contains(d) <==> (old(self).detections@.contains(d) && !targets@.contains(d.target)),
    {
        let mut i: usize = 0;
        while i < targets.len()
            invariant
                i <= targets@.len(),
                same_edits(*self, *old(self)),
                forall|d: DetectResult|
                    #[trigger] self.detections@.contains(d) <==> (old(self).detections@.contains(d)
                        && !targets@.take(i as int).contains(d.target)),
            decreases targets@.len() - i,
        {
            proof {
                broadcast use vstd::seq_lib::group_seq_properties;
                assert(targets@.take(i + 1) =~= targets@.take(i as int).push(targets@[i as int]));
            }
            self.forget_detection(targets[i]);
            i = i + 1;
        }
        proof {
            assert(targets@.take(targets@.len() as int) =~= targets@);
        }
    }

    /// `settings.get` answered for one section. The accepted re-read is what
    /// ends an optimistic value: the rows it carries are the daemon's own
    /// answer for them. A refusal moves the whole surface where it is about
    /// the settings file.
    pub fn section_landed(
        &mut self,
        section: &str,
        result: Result<SettingsGetResult, ManagementError>,
    )
        ensures
            final(self).drafts@ == old(self).drafts@,
            final(self).busy@ == old(self).busy@,
            final(self).refusals@ == old(self).refusals@,
            final(self).pane == old(self).pane,
            match result {
                Ok(descriptor) => {
                    &&& final(self).in_flight@ == old(self).in_flight@.restrict(
                        old(self).in_flight@.dom().filter(
                            |k: (Seq<char>, Seq<char>)| !in_section(k, section@),
                        ),
                    )
                    &&& final(self).descriptors@ == old(self).descriptors@.insert(
                        section@,
                        descriptor,
                    )
                    &&& final(self).config == old(self).config
                },
                Err(error) => {
                    &&& final(self).in_flight@ == old(self).in_flight@
                    &&& final(self).descriptors@ == old(self).descriptors@
                    &&& configuration_refusal_recorded(*old(self), *final(self), error)
                },
            },
    {
        match result {
            Ok(descriptor) => {
                self.in_flight.forget_section(section);
                self.descriptors.insert(owned(section), descriptor);
            },
            Err(error) => {
                self.record_configuration_refusal(&error);
            },
        }
    }

    /// `fermix service status --json` answered.
    pub fn service_landed(&mut self, result: Result<ServiceStatus, ServiceError>)
        ensures
            same_edits(*final(self), *old(self)),
            final(self).pane == old(self).pane,
            match result {
                Ok(status) => final(self).service == Some(status)
                    && final(self).service_refusal is None,
                Err(error) => final(self).service == old(self).service && (final(self).service_refusal matches Some(s) && sentence_view(s) == service_sentence_of(
                    error,
                )),
            },
    {
        match result {
            Ok(status) => {
                self.service = Some(status);
                self.service_refusal = None;
            },
            Err(error) => {
                self.service_refusal = Some(Sentence::of_service(&error));
            },
        }
    }

    // ---- Edits ----------------------------------------------------------

    /// What a person typed and has not committed. It survives leaving the
    /// pane, a poll landing underneath it, and the row being redrawn.
    pub fn set_draft(&mut self, id: RowId, value: SettingValue)
        ensures
            final(self).drafts@ == old(self).drafts@.insert(id@, value),
            final(self).in_flight@ == old(self).in_flight@,
            final(self).refusals@ == old(self).refusals@,
            final(self).busy@ == old(self).busy@,
    {
        self.drafts.insert(id, value);
    }

    /// Forget a draft without writing it, which is what Escape does. Says
    /// whether there was one.
    pub fn discard_draft(&mut self, id: &RowId) -> (had: bool)
        ensures
            final(self).drafts@ == old(self).drafts@.remove(id@),
            had == old(self).drafts@.contains_key(id@),
            final(self).in_flight@ == old(self).in_flight@,
            final(self).refusals@ == old(self).refusals@,
            final(self).busy@ == old(self).busy@,
    {
        self.drafts.remove(id)
    }

    /// A write of one row goes out: the draft becomes the value in flight, the
    /// old refusal goes, and the row is busy until the answer lands.
    pub fn apply_begun(&mut self, id: RowId, value: SettingValue)
        ensures
            final(self).drafts@ == old(self).drafts@.remove(id@),
            final(self).refusals@ == old(self).refusals@.remove(id@),
            final(self).in_flight@ == old(self).in_flight@.insert(id@, value),
            final(self).busy@ == old(self).busy@.insert(id@, ()),
    {
        self.drafts.remove(&id);
        self.refusals.remove(&id);
        let busy_id = (id.0.clone(), id.1.clone());
        self.busy.insert(busy_id, ());
        self.in_flight.insert(id, value);
    }

    /// The answer to one row's write. `None` is a connection that moved while
    /// the write was out: nothing is claimed about whether it landed. An
    /// accepted write takes the daemon's restart state; the re-read that
    /// follows it is what releases the value in flight. A refusal puts the
    /// daemon's value back and keeps its sentence under the row.
    pub fn apply_landed(
        &mut self,
        id: &RowId,
        outcome: Option<Result<SettingsApplyResult, ManagementError>>,
    )
        ensures
            final(self).busy@ == old(self).busy@.remove(id@),
            final(self).drafts@ == old(self).drafts@,
            match outcome {
                None => final(self).in_flight@ == old(self).in_flight@.remove(id@)
                    && final(self).refusals@ == old(self).refusals@,
                Some(Ok(result)) => final(self).in_flight@ == old(self).in_flight@
                    && final(self).refusals@ == old(self).refusals@ && restart_view(
                    final(self).restart,
                ) == restart_view(result.restart),
                Some(Err(error)) => {
                    &&& final(self).in_flight@ == old(self).in_flight@.remove(id@)
                    &&& final(self).refusals@.dom() == old(self).refusals@.dom().insert(id@)
                    &&& sentence_view(final(self).refusals@[id@]) == sentence_of(error)
                    &&& forall|k: (Seq<char>, Seq<char>)|
                        k != id@ && #[trigger] old(self).refusals@.contains_key(k)
                            ==> final(self).refusals@[k] == old(self).refusals@[k]
                    &&& condition_recorded(old(self).config, final(self).config, error)
                },
            },
    {
        self.busy.remove(id);
        match outcome {
            None => {
                self.in_flight.remove(id);
            },
            Some(Ok(result)) => {
                self.restart = result.restart;
            },
            Some(Err(error)) => {
                self.in_flight.remove(id);
                let key = (id.0.clone(), id.1.clone());
                self.refusals.insert(key, Sentence::of(&error));
                self.record_configuration_refusal(&error);
            },
        }
    }

    /// Work past the bounds refused one row: the application's own sentence
    /// goes under it.
    pub fn record_row_refusal(&mut self, id: RowId, sentence: Sentence)
        ensures
            final(self).refusals@ == old(self).refusals@.insert(id@, sentence),
            final(self).drafts@ == old(self).drafts@,
            final(self).in_flight@ == old(self).in_flight@,
            final(self).busy@ == old(self).busy@,
    {
        self.refusals.insert(id, sentence);
    }

    /// `settings.reload` answered. The file was read again, so every row
    /// refusal and every cached descriptor is stale.
    pub fn reload_landed(&mut self, result: Result<SettingsReloadResult, ManagementError>)
        ensures
            final(self).drafts@ == old(self).drafts@,
            final(self).in_flight@ == old(self).in_flight@,
            final(self).busy@ == old(self).busy@,
            match result {
                Ok(reloaded) => {
                    &&& restart_view(final(self).restart) == restart_view(reloaded.restart)
                    &&& final(self).config == condition_of(reloaded.config_state)
                    &&& final(self).refusals@ == Map::<(Seq<char>, Seq<char>), Sentence>::empty()
                    &&& final(self).descriptors@ == Map::<Seq<char>, SettingsGetResult>::empty()
                    &&& (final(self).config != ConfigCondition::Unreadable ==> final(self).unreadable is None)
                    &&& (final(self).config == ConfigCondition::Unreadable ==> final(self).unreadable == old(self).unreadable)
                },
                Err(error) => {
                    &&& final(self).refusals@ == old(self).refusals@
                    &&& final(self).descriptors@ == old(self).descriptors@
                    &&& configuration_refusal_recorded(*old(self), *final(self), error)
                },
            },
    {
        match result {
            Ok(reloaded) => {
                self.restart = reloaded.restart;
                self.config = ConfigCondition::of(reloaded.config_state);
                self.refusals.clear();
                if self.config != ConfigCondition::Unreadable {
                    self.unreadable = None;
                }
                self.descriptors.clear();
            },
            Err(error) => {
                self.record_configuration_refusal(&error);
            },
        }
    }

    /// A secret write goes out: the row is busy until the answer lands.
    pub fn secret_begun(&mut self, id: RowId)
        ensures
            final(self).busy@ == old(self).busy@.insert(id@, ()),
            final(self).drafts@ == old(self).drafts@,
            final(self).in_flight@ == old(self).in_flight@,
            final(self).refusals@ == old(self).refusals@,
    {
        self.busy.insert(id, ());
    }

    /// The answer to one secret write, and the sentence where it was refused.
    pub fn secret_landed(
        &mut self,
        id: &RowId,
        result: Option<Result<SecretResult, ManagementError>>,
    )
        ensures
            final(self).busy@ == old(self).busy@.remove(id@),
            final(self).drafts@ == old(self).drafts@,
            final(self).in_flight@ == old(self).in_flight@,
            match result {
                None => final(self).refusals@ == old(self).refusals@,
                Some(Ok(answer)) => final(self).refusals@ == old(self).refusals@.remove(id@)
                    && restart_view(final(self).restart) == restart_view(answer.restart),
                Some(Err(error)) => {
                    &&& final(self).refusals@.dom() == old(self).refusals@.dom().insert(id@)
                    &&& sentence_view(final(self).refusals@[id@]) == sentence_of(error)
                    &&& forall|k: (Seq<char>, Seq<char>)|
                        k != id@ && #[trigger] old(self).refusals@.contains_key(k)
                            ==> final(self).refusals@[k] == old(self).refusals@[k]
                    &&& condition_recorded(old(self).config, final(self).config, error)
                },
            },
    {
        self.busy.remove(id);
        match result {
            None => {},
            Some(Ok(answer)) => {
                self.restart = answer.restart;
                self.refusals.remove(id);
            },
            Some(Err(error)) => {
                let key = (id.0.clone(), id.1.clone());
                self.refusals.insert(key, Sentence::of(&error));
                self.record_configuration_refusal(&error);
            },
        }
    }

    /// The background switch was moved: it holds that position until the
    /// command line answers.
    pub fn background_begun(&mut self, enabled: bool)
        ensures
            final(self).background_pending == Some(enabled),
            same_edits(*final(self), *old(self)),
            final(self).service == old(self).service,
    {
        self.background_pending = Some(enabled);
    }

    /// The command line answered the switch; the status read that follows
    /// says where it stands.
    pub fn background_finished(&mut self)
        ensures
            final(self).background_pending is None,
            same_edits(*final(self), *old(self)),
            final(self).service == old(self).service,
    {
        self.background_pending = None;
    }

    /// Show one pane, and say whether that moved anything. The selection is
    /// part of the model, so leaving Settings and coming back lands where it
    /// was left.
    pub fn select_pane(&mut self, pane: SettingsPane) -> (moved: bool)
        ensures
            final(self).pane == pane,
            moved == (old(self).pane != pane),
            same_edits(*final(self), *old(self)),
    {
        if self.pane == pane {
            return false;
        }
        self.pane = pane;
        true
    }

    /// A refusal that is about the settings file rather than about one row.
    /// Both kinds carry the daemon's own sentence; this is the half that
    /// moves the whole surface.
    pub fn record_configuration_refusal(&mut self, error: &ManagementError)
        ensures
            configuration_refusal_recorded(*old(self), *final(self), *error),
            same_edits(*final(self), *old(self)),
            final(self).descriptors@ == old(self).descriptors@,
            final(self).pane == old(self).pane,
    {
        if let ManagementError::Wire(wire) = error {
            match Refusal::of(wire) {
                Refusal::ExternalChange => {
                    self.config = ConfigCondition::ExternalChange;
                },
                Refusal::ConfigUnreadable => {
                    self.config = ConfigCondition::Unreadable;
                    self.unreadable = Some(Sentence::of(error));
                },
                _ => {},
            }
        }
    }
}

/// Whether no answer in a list is for one target.
pub open spec fn unanswered(results: Seq<DetectResult>, target: DetectTarget) -> bool {
    forall|i: int| 0 <= i < results.len() ==> (#[trigger] results[i]).target != target
}

/// Whether no two detections answer for the same target.
pub open spec fn old_unique(s: Seq<DetectResult>) -> bool {
    forall|j1: int, j2: int|
        #![trigger s[j1], s[j2]]
        0 <= j1 < j2 < s.len() ==> s[j1].target != s[j2].target
}

proof fn filter_keeps_unique(s: Seq<DetectResult>, target: DetectTarget)
    requires
        old_unique(s),
    ensures
        old_unique(s.filter(|e: DetectResult| e.target != target)),
    decreases s.len(),
{
    let f = |e: DetectResult| e.target != target;
    if s.len() > 0 {
        filter_keeps_unique(s.drop_last(), target);
        let inner = s.drop_last().filter(f);
        s.drop_last().lemma_filter_push(s.last(), f);
        assert(s.drop_last().push(s.last()) =~= s);
        assert(s.filter(f) == if f(s.last()) { inner.push(s.last()) } else { inner });
        assert forall|j1: int, j2: int| 0 <= j1 < j2 < s.drop_last().len() implies
            s.drop_last()[j1].target != s.drop_last()[j2].target by {
            assert(s.drop_last()[j1] == s[j1] && s.drop_last()[j2] == s[j2]);
        }
        if f(s.last()) {
            assert forall|j: int| 0 <= j < inner.len() implies inner[j].target != s.last().target by {
                s.drop_last().lemma_filter_contains_rev(f, inner[j]);
                let k = choose|k: int| 0 <= k < s.drop_last().len() && s.drop_last()[k] == inner[j];
                assert(s[k] == inner[j]);
                assert(s[k].target != s[s.len() - 1].target);
            }
        }
    }
}

/// What a refusal about the settings file does to the configuration
/// condition: an external change and an unreadable file move it, anything
/// else leaves it.
pub open spec fn condition_recorded(
    before: ConfigCondition,
    after: ConfigCondition,
    error: ManagementError,
) -> bool {
    match condition_after(error) {
        Some(c) => after == c,
        None => after == before,
    }
}

/// What recording a refusal about the settings file does to the state: the
/// condition moves as [`condition_recorded`] says, and an unreadable file
/// keeps the parser's own sentence.
pub open spec fn configuration_refusal_recorded(
    before: State,
    after: State,
    error: ManagementError,
) -> bool {
    &&& condition_recorded(before.config, after.config, error)
    &&& match condition_after(error) {
        Some(ConfigCondition::Unreadable) => after.unreadable matches Some(s) && sentence_view(s)
            == sentence_of(error),
        _ => after.unreadable == before.unreadable,
    }
}

/// A refresh never disturbs an edit: whatever a read brings back, the drafts,
/// the values in flight, the refusals and the busy rows are as they were, and
/// the value a row shows is the one it showed before.
pub proof fn a_refresh_never_disturbs_an_edit(before: State, after: State, id: RowId)
    requires
        same_edits(after, before),
    ensures
        shown_value(after.drafts@, after.in_flight@, id@) == shown_value(
            before.drafts@,
            before.in_flight@,
            id@,
        ),
{
}

/// A draft is what a row shows, whatever else is waiting for it: after a
/// draft is set, the row shows that draft.
pub proof fn a_draft_wins_over_a_value_in_flight(
    drafts: Map<(Seq<char>, Seq<char>), SettingValue>,
    in_flight: Map<(Seq<char>, Seq<char>), SettingValue>,
    id: (Seq<char>, Seq<char>),
    value: SettingValue,
)
    ensures
        shown_value(drafts.insert(id, value), in_flight, id) == Some(value),
{
}

/// An accepted re-read of a section releases every value in flight for that
/// section, and no other: a row of the section shows its draft if it has
/// one and the daemon's own value otherwise.
pub proof fn an_accepted_reread_releases_its_section(
    drafts: Map<(Seq<char>, Seq<char>), SettingValue>,
    in_flight: Map<(Seq<char>, Seq<char>), SettingValue>,
    section: Seq<char>,
    id: (Seq<char>, Seq<char>),
)
    ensures
        ({
            let released = in_flight.restrict(
                in_flight.dom().filter(|k: (Seq<char>, Seq<char>)| !in_section(k, section)),
            );
            &&& (id.0 == section && !drafts.contains_key(id) ==> shown_value(
                drafts,
                released,
                id,
            ) is None)
            &&& (id.0 != section ==> shown_value(drafts, released, id) == shown_value(
                drafts,
                in_flight,
                id,
            ))
        }),
{
}


/// Escape undoes an edit: a draft set on a row that had none and then
/// discarded leaves every draft as it was, and the row shows again what it
/// showed before the edit.
pub proof fn discarding_a_draft_undoes_it(
    drafts: Map<(Seq<char>, Seq<char>), SettingValue>,
    in_flight: Map<(Seq<char>, Seq<char>), SettingValue>,
    id: (Seq<char>, Seq<char>),
    value: SettingValue,
)
    requires
        !drafts.contains_key(id),
    ensures
        drafts.insert(id, value).remove(id) == drafts,
        shown_value(drafts.insert(id, value).remove(id), in_flight, id) == shown_value(
            drafts,
            in_flight,
            id,
        ),
{
    assert(drafts.insert(id, value).remove(id) =~= drafts);
}

} // verus!
