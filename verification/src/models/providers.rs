//! Providers, as data.
//!
//! One row per provider the daemon publishes, each carrying where it stands and
//! the one thing to do about it. Every fact is the daemon's: the label, the
//! account, the token state, the models and the refusals. What this file owns
//! is the rendering of two closed vocabularies the wire publishes as booleans
//! and atoms (the six status words and the one verb a row leads with) and
//! which method each verb runs.
//!
//! The verb is the part a detection moves and nothing else does. A machine with
//! Anthropic's own coding command line signed in offers to adopt that sign-in
//! where one without it shows "Add setup token"; they are the same row, and
//! `auth_modes` alone is never the signal: Anthropic publishes `oauth` there
//! and the daemon has no browser flow for it.

use vstd::prelude::*;
use crate::copy::{fill, filled, pair_views, renders, text, Key};
use crate::management::errors::{detail_at, detail_in};
use crate::management::types::{
    DetectTarget, Json, JobStatus, JobView, SettingsRow, SettingsRowKind, SetupProviderRow,
};
use crate::management::vocabulary::{
    auth_mode_of, auth_mode_word, opt_view, token_state_of, AuthMode, TokenState, SETUP_TOKEN,
};
use crate::models::jobs::{phase_word, phase_word_of};
use crate::models::settings_model::State;
use crate::text::{concat, decimal, decimal_string, owned, str_eq};

verus! {

/// The one verb a provider row leads with.
#[derive(Debug, Clone, Copy, PartialEq, Eq, Structural)]
pub enum ProviderVerb {
    /// A browser hop the daemon will actually start.
    SignIn,
    /// Adopt the sign-in Anthropic's own coding command line already holds.
    ImportClaudeCode,
    /// Adopt the sign-in the Codex command line already holds.
    ImportCodexCli,
    /// Anthropic's other door: a long-lived subscription credential.
    AddSetupToken,
    /// A key the operator types.
    AddKey,
}

/// Whether a verb writes a secret.
pub open spec fn verb_writes_secret(verb: ProviderVerb) -> bool {
    verb == ProviderVerb::AddKey || verb == ProviderVerb::AddSetupToken
}

impl ProviderVerb {
    /// The word on the button.
    pub fn key(self) -> (k: Key)
        ensures
            k == match self {
                ProviderVerb::SignIn => Key::ProviderSignIn,
                ProviderVerb::ImportClaudeCode => Key::ProviderImportClaudeCode,
                ProviderVerb::ImportCodexCli => Key::ProviderImportCodexCli,
                ProviderVerb::AddSetupToken => Key::ProviderAddSetupToken,
                ProviderVerb::AddKey => Key::ProviderAddKey,
            },
    {
        match self {
            ProviderVerb::SignIn => Key::ProviderSignIn,
            ProviderVerb::ImportClaudeCode => Key::ProviderImportClaudeCode,
            ProviderVerb::ImportCodexCli => Key::ProviderImportCodexCli,
            ProviderVerb::AddSetupToken => Key::ProviderAddSetupToken,
            ProviderVerb::AddKey => Key::ProviderAddKey,
        }
    }

    /// Whether this verb writes a secret, which it can only do into a slot the
    /// daemon named.
    pub fn writes_secret(self) -> (r: bool)
        ensures
            r == verb_writes_secret(self),
    {
        match self {
            ProviderVerb::AddKey | ProviderVerb::AddSetupToken => true,
            _ => false,
        }
    }
}

/// Where a provider stands, in the six words this door owns.
///
/// The wire carries booleans and a token atom rather than a word, and a word
/// has to exist somewhere: this is the same rule the Doctor statuses and the
/// job phases follow.
#[derive(Debug, Clone, Copy, PartialEq, Eq, Structural)]
pub enum ProviderStanding {
    Primary,
    PrimaryNotConnected,
    Connected,
    KeyStored,
    Reconnect,
    NotConnected,
}

impl ProviderStanding {
    /// The word for this standing.
    pub fn key(self) -> (k: Key)
        ensures
            k == match self {
                ProviderStanding::Primary => Key::ProviderStatusPrimary,
                ProviderStanding::PrimaryNotConnected => Key::ProviderStatusPrimaryNotConnected,
                ProviderStanding::Connected => Key::ProviderStatusConnected,
                ProviderStanding::KeyStored => Key::ProviderStatusKeyStored,
                ProviderStanding::Reconnect => Key::ProviderStatusReconnect,
                ProviderStanding::NotConnected => Key::ProviderStatusNotConnected,
            },
    {
        match self {
            ProviderStanding::Primary => Key::ProviderStatusPrimary,
            ProviderStanding::PrimaryNotConnected => Key::ProviderStatusPrimaryNotConnected,
            ProviderStanding::Connected => Key::ProviderStatusConnected,
            ProviderStanding::KeyStored => Key::ProviderStatusKeyStored,
            ProviderStanding::Reconnect => Key::ProviderStatusReconnect,
            ProviderStanding::NotConnected => Key::ProviderStatusNotConnected,
        }
    }
}

/// One provider row.
#[derive(Debug, Clone, PartialEq, Eq)]
pub struct ProviderRow {
    pub id: String,
    /// The daemon's own label for this provider.
    pub label: String,
    pub standing: ProviderStanding,
    /// The account the daemon named, where it named one.
    pub account: Option<String>,
    /// The model the daemon reports in use, where this is the primary.
    pub model: Option<String>,
    pub verb: Option<ProviderVerb>,
    pub primary: bool,
    pub configured: bool,
    pub present_key: bool,
    /// The `secret.set` id this row's key dialog writes to, where there is one.
    /// Never minted from the provider id: a provider id is not a secret id.
    pub secret_id: Option<String>,
    /// The section the daemon publishes for this provider's own rows.
    pub section: String,
}

impl ProviderRow {
    /// Whether this row's verb can be carried out right now. A verb that writes
    /// a secret waits for the slot the daemon published rather than guessing
    /// one.
    pub fn can_perform(&self) -> (r: bool)
        ensures
            r == match self.verb {
                Some(verb) => !verb_writes_secret(verb) || self.secret_id is Some,
                None => false,
            },
    {
        match self.verb {
            Some(verb) => {
                if verb.writes_secret() {
                    self.secret_id.is_some()
                } else {
                    true
                }
            },
            None => false,
        }
    }
}

/// One sign-in a person is in the middle of.
#[derive(Debug, Clone, PartialEq, Eq)]
pub struct SignIn {
    pub provider: String,
    /// The address the daemon published, returned once. Shown as copyable text
    /// where the browser did not open.
    pub authorize_url: Option<String>,
    /// Whether this is an adopted sign-in rather than a browser hop.
    pub imported: bool,
}

/// Anthropic, the one provider whose doors are not the ones its `auth_modes`
/// suggest.
pub const ANTHROPIC: &'static str = "anthropic";

/// The ChatGPT subscription provider.
pub const CODEX: &'static str = "openai_codex";

/// The other provider `auth.start` starts a browser sign-in for.
pub const XAI: &'static str = "xai";

/// The section one provider's own rows are published under.
pub fn section_of(provider: &str) -> (r: String)
    ensures
        r@ == "providers."@ + provider@,
{
    concat("providers.", provider)
}

/// The import source one provider adopts a sign-in from.
pub open spec fn import_source_of(provider: Seq<char>) -> Option<DetectTarget> {
    if provider == ANTHROPIC@ {
        Some(DetectTarget::ClaudeCode)
    } else if provider == CODEX@ {
        Some(DetectTarget::CodexCli)
    } else {
        None
    }
}

/// The provider each import source answers for. The pairing is the contract's
/// own: `claude_code` exists to answer for Anthropic and `codex_cli` for the
/// ChatGPT provider, and nothing else can pair them.
pub fn import_source(provider: &str) -> (r: Option<DetectTarget>)
    ensures
        r == import_source_of(provider@),
{
    if str_eq(provider, ANTHROPIC) {
        Some(DetectTarget::ClaudeCode)
    } else if str_eq(provider, CODEX) {
        Some(DetectTarget::CodexCli)
    } else {
        None
    }
}

/// Whether `auth.start` will actually start a browser sign-in for a provider.
pub open spec fn browser_sign_in(provider: Seq<char>) -> bool {
    provider == CODEX@ || provider == XAI@
}

/// The six status words, in the order they win.
pub open spec fn standing_spec(p: SetupProviderRow) -> ProviderStanding {
    if token_state_of(opt_view(p.token_state)) == TokenState::Stale {
        ProviderStanding::Reconnect
    } else if p.primary && !p.configured {
        ProviderStanding::PrimaryNotConnected
    } else if p.primary {
        ProviderStanding::Primary
    } else if p.configured {
        ProviderStanding::Connected
    } else if p.present_key {
        ProviderStanding::KeyStored
    } else {
        ProviderStanding::NotConnected
    }
}

fn opt_str(s: &Option<String>) -> (r: Option<&str>)
    ensures
        match r {
            Some(t) => opt_view(*s) == Some(t@),
            None => s is None,
        },
{
    match s {
        Some(t) => Some(t.as_str()),
        None => None,
    }
}

/// Where a provider stands.
pub fn standing_of(provider: &SetupProviderRow) -> (r: ProviderStanding)
    ensures
        r == standing_spec(*provider),
{
    if TokenState::of(opt_str(&provider.token_state)).is_stale() {
        return ProviderStanding::Reconnect;
    }
    if provider.primary && !provider.configured {
        return ProviderStanding::PrimaryNotConnected;
    }
    if provider.primary {
        return ProviderStanding::Primary;
    }
    if provider.configured {
        return ProviderStanding::Connected;
    }
    if provider.present_key {
        return ProviderStanding::KeyStored;
    }
    ProviderStanding::NotConnected
}

/// The modes a provider publishes, read.
pub open spec fn modes_of(p: SetupProviderRow) -> Seq<AuthMode> {
    p.auth_modes@.map_values(|m: String| auth_mode_of(m@))
}

/// The verb, which the detections move and nothing else does.
///
/// A provider that takes no credential has nothing to add; one the daemon
/// already reports as working has nothing for the list to do; a sign-in this
/// machine already holds is adopted; Anthropic's door is its setup token; a
/// browser sign-in where the daemon will start one; and a key otherwise.
pub open spec fn verb_spec(p: SetupProviderRow, adoptable: bool) -> Option<ProviderVerb> {
    let modes = modes_of(p);
    if modes == seq![AuthMode::NoCredential] {
        None
    } else if p.configured && token_state_of(opt_view(p.token_state)) != TokenState::Stale {
        None
    } else if adoptable {
        match import_source_of(p.id@) {
            Some(DetectTarget::ClaudeCode) => Some(ProviderVerb::ImportClaudeCode),
            Some(DetectTarget::CodexCli) => Some(ProviderVerb::ImportCodexCli),
            _ => None,
        }
    } else if p.id@ == ANTHROPIC@ {
        Some(ProviderVerb::AddSetupToken)
    } else if modes.contains(AuthMode::Oauth) && browser_sign_in(p.id@) {
        Some(ProviderVerb::SignIn)
    } else if modes.contains(AuthMode::ApiKey) {
        Some(ProviderVerb::AddKey)
    } else {
        None
    }
}

fn has_mode(modes: &Vec<AuthMode>, mode: AuthMode) -> (r: bool)
    ensures
        r == modes@.contains(mode),
{
    let mut i: usize = 0;
    while i < modes.len()
        invariant
            i <= modes@.len(),
            forall|k: int| 0 <= k < i ==> modes@[k] != mode,
        decreases modes@.len() - i,
    {
        if modes[i] == mode {
            return true;
        }
        i = i + 1;
    }
    false
}

/// The verb a provider row leads with. `adoptable` is whether a detection
/// found the sign-in this provider adopts from on this machine.
pub fn verb_for(provider: &SetupProviderRow, adoptable: bool) -> (r: Option<ProviderVerb>)
    ensures
        r == verb_spec(*provider, adoptable),
{
    let modes = AuthMode::of(provider.auth_modes.as_slice());
    proof {
        assert(modes@ =~= modes_of(*provider));
    }
    if modes.len() == 1 && modes[0] == AuthMode::NoCredential {
        proof {
            assert(modes@ =~= seq![AuthMode::NoCredential]);
        }
        return None;
    }
    let token_usable = !TokenState::of(opt_str(&provider.token_state)).is_stale();
    if provider.configured && token_usable {
        return None;
    }
    if adoptable {
        return match import_source(provider.id.as_str()) {
            Some(DetectTarget::ClaudeCode) => Some(ProviderVerb::ImportClaudeCode),
            Some(DetectTarget::CodexCli) => Some(ProviderVerb::ImportCodexCli),
            _ => None,
        };
    }
    // Before the sign-in branch, because Anthropic publishes `oauth` and has no
    // browser flow: its doors are an adopted command-line sign-in and a setup
    // token.
    if str_eq(provider.id.as_str(), ANTHROPIC) {
        return Some(ProviderVerb::AddSetupToken);
    }
    if has_mode(&modes, AuthMode::Oauth) && (str_eq(provider.id.as_str(), CODEX) || str_eq(
        provider.id.as_str(),
        XAI,
    )) {
        return Some(ProviderVerb::SignIn);
    }
    if has_mode(&modes, AuthMode::ApiKey) {
        return Some(ProviderVerb::AddKey);
    }
    None
}

/// The key of the first secret row, where there is one.
pub open spec fn first_secret_key(rows: Seq<SettingsRow>) -> Option<Seq<char>>
    decreases rows.len(),
{
    if rows.len() == 0 {
        None
    } else if rows[0].kind == SettingsRowKind::Secret {
        Some(rows[0].key@)
    } else {
        first_secret_key(rows.drop_first())
    }
}

/// The slot a verb writes to.
pub open spec fn secret_id_spec(verb: ProviderVerb, rows: Seq<SettingsRow>) -> Option<Seq<char>> {
    match verb {
        ProviderVerb::AddSetupToken => Some(SETUP_TOKEN@),
        ProviderVerb::AddKey => first_secret_key(rows),
        _ => None,
    }
}

/// The `secret.set` id a verb writes to.
///
/// A provider id is never a secret id: the slot is read off the secret row the
/// daemon published in that provider's own section. Anthropic's setup token is
/// the one id no descriptor row can carry, and the contract names it.
pub fn secret_id(verb: ProviderVerb, rows: &[SettingsRow]) -> (r: Option<String>)
    ensures
        opt_view(r) == secret_id_spec(verb, rows@),
{
    match verb {
        ProviderVerb::AddSetupToken => Some(owned(SETUP_TOKEN)),
        ProviderVerb::AddKey => {
            let mut i: usize = 0;
            proof {
                assert(rows@.skip(0) =~= rows@);
            }
            while i < rows.len()
                invariant
                    i <= rows@.len(),
                    verb == ProviderVerb::AddKey,
                    first_secret_key(rows@) == first_secret_key(rows@.skip(i as int)),
                decreases rows@.len() - i,
            {
                proof {
                    assert(rows@.skip(i as int).drop_first() =~= rows@.skip(i + 1));
                    assert(rows@.skip(i as int)[0] == rows@[i as int]);
                }
                if rows[i].kind == SettingsRowKind::Secret {
                    return Some(rows[i].key.clone());
                }
                i = i + 1;
            }
            proof {
                assert(rows@.skip(i as int) =~= Seq::<SettingsRow>::empty());
            }
            None
        },
        _ => None,
    }
}

/// The verbs a provider's own sub-page offers for changing how it signs in.
pub open spec fn detail_verbs_spec(provider: Seq<char>, adoptable: bool, auth_mode: Option<Seq<char>>) -> Seq<ProviderVerb> {
    if auth_mode == Some(auth_mode_word(AuthMode::ApiKey)) {
        Seq::empty()
    } else {
        let signed = if browser_sign_in(provider) {
            seq![ProviderVerb::SignIn]
        } else {
            Seq::empty()
        };
        let adopted = if adoptable {
            match import_source_of(provider) {
                Some(DetectTarget::ClaudeCode) => signed.push(ProviderVerb::ImportClaudeCode),
                Some(DetectTarget::CodexCli) => signed.push(ProviderVerb::ImportCodexCli),
                _ => signed,
            }
        } else {
            signed
        };
        if provider == ANTHROPIC@ {
            adopted.push(ProviderVerb::AddSetupToken)
        } else {
            adopted
        }
    }
}

/// The verbs a provider's own sub-page offers for changing how it signs in.
///
/// Replacing a connected account uses the same doors as its first connection,
/// without signing the current one out first.
pub fn detail_verbs(provider: &str, adoptable: bool, auth_mode: Option<&str>) -> (r: Vec<ProviderVerb>)
    ensures
        r@ == detail_verbs_spec(
            provider@,
            adoptable,
            match auth_mode {
                Some(m) => Some(m@),
                None => None,
            },
        ),
{
    if let Some(mode) = auth_mode {
        if str_eq(mode, AuthMode::ApiKey.recorded()) {
            return Vec::new();
        }
    }
    let mut verbs: Vec<ProviderVerb> = Vec::new();
    if str_eq(provider, CODEX) || str_eq(provider, XAI) {
        verbs.push(ProviderVerb::SignIn);
    }
    if adoptable {
        match import_source(provider) {
            Some(DetectTarget::ClaudeCode) => verbs.push(ProviderVerb::ImportClaudeCode),
            Some(DetectTarget::CodexCli) => verbs.push(ProviderVerb::ImportCodexCli),
            _ => {},
        }
    }
    if str_eq(provider, ANTHROPIC) {
        verbs.push(ProviderVerb::AddSetupToken);
    }
    proof {
        assert(verbs@ =~= detail_verbs_spec(
            provider@,
            adoptable,
            match auth_mode {
                Some(m) => Some(m@),
                None => None,
            },
        ));
    }
    verbs
}

/// What a probe job says, where it says anything: the daemon's own failure
/// sentence first; a running job's phase word; a completed job's model and
/// latency; and the words for a cancelled or timed-out run.
pub enum ProbeSaid {
    Words(Key),
    Sentence(Seq<char>),
    Measured(Seq<char>, u64),
}

/// The model and the latency a completed probe published, where it published
/// both.
pub open spec fn measured_of(result: Option<Vec<(String, Json)>>) -> Option<(Seq<char>, u64)> {
    match result {
        Some(fields) => match (detail_at(fields@, "model"@), detail_at(fields@, "latency_ms"@)) {
            (Some(Json::Text(model)), Some(Json::Number { unsigned: Some(latency), .. })) => Some(
                (model@, latency),
            ),
            _ => None,
        },
        None => None,
    }
}

/// What a probe job says.
pub open spec fn probe_said(job: JobView) -> Option<ProbeSaid> {
    match job.failure {
        Some(f) => Some(ProbeSaid::Sentence(f.sentence@)),
        None => match job.status {
            JobStatus::Running => match job.phase {
                Some(phase) => match phase_word_of(phase@) {
                    Some(key) => Some(ProbeSaid::Words(key)),
                    None => None,
                },
                None => None,
            },
            JobStatus::Completed => match measured_of(job.result) {
                Some((model, latency)) => Some(ProbeSaid::Measured(model, latency)),
                None => None,
            },
            JobStatus::Cancelled => Some(ProbeSaid::Words(Key::JobCancelled)),
            JobStatus::TimedOut => Some(ProbeSaid::Words(Key::JobTimedOut)),
            _ => None,
        },
    }
}

/// Whether a text is what a probe says.
pub open spec fn probe_text_holds(text: Seq<char>, said: ProbeSaid) -> bool {
    match said {
        ProbeSaid::Words(key) => renders(key, text),
        ProbeSaid::Sentence(s) => text == s,
        ProbeSaid::Measured(model, latency) => exists|t: Seq<char>|
            #[trigger] renders(Key::ProviderProbeResult, t) && text == filled(
                t,
                seq![("{count}"@, decimal(latency as nat)), ("{model}"@, model)],
            ),
    }
}

/// What the probe answered, in the daemon's own numbers.
pub fn probe_sentence(job: &JobView) -> (r: Option<String>)
    ensures
        match probe_said(*job) {
            Some(said) => r matches Some(t) && probe_text_holds(t@, said),
            None => r is None,
        },
{
    if let Some(failure) = &job.failure {
        return Some(failure.sentence.clone());
    }
    match job.status {
        JobStatus::Running => match &job.phase {
            Some(phase) => match phase_word(phase.as_str()) {
                Some(key) => Some(text(key)),
                None => None,
            },
            None => None,
        },
        JobStatus::Completed => {
            let fields = match &job.result {
                Some(fields) => fields,
                None => {
                    return None;
                },
            };
            let model = match detail_in(fields, "model") {
                Some(Json::Text(model)) => model,
                _ => {
                    proof {
                        reveal_strlit("model");
                    }
                    return None;
                },
            };
            let latency = match detail_in(fields, "latency_ms") {
                Some(Json::Number { unsigned: Some(n), .. }) => *n,
                _ => {
                    proof {
                        reveal_strlit("model");
                        reveal_strlit("latency_ms");
                    }
                    return None;
                },
            };
            proof {
                reveal_strlit("model");
                reveal_strlit("latency_ms");
            }
            let count = decimal_string(latency);
            let values = [("{count}", count.as_str()), ("{model}", model.as_str())];
            let r = fill(Key::ProviderProbeResult, &values);
            proof {
                assert(pair_views(values@) =~= seq![
                    ("{count}"@, decimal(latency as nat)),
                    ("{model}"@, model@),
                ]);
            }
            Some(r)
        },
        JobStatus::Cancelled => Some(text(Key::JobCancelled)),
        JobStatus::TimedOut => Some(text(Key::JobTimedOut)),
        _ => None,
    }
}

/// Whether a detection found, on this machine, the sign-in a provider adopts
/// from: the first answer for its import source says present.
pub open spec fn adoptable_of(state: State, provider: Seq<char>) -> bool {
    match import_source_of(provider) {
        Some(target) => exists|i: int|
            0 <= i < state.detections@.len() && (#[trigger] state.detections@[i]).target == target
                && state.detections@[i].present && forall|j: int|
                0 <= j < i ==> (#[trigger] state.detections@[j]).target != target,
        None => false,
    }
}

/// Whether a detection found the sign-in a provider adopts from.
pub fn adoptable(state: &State, provider: &str) -> (r: bool)
    ensures
        r == adoptable_of(*state, provider@),
{
    let target = match import_source(provider) {
        Some(t) => t,
        None => {
            return false;
        },
    };
    match state.detection(target) {
        Some(d) => {
            let r = d.present;
            proof {
                if !r {
                    assert forall|i: int|
                        0 <= i < state.detections@.len() && (#[trigger] state.detections@[i]).target
                            == target && state.detections@[i].present implies exists|j: int|
                        0 <= j < i && (#[trigger] state.detections@[j]).target == target by {
                        let k = choose|k: int|
                            0 <= k < state.detections@.len() && state.detections@[k] == *d
                                && d.target == target && forall|j: int|
                                0 <= j < k ==> (#[trigger] state.detections@[j]).target != target;
                        if k < i {
                            assert(state.detections@[k].target == target);
                        } else if k > i {
                            assert(state.detections@[i].target != target);
                        }
                    }
                }
            }
            r
        },
        None => false,
    }
}

/// Whether a row is the row one provider draws.
pub open spec fn is_provider_row(state: State, row: ProviderRow, p: SetupProviderRow) -> bool {
    let verb = verb_spec(p, adoptable_of(state, p.id@));
    let section = "providers."@ + p.id@;
    &&& row.id@ == p.id@
    &&& row.label@ == p.label@
    &&& row.standing == standing_spec(p)
    &&& opt_view(row.account) == opt_view(p.account_label)
    &&& opt_view(row.model) == opt_view(p.default_model)
    &&& row.verb == verb
    &&& row.primary == p.primary
    &&& row.configured == p.configured
    &&& row.present_key == p.present_key
    &&& row.section@ == section
    &&& opt_view(row.secret_id) == match verb {
        Some(v) => secret_id_spec(
            v,
            if state.descriptors@.contains_key(section) {
                state.descriptors@[section].rows@
            } else {
                Seq::empty()
            },
        ),
        None => None,
    }
}

fn copy_opt(s: &Option<String>) -> (r: Option<String>)
    ensures
        opt_view(r) == opt_view(*s),
{
    match s {
        Some(t) => Some(t.clone()),
        None => None,
    }
}

/// One provider's row.
pub fn row_of(state: &State, provider: &SetupProviderRow) -> (r: ProviderRow)
    ensures
        is_provider_row(*state, r, *provider),
{
    let section = section_of(provider.id.as_str());
    let verb = verb_for(provider, adoptable(state, provider.id.as_str()));
    let secret = match verb {
        Some(v) => match state.descriptors.get(&section) {
            Some(descriptor) => secret_id(v, descriptor.rows.as_slice()),
            None => {
                let none: Vec<SettingsRow> = Vec::new();
                let r = secret_id(v, none.as_slice());
                proof {
                    assert(none@ =~= Seq::<SettingsRow>::empty());
                }
                r
            },
        },
        None => None,
    };
    ProviderRow {
        id: provider.id.clone(),
        label: provider.label.clone(),
        standing: standing_of(provider),
        account: copy_opt(&provider.account_label),
        model: copy_opt(&provider.default_model),
        verb,
        primary: provider.primary,
        configured: provider.configured,
        present_key: provider.present_key,
        secret_id: secret,
        section,
    }
}

/// The rows, in the daemon's own order.
pub fn rows(state: &State) -> (r: Vec<ProviderRow>)
    ensures
        match state.setup {
            Some(setup) => r@.len() == setup.providers@.len() && forall|i: int|
                0 <= i < r@.len() ==> is_provider_row(*state, #[trigger] r@[i], setup.providers@[i]),
            None => r@.len() == 0,
        },
{
    let setup = match &state.setup {
        Some(setup) => setup,
        None => {
            return Vec::new();
        },
    };
    let mut out: Vec<ProviderRow> = Vec::new();
    let mut i: usize = 0;
    while i < setup.providers.len()
        invariant
            i <= setup.providers@.len(),
            out@.len() == i,
            forall|k: int|
                0 <= k < i ==> is_provider_row(*state, #[trigger] out@[k], setup.providers@[k]),
        decreases setup.providers@.len() - i,
    {
        out.push(row_of(state, &setup.providers[i]));
        i = i + 1;
    }
    out
}

} // verus!
