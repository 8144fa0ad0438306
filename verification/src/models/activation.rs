//! Bringing the daemon up, as one bounded transaction.
//!
//! Five steps behind the Starting checklist, inside one 90-second budget:
//! refuse before anything is written, run the command line's own install,
//! point the client at the socket under the home it bound, negotiate, prove
//! the daemon's web door answers, and read what is already set up.
//!
//! The application runs the steps; this module decides what each answer
//! means. Every way the transaction can end is one of the named states below.
//! Nothing here invents progress between observations: a step is marked done
//! only by evidence the command line or the daemon published, and a step that
//! cannot succeed reports which step it was and what it saw.

use vstd::prelude::*;
use crate::copy::{fill, fill_rendered, filled, pair_views, render, rendered, renders, text, translation, Key};
use crate::management::contract::{supported_range, window};
use crate::management::errors::{detail_at, ManagementError, WireError};
use crate::management::health::Health;
use crate::management::types::Json;
use crate::models::settings_model::{opt_view, sentence_of, Sentence};
use crate::service::{service_code_of, Alignment, ServiceCode, ServiceError, ServiceStatus};
use crate::text::{decimal, decimal_string, owned, str_eq};

verus! {

/// The whole transaction's budget, in milliseconds. Every named failure is
/// reached inside it.
pub const BUDGET_MS: u64 = 90000;

/// How often the web door is asked while it is not answering yet, in
/// milliseconds.
pub const WEB_POLL_INTERVAL_MS: u64 = 250;

/// How long one look at the web door may take, in milliseconds.
pub const WEB_PROBE_DEADLINE_MS: u64 = 2000;

/// The restarts that make a start a crash loop rather than a slow one.
pub const CRASH_LOOP_RESTARTS: u32 = 3;

/// One row of the Starting checklist.
#[derive(Debug, Clone, Copy, PartialEq, Eq, Structural)]
pub enum Step {
    BindHome,
    EnableLinger,
    StartService,
    VerifyDaemon,
    ReadSetupState,
}

/// The row a command line refusal stopped on, read from the code it
/// published rather than from where the ladder happened to be.
pub open spec fn step_of_code(code: ServiceCode) -> Step {
    match code {
        ServiceCode::LingerDenied | ServiceCode::LoginctlAbsent => Step::EnableLinger,
        ServiceCode::InvalidHome
        | ServiceCode::HomeChangeRefused
        | ServiceCode::BindingWriteFailed
        | ServiceCode::InvalidPort
        | ServiceCode::ConfigWriteFailed => Step::BindHome,
        ServiceCode::HealthUnavailable => Step::VerifyDaemon,
        _ => Step::StartService,
    }
}

impl Step {
    /// The rows, in the order the transaction takes them.
    pub fn all() -> (r: Vec<Step>)
        ensures
            r@ == seq![
                Step::BindHome,
                Step::EnableLinger,
                Step::StartService,
                Step::VerifyDaemon,
                Step::ReadSetupState,
            ],
    {
        vec![
            Step::BindHome,
            Step::EnableLinger,
            Step::StartService,
            Step::VerifyDaemon,
            Step::ReadSetupState,
        ]
    }

    /// What the row says.
    pub fn key(self) -> (k: Key)
        ensures
            k == match self {
                Step::BindHome => Key::SetupStepBindHome,
                Step::EnableLinger => Key::SetupStepEnableLinger,
                Step::StartService => Key::SetupStepStartService,
                Step::VerifyDaemon => Key::SetupStepVerifyDaemon,
                Step::ReadSetupState => Key::SetupStepReadSetupState,
            },
    {
        match self {
            Step::BindHome => Key::SetupStepBindHome,
            Step::EnableLinger => Key::SetupStepEnableLinger,
            Step::StartService => Key::SetupStepStartService,
            Step::VerifyDaemon => Key::SetupStepVerifyDaemon,
            Step::ReadSetupState => Key::SetupStepReadSetupState,
        }
    }

    /// The rows one `service install` answers for.
    ///
    /// The command line runs the whole transaction and answers once: it
    /// reports no per-step progress, so nothing here invents any. A run that
    /// returned a result took every step it names; a run that refused stopped
    /// on the row its own code names.
    pub fn installed_by_the_command_line() -> (r: Vec<Step>)
        ensures
            r@ == seq![Step::BindHome, Step::EnableLinger, Step::StartService],
    {
        vec![Step::BindHome, Step::EnableLinger, Step::StartService]
    }

    /// The row a refusal stopped on.
    pub fn of_code(code: ServiceCode) -> (s: Step)
        ensures
            s == step_of_code(code),
    {
        match code {
            ServiceCode::LingerDenied | ServiceCode::LoginctlAbsent => Step::EnableLinger,
            ServiceCode::InvalidHome
            | ServiceCode::HomeChangeRefused
            | ServiceCode::BindingWriteFailed
            | ServiceCode::InvalidPort
            | ServiceCode::ConfigWriteFailed => Step::BindHome,
            ServiceCode::HealthUnavailable => Step::VerifyDaemon,
            _ => Step::StartService,
        }
    }

    /// The row a failed install is marked failed on: the one its refusal
    /// names, and the start itself when nothing was refused by code.
    pub fn of_install_error(error: &ServiceError) -> (s: Step)
        ensures
            s == match *error {
                ServiceError::Refused { code, .. } => step_of_code(service_code_of(code@)),
                ServiceError::Failed(_) => Step::StartService,
            },
    {
        match error {
            ServiceError::Refused { code, .. } => Step::of_code(ServiceCode::of(code.as_str())),
            ServiceError::Failed(_) => Step::StartService,
        }
    }
}

/// How far one row has got.
#[derive(Debug, Clone, Copy, PartialEq, Eq, Structural)]
pub enum StepState {
    Waiting,
    Working,
    Done,
    Failed,
}

impl StepState {
    /// The word a screen reader hears beside the glyph.
    pub fn key(self) -> (k: Key)
        ensures
            k == match self {
                StepState::Waiting => Key::SetupStepWaiting,
                StepState::Working => Key::SetupStepWorking,
                StepState::Done => Key::SetupStepDone,
                StepState::Failed => Key::SetupStepFailed,
            },
    {
        match self {
            StepState::Waiting => Key::SetupStepWaiting,
            StepState::Working => Key::SetupStepWorking,
            StepState::Done => Key::SetupStepDone,
            StepState::Failed => Key::SetupStepFailed,
        }
    }
}

/// What one button on a refusal does.
#[derive(Debug, Clone, Copy, PartialEq, Eq, Structural)]
pub enum Action {
    TryAgain,
    Cancel,
    CopyCommand,
    CopyCommands,
    ShowMeHow,
    RunDoctor,
    ViewLog,
}

impl Action {
    /// The word on the button.
    pub fn key(self) -> (k: Key)
        ensures
            k == match self {
                Action::TryAgain => Key::ActionTryAgain,
                Action::Cancel => Key::ActionCancel,
                Action::CopyCommand => Key::ActionCopyCommand,
                Action::CopyCommands => Key::ActionCopyCommands,
                Action::ShowMeHow => Key::ActionShowMeHow,
                Action::RunDoctor => Key::MenuRunDoctor,
                Action::ViewLog => Key::PageLogs,
            },
    {
        match self {
            Action::TryAgain => Key::ActionTryAgain,
            Action::Cancel => Key::ActionCancel,
            Action::CopyCommand => Key::ActionCopyCommand,
            Action::CopyCommands => Key::ActionCopyCommands,
            Action::ShowMeHow => Key::ActionShowMeHow,
            Action::RunDoctor => Key::MenuRunDoctor,
            Action::ViewLog => Key::PageLogs,
        }
    }
}

/// A command a person runs, with the row that labels it.
#[derive(Debug, Clone, PartialEq, Eq)]
pub struct Command {
    pub label: Key,
    pub value: String,
}

/// One named refusal, with everything the screen that renders it needs.
///
/// The title and the body are the catalogue's, because these are states this
/// application names; the sentence is always somebody else's words, and the
/// evidence is the offline log tail.
#[derive(Debug, Clone, PartialEq, Eq)]
pub struct Refusal {
    /// Whether this was refused before anything was written.
    pub before_mutation: bool,
    pub title: Key,
    pub body: String,
    /// The one next action, as a sentence, where the design fixes one.
    pub next_action: Option<Key>,
    /// A command a person runs, with the row that labels it.
    pub command: Option<Command>,
    /// The command line's or the daemon's own words.
    pub sentence: Option<String>,
    /// The offline boot evidence, where the command line could collect it.
    pub evidence: Vec<String>,
    pub actions: Vec<Action>,
}

/// How the transaction ended.
#[derive(Debug, Clone, PartialEq, Eq)]
pub enum Outcome {
    /// The daemon is up, it negotiated, its web door answered, and what is
    /// already set up has been read.
    Activated,
    /// A named refusal. Nothing was written where `before_mutation` holds.
    Refused(Box<Refusal>),
}

// ---------------------------------------------------------------------------
// What a refusal says
// ---------------------------------------------------------------------------

/// What a refusal's paragraph is: none, the catalogue's words, or the
/// catalogue's words with markers filled in.
pub enum BodyPlan {
    Empty,
    Words(Key),
    Filled(Key, Seq<(Seq<char>, Seq<char>)>),
}

/// Whether a paragraph is what its plan says.
pub open spec fn body_holds(body: Seq<char>, plan: BodyPlan) -> bool {
    match plan {
        BodyPlan::Empty => body.len() == 0,
        BodyPlan::Words(key) => renders(key, body),
        BodyPlan::Filled(key, values) => exists|t: Seq<char>|
            #[trigger] renders(key, t) && body == filled(t, values),
    }
}

/// What one named refusal is made of.
pub struct RefusalPlan {
    pub before_mutation: bool,
    pub title: Key,
    pub body: BodyPlan,
    pub next_action: Option<Key>,
    /// The command's label, and the words and values it is filled from.
    pub command: Option<(Key, Key, Seq<(Seq<char>, Seq<char>)>)>,
    pub sentence: Option<Seq<char>>,
    pub actions: Seq<Action>,
}

/// Whether a refusal is what its plan says, with no evidence attached yet.
pub open spec fn refusal_holds(r: Refusal, plan: RefusalPlan) -> bool {
    &&& r.before_mutation == plan.before_mutation
    &&& r.title == plan.title
    &&& body_holds(r.body@, plan.body)
    &&& r.next_action == plan.next_action
    &&& match (r.command, plan.command) {
        (None, None) => true,
        (Some(c), Some((label, words, values))) => c.label == label && exists|t: Seq<char>|
            #[trigger] renders(words, t) && c.value@ == filled(t, values),
        _ => false,
    }
    &&& opt_view(r.sentence) == plan.sentence
    &&& r.evidence@.len() == 0
    &&& r.actions@ == plan.actions
}

/// One named state: a title from the catalogue and the buttons it offers.
pub open spec fn named_plan(before_mutation: bool, title: Key, actions: Seq<Action>) -> RefusalPlan {
    RefusalPlan {
        before_mutation,
        title,
        body: BodyPlan::Empty,
        next_action: None,
        command: None,
        sentence: None,
        actions,
    }
}

/// The same state with a paragraph of its own.
pub open spec fn with_body(plan: RefusalPlan, body: Key) -> RefusalPlan {
    RefusalPlan { body: BodyPlan::Words(body), ..plan }
}

/// The same state carrying somebody else's sentence.
pub open spec fn with_sentence(plan: RefusalPlan, sentence: Option<Seq<char>>) -> RefusalPlan {
    RefusalPlan { sentence, ..plan }
}

impl Refusal {
    /// One named state: a title from the catalogue and the buttons it offers.
    fn named(before_mutation: bool, title: Key, actions: Vec<Action>) -> (r: Self)
        ensures
            refusal_holds(r, named_plan(before_mutation, title, actions@)),
    {
        Refusal {
            before_mutation,
            title,
            body: String::new(),
            next_action: None,
            command: None,
            sentence: None,
            evidence: Vec::new(),
            actions,
        }
    }

    /// The paragraph under the title, where this state has one of its own. A
    /// state whose only explanation is somebody else's sentence carries none.
    fn body(self, body: Key) -> (r: Self)
        requires
            body != Key::Count,
        ensures
            forall|p: RefusalPlan| #[trigger] refusal_holds(self, p) ==> refusal_holds(r, with_body(p, body)),
    {
        let mut r = self;
        r.body = text(body);
        r
    }

    /// The paragraph under the title, given what gettext answered for its
    /// words.
    fn body_in(self, body: Key, translated: &str) -> (r: Self)
        requires
            body != Key::Count,
        ensures
            forall|p: RefusalPlan| #[trigger] refusal_holds(self, p) ==> refusal_holds(r, with_body(p, body)),
            r.body@ == rendered(body, translated@),
    {
        let mut r = self;
        r.body = render(body, translated);
        proof {
            assert(renders(body, r.body@));
        }
        r
    }

    fn with_sentence(self, sentence: Option<String>) -> (r: Self)
        ensures
            forall|p: RefusalPlan|
                #[trigger] refusal_holds(self, p) ==> refusal_holds(r, with_sentence(p, opt_view(sentence))),
            r.body@ == self.body@,
    {
        let mut r = self;
        r.sentence = sentence;
        r
    }
}

// ---------------------------------------------------------------------------
// The named states
// ---------------------------------------------------------------------------

fn cancel_only() -> (v: Vec<Action>)
    ensures
        v@ == seq![Action::Cancel],
{
    let mut v = Vec::new();
    v.push(Action::Cancel);
    v
}

/// Linger refused: what happened, what is untouched, and the one command that
/// grants it, naming this account.
pub open spec fn linger_denied_plan(user: Seq<char>) -> RefusalPlan {
    RefusalPlan {
        command: Some((
            Key::LingerDeniedCommandRow,
            Key::LingerDeniedCommandValue,
            seq![("<user>"@, user)],
        )),
        ..with_body(
            named_plan(false, Key::LingerDeniedTitle, seq![Action::CopyCommand, Action::TryAgain]),
            Key::LingerDeniedBody,
        )
    }
}

/// A host with no login manager: no command can help, so none is offered.
pub open spec fn login_manager_absent_plan(before_mutation: bool) -> RefusalPlan {
    RefusalPlan {
        next_action: Some(Key::LoginManagerAbsentNextAction),
        ..with_body(
            named_plan(before_mutation, Key::LoginManagerAbsentTitle, seq![Action::TryAgain, Action::Cancel]),
            Key::LoginManagerAbsentBody,
        )
    }
}

/// The service was switched on and is not running.
pub open spec fn unit_inactive_plan() -> RefusalPlan {
    with_body(
        named_plan(false, Key::ActivationUnitInactiveTitle, seq![Action::TryAgain, Action::ViewLog]),
        Key::ActivationUnitInactiveBody,
    )
}

/// The daemon answers its socket and its web door does not.
pub open spec fn web_unavailable_plan() -> RefusalPlan {
    with_body(
        named_plan(
            false,
            Key::ActivationWebUnavailableTitle,
            seq![Action::TryAgain, Action::RunDoctor, Action::ViewLog],
        ),
        Key::ActivationWebUnavailableBody,
    )
}

/// The command that grants linger, naming one account.
pub fn linger_command(user: &str) -> (r: String)
    ensures
        exists|t: Seq<char>|
            #[trigger] renders(Key::LingerDeniedCommandValue, t) && r@ == filled(
                t,
                seq![("<user>"@, user@)],
            ),
{
    let values = [("<user>", user)];
    let r = fill(Key::LingerDeniedCommandValue, &values);
    proof {
        assert(pair_views(values@) =~= seq![("<user>"@, user@)]);
    }
    r
}

/// The row that says what the linger command is, with the same account in it.
pub fn linger_command_row(user: &str) -> (r: String)
    ensures
        exists|t: Seq<char>|
            #[trigger] renders(Key::LingerDeniedCommandRow, t) && r@ == filled(
                t,
                seq![("<user>"@, user@)],
            ),
{
    let values = [("<user>", user)];
    let r = fill(Key::LingerDeniedCommandRow, &values);
    proof {
        assert(pair_views(values@) =~= seq![("<user>"@, user@)]);
    }
    r
}

fn linger_denied(user: &str) -> (r: Refusal)
    ensures
        refusal_holds(r, linger_denied_plan(user@)),
{
    let mut r = Refusal::named(
        false,
        Key::LingerDeniedTitle,
        vec![Action::CopyCommand, Action::TryAgain],
    ).body(Key::LingerDeniedBody);
    r.command = Some(Command { label: Key::LingerDeniedCommandRow, value: linger_command(user) });
    r
}

fn login_manager_absent(before_mutation: bool) -> (r: Refusal)
    ensures
        refusal_holds(r, login_manager_absent_plan(before_mutation)),
{
    let mut r = Refusal::named(
        before_mutation,
        Key::LoginManagerAbsentTitle,
        vec![Action::TryAgain, Action::Cancel],
    ).body(Key::LoginManagerAbsentBody);
    r.next_action = Some(Key::LoginManagerAbsentNextAction);
    r
}

fn unit_inactive() -> (r: Refusal)
    ensures
        refusal_holds(r, unit_inactive_plan()),
{
    Refusal::named(
        false,
        Key::ActivationUnitInactiveTitle,
        vec![Action::TryAgain, Action::ViewLog],
    ).body(Key::ActivationUnitInactiveBody)
}

fn web_unavailable() -> (r: Refusal)
    ensures
        refusal_holds(r, web_unavailable_plan()),
{
    Refusal::named(
        false,
        Key::ActivationWebUnavailableTitle,
        vec![Action::TryAgain, Action::RunDoctor, Action::ViewLog],
    ).body(Key::ActivationWebUnavailableBody)
}

/// The preflight state one command line refusal names. A refusal this build
/// has no state for is still a refusal before anything was written, and its
/// own sentence is the whole explanation.
pub open spec fn preflight_refusal_plan(code: Option<Seq<char>>, words: Seq<char>) -> RefusalPlan {
    let c = match code {
        Some(code) => service_code_of(code),
        None => ServiceCode::Unrecognized,
    };
    with_sentence(preflight_named_plan(c), Some(words))
}

/// The state a preflight refusal's code names, before its sentence.
pub open spec fn preflight_named_plan(c: ServiceCode) -> RefusalPlan {
    match c {
        ServiceCode::UserManagerUnreachable => with_body(
            named_plan(true, Key::PreflightNoUserManagerTitle, seq![Action::TryAgain, Action::Cancel]),
            Key::PreflightNoUserManagerBody,
        ),
        ServiceCode::ForeignDistribution => with_body(
            named_plan(true, Key::PreflightForeignDistributionTitle, seq![Action::Cancel]),
            Key::PreflightForeignDistributionBody,
        ),
        ServiceCode::LoginctlAbsent => login_manager_absent_plan(true),
        _ => named_plan(true, Key::SetupPreflightRefusedTitle, seq![Action::TryAgain, Action::Cancel]),
    }
}

/// The preflight state one command line refusal names.
pub fn preflight_of_refusal(refusal: &Sentence) -> (r: Refusal)
    ensures
        refusal_holds(r, preflight_refusal_plan(opt_view(refusal.code), refusal.text@)),
{
    let code = match &refusal.code {
        Some(code) => ServiceCode::of(code.as_str()),
        None => ServiceCode::Unrecognized,
    };
    let named = match code {
        ServiceCode::UserManagerUnreachable => Refusal::named(
            true,
            Key::PreflightNoUserManagerTitle,
            vec![Action::TryAgain, Action::Cancel],
        ).body(Key::PreflightNoUserManagerBody),
        ServiceCode::ForeignDistribution => Refusal::named(
            true,
            Key::PreflightForeignDistributionTitle,
            cancel_only(),
        ).body(Key::PreflightForeignDistributionBody),
        ServiceCode::LoginctlAbsent => login_manager_absent(true),
        _ => Refusal::named(
            true,
            Key::SetupPreflightRefusedTitle,
            vec![Action::TryAgain, Action::Cancel],
        ),
    };
    assert(refusal_holds(named, preflight_named_plan(code)));
    named.with_sentence(Some(refusal.text.clone()))
}

/// The preflight state a typed status names, in the order they are asked: a
/// foreign distribution, a unit Fermix did not write, a daemon that answers
/// nothing, and an engine newer on disk than the one running.
pub open spec fn preflight_status_plan(status: ServiceStatus) -> Option<RefusalPlan> {
    if status.foreign_distribution is Some {
        Some(
            with_sentence(
                with_body(
                    named_plan(true, Key::PreflightForeignDistributionTitle, seq![Action::Cancel]),
                    Key::PreflightForeignDistributionBody,
                ),
                opt_view(status.foreign_distribution),
            ),
        )
    } else if status.unit.foreign {
        Some(
            with_sentence(
                with_body(
                    named_plan(true, Key::PreflightForeignDaemonTitle, seq![Action::TryAgain, Action::Cancel]),
                    Key::PreflightForeignDaemonBody,
                ),
                opt_view(status.unit.effective_path),
            ),
        )
    } else if status.answers_nothing {
        Some(
            with_body(
                named_plan(
                    true,
                    Key::PreflightPreManagementDaemonTitle,
                    seq![Action::TryAgain, Action::Cancel],
                ),
                Key::PreflightPreManagementDaemonBody,
            ),
        )
    } else if status.alignment == Alignment::PendingRestart {
        Some(
            with_body(
                named_plan(true, Key::PreflightEngineSkewTitle, seq![Action::TryAgain, Action::Cancel]),
                Key::PreflightEngineSkewBody,
            ),
        )
    } else {
        None
    }
}

/// A unit Fermix did not write is never overwritten: a status that names one
/// stops the activation before anything is written, with the foreign-daemon
/// state carrying the unit's path, unless the whole installation came from a
/// distribution this app does not manage, which says so first. Neither is
/// offered anything that would rewrite it.
pub proof fn a_foreign_unit_is_never_overwritten(status: ServiceStatus)
    ensures
        status.unit.foreign || status.foreign_distribution is Some ==> preflight_status_plan(status)
            is Some,
        status.unit.foreign || status.foreign_distribution is Some ==> preflight_status_plan(
            status,
        )->0.before_mutation,
        status.foreign_distribution is Some ==> preflight_status_plan(status)->0.title
            == Key::PreflightForeignDistributionTitle && preflight_status_plan(status)->0.actions
            == seq![Action::Cancel],
        status.unit.foreign && status.foreign_distribution is None ==> preflight_status_plan(
            status,
        )->0.title == Key::PreflightForeignDaemonTitle && preflight_status_plan(status)->0.sentence
            == opt_view(status.unit.effective_path) && preflight_status_plan(status)->0.actions
            == seq![Action::TryAgain, Action::Cancel],
{
}

/// The preflight state a typed status names, where it names one, given what
/// gettext answered for the words of its paragraph.
pub fn preflight_of_status_in(status: &ServiceStatus, translated: &str) -> (r: Option<Refusal>)
    ensures
        match preflight_status_plan(*status) {
            Some(plan) => r matches Some(refusal) && refusal_holds(refusal, plan) && body_reads(
                refusal.body@,
                plan.body,
                translated@,
            ),
            None => r is None,
        },
{
    if let Some(distribution) = status.foreign_distribution() {
        return Some(
            Refusal::named(
                true,
                Key::PreflightForeignDistributionTitle,
                cancel_only(),
            ).body_in(Key::PreflightForeignDistributionBody, translated).with_sentence(Some(owned(distribution))),
        );
    }
    // A unit Fermix did not write is a published fact rather than a refused
    // read: the status names it and the verbs that would rewrite it refuse. The
    // path is the whole of what a person can act on, so it travels with the
    // state.
    if status.unit.foreign {
        let path = match &status.unit.effective_path {
            Some(p) => Some(p.clone()),
            None => None,
        };
        return Some(
            Refusal::named(
                true,
                Key::PreflightForeignDaemonTitle,
                vec![Action::TryAgain, Action::Cancel],
            ).body_in(Key::PreflightForeignDaemonBody, translated).with_sentence(path),
        );
    }
    if status.answers_nothing() {
        return Some(
            Refusal::named(
                true,
                Key::PreflightPreManagementDaemonTitle,
                vec![Action::TryAgain, Action::Cancel],
            ).body_in(Key::PreflightPreManagementDaemonBody, translated),
        );
    }
    if status.alignment == Alignment::PendingRestart {
        return Some(
            Refusal::named(
                true,
                Key::PreflightEngineSkewTitle,
                vec![Action::TryAgain, Action::Cancel],
            ).body_in(Key::PreflightEngineSkewBody, translated),
        );
    }
    None
}

/// The words of the paragraph of the preflight state a typed status names.
pub fn preflight_body_key(status: &ServiceStatus) -> (k: Option<Key>)
    ensures
        k == match preflight_status_plan(*status) {
            Some(plan) => match plan.body {
                BodyPlan::Words(key) => Some(key),
                _ => None::<Key>,
            },
            None => None::<Key>,
        },
        k is Some <==> preflight_status_plan(*status) is Some,
{
    if status.foreign_distribution().is_some() {
        Some(Key::PreflightForeignDistributionBody)
    } else if status.unit.foreign {
        Some(Key::PreflightForeignDaemonBody)
    } else if status.answers_nothing() {
        Some(Key::PreflightPreManagementDaemonBody)
    } else if status.alignment == Alignment::PendingRestart {
        Some(Key::PreflightEngineSkewBody)
    } else {
        None
    }
}

/// The preflight state a typed status names, where it names one.
pub fn preflight_of_status(status: &ServiceStatus) -> (r: Option<Refusal>)
    ensures
        match preflight_status_plan(*status) {
            Some(plan) => r matches Some(refusal) && refusal_holds(refusal, plan),
            None => r is None,
        },
{
    match preflight_body_key(status) {
        Some(key) => {
            let translated = translation(key);
            let r = preflight_of_status_in(status, translated.as_str());
            proof {
                assert(renders(key, rendered(key, translated@)));
            }
            r
        },
        None => None,
    }
}

/// The activation state one failed install names.
pub open spec fn install_refusal_plan(error: ServiceError, user: Seq<char>) -> RefusalPlan {
    match error {
        ServiceError::Failed(words) => with_sentence(unit_inactive_plan(), Some(words@)),
        ServiceError::Refused { code, sentence } => {
            let s = Some(sentence@);
            match service_code_of(code@) {
                ServiceCode::LingerDenied => with_sentence(linger_denied_plan(user), s),
                ServiceCode::LoginctlAbsent => with_sentence(login_manager_absent_plan(false), s),
                ServiceCode::ActivationTimeout => with_sentence(unit_inactive_plan(), s),
                ServiceCode::HealthUnavailable => with_sentence(web_unavailable_plan(), s),
                _ => with_sentence(
                    named_plan(false, Key::SetupBootFailedTitle, seq![Action::TryAgain, Action::ViewLog]),
                    s,
                ),
            }
        },
    }
}

/// The activation state one command line refusal names. `user` is this
/// account's name, which the linger command carries.
pub fn activation_of_service_error(error: &ServiceError, user: &str) -> (r: Refusal)
    ensures
        refusal_holds(r, install_refusal_plan(*error, user@)),
{
    match error {
        ServiceError::Failed(words) => unit_inactive().with_sentence(Some(words.clone())),
        ServiceError::Refused { code, sentence } => {
            let s = Some(sentence.clone());
            match ServiceCode::of(code.as_str()) {
                ServiceCode::LingerDenied => linger_denied(user).with_sentence(s),
                ServiceCode::LoginctlAbsent => login_manager_absent(false).with_sentence(s),
                ServiceCode::ActivationTimeout => unit_inactive().with_sentence(s),
                ServiceCode::HealthUnavailable => web_unavailable().with_sentence(s),
                // A code this build has no state for still stopped the boot,
                // and its own sentence says what happened.
                _ => Refusal::named(
                    false,
                    Key::SetupBootFailedTitle,
                    vec![Action::TryAgain, Action::ViewLog],
                ).with_sentence(s),
            }
        },
    }
}

/// One version window, as a person reads it.
pub open spec fn range_text(minimum: u32, maximum: u32) -> Seq<char> {
    if minimum == maximum {
        decimal(minimum as nat)
    } else {
        decimal(minimum as nat) + seq!['\u{2013}'] + decimal(maximum as nat)
    }
}

/// One version window, as a person reads it: one number when both ends agree.
pub fn range(minimum: u32, maximum: u32) -> (r: String)
    ensures
        r@ == range_text(minimum, maximum),
{
    if minimum == maximum {
        return decimal_string(minimum as u64);
    }
    let low = decimal_string(minimum as u64);
    let high = decimal_string(maximum as u64);
    let r = crate::text::concat3(low.as_str(), "\u{2013}", high.as_str());
    proof {
        reveal_strlit("\u{2013}");
    }
    r
}

/// A published integer detail of a wire error, where it is one that fits.
pub open spec fn detail_u32_of(wire: WireError, field: Seq<char>) -> Option<u32> {
    match detail_at(wire.details@, field) {
        Some(Json::Number { unsigned: Some(n), .. }) => if n <= u32::MAX {
            Some(n as u32)
        } else {
            None
        },
        _ => None,
    }
}

/// The version window the daemon speaks, as a protocol refusal names it,
/// where the error is one about versions at all.
pub open spec fn daemon_window(error: ManagementError) -> Option<(u32, u32)> {
    match error {
        ManagementError::VersionsDoNotOverlap { daemon, .. } => Some(daemon),
        ManagementError::MethodNeedsNewerDaemon { negotiated, .. } => Some(
            (window().min, negotiated),
        ),
        ManagementError::Wire(wire) => if wire.code@ == "client_too_old"@ || wire.code@
            == "daemon_too_old"@ {
            Some(
                (
                    match detail_u32_of(wire, "minimum_version"@) {
                        Some(v) => v,
                        None => window().min,
                    },
                    match detail_u32_of(wire, "maximum_version"@) {
                        Some(v) => v,
                        None => window().max,
                    },
                ),
            )
        } else {
            None
        },
        _ => None,
    }
}

/// The two halves share no version, or a read needs one the daemon does not
/// speak. Both name both ranges and neither retries on an older wire.
pub open spec fn protocol_plan(error: ManagementError) -> Option<RefusalPlan> {
    match daemon_window(error) {
        Some(daemon) => Some(
            RefusalPlan {
                body: BodyPlan::Filled(
                    Key::ActivationProtocolMismatchBody,
                    seq![
                        ("{app_range}"@, range_text(window().min, window().max)),
                        ("{daemon_range}"@, range_text(daemon.0, daemon.1)),
                    ],
                ),
                sentence: Some(sentence_of(error).1),
                ..named_plan(
                    false,
                    Key::ActivationProtocolMismatchTitle,
                    seq![Action::TryAgain, Action::ViewLog],
                )
            },
        ),
        None => None,
    }
}

fn daemon_window_of(error: &ManagementError) -> (r: Option<(u32, u32)>)
    ensures
        r == daemon_window(*error),
{
    let app = supported_range();
    match error {
        ManagementError::VersionsDoNotOverlap { daemon, .. } => Some(*daemon),
        ManagementError::MethodNeedsNewerDaemon { negotiated, .. } => Some((app.min, *negotiated)),
        ManagementError::Wire(wire) => {
            if str_eq(wire.code.as_str(), "client_too_old") || str_eq(
                wire.code.as_str(),
                "daemon_too_old",
            ) {
                let low = match wire.detail_u32("minimum_version") {
                    Some(v) => v,
                    None => app.min,
                };
                let high = match wire.detail_u32("maximum_version") {
                    Some(v) => v,
                    None => app.max,
                };
                Some((low, high))
            } else {
                None
            }
        },
        _ => None,
    }
}

/// A refusal about versions, where the error is one.
pub fn protocol_refusal(error: &ManagementError) -> (r: Option<Refusal>)
    ensures
        match protocol_plan(*error) {
            Some(plan) => r matches Some(refusal) && refusal_holds(refusal, plan),
            None => r is None,
        },
{
    let translated = translation(Key::ActivationProtocolMismatchBody);
    let r = protocol_refusal_in(error, translated.as_str());
    proof {
        if r is Some {
            let plan = protocol_plan(*error)->0;
            assert(renders(Key::ActivationProtocolMismatchBody, rendered(Key::ActivationProtocolMismatchBody, translated@)));
            assert(body_holds(r->0.body@, plan.body));
        }
    }
    r
}

/// What a paragraph reads, given what gettext answered for its words.
pub open spec fn body_reads(body: Seq<char>, plan: BodyPlan, translated: Seq<char>) -> bool {
    match plan {
        BodyPlan::Empty => body.len() == 0,
        BodyPlan::Words(key) => body == rendered(key, translated),
        BodyPlan::Filled(key, values) => body == filled(rendered(key, translated), values),
    }
}

/// The refusal for a daemon that speaks none of this build's versions, given
/// what gettext answered for the words of its paragraph: the paragraph names
/// both windows.
pub fn protocol_refusal_in(error: &ManagementError, translated: &str) -> (r: Option<Refusal>)
    ensures
        match protocol_plan(*error) {
            Some(plan) => r matches Some(refusal) && refusal_holds(refusal, plan) && body_reads(
                refusal.body@,
                plan.body,
                translated@,
            ),
            None => r is None,
        },
{
    let daemon = match daemon_window_of(error) {
        Some(d) => d,
        None => {
            return None;
        },
    };
    let app = supported_range();
    let mut refusal = Refusal::named(
        false,
        Key::ActivationProtocolMismatchTitle,
        vec![Action::TryAgain, Action::ViewLog],
    );
    let app_range = range(app.min, app.max);
    let daemon_range = range(daemon.0, daemon.1);
    let values = [("{app_range}", app_range.as_str()), ("{daemon_range}", daemon_range.as_str())];
    let words = render(Key::ActivationProtocolMismatchBody, translated);
    let ghost t = words@;
    refusal.body = fill_rendered(words, &values);
    refusal.sentence = Some(Sentence::of(error).text);
    proof {
        assert(pair_views(values@) =~= seq![
            ("{app_range}"@, range_text(window().min, window().max)),
            ("{daemon_range}"@, range_text(daemon.0, daemon.1)),
        ]);
        assert(renders(Key::ActivationProtocolMismatchBody, t));
    }
    Some(refusal)
}

/// The read that says what is already set up was refused, in the daemon's
/// own words.
pub open spec fn read_refusal_plan(error: ManagementError) -> RefusalPlan {
    match protocol_plan(error) {
        Some(plan) => plan,
        None => with_sentence(
            named_plan(
                false,
                Key::SetupBootFailedTitle,
                seq![Action::TryAgain, Action::RunDoctor, Action::ViewLog],
            ),
            Some(sentence_of(error).1),
        ),
    }
}

/// The refusal a failed read of the setup state stops on.
pub fn read_refusal(error: &ManagementError) -> (r: Refusal)
    ensures
        refusal_holds(r, read_refusal_plan(*error)),
{
    if let Some(refusal) = protocol_refusal(error) {
        return refusal;
    }
    Refusal::named(
        false,
        Key::SetupBootFailedTitle,
        vec![Action::TryAgain, Action::RunDoctor, Action::ViewLog],
    ).with_sentence(Some(Sentence::of(error).text))
}

/// Why the negotiation failed: an empty version intersection is the one
/// that names both ranges, a unit that keeps dying is a crash loop, and
/// everything else is a unit that is not running.
pub open spec fn negotiation_plan(error: ManagementError, crash_loop: bool) -> RefusalPlan {
    match protocol_plan(error) {
        Some(plan) => plan,
        None => if crash_loop {
            with_sentence(
                with_body(
                    named_plan(false, Key::ActivationCrashLoopTitle, seq![Action::TryAgain, Action::ViewLog]),
                    Key::ActivationCrashLoopBody,
                ),
                Some(sentence_of(error).1),
            )
        } else {
            with_sentence(unit_inactive_plan(), Some(sentence_of(error).1))
        },
    }
}

/// The refusal a failed negotiation stops on, once the unit has been asked
/// whether it keeps dying.
pub fn negotiation_refusal(error: &ManagementError, crash_loop: bool) -> (r: Refusal)
    ensures
        refusal_holds(r, negotiation_plan(*error, crash_loop)),
{
    if let Some(refusal) = protocol_refusal(error) {
        return refusal;
    }
    let sentence = Some(Sentence::of(error).text);
    if crash_loop {
        return Refusal::named(
            false,
            Key::ActivationCrashLoopTitle,
            vec![Action::TryAgain, Action::ViewLog],
        ).body(Key::ActivationCrashLoopBody).with_sentence(sentence);
    }
    unit_inactive().with_sentence(sentence)
}

/// How the wait for the web door ends when the budget runs out: something
/// accepting on the origin and not answering 200 is the port held by something
/// else; nothing accepting at all is the door simply not being up.
pub open spec fn web_wait_plan(last: Health) -> RefusalPlan {
    match last {
        Health::Occupied(line) => with_sentence(
            with_body(
                named_plan(
                    false,
                    Key::ActivationBindFailureTitle,
                    seq![Action::TryAgain, Action::RunDoctor, Action::ViewLog],
                ),
                Key::ActivationBindFailureBody,
            ),
            if line@.len() > 0 {
                Some(line@)
            } else {
                None
            },
        ),
        _ => web_unavailable_plan(),
    }
}

/// The refusal a spent wait for the web door stops on.
pub fn web_wait_refusal(last: Health) -> (r: Refusal)
    ensures
        refusal_holds(r, web_wait_plan(last)),
{
    match last {
        Health::Occupied(status_line) => {
            let sentence = if crate::text::chars_of(status_line.as_str()).len() > 0 {
                Some(status_line)
            } else {
                None
            };
            Refusal::named(
                false,
                Key::ActivationBindFailureTitle,
                vec![Action::TryAgain, Action::RunDoctor, Action::ViewLog],
            ).body(Key::ActivationBindFailureBody).with_sentence(sentence)
        },
        _ => web_unavailable(),
    }
}

/// The published origin could not be read: the web door is not up, and the
/// origin that was published is what is shown.
pub fn unreadable_origin_refusal(origin: &str) -> (r: Refusal)
    ensures
        refusal_holds(r, with_sentence(web_unavailable_plan(), Some(origin@))),
{
    web_unavailable().with_sentence(Some(owned(origin)))
}

/// The budget ran out before the install answered.
pub fn timed_out() -> (r: Refusal)
    ensures
        refusal_holds(r, unit_inactive_plan()),
{
    unit_inactive()
}

/// The person stopped the transaction.
pub fn cancelled() -> (r: Refusal)
    ensures
        refusal_holds(
            r,
            named_plan(false, Key::SetupBootFailedTitle, seq![Action::TryAgain, Action::ViewLog]),
        ),
{
    Refusal::named(false, Key::SetupBootFailedTitle, vec![Action::TryAgain, Action::ViewLog])
}

/// Whether the service manager is restarting a unit that keeps dying.
pub fn is_crash_loop(status: &ServiceStatus) -> (r: bool)
    ensures
        r == ((status.sub_state is Some && status.sub_state.unwrap()@ == "auto-restart"@)
            || status.restart_count >= CRASH_LOOP_RESTARTS),
{
    status.is_restarting() || status.restart_count >= CRASH_LOOP_RESTARTS
}

/// Whether a refusal's evidence should be collected: a refusal before any
/// mutation has no boot to explain, and a cancelled transaction asks nothing
/// more of the command line.
pub fn wants_evidence(refusal: &Refusal, cancelled: bool) -> (r: bool)
    ensures
        r == (!refusal.before_mutation && !cancelled),
{
    !refusal.before_mutation && !cancelled
}

} // verus!
