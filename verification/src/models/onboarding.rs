//! The Setup assistant, as data.
//!
//! Seven screens, two ladders, one finish gate. Nothing here has a socket, a
//! clock or a window: the activation transaction is `models::activation`, the
//! daemon's answers arrive through the one settings model, and every screen
//! draws what this value says.
//!
//! The finish gate is the daemon's, in one place: the daemon is live, no gating
//! readiness failure remains, and no restart is pending. Closing the assistant
//! never marks completion, so Home goes on saying setup is required until the
//! daemon itself says otherwise.

use vstd::prelude::*;
use crate::copy::Key;
use crate::management::types::{
    ReadinessFailure, SettingValue, SettingsPane, SettingsRow, SetupStateResult,
};
use crate::management::vocabulary::{opt_view, readiness_of, Readiness};
use crate::models::activation::{Refusal, Step, StepState};
use crate::models::computer::row_in;
use crate::models::settings_model::{Sentence, State};
use crate::text::{chars_of, owned, str_eq};

verus! {

/// The section About you writes.
///
/// Named here and nowhere else. This is the one hand-built form that does not
/// read its shape off `settings.get`: the values it collects are exactly the
/// ones whose absence keeps the assistant open, and the assistant exists
/// before the pane that publishes them is worth showing.
pub const PERSONALIZATION: &'static str = "personalization";

/// The person's own name.
pub const NAME_KEY: &'static str = "user_name";

/// Their time zone.
pub const TIMEZONE_KEY: &'static str = "timezone";

/// How Fermix answers.
pub const STYLE_KEY: &'static str = "communication_style";

/// What they call the assistant. It is a personalization row, not a second
/// section: there is no `agent` section on the wire.
pub const ASSISTANT_KEY: &'static str = "bot_name";

/// How many dots there are.
pub const PROGRESS_STEPS: usize = 4;

/// The screens, in the order a person meets them.
#[derive(Debug, Clone, Copy, PartialEq, Eq, Structural)]
pub enum Stage {
    Welcome,
    Starting,
    ConnectAi,
    AboutYou,
    Applying,
    Ready,
    /// Replaces Starting when the transaction ends in one of its named causes.
    BootFailed,
}

/// Which of the four dots a screen lights.
pub open spec fn progress_of(stage: Stage) -> Option<usize> {
    match stage {
        Stage::Welcome | Stage::Starting => Some(0),
        Stage::ConnectAi => Some(1),
        Stage::AboutYou | Stage::Applying => Some(2),
        Stage::Ready => Some(3),
        Stage::BootFailed => None,
    }
}

/// Whether a screen draws the dots at all.
pub open spec fn draws_dots(stage: Stage) -> bool {
    !(stage == Stage::Starting || stage == Stage::Applying || stage == Stage::BootFailed)
}

impl Stage {
    /// The page title.
    pub fn title(self) -> (k: Key)
        ensures
            k == match self {
                Stage::Welcome => Key::SetupWelcomeTitle,
                Stage::Starting => Key::SetupStartingTitle,
                Stage::ConnectAi => Key::SetupConnectAiTitle,
                Stage::AboutYou => Key::SetupAboutYouTitle,
                Stage::Applying => Key::SetupApplyingTitle,
                Stage::Ready => Key::SetupReadyTitle,
                Stage::BootFailed => Key::SetupBootFailedTitle,
            },
    {
        match self {
            Stage::Welcome => Key::SetupWelcomeTitle,
            Stage::Starting => Key::SetupStartingTitle,
            Stage::ConnectAi => Key::SetupConnectAiTitle,
            Stage::AboutYou => Key::SetupAboutYouTitle,
            Stage::Applying => Key::SetupApplyingTitle,
            Stage::Ready => Key::SetupReadyTitle,
            Stage::BootFailed => Key::SetupBootFailedTitle,
        }
    }

    /// The stack page's name.
    pub fn slug(self) -> (r: &'static str)
        ensures
            r@ == match self {
                Stage::Welcome => "welcome"@,
                Stage::Starting => "starting"@,
                Stage::ConnectAi => "connect-ai"@,
                Stage::AboutYou => "about-you"@,
                Stage::Applying => "applying"@,
                Stage::Ready => "ready"@,
                Stage::BootFailed => "boot-failed"@,
            },
    {
        match self {
            Stage::Welcome => "welcome",
            Stage::Starting => "starting",
            Stage::ConnectAi => "connect-ai",
            Stage::AboutYou => "about-you",
            Stage::Applying => "applying",
            Stage::Ready => "ready",
            Stage::BootFailed => "boot-failed",
        }
    }

    /// Which of the four dots is lit, where this screen draws them.
    ///
    /// Four, not seven: the two mechanical stages inherit the step they run
    /// inside, and the failure screen carries no dots at all.
    pub fn progress(self) -> (r: Option<usize>)
        ensures
            r == progress_of(self),
            r matches Some(i) ==> i < PROGRESS_STEPS,
    {
        match self {
            Stage::Welcome | Stage::Starting => Some(0),
            Stage::ConnectAi => Some(1),
            Stage::AboutYou | Stage::Applying => Some(2),
            Stage::Ready => Some(3),
            Stage::BootFailed => None,
        }
    }

    /// Whether the dots are drawn at all. The two ladders show their own
    /// progress row by row, and a second progress indicator over one is two
    /// answers to one question.
    pub fn draws_progress(self) -> (r: bool)
        ensures
            r == draws_dots(self),
    {
        match self {
            Stage::Starting | Stage::Applying | Stage::BootFailed => false,
            _ => true,
        }
    }
}

/// The bar's leading control, which is a different thing on the one screen with
/// a transaction running behind it.
#[derive(Debug, Clone, Copy, PartialEq, Eq, Structural)]
pub enum Leading {
    /// Step back one screen.
    Back,
    /// Leave the assistant. Nothing is marked complete by leaving.
    Leave(Key),
    /// Stop what is running, which is the only way off the ladder.
    Cancel,
}

impl Leading {
    /// The word on the control.
    pub fn key(self) -> (k: Key)
        ensures
            k == match self {
                Leading::Back => Key::ActionBack,
                Leading::Leave(key) => key,
                Leading::Cancel => Key::SetupCancel,
            },
    {
        match self {
            Leading::Back => Key::ActionBack,
            Leading::Leave(key) => key,
            Leading::Cancel => Key::SetupCancel,
        }
    }

    /// Whether Escape reaches it. Stopping a transaction is a decision a person
    /// takes deliberately, so the ladder's way out is a press and nothing else.
    pub fn answers_escape(self) -> (r: bool)
        ensures
            r == !(self matches Leading::Cancel),
    {
        match self {
            Leading::Cancel => false,
            _ => true,
        }
    }
}

/// The one suggested action, where a screen has one.
#[derive(Debug, Clone, Copy, PartialEq, Eq, Structural)]
pub enum Primary {
    Begin,
    Continue,
    Finish,
    Retry,
}

impl Primary {
    /// The word on the button.
    pub fn key(self) -> (k: Key)
        ensures
            k == match self {
                Primary::Begin => Key::SetupWelcomeStart,
                Primary::Continue | Primary::Finish => Key::ActionContinue,
                Primary::Retry => Key::ActionTryAgain,
            },
    {
        match self {
            Primary::Begin => Key::SetupWelcomeStart,
            Primary::Continue | Primary::Finish => Key::ActionContinue,
            Primary::Retry => Key::ActionTryAgain,
        }
    }
}

/// Why an advance or a finish was refused.
///
/// A fact about the last attempt rather than a latch: readiness landing
/// afterwards clears it.
#[derive(Debug, Clone, Copy, PartialEq, Eq, Structural)]
pub enum Block {
    Provider,
    Personalization,
    /// Settings changed and the daemon has not taken them yet. Applying is the
    /// screen that takes it, so the block keeps the person there.
    Restart,
    /// Nothing is answering at all, which the assistant cannot clear from any
    /// of its screens.
    DaemonNotLive,
    /// A gating failure on a pane the assistant has no screen for. It carries
    /// the pane the daemon named, because the sentence alone would be a dead
    /// end.
    Elsewhere(SettingsPane),
}

/// The screen that can clear a block, where the assistant has one.
pub open spec fn block_stage(block: Block) -> Option<Stage> {
    match block {
        Block::Provider => Some(Stage::ConnectAi),
        Block::Personalization => Some(Stage::AboutYou),
        _ => None,
    }
}

impl Block {
    /// What the screen says about it.
    pub fn key(&self) -> (k: Key)
        ensures
            k == match *self {
                Block::Provider => Key::SetupBlockedProvider,
                Block::Personalization => Key::SetupBlockedPersonalization,
                Block::Restart => Key::AttentionRestartPendingTitle,
                Block::DaemonNotLive => Key::HomeStatusNotRunning,
                Block::Elsewhere(_) => Key::SetupBlockedElsewhere,
            },
    {
        match self {
            Block::Provider => Key::SetupBlockedProvider,
            Block::Personalization => Key::SetupBlockedPersonalization,
            Block::Restart => Key::AttentionRestartPendingTitle,
            Block::DaemonNotLive => Key::HomeStatusNotRunning,
            Block::Elsewhere(_) => Key::SetupBlockedElsewhere,
        }
    }

    /// The pane this block sends a person to, where it names one it can route
    /// to.
    pub fn pane(&self) -> (r: Option<SettingsPane>)
        ensures
            r == match *self {
                Block::Elsewhere(pane) => if pane != SettingsPane::Unrecognized {
                    Some(pane)
                } else {
                    None
                },
                _ => None,
            },
    {
        match self {
            Block::Elsewhere(pane) => {
                if *pane != SettingsPane::Unrecognized {
                    Some(*pane)
                } else {
                    None
                }
            },
            _ => None,
        }
    }

    /// The screen that can clear it, where the assistant has one.
    pub fn stage(&self) -> (r: Option<Stage>)
        ensures
            r == block_stage(*self),
    {
        match self {
            Block::Provider => Some(Stage::ConnectAi),
            Block::Personalization => Some(Stage::AboutYou),
            _ => None,
        }
    }
}

/// One row of the Applying ladder.
#[derive(Debug, Clone, Copy, PartialEq, Eq, Structural)]
pub enum ApplyStep {
    Save,
    Restart,
}

impl ApplyStep {
    /// What the row says.
    pub fn key(self) -> (k: Key)
        ensures
            k == match self {
                ApplyStep::Save => Key::SetupStepSaveSetup,
                ApplyStep::Restart => Key::SetupStepRestart,
            },
    {
        match self {
            ApplyStep::Save => Key::SetupStepSaveSetup,
            ApplyStep::Restart => Key::SetupStepRestart,
        }
    }
}

/// The four answers About you collects.
#[derive(Debug, Clone, PartialEq, Eq)]
pub struct Answers {
    pub name: String,
    pub timezone: String,
    pub style: String,
    pub assistant: String,
}

impl Answers {
    /// Four empty answers.
    pub fn empty() -> (a: Self)
        ensures
            a.name@.len() == 0,
            a.timezone@.len() == 0,
            a.style@.len() == 0,
            a.assistant@.len() == 0,
    {
        Answers {
            name: String::new(),
            timezone: String::new(),
            style: String::new(),
            assistant: String::new(),
        }
    }

    /// One write, four keys: the daemon takes them whole or refuses them whole.
    pub fn values(&self) -> (r: Vec<(String, SettingValue)>)
        ensures
            r@.len() == 4,
            r@[0].0@ == NAME_KEY@,
            (r@[0].1 matches SettingValue::Text(t) && t@ == self.name@),
            r@[1].0@ == TIMEZONE_KEY@,
            (r@[1].1 matches SettingValue::Text(t) && t@ == self.timezone@),
            r@[2].0@ == STYLE_KEY@,
            (r@[2].1 matches SettingValue::Text(t) && t@ == self.style@),
            r@[3].0@ == ASSISTANT_KEY@,
            (r@[3].1 matches SettingValue::Text(t) && t@ == self.assistant@),
    {
        vec![
            (owned(NAME_KEY), SettingValue::Text(self.name.clone())),
            (owned(TIMEZONE_KEY), SettingValue::Text(self.timezone.clone())),
            (owned(STYLE_KEY), SettingValue::Text(self.style.clone())),
            (owned(ASSISTANT_KEY), SettingValue::Text(self.assistant.clone())),
        ]
    }
}

/// Everything one assistant screen draws.
#[derive(Debug, Clone, PartialEq, Eq)]
pub struct Snapshot {
    pub stage: Stage,
    pub leading: Option<Leading>,
    pub primary: Option<Primary>,
    pub progress: Option<usize>,
    pub steps: Vec<(Step, StepState)>,
    pub applying: Vec<(ApplyStep, StepState)>,
    pub failure: Option<Refusal>,
    pub block: Option<Block>,
    /// The daemon's own sentence for a refused write.
    pub refusal: Option<Sentence>,
    /// The home a person chose on Welcome, held here and written by nothing but
    /// the command line's own install.
    pub home: Option<String>,
    /// The advisory failures, which Ready renders as one row.
    pub advisory: usize,
    /// Whether the daemon still reports no provider it can answer with. Connect
    /// your AI draws its rows on this and never on a word of its own.
    pub provider_gap: bool,
}

// ---------------------------------------------------------------------------
// The ladders
// ---------------------------------------------------------------------------

/// The activation ladder, with nothing done yet.
pub open spec fn fresh_ladder() -> Seq<(Step, StepState)> {
    seq![
        (Step::BindHome, StepState::Waiting),
        (Step::EnableLinger, StepState::Waiting),
        (Step::StartService, StepState::Waiting),
        (Step::VerifyDaemon, StepState::Waiting),
        (Step::ReadSetupState, StepState::Waiting),
    ]
}

/// The ladder, with nothing done yet.
pub fn fresh_steps() -> (r: Vec<(Step, StepState)>)
    ensures
        r@ == fresh_ladder(),
{
    let r = vec![
        (Step::BindHome, StepState::Waiting),
        (Step::EnableLinger, StepState::Waiting),
        (Step::StartService, StepState::Waiting),
        (Step::VerifyDaemon, StepState::Waiting),
        (Step::ReadSetupState, StepState::Waiting),
    ];
    assert(r@ =~= fresh_ladder());
    r
}

/// The Applying ladder for one run: a write row where it writes, and a
/// restart row where one is owed, in that order.
pub open spec fn applying_ladder(save: bool, restart: bool) -> Seq<(ApplyStep, StepState)> {
    let saved: Seq<(ApplyStep, StepState)> = if save {
        seq![(ApplyStep::Save, StepState::Waiting)]
    } else {
        Seq::empty()
    };
    if restart {
        saved.push((ApplyStep::Restart, StepState::Waiting))
    } else {
        saved
    }
}

/// The Applying ladder: the steps this run actually takes, and no others.
///
/// A row shown for work nobody does is a promise the assistant cannot keep, and
/// it is a promise in both directions: a restart-only entry writes nothing, so
/// it draws no write row to leave waiting forever.
pub fn applying_steps(save: bool, restart: bool) -> (r: Vec<(ApplyStep, StepState)>)
    ensures
        r@ == applying_ladder(save, restart),
{
    let mut steps: Vec<(ApplyStep, StepState)> = Vec::new();
    if save {
        steps.push((ApplyStep::Save, StepState::Waiting));
    }
    if restart {
        steps.push((ApplyStep::Restart, StepState::Waiting));
    }
    proof {
        assert(steps@ =~= applying_ladder(save, restart));
    }
    steps
}

/// A ladder with one row's state moved, where the ladder has that row.
pub open spec fn marked<S>(ladder: Seq<(S, StepState)>, step: S, state: StepState) -> Seq<(S, StepState)> {
    ladder.map_values(|row: (S, StepState)| if row.0 == step { (row.0, state) } else { row })
}

/// Move one row of the activation ladder.
pub fn mark(steps: &mut Vec<(Step, StepState)>, step: Step, state: StepState)
    ensures
        final(steps)@ == marked(old(steps)@, step, state),
{
    let mut i: usize = 0;
    while i < steps.len()
        invariant
            i <= steps@.len(),
            steps@.len() == old(steps)@.len(),
            forall|k: int| 0 <= k < i ==> #[trigger] steps@[k] == marked(old(steps)@, step, state)[k],
            forall|k: int| i <= k < steps@.len() ==> #[trigger] steps@[k] == old(steps)@[k],
        decreases steps@.len() - i,
    {
        if steps[i].0 == step {
            let row = (step, state);
            steps.set(i, row);
        }
        i = i + 1;
    }
    proof {
        assert(steps@ =~= marked(old(steps)@, step, state));
    }
}

/// Move one row of the Applying ladder.
pub fn mark_apply(steps: &mut Vec<(ApplyStep, StepState)>, step: ApplyStep, state: StepState)
    ensures
        final(steps)@ == marked(old(steps)@, step, state),
{
    let mut i: usize = 0;
    while i < steps.len()
        invariant
            i <= steps@.len(),
            steps@.len() == old(steps)@.len(),
            forall|k: int| 0 <= k < i ==> #[trigger] steps@[k] == marked(old(steps)@, step, state)[k],
            forall|k: int| i <= k < steps@.len() ==> #[trigger] steps@[k] == old(steps)@[k],
        decreases steps@.len() - i,
    {
        if steps[i].0 == step {
            let row = (step, state);
            steps.set(i, row);
        }
        i = i + 1;
    }
    proof {
        assert(steps@ =~= marked(old(steps)@, step, state));
    }
}

/// Whether a ladder has a row for a step.
pub open spec fn has_step(ladder: Seq<(ApplyStep, StepState)>, step: ApplyStep) -> bool {
    exists|i: int| 0 <= i < ladder.len() && (#[trigger] ladder[i]).0 == step
}

/// The restart row joins a ladder that was built without one, because a
/// write is one of the things that makes a restart owed.
///
/// Added rather than rebuilt: rebuilding forgets the step that has already
/// finished, which leaves a row that never becomes a tick and a retry that
/// writes again what already landed.
pub fn add_restart_step(steps: &mut Vec<(ApplyStep, StepState)>)
    ensures
        has_step(old(steps)@, ApplyStep::Restart) ==> final(steps)@ == old(steps)@,
        !has_step(old(steps)@, ApplyStep::Restart) ==> final(steps)@ == old(steps)@.push(
            (ApplyStep::Restart, StepState::Waiting),
        ),
{
    let mut i: usize = 0;
    while i < steps.len()
        invariant
            i <= steps@.len(),
            forall|k: int| 0 <= k < i ==> (#[trigger] steps@[k]).0 != ApplyStep::Restart,
        decreases steps@.len() - i,
    {
        if steps[i].0 == ApplyStep::Restart {
            return;
        }
        i = i + 1;
    }
    steps.push((ApplyStep::Restart, StepState::Waiting));
}

/// Whether the write row of an Applying ladder has not landed yet, which is
/// whether a retry writes again.
pub open spec fn save_unfinished(ladder: Seq<(ApplyStep, StepState)>) -> bool {
    exists|i: int|
        0 <= i < ladder.len() && (#[trigger] ladder[i]).0 == ApplyStep::Save && ladder[i].1
            != StepState::Done
}

/// The Applying ladder's own retry re-runs what is left rather than
/// re-writing what already landed: it writes again only where the write row
/// has not finished.
pub fn retry_saves(applying: &Vec<(ApplyStep, StepState)>) -> (r: bool)
    ensures
        r == save_unfinished(applying@),
{
    let mut i: usize = 0;
    while i < applying.len()
        invariant
            i <= applying@.len(),
            forall|k: int|
                0 <= k < i ==> !((#[trigger] applying@[k]).0 == ApplyStep::Save && applying@[k].1
                    != StepState::Done),
        decreases applying@.len() - i,
    {
        if applying[i].0 == ApplyStep::Save && applying[i].1 != StepState::Done {
            return true;
        }
        i = i + 1;
    }
    false
}

/// Whether any row of a ladder failed.
pub open spec fn any_failed(ladder: Seq<(ApplyStep, StepState)>) -> bool {
    exists|i: int| 0 <= i < ladder.len() && (#[trigger] ladder[i]).1 == StepState::Failed
}

/// The bar's leading control, per screen.
pub open spec fn leading_of(stage: Stage) -> Option<Leading> {
    match stage {
        Stage::ConnectAi => Some(Leading::Leave(Key::SetupConnectAiSkip)),
        Stage::Welcome | Stage::BootFailed => Some(Leading::Leave(Key::ActionBack)),
        Stage::AboutYou => Some(Leading::Back),
        Stage::Starting => Some(Leading::Cancel),
        Stage::Applying | Stage::Ready => None,
    }
}

/// The bar's leading control, per screen. There is nothing behind Connect
/// your AI but a transaction that has already run, so its way out is out of
/// the assistant.
pub fn leading(stage: Stage) -> (r: Option<Leading>)
    ensures
        r == leading_of(stage),
{
    match stage {
        Stage::ConnectAi => Some(Leading::Leave(Key::SetupConnectAiSkip)),
        Stage::Welcome | Stage::BootFailed => Some(Leading::Leave(Key::ActionBack)),
        Stage::AboutYou => Some(Leading::Back),
        Stage::Starting => Some(Leading::Cancel),
        Stage::Applying | Stage::Ready => None,
    }
}

/// The bar's one suggested action, per screen: Applying offers a retry only
/// once a row of its ladder has failed.
pub fn primary(stage: Stage, applying: &Vec<(ApplyStep, StepState)>) -> (r: Option<Primary>)
    ensures
        r == match stage {
            Stage::Welcome => Some(Primary::Begin),
            Stage::ConnectAi | Stage::AboutYou => Some(Primary::Continue),
            Stage::Ready => Some(Primary::Finish),
            Stage::Applying => if any_failed(applying@) {
                Some(Primary::Retry)
            } else {
                None
            },
            Stage::BootFailed | Stage::Starting => None,
        },
{
    match stage {
        Stage::Welcome => Some(Primary::Begin),
        Stage::ConnectAi | Stage::AboutYou => Some(Primary::Continue),
        Stage::Ready => Some(Primary::Finish),
        Stage::Applying => {
            let mut i: usize = 0;
            while i < applying.len()
                invariant
                    i <= applying@.len(),
                    stage == Stage::Applying,
                    forall|k: int| 0 <= k < i ==> (#[trigger] applying@[k]).1 != StepState::Failed,
                decreases applying@.len() - i,
            {
                if applying[i].1 == StepState::Failed {
                    assert(applying@[i as int].1 == StepState::Failed);
                    return Some(Primary::Retry);
                }
                i = i + 1;
            }
            None
        },
        Stage::BootFailed | Stage::Starting => None,
    }
}

// ---------------------------------------------------------------------------
// What the daemon says
// ---------------------------------------------------------------------------

/// The block one failure's pane names.
pub open spec fn block_of_pane(pane: SettingsPane) -> Block {
    match pane {
        SettingsPane::Providers => Block::Provider,
        SettingsPane::Personality => Block::Personalization,
        other => Block::Elsewhere(other),
    }
}

/// The failures of one kind (gating or advisory), as blocks, in order.
pub open spec fn blocks_of(failures: Seq<ReadinessFailure>, gating: bool) -> Seq<Block>
    decreases failures.len(),
{
    if failures.len() == 0 {
        Seq::empty()
    } else if failures.last().gating == gating {
        blocks_of(failures.drop_last(), gating).push(block_of_pane(failures.last().pane))
    } else {
        blocks_of(failures.drop_last(), gating)
    }
}

/// The gating failures of a state, as blocks, in the daemon's own order.
pub open spec fn gaps_of_state(state: State) -> Seq<Block> {
    match state.setup {
        Some(setup) => blocks_of(setup.readiness.failures@, true),
        None => Seq::empty(),
    }
}

fn blocks(setup: &SetupStateResult, gating: bool) -> (r: Vec<Block>)
    ensures
        r@ == blocks_of(setup.readiness.failures@, gating),
{
    let failures = &setup.readiness.failures;
    let mut out: Vec<Block> = Vec::new();
    let mut i: usize = 0;
    while i < failures.len()
        invariant
            i <= failures@.len(),
            failures@ == setup.readiness.failures@,
            out@ == blocks_of(failures@.take(i as int), gating),
        decreases failures@.len() - i,
    {
        proof {
            assert(failures@.take(i + 1).drop_last() =~= failures@.take(i as int));
        }
        if failures[i].gating == gating {
            let block = match failures[i].pane {
                SettingsPane::Providers => Block::Provider,
                SettingsPane::Personality => Block::Personalization,
                other => Block::Elsewhere(other),
            };
            out.push(block);
        }
        i = i + 1;
    }
    proof {
        assert(failures@.take(failures@.len() as int) =~= failures@);
    }
    out
}

/// The gating failures, in the daemon's own order.
pub fn gaps(state: &State) -> (r: Vec<Block>)
    ensures
        r@ == gaps_of_state(*state),
{
    match &state.setup {
        Some(setup) => blocks(setup, true),
        None => Vec::new(),
    }
}

/// The panes of the advisory failures, in order.
pub open spec fn advisory_panes(failures: Seq<ReadinessFailure>) -> Seq<SettingsPane>
    decreases failures.len(),
{
    if failures.len() == 0 {
        Seq::empty()
    } else if !failures.last().gating {
        advisory_panes(failures.drop_last()).push(failures.last().pane)
    } else {
        advisory_panes(failures.drop_last())
    }
}

/// The advisory failures, which never stop the assistant finishing.
pub fn advisory(state: &State) -> (r: Vec<SettingsPane>)
    ensures
        r@ == match state.setup {
            Some(setup) => advisory_panes(setup.readiness.failures@),
            None => Seq::empty(),
        },
{
    let setup = match &state.setup {
        Some(setup) => setup,
        None => {
            return Vec::new();
        },
    };
    let failures = &setup.readiness.failures;
    let mut out: Vec<SettingsPane> = Vec::new();
    let mut i: usize = 0;
    while i < failures.len()
        invariant
            i <= failures@.len(),
            out@ == advisory_panes(failures@.take(i as int)),
        decreases failures@.len() - i,
    {
        proof {
            assert(failures@.take(i + 1).drop_last() =~= failures@.take(i as int));
        }
        if !failures[i].gating {
            out.push(failures[i].pane);
        }
        i = i + 1;
    }
    proof {
        assert(failures@.take(failures@.len() as int) =~= failures@);
    }
    out
}

/// Which half of the finish gate is missing, or nothing once it holds: a
/// daemon that is not live, then the first gating failure, then a restart
/// that is owed.
pub open spec fn blocked_of(state: State) -> Option<Block> {
    if state.reachable != Some(true) {
        Some(Block::DaemonNotLive)
    } else if gaps_of_state(state).len() > 0 {
        Some(gaps_of_state(state)[0])
    } else if state.restart.required {
        Some(Block::Restart)
    } else {
        None
    }
}

/// Which half of the finish gate is missing, or nothing once it holds.
pub fn blocked(state: &State) -> (r: Option<Block>)
    ensures
        r == blocked_of(*state),
{
    if state.reachable != Some(true) {
        return Some(Block::DaemonNotLive);
    }
    let found = gaps(state);
    if found.len() > 0 {
        return Some(found[0]);
    }
    if state.restart.required {
        return Some(Block::Restart);
    }
    None
}

/// The screen of the first gap the assistant has a screen for.
pub open spec fn first_stage_in(gaps: Seq<Block>) -> Option<Stage>
    decreases gaps.len(),
{
    if gaps.len() == 0 {
        None
    } else {
        match block_stage(gaps[0]) {
            Some(stage) => Some(stage),
            None => first_stage_in(gaps.drop_first()),
        }
    }
}

fn first_stage(gaps: &Vec<Block>) -> (r: Option<Stage>)
    ensures
        r == first_stage_in(gaps@),
{
    let mut i: usize = 0;
    proof {
        assert(gaps@.skip(0) =~= gaps@);
    }
    while i < gaps.len()
        invariant
            i <= gaps@.len(),
            first_stage_in(gaps@) == first_stage_in(gaps@.skip(i as int)),
        decreases gaps@.len() - i,
    {
        proof {
            assert(gaps@.skip(i as int).drop_first() =~= gaps@.skip(i + 1));
            assert(gaps@.skip(i as int)[0] == gaps@[i as int]);
        }
        match gaps[i].stage() {
            Some(stage) => {
                return Some(stage);
            },
            None => {},
        }
        i = i + 1;
    }
    proof {
        assert(gaps@.skip(i as int) =~= Seq::<Block>::empty());
    }
    None
}

/// The screen the daemon's own readiness says is the first one still owed.
pub open spec fn first_incomplete_of(state: State) -> Stage {
    if state.reachable != Some(true) {
        Stage::Welcome
    } else {
        match first_stage_in(gaps_of_state(state)) {
            Some(stage) => stage,
            None => if state.restart.required {
                Stage::Applying
            } else {
                Stage::Ready
            },
        }
    }
}

/// The screen the daemon's own readiness says is the first one still owed,
/// which is where Home's Continue setup opens the assistant.
pub fn first_incomplete(state: &State) -> (r: Stage)
    ensures
        r == first_incomplete_of(*state),
{
    if state.reachable != Some(true) {
        return Stage::Welcome;
    }
    match first_stage(&gaps(state)) {
        Some(stage) => stage,
        None => {
            if state.restart.required {
                Stage::Applying
            } else {
                Stage::Ready
            }
        },
    }
}

/// Where a finished boot lands.
pub open spec fn landing_of(state: State) -> Stage {
    match first_stage_in(gaps_of_state(state)) {
        Some(stage) => stage,
        None => if gaps_of_state(state).len() > 0 {
            Stage::Ready
        } else if state.restart.required {
            Stage::Applying
        } else {
            Stage::Ready
        },
    }
}

/// Where a finished boot lands: the first gap with a screen, a home that
/// only needs a restart on the screen that takes it, and a configured home
/// straight on Ready.
pub fn landing(state: &State) -> (r: Stage)
    ensures
        r == landing_of(*state),
{
    let found = gaps(state);
    if let Some(stage) = first_stage(&found) {
        return stage;
    }
    if found.len() > 0 {
        return Stage::Ready;
    }
    if state.restart.required {
        return Stage::Applying;
    }
    Stage::Ready
}

/// Whether the daemon reports this home as ready.
pub fn is_ready(state: &State) -> (r: bool)
    ensures
        r == match state.setup {
            Some(setup) => readiness_of(opt_view(setup.readiness.status)) == Readiness::Ready,
            None => false,
        },
{
    match &state.setup {
        Some(setup) => {
            let status = match &setup.readiness.status {
                Some(s) => Some(s.as_str()),
                None => None,
            };
            Readiness::parse(status) == Readiness::Ready
        },
        None => false,
    }
}

/// What leaving Connect your AI does: it is the one required decision, so
/// nothing walks past this screen while the daemon reports no provider.
pub fn leave_connect_ai(state: &State) -> (r: Result<Stage, Block>)
    ensures
        gaps_of_state(*state).contains(Block::Provider) ==> r == Err::<Stage, Block>(
            Block::Provider,
        ),
        !gaps_of_state(*state).contains(Block::Provider) ==> r == Ok::<Stage, Block>(
            Stage::AboutYou,
        ),
{
    let found = gaps(state);
    let mut i: usize = 0;
    while i < found.len()
        invariant
            i <= found@.len(),
            found@ == gaps_of_state(*state),
            forall|k: int| 0 <= k < i ==> found@[k] != Block::Provider,
        decreases found@.len() - i,
    {
        if found[i] == Block::Provider {
            assert(found@[i as int] == Block::Provider);
            return Err(Block::Provider);
        }
        i = i + 1;
    }
    Ok(Stage::AboutYou)
}

/// The finish gate holds exactly when the daemon is live, no gating failure
/// remains and no restart is owed; and a refused finish sends a person to the
/// screen that can clear the block, where the assistant has one.
pub proof fn the_finish_gate_is_the_daemons(state: State)
    ensures
        blocked_of(state) is None <==> (state.reachable == Some(true) && gaps_of_state(state).len()
            == 0 && !state.restart.required),
        blocked_of(state) matches Some(Block::Provider) ==> block_stage(Block::Provider) == Some(
            Stage::ConnectAi,
        ),
        blocked_of(state) is None ==> first_incomplete_of(state) == Stage::Ready,
{
    if blocked_of(state) is None {
        assert(gaps_of_state(state).len() == 0);
        assert(first_stage_in(gaps_of_state(state)) is None);
    }
}

proof fn first_stage_at(gaps: Seq<Block>, i: int)
    requires
        0 <= i < gaps.len(),
        block_stage(gaps[i]) is Some,
        forall|j: int| 0 <= j < i ==> block_stage(#[trigger] gaps[j]) is None,
    ensures
        first_stage_in(gaps) == block_stage(gaps[i]),
    decreases i,
{
    if i > 0 {
        assert forall|j: int| 0 <= j < i - 1 implies block_stage(#[trigger] gaps.drop_first()[j]) is None by {
            assert(gaps.drop_first()[j] == gaps[j + 1]);
        }
        assert(gaps.drop_first()[i - 1] == gaps[i]);
        first_stage_at(gaps.drop_first(), i - 1);
    }
}

proof fn no_first_stage(gaps: Seq<Block>)
    requires
        forall|j: int| 0 <= j < gaps.len() ==> block_stage(#[trigger] gaps[j]) is None,
    ensures
        first_stage_in(gaps) is None,
    decreases gaps.len(),
{
    if gaps.len() > 0 {
        assert forall|j: int| 0 <= j < gaps.len() - 1 implies block_stage(#[trigger] gaps.drop_first()[j]) is None by {
            assert(gaps.drop_first()[j] == gaps[j + 1]);
        }
        no_first_stage(gaps.drop_first());
    }
}

/// The screen still owed follows the daemon: a daemon that is not live asks
/// for the welcome; otherwise the screen of the first gating failure the
/// assistant has a screen for; with no such failure, the restart that is
/// owed; and only then is setup ready. In particular a live daemon with a
/// missing provider opens the provider's screen, and a ready assistant means
/// the daemon is live, no restart is owed, and no gating failure has a screen.
pub proof fn the_first_screen_owed_clears_the_first_gap(state: State, i: int)
    ensures
        state.reachable != Some(true) ==> first_incomplete_of(state) == Stage::Welcome,
        (state.reachable == Some(true) && 0 <= i < gaps_of_state(state).len() && block_stage(
            gaps_of_state(state)[i],
        ) is Some && forall|j: int|
            0 <= j < i ==> block_stage(#[trigger] gaps_of_state(state)[j]) is None)
            ==> first_incomplete_of(state) == block_stage(gaps_of_state(state)[i])->0,
        (state.reachable == Some(true) && 0 <= i < gaps_of_state(state).len()
            && gaps_of_state(state)[i] == Block::Provider && forall|j: int|
            0 <= j < i ==> block_stage(#[trigger] gaps_of_state(state)[j]) is None)
            ==> first_incomplete_of(state) == Stage::ConnectAi,
        first_incomplete_of(state) == Stage::Ready ==> state.reachable == Some(true)
            && !state.restart.required && forall|j: int|
            0 <= j < gaps_of_state(state).len() ==> block_stage(#[trigger] gaps_of_state(state)[j])
                is None,
        (state.reachable == Some(true) && state.restart.required && forall|j: int|
            0 <= j < gaps_of_state(state).len() ==> block_stage(#[trigger] gaps_of_state(state)[j])
                is None) ==> first_incomplete_of(state) == Stage::Applying,
{
    let gaps = gaps_of_state(state);
    if 0 <= i < gaps.len() && block_stage(gaps[i]) is Some && forall|j: int|
        0 <= j < i ==> block_stage(#[trigger] gaps[j]) is None {
        first_stage_at(gaps, i);
    }
    if forall|j: int| 0 <= j < gaps.len() ==> block_stage(#[trigger] gaps[j]) is None {
        no_first_stage(gaps);
    }
    if first_incomplete_of(state) == Stage::Ready && state.reachable == Some(true) {
        if exists|j: int| 0 <= j < gaps.len() && block_stage(#[trigger] gaps[j]) is Some {
            let k = choose|j: int| 0 <= j < gaps.len() && block_stage(#[trigger] gaps[j]) is Some;
            first_stage_is_some(gaps, k);
        }
    }
}

proof fn first_stage_is_some(gaps: Seq<Block>, k: int)
    requires
        0 <= k < gaps.len(),
        block_stage(gaps[k]) is Some,
    ensures
        first_stage_in(gaps) is Some,
        first_stage_in(gaps) matches Some(st) ==> st != Stage::Ready && st != Stage::Applying,
    decreases k,
{
    if block_stage(gaps[0]) is None {
        assert(gaps.drop_first()[k - 1] == gaps[k]);
        first_stage_is_some(gaps.drop_first(), k - 1);
    }
}

// ---------------------------------------------------------------------------
// Answers
// ---------------------------------------------------------------------------

/// The first of two answers that says something.
pub open spec fn first_of_spec(daemon: Seq<char>, platform: Seq<char>) -> Seq<char> {
    if daemon.len() == 0 {
        platform
    } else {
        daemon
    }
}

/// The first of two answers that says something: what the daemon already
/// holds wins over what this computer says of itself.
pub fn first_of(daemon: String, platform: String) -> (r: String)
    ensures
        r@ == first_of_spec(daemon@, platform@),
{
    if chars_of(daemon.as_str()).len() == 0 {
        platform
    } else {
        daemon
    }
}

/// A row's value as the one text it holds: a text row's words, and nothing for
/// any other kind of value.
pub open spec fn value_text_of(value: SettingValue) -> Seq<char> {
    match value {
        SettingValue::Text(t) => t@,
        _ => Seq::empty(),
    }
}

/// What the daemon holds under one key, as text, where it publishes the row.
pub open spec fn daemon_answer(rows: Seq<SettingsRow>, key: Seq<char>) -> Seq<char> {
    match row_in(rows, key) {
        Some(row) => value_text_of(row.value),
        None => Seq::empty(),
    }
}

fn daemon_text(rows: &Vec<SettingsRow>, key: &str) -> (r: String)
    ensures
        r@ == daemon_answer(rows@, key@),
{
    let mut i: usize = 0;
    proof {
        assert(rows@.skip(0) =~= rows@);
    }
    while i < rows.len()
        invariant
            i <= rows@.len(),
            row_in(rows@, key@) == row_in(rows@.skip(i as int), key@),
        decreases rows@.len() - i,
    {
        proof {
            assert(rows@.skip(i as int).drop_first() =~= rows@.skip(i + 1));
            assert(rows@.skip(i as int)[0] == rows@[i as int]);
        }
        if str_eq(rows[i].key.as_str(), key) {
            return match &rows[i].value {
                SettingValue::Text(t) => t.clone(),
                _ => String::new(),
            };
        }
        i = i + 1;
    }
    proof {
        assert(rows@.skip(i as int) =~= Seq::<SettingsRow>::empty());
    }
    String::new()
}

/// The style a fresh home starts on: the middle option the daemon published
/// for the style row, where it published any.
pub open spec fn default_style_of(rows: Seq<SettingsRow>) -> Seq<char> {
    match row_in(rows, STYLE_KEY@) {
        Some(row) => if row.options@.len() > 0 {
            row.options@[(row.options@.len() / 2) as int].value@
        } else {
            Seq::empty()
        },
        None => Seq::empty(),
    }
}

fn default_style(rows: &Vec<SettingsRow>) -> (r: String)
    ensures
        r@ == default_style_of(rows@),
{
    let mut i: usize = 0;
    proof {
        assert(rows@.skip(0) =~= rows@);
    }
    while i < rows.len()
        invariant
            i <= rows@.len(),
            row_in(rows@, STYLE_KEY@) == row_in(rows@.skip(i as int), STYLE_KEY@),
        decreases rows@.len() - i,
    {
        proof {
            assert(rows@.skip(i as int).drop_first() =~= rows@.skip(i + 1));
            assert(rows@.skip(i as int)[0] == rows@[i as int]);
        }
        if str_eq(rows[i].key.as_str(), STYLE_KEY) {
            let options = &rows[i].options;
            if options.len() == 0 {
                return String::new();
            }
            return options[options.len() / 2].value.clone();
        }
        i = i + 1;
    }
    proof {
        assert(rows@.skip(i as int) =~= Seq::<SettingsRow>::empty());
    }
    String::new()
}

/// The four answers filled from what the daemon already holds, and from this
/// account where it holds nothing. Zero typing is a valid answer.
/// `account_name` and `timezone` are what this computer says of itself.
pub fn prefill(rows: &Vec<SettingsRow>, account_name: String, timezone: String) -> (a: Answers)
    ensures
        a.name@ == first_of_spec(daemon_answer(rows@, NAME_KEY@), account_name@),
        a.timezone@ == first_of_spec(daemon_answer(rows@, TIMEZONE_KEY@), timezone@),
        a.style@ == first_of_spec(daemon_answer(rows@, STYLE_KEY@), default_style_of(rows@)),
        a.assistant@ == daemon_answer(rows@, ASSISTANT_KEY@),
{
    Answers {
        name: first_of(daemon_text(rows, NAME_KEY), account_name),
        timezone: first_of(daemon_text(rows, TIMEZONE_KEY), timezone),
        style: first_of(daemon_text(rows, STYLE_KEY), default_style(rows)),
        assistant: daemon_text(rows, ASSISTANT_KEY),
    }
}

/// This account's own name: the real name where the platform reports one,
/// and the login name otherwise.
pub fn account_name(real_name: String, login: String) -> (r: String)
    ensures
        r@ == if real_name@.len() == 0 || real_name@ == "Unknown"@ {
            login@
        } else {
            real_name@
        },
{
    if chars_of(real_name.as_str()).len() == 0 || str_eq(real_name.as_str(), "Unknown") {
        login
    } else {
        real_name
    }
}

} // verus!
