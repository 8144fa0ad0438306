//! The activation transaction, as the decisions it takes between answers.
//!
//! The program asks the command line and the daemon, and hands every answer
//! back here; what the answer means, which row of the Starting checklist it
//! moves, and what to ask next is decided here. The order is fixed: refuse
//! before anything is written, install, negotiate, wait for the web door, read
//! what is already set up. A row is marked done only by an answer that says it
//! is, and a transaction that stops names the row it stopped on.

use vstd::prelude::*;
use crate::management::errors::ManagementError;
use crate::management::health::{origin_parts, Health, Origin};
use crate::models::activation::{
    activation_of_service_error, cancelled, install_refusal_plan, named_plan,
    negotiation_plan, negotiation_refusal, preflight_of_refusal, preflight_of_status,
    preflight_refusal_plan, preflight_status_plan, protocol_plan, protocol_refusal,
    read_refusal, read_refusal_plan, refusal_holds, step_of_code, timed_out, unit_inactive_plan,
    unreadable_origin_refusal, web_unavailable_plan, web_wait_plan, web_wait_refusal,
    with_sentence, Action, Outcome, Refusal, RefusalPlan, Step, StepState,
};
use crate::models::onboarding::{fresh_ladder, fresh_steps, mark, marked};
use crate::models::settings_model::{opt_view, Sentence};
use crate::copy::Key;
use crate::service::{service_code_of, ServiceError, ServiceStatus};

verus! {

/// Which answer the transaction is waiting for.
#[derive(Debug, Clone, Copy, PartialEq, Eq, Structural)]
pub enum Stage {
    /// The command line's view of this account, before anything is written.
    Preflight,
    /// The install, inside what is left of the budget.
    Install,
    /// The daemon's `hello`, on the socket under the home the install bound.
    Negotiate,
    /// Whether the unit keeps dying, after a negotiation that failed for
    /// reasons other than versions.
    CrashLoop,
    /// The web door at the origin the daemon published.
    Web,
    /// What this home already has.
    ReadSetup,
    /// Nothing: the transaction is over.
    Over,
}

/// What the program does next on the transaction's behalf.
#[derive(Debug, Clone, PartialEq, Eq)]
pub enum Ask {
    /// Read the command line's view of this account.
    ServiceStatus,
    /// Run the command line's install inside what is left of the budget.
    Install,
    /// Refresh the command line's view, point the client at the socket, and
    /// negotiate.
    Hello,
    /// Read the command line's view again, to learn whether the unit keeps
    /// dying.
    UnitHealth,
    /// Ask the web door at this origin, after one poll interval when `wait`
    /// holds, or stop at the end of the budget.
    Probe { origin: Origin, wait: bool },
    /// Read what this home already has.
    ReadSetup,
    /// It is over: how it ended, and whether the offline evidence of the boot
    /// is collected before the refusal is shown.
    Finish { outcome: Outcome, collect_evidence: bool },
}

/// One activation transaction between answers.
pub struct Transaction {
    /// Which answer it is waiting for.
    pub stage: Stage,
    /// The Starting checklist.
    pub steps: Vec<(Step, StepState)>,
    /// What the web door last answered, while it is being waited for.
    pub last_web: Health,
    /// The negotiation failure, while the unit's health is being asked.
    pub failed_hello: Option<ManagementError>,
}

/// The checklist while the install runs.
pub open spec fn installing_ladder() -> Seq<(Step, StepState)> {
    seq![
        (Step::BindHome, StepState::Working),
        (Step::EnableLinger, StepState::Working),
        (Step::StartService, StepState::Working),
        (Step::VerifyDaemon, StepState::Waiting),
        (Step::ReadSetupState, StepState::Waiting),
    ]
}

/// The checklist while the daemon is being verified.
pub open spec fn verifying_ladder() -> Seq<(Step, StepState)> {
    seq![
        (Step::BindHome, StepState::Done),
        (Step::EnableLinger, StepState::Done),
        (Step::StartService, StepState::Done),
        (Step::VerifyDaemon, StepState::Working),
        (Step::ReadSetupState, StepState::Waiting),
    ]
}

/// The checklist while what is set up is being read.
pub open spec fn reading_ladder() -> Seq<(Step, StepState)> {
    seq![
        (Step::BindHome, StepState::Done),
        (Step::EnableLinger, StepState::Done),
        (Step::StartService, StepState::Done),
        (Step::VerifyDaemon, StepState::Done),
        (Step::ReadSetupState, StepState::Working),
    ]
}

/// The checklist of a transaction that activated: every row done.
pub open spec fn activated_ladder() -> Seq<(Step, StepState)> {
    seq![
        (Step::BindHome, StepState::Done),
        (Step::EnableLinger, StepState::Done),
        (Step::StartService, StepState::Done),
        (Step::VerifyDaemon, StepState::Done),
        (Step::ReadSetupState, StepState::Done),
    ]
}

/// The checklist each stage shows.
pub open spec fn ladder_at(stage: Stage) -> Seq<(Step, StepState)> {
    match stage {
        Stage::Preflight => fresh_ladder(),
        Stage::Install => installing_ladder(),
        Stage::Negotiate | Stage::CrashLoop | Stage::Web => verifying_ladder(),
        Stage::ReadSetup => reading_ladder(),
        Stage::Over => activated_ladder(),
    }
}

/// Whether an ask ends the transaction with a refusal of this plan.
pub open spec fn refuses_with(ask: Ask, plan: RefusalPlan, cancelled: bool) -> bool {
    ask matches Ask::Finish { outcome: Outcome::Refused(r), collect_evidence }
        && refusal_holds(*r, plan) && collect_evidence == (!plan.before_mutation && !cancelled)
}

/// What the preflight asks for next, given the command line's typed status
/// and no refusal of its own: the state the status names, or the install.
pub open spec fn preflight_next(status: ServiceStatus, ask: Ask) -> bool {
    match preflight_status_plan(status) {
        Some(plan) => refuses_with(ask, plan, false),
        None => ask == Ask::Install,
    }
}

/// A status naming a unit Fermix did not write never lets the install run:
/// whatever the preflight asks next finishes the activation, refused before
/// anything was written, so no evidence is collected.
pub proof fn a_foreign_unit_stops_the_activation(status: ServiceStatus, ask: Ask)
    requires
        status.unit.foreign,
        preflight_next(status, ask),
    ensures
        ask !is Install,
        ask matches Ask::Finish { outcome: Outcome::Refused(r), collect_evidence } && !collect_evidence
            && (r.title == Key::PreflightForeignDaemonTitle || r.title
            == Key::PreflightForeignDistributionTitle),
{
    crate::models::activation::a_foreign_unit_is_never_overwritten(status);
}

impl Transaction {
    /// Whether the checklist is the one the stage shows.
    pub open spec fn in_step(&self) -> bool {
        self.stage != Stage::Over ==> self.steps@ == ladder_at(self.stage)
    }

    fn finish(&mut self, refusal: Refusal, was_cancelled: bool) -> (ask: Ask)
        ensures
            final(self).stage == Stage::Over,
            final(self).steps@ == old(self).steps@,
            ask == (Ask::Finish {
                outcome: Outcome::Refused(Box::new(refusal)),
                collect_evidence: !refusal.before_mutation && !was_cancelled,
            }),
    {
        self.stage = Stage::Over;
        let collect_evidence = !refusal.before_mutation && !was_cancelled;
        Ask::Finish { outcome: Outcome::Refused(Box::new(refusal)), collect_evidence }
    }

    /// A transaction that has asked nothing yet, and its first question.
    pub fn begin() -> (r: (Self, Ask))
        ensures
            r.0.stage == Stage::Preflight,
            r.0.in_step(),
            r.1 == Ask::ServiceStatus,
    {
        (
            Transaction {
                stage: Stage::Preflight,
                steps: fresh_steps(),
                last_web: Health::Unreachable,
                failed_hello: None,
            },
            Ask::ServiceStatus,
        )
    }

    /// The command line's view of this account landed: its own refusal, or the
    /// typed status. A named state stops the transaction before anything is
    /// written; otherwise the install runs.
    pub fn preflight_answered(&mut self, refusal: Option<&Sentence>, status: Option<&ServiceStatus>) -> (ask: Ask)
        requires
            old(self).stage == Stage::Preflight,
            old(self).in_step(),
        ensures
            match refusal {
                Some(s) => refuses_with(ask, preflight_refusal_plan(opt_view(s.code), s.text@), false)
                    && final(self).stage == Stage::Over,
                None => match status {
                    Some(st) => preflight_next(*st, ask) && match preflight_status_plan(*st) {
                        Some(plan) => refuses_with(ask, plan, false) && final(self).stage == Stage::Over,
                        None => ask == Ask::Install && final(self).stage == Stage::Install,
                    },
                    None => ask == Ask::Install && final(self).stage == Stage::Install,
                },
            },
            final(self).in_step(),
    {
        if let Some(s) = refusal {
            return self.finish(preflight_of_refusal(s), false);
        }
        if let Some(st) = status {
            if let Some(r) = preflight_of_status(st) {
                return self.finish(r, false);
            }
        }
        mark(&mut self.steps, Step::BindHome, StepState::Working);
        mark(&mut self.steps, Step::EnableLinger, StepState::Working);
        mark(&mut self.steps, Step::StartService, StepState::Working);
        proof {
            assert(self.steps@ =~= installing_ladder());
        }
        self.stage = Stage::Install;
        Ask::Install
    }

    /// The install answered. A result marks every row it answers for done and
    /// the daemon is verified next; a refusal marks the row its own code names
    /// failed and stops there.
    pub fn install_answered(&mut self, result: Result<(), ServiceError>, user: &str) -> (ask: Ask)
        requires
            old(self).stage == Stage::Install,
            old(self).in_step(),
        ensures
            match result {
                Ok(()) => ask == Ask::Hello && final(self).stage == Stage::Negotiate,
                Err(e) => refuses_with(ask, install_refusal_plan(e, user@), false)
                    && final(self).stage == Stage::Over && final(self).steps@ == marked(
                    installing_ladder(),
                    match e {
                        ServiceError::Refused { code, .. } => step_of_code(service_code_of(code@)),
                        ServiceError::Failed(_) => Step::StartService,
                    },
                    StepState::Failed,
                ),
            },
            final(self).in_step(),
    {
        match result {
            Ok(()) => {
                mark(&mut self.steps, Step::BindHome, StepState::Done);
                mark(&mut self.steps, Step::EnableLinger, StepState::Done);
                mark(&mut self.steps, Step::StartService, StepState::Done);
                mark(&mut self.steps, Step::VerifyDaemon, StepState::Working);
                proof {
                    assert(self.steps@ =~= verifying_ladder());
                }
                self.stage = Stage::Negotiate;
                Ask::Hello
            },
            Err(e) => {
                let row = Step::of_install_error(&e);
                mark(&mut self.steps, row, StepState::Failed);
                let refusal = activation_of_service_error(&e, user);
                self.finish(refusal, false)
            },
        }
    }

    /// The budget ran out before the install answered, or while the web door
    /// was being waited for.
    pub fn budget_spent(&mut self) -> (ask: Ask)
        requires
            old(self).stage == Stage::Install || old(self).stage == Stage::Web,
            old(self).in_step(),
        ensures
            old(self).stage == Stage::Install ==> refuses_with(ask, unit_inactive_plan(), false)
                && final(self).steps@ == old(self).steps@,
            old(self).stage == Stage::Web ==> refuses_with(ask, web_wait_plan(old(self).last_web), false)
                && final(self).steps@ == marked(verifying_ladder(), Step::VerifyDaemon, StepState::Failed),
            final(self).stage == Stage::Over,
    {
        if self.stage == Stage::Install {
            return self.finish(timed_out(), false);
        }
        mark(&mut self.steps, Step::VerifyDaemon, StepState::Failed);
        let mut last = Health::Unreachable;
        std::mem::swap(&mut last, &mut self.last_web);
        self.finish(web_wait_refusal(last), false)
    }

    /// The negotiation answered: the origin the daemon published, or its
    /// failure. A version refusal names both windows; any other failure asks
    /// whether the unit keeps dying; an origin this door cannot read stops the
    /// transaction; a readable one is asked.
    pub fn hello_answered(&mut self, result: Result<String, ManagementError>) -> (ask: Ask)
        requires
            old(self).stage == Stage::Negotiate,
            old(self).in_step(),
        ensures
            match result {
                Err(e) => match protocol_plan(e) {
                    Some(plan) => refuses_with(ask, plan, false) && final(self).stage == Stage::Over
                        && final(self).steps@ == marked(verifying_ladder(), Step::VerifyDaemon, StepState::Failed),
                    None => ask == Ask::UnitHealth && final(self).stage == Stage::CrashLoop
                        && final(self).failed_hello == Some(e),
                },
                Ok(origin) => match origin_parts(origin@) {
                    None => refuses_with(ask, with_sentence(web_unavailable_plan(), Some(origin@)), false)
                        && final(self).stage == Stage::Over
                        && final(self).steps@ == marked(verifying_ladder(), Step::VerifyDaemon, StepState::Failed),
                    Some((host, port)) => (ask matches Ask::Probe { origin: o, wait } && o.host@ == host
                        && o.port == port && !wait) && final(self).stage == Stage::Web
                        && final(self).last_web == Health::Unreachable,
                },
            },
            final(self).in_step(),
    {
        match result {
            Err(e) => {
                if let Some(r) = protocol_refusal(&e) {
                    mark(&mut self.steps, Step::VerifyDaemon, StepState::Failed);
                    return self.finish(r, false);
                }
                self.failed_hello = Some(e);
                self.stage = Stage::CrashLoop;
                Ask::UnitHealth
            },
            Ok(origin) => match Origin::parse(origin.as_str()) {
                None => {
                    mark(&mut self.steps, Step::VerifyDaemon, StepState::Failed);
                    self.finish(unreadable_origin_refusal(origin.as_str()), false)
                },
                Some(o) => {
                    self.last_web = Health::Unreachable;
                    self.stage = Stage::Web;
                    Ask::Probe { origin: o, wait: false }
                },
            },
        }
    }

    /// Whether the unit keeps dying landed, after a negotiation that failed
    /// for reasons other than versions.
    pub fn unit_health_answered(&mut self, status: Option<&ServiceStatus>) -> (ask: Ask)
        requires
            old(self).stage == Stage::CrashLoop,
            old(self).failed_hello is Some,
            old(self).in_step(),
        ensures
            refuses_with(
                ask,
                negotiation_plan(
                    old(self).failed_hello.unwrap(),
                    match status {
                        Some(st) => (st.sub_state is Some && st.sub_state.unwrap()@ == "auto-restart"@)
                            || st.restart_count >= crate::models::activation::CRASH_LOOP_RESTARTS,
                        None => false,
                    },
                ),
                false,
            ),
            final(self).stage == Stage::Over,
            final(self).steps@ == marked(verifying_ladder(), Step::VerifyDaemon, StepState::Failed),
    {
        let crash_loop = match status {
            Some(st) => crate::models::activation::is_crash_loop(st),
            None => false,
        };
        let error = match &self.failed_hello {
            Some(e) => e,
            None => {
                proof {
                    assert(false);
                }
                return Ask::ServiceStatus;
            },
        };
        let refusal = negotiation_refusal(error, crash_loop);
        mark(&mut self.steps, Step::VerifyDaemon, StepState::Failed);
        self.finish(refusal, false)
    }

    /// The web door answered once. Live verifies the daemon and moves on to
    /// what is set up; anything else is remembered and asked again after one
    /// interval, until the budget runs out.
    pub fn probe_answered(&mut self, origin: Origin, health: Health) -> (ask: Ask)
        requires
            old(self).stage == Stage::Web,
            old(self).in_step(),
        ensures
            health is Live ==> ask == Ask::ReadSetup && final(self).stage == Stage::ReadSetup,
            !(health is Live) ==> ask == (Ask::Probe { origin: origin, wait: true })
                && final(self).stage == Stage::Web && final(self).last_web == health,
            final(self).in_step(),
    {
        match health {
            Health::Live => {
                mark(&mut self.steps, Step::VerifyDaemon, StepState::Done);
                mark(&mut self.steps, Step::ReadSetupState, StepState::Working);
                proof {
                    assert(self.steps@ =~= reading_ladder());
                }
                self.stage = Stage::ReadSetup;
                Ask::ReadSetup
            },
            other => {
                self.last_web = other;
                Ask::Probe { origin, wait: true }
            },
        }
    }

    /// The person stopped the transaction while the web door was being
    /// waited for. Nothing more is asked of the command line.
    pub fn cancelled_while_waiting(&mut self) -> (ask: Ask)
        requires
            old(self).stage == Stage::Web,
            old(self).in_step(),
        ensures
            refuses_with(
                ask,
                named_plan(false, Key::SetupBootFailedTitle, seq![Action::TryAgain, Action::ViewLog]),
                true,
            ),
            final(self).stage == Stage::Over,
            final(self).steps@ == marked(verifying_ladder(), Step::VerifyDaemon, StepState::Failed),
    {
        mark(&mut self.steps, Step::VerifyDaemon, StepState::Failed);
        self.finish(cancelled(), true)
    }

    /// What this home already has landed: the transaction activated, with
    /// every row done, or the read was refused in the daemon's own words.
    pub fn setup_answered(&mut self, result: Result<(), ManagementError>) -> (ask: Ask)
        requires
            old(self).stage == Stage::ReadSetup,
            old(self).in_step(),
        ensures
            final(self).stage == Stage::Over,
            match result {
                Ok(()) => ask == (Ask::Finish { outcome: Outcome::Activated, collect_evidence: false })
                    && final(self).steps@ == activated_ladder(),
                Err(e) => refuses_with(ask, read_refusal_plan(e), false)
                    && final(self).steps@ == marked(reading_ladder(), Step::ReadSetupState, StepState::Failed),
            },
    {
        match result {
            Ok(()) => {
                mark(&mut self.steps, Step::ReadSetupState, StepState::Done);
                proof {
                    assert(self.steps@ =~= activated_ladder());
                }
                self.stage = Stage::Over;
                Ask::Finish { outcome: Outcome::Activated, collect_evidence: false }
            },
            Err(e) => {
                mark(&mut self.steps, Step::ReadSetupState, StepState::Failed);
                self.finish(read_refusal(&e), false)
            },
        }
    }
}

} // verus!
