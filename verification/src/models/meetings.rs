//! Meetings, as data.
//!
//! Two jobs and one detection. Turning the feature on for the first time
//! installs the notetaker and its browser, and the switch is only written once
//! the install has actually landed; signing in is the notetaker's own one-time
//! browser hop. Both re-probe the notetaker when they reach any terminal
//! outcome, including a failure and a cancel, and the probe lands on the one
//! settings model so a pane that was closed in the meantime still sees the
//! answer.
//!
//! Sign-in is state rather than a permanent button, and it is never inferred: a
//! missing `signed_in`, an absent notetaker and a refused probe are all "not
//! answered", which is a different row from "signed out".

use vstd::prelude::*;
use crate::copy::{renders, text, Key};
use crate::management::types::{DetectResult, DetectTarget, JobStatus, JobView, SettingValue};
use crate::models::computer::{row_value_of, toggle_on};
use crate::models::settings_model::{opt_view, Sentence, State};

verus! {

/// The section the daemon publishes the meeting rows under.
pub const SECTION: &'static str = "meetings";

/// The row that turns the feature on.
pub const ENABLED_KEY: &'static str = "meetings_enabled";

/// Where the notetaker's Google sign-in stands.
#[derive(Debug, Clone, PartialEq, Eq)]
pub enum SignInState {
    /// Signed in, with the daemon's own sentence for the account.
    SignedIn(Option<String>),
    /// Present and signed out, with the daemon's own detail where it gave one.
    SignedOut(Option<String>),
    /// Nothing can be said: the notetaker is absent, the probe was refused, or
    /// the daemon reported no answer at all. Not the same row as signed out.
    Unanswered,
}

/// Where the sign-in stands, by one detection: `Some((signed_in, detail))`
/// where it is answered at all.
pub open spec fn sign_in_of(detection: Option<DetectResult>) -> Option<(bool, Option<Seq<char>>)> {
    match detection {
        None => None,
        Some(d) => if !d.present {
            None
        } else {
            match d.signed_in {
                Some(signed_in) => Some((signed_in, opt_view(d.detail))),
                None => None,
            }
        },
    }
}

impl SignInState {
    /// One detection, read.
    pub fn of(detection: Option<&DetectResult>) -> (r: Self)
        ensures
            match sign_in_of(
                match detection {
                    Some(d) => Some(*d),
                    None => None,
                },
            ) {
                None => r is Unanswered,
                Some((true, detail)) => r matches SignInState::SignedIn(d) && opt_view(d) == detail,
                Some((false, detail)) => r matches SignInState::SignedOut(d) && opt_view(d)
                    == detail,
            },
    {
        let detection = match detection {
            Some(d) => d,
            None => {
                return SignInState::Unanswered;
            },
        };
        if !detection.present {
            return SignInState::Unanswered;
        }
        let detail = match &detection.detail {
            Some(d) => Some(d.clone()),
            None => None,
        };
        match detection.signed_in {
            Some(true) => SignInState::SignedIn(detail),
            Some(false) => SignInState::SignedOut(detail),
            None => SignInState::Unanswered,
        }
    }

    /// Whether there is an account to act on at all.
    pub fn is_answered(&self) -> (r: bool)
        ensures
            r == !(*self matches SignInState::Unanswered),
    {
        match self {
            SignInState::Unanswered => false,
            _ => true,
        }
    }
}

/// Where the sign-in stands, as the last probe answered.
pub fn sign_in_state(state: &State) -> (r: SignInState)
    ensures
        r is Unanswered <==> (forall|i: int|
            0 <= i < state.detections@.len() ==> (#[trigger] state.detections@[i]).target
                != DetectTarget::Meetbot) || (exists|i: int|
            0 <= i < state.detections@.len() && (#[trigger] state.detections@[i]).target
                == DetectTarget::Meetbot && sign_in_of(Some(state.detections@[i])) is None
                && forall|j: int|
                0 <= j < i ==> (#[trigger] state.detections@[j]).target != DetectTarget::Meetbot),
{
    SignInState::of(state.detection(DetectTarget::Meetbot))
}

/// Whether the feature is on, as the daemon's own row says.
pub fn enabled(state: &State) -> (r: bool)
    ensures
        r == (row_value_of(*state, SECTION@, ENABLED_KEY@) matches Some(SettingValue::Toggle(true))),
{
    toggle_on(state, SECTION, ENABLED_KEY)
}

/// Whether the notetaker is on this machine, as the last probe answered.
pub fn present(state: &State) -> (r: bool)
    ensures
        r == exists|i: int|
            0 <= i < state.detections@.len() && (#[trigger] state.detections@[i]).target
                == DetectTarget::Meetbot && state.detections@[i].present && forall|j: int|
                0 <= j < i ==> (#[trigger] state.detections@[j]).target != DetectTarget::Meetbot,
{
    match state.detection(DetectTarget::Meetbot) {
        Some(d) => {
            let r = d.present;
            proof {
                if !r {
                    assert forall|i: int|
                        0 <= i < state.detections@.len() && (#[trigger] state.detections@[i]).target
                            == DetectTarget::Meetbot && state.detections@[i].present implies exists|j: int|
                        0 <= j < i && (#[trigger] state.detections@[j]).target == DetectTarget::Meetbot by {
                        let k = choose|k: int|
                            0 <= k < state.detections@.len() && state.detections@[k] == *d
                                && d.target == DetectTarget::Meetbot && forall|j: int|
                                0 <= j < k ==> (#[trigger] state.detections@[j]).target
                                    != DetectTarget::Meetbot;
                        if k < i {
                            assert(state.detections@[k].target == DetectTarget::Meetbot);
                        } else if k == i {
                        } else {
                            assert(state.detections@[i].target != DetectTarget::Meetbot);
                        }
                    }
                }
            }
            r
        },
        None => false,
    }
}

/// What an install's terminal outcome answers: a completed run writes the
/// switch; any other run writes nothing and keeps the daemon's own sentence,
/// or the product's word for a run that stopped without one.
pub open spec fn install_failure_of(job: Option<JobView>) -> Option<Option<Seq<char>>> {
    match job {
        Some(j) => if j.status == JobStatus::Completed {
            None
        } else {
            match j.failure {
                Some(f) => Some(Some(f.sentence@)),
                None => Some(None),
            }
        },
        None => Some(None),
    }
}

/// What the install's terminal outcome answers: `Ok` where the switch is to
/// be written, and the sentence to show otherwise.
pub fn install_outcome(job: Option<&JobView>) -> (r: Result<(), Sentence>)
    ensures
        match install_failure_of(
            match job {
                Some(j) => Some(*j),
                None => None,
            },
        ) {
            None => r is Ok,
            Some(Some(sentence)) => r matches Err(s) && s.code is None && s.reason is None
                && s.text@ == sentence,
            Some(None) => r matches Err(s) && s.code is None && s.reason is None && renders(
                Key::JobCancelled,
                s.text@,
            ),
        },
{
    match job {
        Some(j) => {
            if j.status == JobStatus::Completed {
                return Ok(());
            }
            match &j.failure {
                Some(f) => Err(Sentence { code: None, text: f.sentence.clone(), reason: None }),
                None => Err(Sentence { code: None, text: text(Key::JobCancelled), reason: None }),
            }
        },
        None => Err(Sentence { code: None, text: text(Key::JobCancelled), reason: None }),
    }
}

} // verus!
