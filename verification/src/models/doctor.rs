//! Doctor, as data.
//!
//! One session at a time: started on entering the surface at local scope,
//! polled until it is terminal, cancelled on leaving. The eight statuses, the
//! summaries, the remediations and the evidence are all the daemon's; what this
//! file owns is the bound on the poll, the reading of a check's name out of
//! the evidence the daemon published beside it, and what the surface holds
//! between reads.

use vstd::prelude::*;
use crate::copy::Key;
use crate::management::errors::{detail_at, detail_in, ManagementError};
use crate::management::types::{
    CheckStatus, DoctorCheck, DoctorSession, DoctorSessionStatus, Json, Remediation,
};
use crate::models::polling::{cap_for, capped_ticks};
use crate::models::settings_model::{sentence_of, sentence_view, Sentence};
use crate::text::{owned, trim, trimmed};

verus! {

/// How often a running session is re-read, in milliseconds.
pub const POLL_INTERVAL_MS: u64 = 500;

/// The hard ceiling on polls, whatever the daemon's budget says.
pub const POLL_CAP: u32 = 2000;

/// The polls added on top of the daemon's own budget, so a run that finishes at
/// its deadline is still read once after it does.
pub const POLL_SLACK: u32 = 20;

/// What a check is called.
#[derive(Debug, Clone, PartialEq, Eq)]
pub enum CheckName {
    /// The daemon's own name for the check, from the evidence it published.
    Words(String),
    /// The check's identifier, where the daemon published no name. Shown as an
    /// identifier rather than dressed up as a sentence.
    Identifier(String),
}

/// One check, as a row.
#[derive(Debug, Clone, PartialEq, Eq)]
pub struct CheckRow {
    pub id: String,
    pub name: CheckName,
    pub summary: String,
    pub status: CheckStatus,
    pub remediation: Option<Remediation>,
    /// The evidence, flattened to labelled lines.
    pub evidence: Vec<(String, String)>,
}

/// Whether a status carries something to act on.
pub open spec fn status_needs_action(status: CheckStatus) -> bool {
    status == CheckStatus::Failed || status == CheckStatus::Warning || status
        == CheckStatus::Unavailable
}

impl CheckRow {
    /// Whether this row carries something to act on.
    pub fn needs_action(&self) -> (r: bool)
        ensures
            r == status_needs_action(self.status),
    {
        match self.status {
            CheckStatus::Failed | CheckStatus::Warning | CheckStatus::Unavailable => true,
            _ => false,
        }
    }
}

/// The word each status is shown with.
pub open spec fn status_word_of(status: CheckStatus) -> Key {
    match status {
        CheckStatus::Passed => Key::DoctorStatusPassed,
        CheckStatus::Warning => Key::DoctorStatusWarning,
        CheckStatus::Failed => Key::DoctorStatusFailed,
        CheckStatus::NotApplicable => Key::DoctorStatusNotApplicable,
        CheckStatus::Unavailable => Key::DoctorStatusUnavailable,
        CheckStatus::Skipped => Key::DoctorStatusSkipped,
        CheckStatus::Cancelled => Key::DoctorStatusCancelled,
        CheckStatus::TimedOut => Key::DoctorStatusTimedOut,
        CheckStatus::Unrecognized => Key::HomeRuntimeUnavailable,
    }
}

/// The eight status words the catalogue renders for the eight wire statuses.
///
/// An atom is not a word, and one has to exist somewhere: the daemon publishes
/// `passed`, and the word "Passed" is the product's rendering of it. A status
/// a newer daemon mints has no word here; the pill and the word both say so
/// rather than picking a neighbour's.
pub fn status_word(status: CheckStatus) -> (k: Key)
    ensures
        k == status_word_of(status),
{
    match status {
        CheckStatus::Passed => Key::DoctorStatusPassed,
        CheckStatus::Warning => Key::DoctorStatusWarning,
        CheckStatus::Failed => Key::DoctorStatusFailed,
        CheckStatus::NotApplicable => Key::DoctorStatusNotApplicable,
        CheckStatus::Unavailable => Key::DoctorStatusUnavailable,
        CheckStatus::Skipped => Key::DoctorStatusSkipped,
        CheckStatus::Cancelled => Key::DoctorStatusCancelled,
        CheckStatus::TimedOut => Key::DoctorStatusTimedOut,
        CheckStatus::Unrecognized => Key::HomeRuntimeUnavailable,
    }
}

/// The one-letter pill beside the word, so status is never colour alone.
pub fn status_pill(status: CheckStatus) -> (k: Key)
    ensures
        k == match status {
            CheckStatus::Passed => Key::DoctorPillPassed,
            CheckStatus::Warning => Key::DoctorPillWarning,
            CheckStatus::Failed => Key::DoctorPillFailed,
            CheckStatus::NotApplicable => Key::DoctorPillNotApplicable,
            CheckStatus::Unavailable => Key::DoctorPillUnavailable,
            CheckStatus::Skipped => Key::DoctorPillSkipped,
            CheckStatus::Cancelled => Key::DoctorPillCancelled,
            CheckStatus::TimedOut => Key::DoctorPillTimedOut,
            CheckStatus::Unrecognized => Key::DoctorPillUnavailable,
        },
{
    match status {
        CheckStatus::Passed => Key::DoctorPillPassed,
        CheckStatus::Warning => Key::DoctorPillWarning,
        CheckStatus::Failed => Key::DoctorPillFailed,
        CheckStatus::NotApplicable => Key::DoctorPillNotApplicable,
        CheckStatus::Unavailable => Key::DoctorPillUnavailable,
        CheckStatus::Skipped => Key::DoctorPillSkipped,
        CheckStatus::Cancelled => Key::DoctorPillCancelled,
        CheckStatus::TimedOut => Key::DoctorPillTimedOut,
        CheckStatus::Unrecognized => Key::DoctorPillUnavailable,
    }
}

/// The cap for one run: the daemon's own budget in ticks, plus a little, and
/// never more than the published ceiling.
pub fn poll_cap(budget_ms: u64) -> (r: u32)
    ensures
        r == capped_ticks(budget_ms, POLL_INTERVAL_MS, POLL_SLACK, POLL_CAP),
        r <= POLL_CAP,
{
    cap_for(budget_ms, POLL_INTERVAL_MS, POLL_SLACK, POLL_CAP)
}

/// What a check is called, as characters: its own published name where it
/// has a non-blank one, trimmed, and its identifier otherwise.
pub open spec fn name_of_check(check: DoctorCheck) -> (bool, Seq<char>) {
    match detail_at(check.evidence@, "source_name"@) {
        Some(Json::Text(name)) => if trimmed(name@).len() > 0 {
            (true, trimmed(name@))
        } else {
            (false, check.id@)
        },
        _ => (false, check.id@),
    }
}

/// The daemon's own name for a check.
///
/// The wire carries an identifier, a status and a summary, and the name sits in
/// the evidence the engine publishes beside them. Where it is absent the row
/// leads with the identifier, visibly an identifier, rather than with a name
/// this application made up for it.
pub fn name_of(check: &DoctorCheck) -> (r: CheckName)
    ensures
        match r {
            CheckName::Words(w) => name_of_check(*check) == (true, w@),
            CheckName::Identifier(id) => name_of_check(*check) == (false, id@),
        },
{
    let named = match detail_in(&check.evidence, "source_name") {
        Some(Json::Text(name)) => {
            let t = trim(name.as_str());
            if crate::text::chars_of(t.as_str()).len() > 0 {
                Some(t)
            } else {
                None
            }
        },
        _ => None,
    };
    proof {
        reveal_strlit("source_name");
    }
    match named {
        Some(name) => CheckName::Words(name),
        None => CheckName::Identifier(check.id.clone()),
    }
}

/// One evidence value as the line shows it: text as itself, null as nothing,
/// and anything else as the JSON written for it.
pub open spec fn scalar_of(value: Json) -> Seq<char> {
    match value {
        Json::Text(t) => t@,
        Json::Null => Seq::empty(),
        Json::Bool(b) => if b {
            "true"@
        } else {
            "false"@
        },
        Json::Number { written, .. } => written@,
        Json::Nested(text) => text@,
    }
}

fn scalar(value: &Json) -> (r: String)
    ensures
        r@ == scalar_of(*value),
{
    match value {
        Json::Text(t) => t.clone(),
        Json::Null => String::new(),
        Json::Bool(b) => if *b {
            owned("true")
        } else {
            owned("false")
        },
        Json::Number { written, .. } => written.clone(),
        Json::Nested(text) => text.clone(),
    }
}

/// The evidence, as labelled lines. A nested value keeps its own shape rather
/// than being flattened into something that reads like a sentence.
pub fn evidence_lines(evidence: &Vec<(String, Json)>) -> (r: Vec<(String, String)>)
    ensures
        r@.len() == evidence@.len(),
        forall|i: int|
            0 <= i < r@.len() ==> (#[trigger] r@[i]).0@ == evidence@[i].0@ && r@[i].1@ == scalar_of(
                evidence@[i].1,
            ),
{
    let mut lines: Vec<(String, String)> = Vec::new();
    let mut i: usize = 0;
    while i < evidence.len()
        invariant
            i <= evidence@.len(),
            lines@.len() == i,
            forall|k: int|
                0 <= k < i ==> (#[trigger] lines@[k]).0@ == evidence@[k].0@ && lines@[k].1@
                    == scalar_of(evidence@[k].1),
        decreases evidence@.len() - i,
    {
        lines.push((evidence[i].0.clone(), scalar(&evidence[i].1)));
        i = i + 1;
    }
    lines
}

/// One check, as a row.
pub fn row_of(check: &DoctorCheck) -> (r: CheckRow)
    ensures
        r.id@ == check.id@,
        match r.name {
            CheckName::Words(w) => name_of_check(*check) == (true, w@),
            CheckName::Identifier(id) => name_of_check(*check) == (false, id@),
        },
        r.summary@ == check.summary@,
        r.status == check.status,
        r.evidence@.len() == check.evidence@.len(),
        forall|i: int|
            0 <= i < r.evidence@.len() ==> (#[trigger] r.evidence@[i]).0@ == check.evidence@[i].0@
                && r.evidence@[i].1@ == scalar_of(check.evidence@[i].1),
{
    CheckRow {
        id: check.id.clone(),
        name: name_of(check),
        summary: check.summary.clone(),
        status: check.status,
        remediation: check.remediation.clone(),
        evidence: evidence_lines(&check.evidence),
    }
}

/// What Doctor holds between reads.
pub struct DoctorState {
    /// The session as it was last read.
    pub session: Option<DoctorSession>,
    /// The daemon's own refusal, where the last start or read was refused.
    pub refusal: Option<Sentence>,
    /// Whether a start is on its way.
    pub starting: bool,
}

/// Whether a run is in progress: a running session, or a start on its way.
pub open spec fn doctor_running(s: DoctorState) -> bool {
    (s.session matches Some(session) && session.status == DoctorSessionStatus::Running)
        || s.starting
}

impl DoctorState {
    /// Nothing started yet.
    pub fn new() -> (s: Self)
        ensures
            s.session is None,
            s.refusal is None,
            !s.starting,
    {
        DoctorState { session: None, refusal: None, starting: false }
    }

    /// Whether a run is in progress.
    pub fn is_running(&self) -> (r: bool)
        ensures
            r == doctor_running(*self),
    {
        let running = match &self.session {
            Some(session) => session.status == DoctorSessionStatus::Running,
            None => false,
        };
        running || self.starting
    }

    /// Start a run, unless one is already being started. Says whether the
    /// start goes out.
    pub fn begin_start(&mut self) -> (go: bool)
        ensures
            go == !old(self).starting,
            final(self).starting,
            go ==> final(self).refusal is None,
            !go ==> final(self).refusal == old(self).refusal,
            final(self).session == old(self).session,
    {
        if self.starting {
            return false;
        }
        self.starting = true;
        self.refusal = None;
        true
    }

    /// The start answered. `None` is a connection that moved while it was
    /// out: nothing is claimed.
    pub fn start_landed(&mut self, answer: Option<Result<DoctorSession, ManagementError>>)
        ensures
            !final(self).starting,
            match answer {
                None => final(self).session == old(self).session && final(self).refusal == old(self).refusal,
                Some(Ok(session)) => final(self).session == Some(session) && final(self).refusal
                    == old(self).refusal,
                Some(Err(error)) => final(self).session == old(self).session && (final(self).refusal matches Some(s) && sentence_view(s) == sentence_of(error)),
            },
    {
        self.starting = false;
        match answer {
            None => {},
            Some(Ok(session)) => {
                self.session = Some(session);
            },
            Some(Err(error)) => {
                self.refusal = Some(Sentence::of(&error));
            },
        }
    }

    /// A re-read answered. Says whether anything moved.
    pub fn read_landed(&mut self, answer: Option<Result<DoctorSession, ManagementError>>) -> (moved: bool)
        ensures
            moved == answer is Some,
            final(self).starting == old(self).starting,
            match answer {
                None => final(self).session == old(self).session && final(self).refusal == old(self).refusal,
                Some(Ok(session)) => final(self).session == Some(session) && final(self).refusal
                    == old(self).refusal,
                Some(Err(error)) => final(self).session == old(self).session && (final(self).refusal matches Some(s) && sentence_view(s) == sentence_of(error)),
            },
    {
        match answer {
            None => false,
            Some(Ok(session)) => {
                self.session = Some(session);
                true
            },
            Some(Err(error)) => {
                self.refusal = Some(Sentence::of(&error));
                true
            },
        }
    }

    /// How many checks failed, for the summary line.
    pub fn failed(&self) -> (n: u32)
        ensures
            n == match self.session {
                Some(session) => session.summary.failed,
                None => 0,
            },
    {
        match &self.session {
            Some(session) => session.summary.failed,
            None => 0,
        }
    }

    /// The checks, as rows.
    pub fn rows(&self) -> (r: Vec<CheckRow>)
        ensures
            match self.session {
                Some(session) => r@.len() == session.checks@.len() && forall|i: int|
                    0 <= i < r@.len() ==> (#[trigger] r@[i]).id@ == session.checks@[i].id@
                        && r@[i].status == session.checks@[i].status,
                None => r@.len() == 0,
            },
    {
        let session = match &self.session {
            Some(session) => session,
            None => {
                return Vec::new();
            },
        };
        let mut rows: Vec<CheckRow> = Vec::new();
        let mut i: usize = 0;
        while i < session.checks.len()
            invariant
                i <= session.checks@.len(),
                rows@.len() == i,
                forall|k: int|
                    0 <= k < i ==> (#[trigger] rows@[k]).id@ == session.checks@[k].id@
                        && rows@[k].status == session.checks@[k].status,
            decreases session.checks@.len() - i,
        {
            rows.push(row_of(&session.checks[i]));
            i = i + 1;
        }
        rows
    }
}

} // verus!
