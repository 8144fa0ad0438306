//! One job, followed.
//!
//! One runner per job identifier, and one poll inside it. Dismissing an
//! ordinary view detaches the polling without cancelling the work; reopening
//! finds the run again through `job.list` rather than starting a second one.
//! Explicit cancel asks the daemon to stop. The poll is bounded twice: by the
//! daemon's own budget and by a hard ceiling of two thousand.

use vstd::prelude::*;
use crate::copy::Key;
use crate::management::types::{JobKind, JobStatus, JobView};
use crate::models::polling::{cap_for, capped_ticks};
use crate::text::str_eq;

verus! {

/// How often a job is re-read, in milliseconds.
pub const POLL_INTERVAL_MS: u64 = 1000;

/// The hard ceiling on polls, whatever the daemon's budget says.
pub const POLL_CAP: u32 = 2000;

/// The polls added on top of the daemon's budget, so a job that finishes at its
/// deadline is still read once after it does.
pub const POLL_SLACK: u32 = 5;

/// The ten phases the wire publishes as atoms, each with its word.
pub open spec fn phase_table() -> Seq<(Seq<char>, Key)> {
    seq![
        ("calling"@, Key::JobPhaseCalling),
        ("binding"@, Key::JobPhaseBinding),
        ("awaiting_browser"@, Key::JobPhaseAwaitingBrowser),
        ("verifying"@, Key::JobPhaseVerifying),
        ("reading_keychain"@, Key::JobPhaseReadingKeychain),
        ("downloading"@, Key::JobPhaseDownloading),
        ("probing"@, Key::JobPhaseProbing),
        ("listing"@, Key::JobPhaseListing),
        ("sidecar_downloading"@, Key::JobPhaseSidecarDownloading),
        ("awaiting_sign_in"@, Key::JobPhaseAwaitingSignIn),
    ]
}

/// The word for one phase: the first entry of the table spelled that way.
pub open spec fn phase_word_of(phase: Seq<char>) -> Option<Key>
    decreases 10int,
{
    word_in(phase_table(), phase)
}

/// The word of the first entry of a table spelled a given way.
pub open spec fn word_in(table: Seq<(Seq<char>, Key)>, phase: Seq<char>) -> Option<Key>
    decreases table.len(),
{
    if table.len() == 0 {
        None
    } else if table[0].0 == phase {
        Some(table[0].1)
    } else {
        word_in(table.drop_first(), phase)
    }
}

/// The ten phase words. A phase a newer daemon mints has no word here, so the
/// row shows what it was already showing rather than a stranger's.
pub fn phase_word(phase: &str) -> (r: Option<Key>)
    ensures
        r == phase_word_of(phase@),
        match r {
            Some(k) => k != Key::Count,
            None => true,
        },
{
    let table: [(&str, Key); 10] = [
        ("calling", Key::JobPhaseCalling),
        ("binding", Key::JobPhaseBinding),
        ("awaiting_browser", Key::JobPhaseAwaitingBrowser),
        ("verifying", Key::JobPhaseVerifying),
        ("reading_keychain", Key::JobPhaseReadingKeychain),
        ("downloading", Key::JobPhaseDownloading),
        ("probing", Key::JobPhaseProbing),
        ("listing", Key::JobPhaseListing),
        ("sidecar_downloading", Key::JobPhaseSidecarDownloading),
        ("awaiting_sign_in", Key::JobPhaseAwaitingSignIn),
    ];
    let ghost spelled = table@.map_values(|e: (&str, Key)| (e.0@, e.1));
    proof {
        assert(spelled =~= phase_table());
        assert(spelled.skip(0) =~= spelled);
    }
    let mut i: usize = 0;
    while i < 10
        invariant
            i <= 10,
            spelled == table@.map_values(|e: (&str, Key)| (e.0@, e.1)),
            spelled.len() == 10,
            spelled == phase_table(),
            forall|k: int| 0 <= k < 10 ==> (#[trigger] spelled[k]).1 != Key::Count,
            word_in(spelled, phase@) == word_in(spelled.skip(i as int), phase@),
        decreases 10 - i,
    {
        proof {
            assert(spelled.skip(i as int).drop_first() =~= spelled.skip(i + 1));
            assert(spelled.skip(i as int)[0] == spelled[i as int]);
        }
        let (word, key) = table[i];
        proof {
            assert(spelled[i as int] == (word@, key));
        }
        if str_eq(word, phase) {
            return Some(key);
        }
        i = i + 1;
    }
    proof {
        assert(spelled.skip(10) =~= Seq::<(Seq<char>, Key)>::empty());
    }
    None
}

/// The cap for one job: the daemon's own budget in ticks, plus a little, and
/// never more than the published ceiling.
pub fn poll_cap(budget_ms: u64) -> (r: u32)
    ensures
        r == capped_ticks(budget_ms, POLL_INTERVAL_MS, POLL_SLACK, POLL_CAP),
        r <= POLL_CAP,
{
    cap_for(budget_ms, POLL_INTERVAL_MS, POLL_SLACK, POLL_CAP)
}

/// Whether a job has stopped, whichever way it stopped.
pub open spec fn is_terminal_job(job: Option<JobView>) -> bool {
    match job {
        Some(j) => j.status != JobStatus::Running,
        None => false,
    }
}

/// What one runner knows of its job.
pub struct JobState {
    /// The job as it was last read.
    pub job: Option<JobView>,
    /// Whether the runner was detached from its job.
    pub detached: bool,
}

impl JobState {
    /// A runner with nothing to follow yet.
    pub fn new() -> (s: Self)
        ensures
            s.job is None,
            !s.detached,
    {
        JobState { job: None, detached: false }
    }

    /// Whether the job has stopped, whichever way it stopped.
    pub fn is_terminal(&self) -> (r: bool)
        ensures
            r == is_terminal_job(self.job),
    {
        match &self.job {
            Some(job) => job.status != JobStatus::Running,
            None => false,
        }
    }

    /// Follow one job the daemon just answered with, and say whether it is
    /// still running, which is whether it is polled.
    pub fn adopt(&mut self, job: JobView) -> (poll: bool)
        ensures
            final(self).job == Some(job),
            !final(self).detached,
            poll == (job.status == JobStatus::Running),
    {
        let running = job.status == JobStatus::Running;
        self.job = Some(job);
        self.detached = false;
        running
    }

    /// A re-read landed.
    pub fn read_landed(&mut self, job: JobView)
        ensures
            final(self).job == Some(job),
            final(self).detached == old(self).detached,
    {
        self.job = Some(job);
    }

    /// Stop polling without asking the daemon to stop the work.
    pub fn detach(&mut self)
        ensures
            final(self).detached,
            final(self).job == old(self).job,
    {
        self.detached = true;
    }
}

/// The newest run of one kind in a list the daemon answers oldest first,
/// which is the one a reopened surface is looking for.
pub fn newest_of_kind(jobs: Vec<JobView>, kind: JobKind) -> (r: Option<JobView>)
    ensures
        match r {
            Some(job) => exists|i: int|
                0 <= i < jobs@.len() && jobs@[i] == job && job.kind == kind && forall|k: int|
                    i < k < jobs@.len() ==> (#[trigger] jobs@[k]).kind != kind,
            None => forall|k: int| 0 <= k < jobs@.len() ==> (#[trigger] jobs@[k]).kind != kind,
        },
{
    let mut i: usize = jobs.len();
    while i > 0
        invariant
            i <= jobs@.len(),
            forall|k: int| i <= k < jobs@.len() ==> (#[trigger] jobs@[k]).kind != kind,
        decreases i,
    {
        if jobs[i - 1].kind == kind {
            let mut jobs = jobs;
            let ghost all = jobs@;
            let job = jobs.remove(i - 1);
            proof {
                assert(all[i - 1] == job);
            }
            return Some(job);
        }
        i = i - 1;
    }
    None
}

} // verus!
