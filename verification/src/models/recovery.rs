//! Recovery, as data.
//!
//! Where an installed engine cannot launch, bind or read its settings. It never
//! calls the socket: the evidence and the export both come from the offline
//! diagnostics export, which is the one collector that works while the daemon
//! does not.

use vstd::prelude::*;
use crate::copy::Key;
use crate::management::vocabulary::ConfigCondition;
use crate::models::settings_model::{opt_view, State};
use crate::service::{DiagnosticsExport, ExportLogEntry};
use crate::text::{concat3, push_str};

verus! {

/// Why this surface is being shown.
#[derive(Debug, Clone, PartialEq, Eq)]
pub enum Cause {
    /// The settings file cannot be read. The sentence is the parser's own.
    ConfigUnreadable(String),
    /// The command line refused. The sentence is its own.
    ServiceRefused(String),
}

impl Cause {
    /// The title over the sentence.
    pub fn title(&self) -> (k: Key)
        ensures
            k == match *self {
                Cause::ConfigUnreadable(_) => Key::RecoveryConfigUnreadableTitle,
                Cause::ServiceRefused(_) => Key::RecoveryServiceRefusedTitle,
            },
    {
        match self {
            Cause::ConfigUnreadable(_) => Key::RecoveryConfigUnreadableTitle,
            Cause::ServiceRefused(_) => Key::RecoveryServiceRefusedTitle,
        }
    }

    /// The sentence, which is always somebody else's words.
    pub fn sentence(&self) -> (r: &str)
        ensures
            r@ == match *self {
                Cause::ConfigUnreadable(s) => s@,
                Cause::ServiceRefused(s) => s@,
            },
    {
        match self {
            Cause::ConfigUnreadable(sentence) => sentence.as_str(),
            Cause::ServiceRefused(sentence) => sentence.as_str(),
        }
    }
}

/// Why Recovery shows, as what it would say: an unreadable settings file
/// first, with the parser's sentence (or none), then the command line's own
/// refusal.
pub open spec fn cause_of(state: State) -> Option<(bool, Seq<char>)> {
    if state.config == ConfigCondition::Unreadable {
        Some(
            (
                true,
                match state.unreadable {
                    Some(reason) => reason.text@,
                    None => Seq::empty(),
                },
            ),
        )
    } else {
        match state.service_refusal {
            Some(refusal) => Some((false, refusal.text@)),
            None => None,
        }
    }
}

/// Why this surface is showing, where it should be showing at all.
pub fn cause(state: &State) -> (r: Option<Cause>)
    ensures
        match cause_of(*state) {
            Some((true, s)) => r matches Some(Cause::ConfigUnreadable(t)) && t@ == s,
            Some((false, s)) => r matches Some(Cause::ServiceRefused(t)) && t@ == s,
            None => r is None,
        },
{
    if state.config == ConfigCondition::Unreadable {
        let sentence = match &state.unreadable {
            Some(reason) => reason.text.clone(),
            None => String::new(),
        };
        return Some(Cause::ConfigUnreadable(sentence));
    }
    match &state.service_refusal {
        Some(refusal) => Some(Cause::ServiceRefused(refusal.text.clone())),
        None => None,
    }
}

/// One log entry as a line, where it has a time and a message. A journal
/// line carries no level of its own, and is still evidence, so it is shown
/// without one.
pub open spec fn log_line_of(entry: ExportLogEntry) -> Option<Seq<char>> {
    match (entry.time, entry.message) {
        (Some(time), Some(message)) => match entry.level {
            Some(level) => Some(time@ + " "@ + level@ + " "@ + message@),
            None => Some(time@ + " "@ + message@),
        },
        _ => None,
    }
}

/// The lines of a list of entries, skipping those that are not lines.
pub open spec fn log_lines_of(entries: Seq<ExportLogEntry>) -> Seq<Seq<char>>
    decreases entries.len(),
{
    if entries.len() == 0 {
        Seq::empty()
    } else {
        match log_line_of(entries.last()) {
            Some(line) => log_lines_of(entries.drop_last()).push(line),
            None => log_lines_of(entries.drop_last()),
        }
    }
}

fn log_line(entry: &ExportLogEntry) -> (r: Option<String>)
    ensures
        opt_view(r) == log_line_of(*entry),
{
    match (&entry.time, &entry.message) {
        (Some(time), Some(message)) => match &entry.level {
            Some(level) => {
                let mut line = concat3(time.as_str(), " ", level.as_str());
                push_str(&mut line, " ");
                push_str(&mut line, message.as_str());
                Some(line)
            },
            None => Some(concat3(time.as_str(), " ", message.as_str())),
        },
        _ => None,
    }
}

/// The log tail inside an export, as lines.
///
/// Public because Recovery is not the only surface that reads it: the Setup
/// assistant's boot failure shows the same offline evidence, and two readers
/// of one shape would be two shapes.
pub fn log_lines(export: &DiagnosticsExport) -> (r: Vec<String>)
    ensures
        crate::text::views(r@) == match export.log_entries {
            Some(entries) => log_lines_of(entries@),
            None => Seq::empty(),
        },
{
    let entries = match &export.log_entries {
        Some(entries) => entries,
        None => {
            return Vec::new();
        },
    };
    let mut lines: Vec<String> = Vec::new();
    let mut i: usize = 0;
    while i < entries.len()
        invariant
            i <= entries@.len(),
            crate::text::views(lines@) == log_lines_of(entries@.take(i as int)),
        decreases entries@.len() - i,
    {
        proof {
            assert(entries@.take(i + 1).drop_last() =~= entries@.take(i as int));
        }
        match log_line(&entries[i]) {
            Some(line) => {
                let ghost before = lines@;
                lines.push(line);
                proof {
                    assert(crate::text::views(lines@) =~= crate::text::views(before).push(line@));
                }
            },
            None => {},
        }
        i = i + 1;
    }
    proof {
        assert(entries@.take(entries@.len() as int) =~= entries@);
    }
    lines
}

} // verus!
