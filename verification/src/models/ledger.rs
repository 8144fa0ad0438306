//! The permission ledger.
//!
//! One ledger feeds Permissions, Voice and Computer, so the three cannot
//! disagree about the same right. Its content is the rights table: the
//! principal that holds each right, how a person takes it back, and where the
//! durable artifact actually lives. The table is rendered, never restated.
//!
//! Two rights have a live state and the daemon owns it: the computer-use probe
//! answers for screen capture and input control, it never prompts, and it is
//! asked on pane open and on Refresh only. Two more have a state this process
//! knows first hand: whether the background service is enabled, which the
//! command line reports, and whether the autostart entry exists. The rest have
//! no state at all, which is the honest answer: nothing was granted, so there
//! is nothing to report.

use vstd::prelude::*;
use crate::copy::Key;
use crate::management::errors::ManagementError;
use crate::management::types::ComputerUsePermissions;
use crate::models::computer::{verdict, verdict_of};
use crate::models::settings_model::{sentence_of, sentence_view, Sentence};

verus! {

/// One right the product needs.
#[derive(Debug, Clone, Copy, PartialEq, Eq, Structural)]
pub enum Right {
    Microphone,
    ScreenCapture,
    InputSynthesis,
    BackgroundService,
    Autostart,
    Privileged,
    BrowserAutomation,
}

/// Every right, in the order the table lists them.
pub open spec fn right_table() -> Seq<Right> {
    seq![Right::Microphone, Right::ScreenCapture, Right::InputSynthesis, Right::BackgroundService, Right::Autostart, Right::Privileged, Right::BrowserAutomation]
}

/// Every right, in the order the table lists them.
pub fn rights() -> (r: Vec<Right>)
    ensures
        r@ == right_table(),
{
    let r = vec![Right::Microphone, Right::ScreenCapture, Right::InputSynthesis, Right::BackgroundService, Right::Autostart, Right::Privileged, Right::BrowserAutomation];
    assert(r@ =~= right_table());
    r
}

impl Right {
    /// What the right is called.
    pub fn title(self) -> (k: Key)
        ensures
            k == match self {
                Right::Microphone => Key::PermissionMicrophoneTitle,
                Right::ScreenCapture => Key::PermissionScreenCaptureTitle,
                Right::InputSynthesis => Key::PermissionInputSynthesisTitle,
                Right::BackgroundService => Key::PermissionBackgroundServiceTitle,
                Right::Autostart => Key::PermissionAutostartTitle,
                Right::Privileged => Key::PermissionPrivilegedTitle,
                Right::BrowserAutomation => Key::PermissionBrowserTitle,
            },
    {
        match self {
            Right::Microphone => Key::PermissionMicrophoneTitle,
            Right::ScreenCapture => Key::PermissionScreenCaptureTitle,
            Right::InputSynthesis => Key::PermissionInputSynthesisTitle,
            Right::BackgroundService => Key::PermissionBackgroundServiceTitle,
            Right::Autostart => Key::PermissionAutostartTitle,
            Right::Privileged => Key::PermissionPrivilegedTitle,
            Right::BrowserAutomation => Key::PermissionBrowserTitle,
        }
    }

    /// Who grants it.
    pub fn principal(self) -> (k: Key)
        ensures
            k == match self {
                Right::Microphone => Key::PermissionMicrophonePrincipal,
                Right::ScreenCapture => Key::PermissionScreenCapturePrincipal,
                Right::InputSynthesis => Key::PermissionInputSynthesisPrincipal,
                Right::BackgroundService => Key::PermissionBackgroundServicePrincipal,
                Right::Autostart => Key::PermissionAutostartPrincipal,
                Right::Privileged => Key::PermissionPrivilegedPrincipal,
                Right::BrowserAutomation => Key::PermissionBrowserPrincipal,
            },
    {
        match self {
            Right::Microphone => Key::PermissionMicrophonePrincipal,
            Right::ScreenCapture => Key::PermissionScreenCapturePrincipal,
            Right::InputSynthesis => Key::PermissionInputSynthesisPrincipal,
            Right::BackgroundService => Key::PermissionBackgroundServicePrincipal,
            Right::Autostart => Key::PermissionAutostartPrincipal,
            Right::Privileged => Key::PermissionPrivilegedPrincipal,
            Right::BrowserAutomation => Key::PermissionBrowserPrincipal,
        }
    }

    /// How a person takes it back.
    pub fn revocation(self) -> (k: Key)
        ensures
            k == match self {
                Right::Microphone => Key::PermissionMicrophoneRevoke,
                Right::ScreenCapture => Key::PermissionScreenCaptureRevoke,
                Right::InputSynthesis => Key::PermissionInputSynthesisRevoke,
                Right::BackgroundService => Key::PermissionBackgroundServiceRevoke,
                Right::Autostart => Key::PermissionAutostartRevoke,
                Right::Privileged => Key::PermissionPrivilegedRevoke,
                Right::BrowserAutomation => Key::PermissionBrowserRevoke,
            },
    {
        match self {
            Right::Microphone => Key::PermissionMicrophoneRevoke,
            Right::ScreenCapture => Key::PermissionScreenCaptureRevoke,
            Right::InputSynthesis => Key::PermissionInputSynthesisRevoke,
            Right::BackgroundService => Key::PermissionBackgroundServiceRevoke,
            Right::Autostart => Key::PermissionAutostartRevoke,
            Right::Privileged => Key::PermissionPrivilegedRevoke,
            Right::BrowserAutomation => Key::PermissionBrowserRevoke,
        }
    }

    /// Where the durable artifact lives.
    pub fn artifact(self) -> (k: Key)
        ensures
            k == match self {
                Right::Microphone => Key::PermissionMicrophoneArtifact,
                Right::ScreenCapture => Key::PermissionScreenCaptureArtifact,
                Right::InputSynthesis => Key::PermissionInputSynthesisArtifact,
                Right::BackgroundService => Key::PermissionBackgroundServiceArtifact,
                Right::Autostart => Key::PermissionAutostartArtifact,
                Right::Privileged => Key::PermissionPrivilegedArtifact,
                Right::BrowserAutomation => Key::PermissionBrowserArtifact,
            },
    {
        match self {
            Right::Microphone => Key::PermissionMicrophoneArtifact,
            Right::ScreenCapture => Key::PermissionScreenCaptureArtifact,
            Right::InputSynthesis => Key::PermissionInputSynthesisArtifact,
            Right::BackgroundService => Key::PermissionBackgroundServiceArtifact,
            Right::Autostart => Key::PermissionAutostartArtifact,
            Right::Privileged => Key::PermissionPrivilegedArtifact,
            Right::BrowserAutomation => Key::PermissionBrowserArtifact,
        }
    }
    /// Whether the daemon is what answers for this right.
    pub fn answered_by_daemon(self) -> (r: bool)
        ensures
            r == (self == Right::ScreenCapture || self == Right::InputSynthesis),
    {
        match self {
            Right::ScreenCapture | Right::InputSynthesis => true,
            _ => false,
        }
    }
}

/// One row of the ledger: the right, and what is known about it.
#[derive(Debug, Clone, PartialEq, Eq)]
pub struct LedgerRow {
    pub right: Right,
    /// The word for where it stands, where anything is known. Nothing is not
    /// "off": it is a right with no state to report.
    pub standing: Option<Key>,
}

/// Whether one of the helper's two rights is held, as the probe answered.
pub open spec fn held_of(permissions: Option<ComputerUsePermissions>, right: Right) -> Option<bool> {
    match permissions {
        Some(p) => match right {
            Right::ScreenCapture => Some(p.screen_capture),
            Right::InputSynthesis => Some(p.input_control),
            _ => None,
        },
        None => None,
    }
}

/// The word for where one right stands.
pub open spec fn standing_of(
    right: Right,
    permissions: Option<ComputerUsePermissions>,
    background_enabled: bool,
    open_at_login: bool,
) -> Option<Key> {
    match right {
        Right::ScreenCapture | Right::InputSynthesis => Some(verdict_of(held_of(permissions, right))),
        Right::BackgroundService => Some(
            if background_enabled {
                Key::StateOn
            } else {
                Key::StateOff
            },
        ),
        Right::Autostart => Some(
            if open_at_login {
                Key::StateOn
            } else {
                Key::StateOff
            },
        ),
        Right::Microphone | Right::Privileged | Right::BrowserAutomation => None,
    }
}

/// What the ledger holds between probes.
pub struct LedgerState {
    /// The probe, as it was last taken.
    pub permissions: Option<ComputerUsePermissions>,
    /// The daemon's own sentence, where the probe was refused.
    pub refusal: Option<Sentence>,
}

impl LedgerState {
    /// Nothing probed yet.
    pub fn new() -> (s: Self)
        ensures
            s.permissions is None,
            s.refusal is None,
    {
        LedgerState { permissions: None, refusal: None }
    }

    /// The probe answered. A refused probe keeps the daemon's own sentence
    /// and claims nothing about the two rights; `None` is a connection that
    /// moved, which changes nothing. Says whether anything moved.
    pub fn probe_landed(
        &mut self,
        answer: Option<Result<ComputerUsePermissions, ManagementError>>,
    ) -> (moved: bool)
        ensures
            moved == answer is Some,
            match answer {
                None => final(self).permissions == old(self).permissions && final(self).refusal
                    == old(self).refusal,
                Some(Ok(p)) => final(self).permissions == Some(p) && final(self).refusal is None,
                Some(Err(error)) => final(self).permissions is None && (final(self).refusal matches Some(
                    s,
                ) && sentence_view(s) == sentence_of(error)),
            },
    {
        match answer {
            None => false,
            Some(Ok(p)) => {
                self.permissions = Some(p);
                self.refusal = None;
                true
            },
            Some(Err(error)) => {
                self.permissions = None;
                self.refusal = Some(Sentence::of(&error));
                true
            },
        }
    }

    /// Whether one of the helper's two rights is held, as the probe answered.
    pub fn holds(&self, right: Right) -> (r: Option<bool>)
        ensures
            r == held_of(self.permissions, right),
    {
        match &self.permissions {
            Some(p) => match right {
                Right::ScreenCapture => Some(p.screen_capture),
                Right::InputSynthesis => Some(p.input_control),
                _ => None,
            },
            None => None,
        }
    }

    /// One row, by right.
    pub fn row(&self, right: Right, background_enabled: bool, open_at_login: bool) -> (r: LedgerRow)
        ensures
            r.right == right,
            r.standing == standing_of(right, self.permissions, background_enabled, open_at_login),
    {
        let standing = match right {
            Right::ScreenCapture | Right::InputSynthesis => Some(verdict(self.holds(right))),
            Right::BackgroundService => Some(
                if background_enabled {
                    Key::StateOn
                } else {
                    Key::StateOff
                },
            ),
            Right::Autostart => Some(
                if open_at_login {
                    Key::StateOn
                } else {
                    Key::StateOff
                },
            ),
            // Nothing is kept, so there is nothing to report. The principal and
            // the artifact say the whole of it.
            Right::Microphone | Right::Privileged | Right::BrowserAutomation => None,
        };
        LedgerRow { right, standing }
    }

    /// Every row, with what is known about each, in the table's order.
    pub fn rows(&self, background_enabled: bool, open_at_login: bool) -> (r: Vec<LedgerRow>)
        ensures
            r@.len() == right_table().len(),
            forall|i: int|
                0 <= i < r@.len() ==> (#[trigger] r@[i]).right == right_table()[i]
                    && r@[i].standing == standing_of(
                    right_table()[i],
                    self.permissions,
                    background_enabled,
                    open_at_login,
                ),
    {
        let all = rights();
        let mut rows: Vec<LedgerRow> = Vec::new();
        let mut i: usize = 0;
        while i < all.len()
            invariant
                i <= all@.len(),
                all@ == right_table(),
                rows@.len() == i,
                forall|k: int|
                    0 <= k < i ==> (#[trigger] rows@[k]).right == right_table()[k]
                        && rows@[k].standing == standing_of(
                        right_table()[k],
                        self.permissions,
                        background_enabled,
                        open_at_login,
                    ),
            decreases all@.len() - i,
        {
            rows.push(self.row(all[i], background_enabled, open_at_login));
            i = i + 1;
        }
        rows
    }
}

} // verus!
