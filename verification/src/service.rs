//! What the packaged command line and this desktop session report, as the
//! models read it.
//!
//! The command line answers `service status`, `service install`, `restart` and
//! `diagnostics export` with typed JSON, and the application turns each answer
//! into the values below before any model sees it. Only what the models read is
//! held here.

use vstd::prelude::*;

use crate::text::str_eq;

verus! {

/// How the engine that is running compares with the one the package installed.
#[derive(Debug, Clone, Copy, PartialEq, Eq, Structural)]
pub enum Alignment {
    /// The running engine is the installed one.
    Aligned,
    /// A newer engine is installed than the one running; a restart finishes
    /// the update.
    PendingRestart,
    /// Either identity could not be established.
    Unknown,
    /// Something other than this account's unit owns the engine.
    OwnershipConflict,
}

/// How this window compares with the application on disk.
#[derive(Debug, Clone, Copy, PartialEq, Eq, Structural)]
pub enum GuiAlignment {
    /// This window is the installed application.
    Current,
    /// A newer application is installed than the one this window runs.
    Stale,
    /// No build id to compare.
    Unknown,
}

/// The codes the command line refuses with, read.
#[derive(Debug, Clone, Copy, PartialEq, Eq, Structural)]
pub enum ServiceCode {
    LingerDenied,
    LoginctlAbsent,
    InvalidHome,
    HomeChangeRefused,
    BindingWriteFailed,
    InvalidPort,
    ConfigWriteFailed,
    HealthUnavailable,
    UserManagerUnreachable,
    ForeignDistribution,
    ActivationTimeout,
    SystemctlFailed,
    /// A code this build has no state for.
    Unrecognized,
}

/// The code one published word names.
pub open spec fn service_code_of(code: Seq<char>) -> ServiceCode {
    if code == "linger_denied"@ {
        ServiceCode::LingerDenied
    } else if code == "loginctl_absent"@ {
        ServiceCode::LoginctlAbsent
    } else if code == "invalid_home"@ {
        ServiceCode::InvalidHome
    } else if code == "home_change_refused"@ {
        ServiceCode::HomeChangeRefused
    } else if code == "binding_write_failed"@ {
        ServiceCode::BindingWriteFailed
    } else if code == "invalid_port"@ {
        ServiceCode::InvalidPort
    } else if code == "config_write_failed"@ {
        ServiceCode::ConfigWriteFailed
    } else if code == "health_unavailable"@ {
        ServiceCode::HealthUnavailable
    } else if code == "user_manager_unreachable"@ {
        ServiceCode::UserManagerUnreachable
    } else if code == "foreign_distribution"@ {
        ServiceCode::ForeignDistribution
    } else if code == "activation_timeout"@ {
        ServiceCode::ActivationTimeout
    } else if code == "systemctl_failed"@ {
        ServiceCode::SystemctlFailed
    } else {
        ServiceCode::Unrecognized
    }
}

impl ServiceCode {
    /// One published code, read.
    pub fn of(code: &str) -> (r: Self)
        ensures
            r == service_code_of(code@),
    {
        if str_eq(code, "linger_denied") {
            ServiceCode::LingerDenied
        } else if str_eq(code, "loginctl_absent") {
            ServiceCode::LoginctlAbsent
        } else if str_eq(code, "invalid_home") {
            ServiceCode::InvalidHome
        } else if str_eq(code, "home_change_refused") {
            ServiceCode::HomeChangeRefused
        } else if str_eq(code, "binding_write_failed") {
            ServiceCode::BindingWriteFailed
        } else if str_eq(code, "invalid_port") {
            ServiceCode::InvalidPort
        } else if str_eq(code, "config_write_failed") {
            ServiceCode::ConfigWriteFailed
        } else if str_eq(code, "health_unavailable") {
            ServiceCode::HealthUnavailable
        } else if str_eq(code, "user_manager_unreachable") {
            ServiceCode::UserManagerUnreachable
        } else if str_eq(code, "foreign_distribution") {
            ServiceCode::ForeignDistribution
        } else if str_eq(code, "activation_timeout") {
            ServiceCode::ActivationTimeout
        } else if str_eq(code, "systemctl_failed") {
            ServiceCode::SystemctlFailed
        } else {
            ServiceCode::Unrecognized
        }
    }
}

/// What running the command line can fail with.
#[derive(Debug, Clone, PartialEq, Eq)]
pub enum ServiceError {
    /// The command line refused, with its own code and sentence.
    Refused { code: String, sentence: String },
    /// It could not be run, or its answer could not be read, in the words of
    /// whatever failed.
    Failed(String),
}

impl ServiceError {
    /// The sentence for this failure.
    pub fn message(&self) -> (r: String)
        ensures
            r@ == match *self {
                ServiceError::Refused { sentence, .. } => sentence@,
                ServiceError::Failed(words) => words@,
            },
    {
        match self {
            ServiceError::Refused { sentence, .. } => sentence.clone(),
            ServiceError::Failed(words) => words.clone(),
        }
    }
}

/// The unit the status describes.
#[derive(Debug, Clone, PartialEq, Eq)]
pub struct UnitStatus {
    /// Whether the unit file is one Fermix did not write.
    pub foreign: bool,
    /// The path of the unit file the service manager uses.
    pub effective_path: Option<String>,
}

/// `service status --json`, as the models read it.
#[derive(Debug, Clone, PartialEq, Eq)]
pub struct ServiceStatus {
    /// Whether the unit is enabled.
    pub enabled: bool,
    /// Installed against running.
    pub alignment: Alignment,
    /// The service manager's own sub-state, verbatim.
    pub sub_state: Option<String>,
    /// How many times the service manager has restarted the unit.
    pub restart_count: u32,
    /// The unit file.
    pub unit: UnitStatus,
    /// Where the resolved PATH came from.
    pub path_source: String,
    /// The distribution this engine was built for, where it is not this one.
    pub foreign_distribution: Option<String>,
    /// Whether the running daemon predates the management protocol and
    /// answers nothing on it.
    pub answers_nothing: bool,
    /// The home this account is bound to, where it is bound.
    pub bound_home: Option<String>,
}

impl ServiceStatus {
    /// The distribution a foreign engine was built for, where it is one.
    pub fn foreign_distribution(&self) -> (r: Option<&str>)
        ensures
            r is Some == self.foreign_distribution is Some,
            r matches Some(d) ==> d@ == self.foreign_distribution.unwrap()@,
    {
        match &self.foreign_distribution {
            Some(d) => Some(d.as_str()),
            None => None,
        }
    }

    /// Whether the running daemon answers nothing on the management socket.
    pub fn answers_nothing(&self) -> (r: bool)
        ensures
            r == self.answers_nothing,
    {
        self.answers_nothing
    }

    /// Whether the service manager is restarting the unit right now.
    pub fn is_restarting(&self) -> (r: bool)
        ensures
            r == (self.sub_state is Some && self.sub_state.unwrap()@ == "auto-restart"@),
    {
        match &self.sub_state {
            Some(state) => str_eq(state.as_str(), "auto-restart"),
            None => false,
        }
    }

    /// The home this account is bound to.
    pub fn bound_home(&self) -> (r: Option<&str>)
        ensures
            r is Some == self.bound_home is Some,
            r matches Some(h) ==> h@ == self.bound_home.unwrap()@,
    {
        match &self.bound_home {
            Some(h) => Some(h.as_str()),
            None => None,
        }
    }
}

/// One line of the offline log tail inside a diagnostics export.
#[derive(Debug, Clone, PartialEq, Eq)]
pub struct ExportLogEntry {
    pub time: Option<String>,
    pub level: Option<String>,
    pub message: Option<String>,
}

/// `diagnostics export --offline --json`, as the models read it: the log
/// source's entries, where that source could be read.
#[derive(Debug, Clone, PartialEq, Eq)]
pub struct DiagnosticsExport {
    pub log_entries: Option<Vec<ExportLogEntry>>,
}

/// What this desktop session knows about itself.
#[derive(Debug, Clone, PartialEq, Eq)]
pub struct DesktopFacts {
    /// `x11`, `wayland` and the like, as the session reports it.
    pub session_type: Option<String>,
    /// The desktop's own name.
    pub desktop: Option<String>,
    /// Whether any display server is running.
    pub display_present: bool,
}

} // verus!
