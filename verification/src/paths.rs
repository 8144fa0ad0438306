//! Where the engine's command line and its socket are.
//!
//! The packaged path is a constant and is never resolved on `PATH`: the
//! `fermix` package owns `/usr/bin/fermix` and the desktop package depends on
//! it at an exact version, so resolving on `PATH` would let a shell alias or a
//! stale standalone install answer for the package this interface is bound to.
//!
//! The two development values are read by the program, in a development build
//! only; the rule that turns them into paths is here.

use vstd::prelude::*;
use crate::models::settings_model::{joined_path, join_path, SOCKET_NAME};
use crate::text::owned;

verus! {

/// The packaged command line.
pub const PACKAGED_CLI: &'static str = "/usr/bin/fermix";

/// Points a development build at a fixture home holding a `daemon.sock`.
pub const FIXTURE_HOME_VARIABLE: &'static str = "FERMIX_DESKTOP_FIXTURE_HOME";
/// Points a development build at a stand-in for the packaged command line.
pub const CLI_VARIABLE: &'static str = "FERMIX_DESKTOP_CLI";

/// The paths this process runs against.
#[derive(Debug, Clone, PartialEq, Eq)]
pub struct Paths {
    cli: String,
    fixture_home: Option<String>,
}

impl View for Paths {
    type V = (Seq<char>, Option<Seq<char>>);

    closed spec fn view(&self) -> (Seq<char>, Option<Seq<char>>) {
        (
            self.cli@,
            match self.fixture_home {
                Some(h) => Some(h@),
                None => None,
            },
        )
    }
}

impl Default for Paths {
    fn default() -> (p: Self)
        ensures
            p@ == (PACKAGED_CLI@, None::<Seq<char>>),
    {
        Paths { cli: owned(PACKAGED_CLI), fixture_home: None }
    }
}

impl Paths {
    /// The paths a release build uses: the packaged command line, and a socket
    /// that comes from the binding `service status` reports.
    pub fn packaged() -> (p: Self)
        ensures
            p@ == (PACKAGED_CLI@, None::<Seq<char>>),
    {
        Self::default()
    }

    /// The paths the two development values give: a stand-in command line
    /// replaces the packaged one, and a fixture home is kept as it came.
    pub fn resolve_from(cli: Option<String>, fixture_home: Option<String>) -> (p: Self)
        ensures
            p@.0 == match cli {
                Some(c) => c@,
                None => PACKAGED_CLI@,
            },
            p@.1 == match fixture_home {
                Some(h) => Some(h@),
                None => None::<Seq<char>>,
            },
    {
        let cli = match cli {
            Some(c) => c,
            None => owned(PACKAGED_CLI),
        };
        Paths { cli, fixture_home }
    }

    /// The command line to invoke.
    pub fn cli(&self) -> (r: &str)
        ensures
            r@ == self@.0,
    {
        self.cli.as_str()
    }

    /// The fixture home, when this process was pointed at one.
    pub fn fixture_home(&self) -> (r: Option<&str>)
        ensures
            match self@.1 {
                Some(h) => r matches Some(s) && s@ == h,
                None => r is None,
            },
    {
        match &self.fixture_home {
            Some(h) => Some(h.as_str()),
            None => None,
        }
    }

    /// The socket to speak to, when it is known without asking the command
    /// line: `daemon.sock` inside the fixture home. A packaged run learns it
    /// from the binding `service status` reports, so this answers nothing
    /// there.
    pub fn fixture_socket(&self) -> (r: Option<String>)
        ensures
            match self@.1 {
                Some(h) => r matches Some(s) && s@ == joined_path(h, SOCKET_NAME@),
                None => r is None,
            },
    {
        match &self.fixture_home {
            Some(h) => Some(join_path(h.as_str(), SOCKET_NAME)),
            None => None,
        }
    }
}

} // verus!
