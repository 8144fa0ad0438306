//! The private toolkit runtime, and the environment a child must get.
//!
//! The package carries its own toolkit in a private prefix. Two things do not
//! follow from its compiled-in paths: the schema directory, which the process
//! names in its environment so the private schemas win, and the bundled icon
//! theme, which is appended behind the host's so it is only ever a floor.
//!
//! This process's environment is not a child's environment. [`RuntimeEnv`]
//! records what each variable held before it was touched, including its
//! absence, so a child is given the environment this process was started with.
//! Whether the prefix is there is a question for the disk and is asked by the
//! program; what follows from the answer is decided here.

use vstd::prelude::*;
use crate::models::settings_model::{joined_path, join_path};
use crate::text::owned;

verus! {

/// Where the package installs the private toolkit runtime.
pub const PRIVATE_PREFIX: &'static str = "/usr/lib/fermix-desktop";

/// The one variable this process sets.
pub const SCHEMA_DIR_VARIABLE: &'static str = "GSETTINGS_SCHEMA_DIR";

/// Where compiled schemas sit under a prefix.
pub const SCHEMA_SUBDIRECTORY: &'static str = "share/glib-2.0/schemas";

/// Where icon themes sit under a prefix.
pub const ICON_SUBDIRECTORY: &'static str = "share/icons";

/// The file whose presence makes a prefix the private runtime.
pub const COMPILED_SCHEMAS: &'static str = "gschemas.compiled";

/// The private prefix's compiled schemas.
pub fn schema_directory(prefix: &str) -> (r: String)
    ensures
        r@ == joined_path(prefix@, SCHEMA_SUBDIRECTORY@),
{
    join_path(prefix, SCHEMA_SUBDIRECTORY)
}

/// The private prefix's bundled icon themes.
pub fn icon_directory(prefix: &str) -> (r: String)
    ensures
        r@ == joined_path(prefix@, ICON_SUBDIRECTORY@),
{
    join_path(prefix, ICON_SUBDIRECTORY)
}

/// The file a prefix must carry to be the private runtime.
pub fn compiled_schemas_file(prefix: &str) -> (r: String)
    ensures
        r@ == joined_path(joined_path(prefix@, SCHEMA_SUBDIRECTORY@), COMPILED_SCHEMAS@),
{
    let directory = schema_directory(prefix);
    join_path(directory.as_str(), COMPILED_SCHEMAS)
}

/// The environment this process was started with, for the children it spawns:
/// one entry per variable this process set, with what it held beforehand.
/// `None` is a variable that was not set at all, and restoring it means
/// unsetting it rather than setting it empty.
#[derive(Debug, Clone, PartialEq, Eq)]
pub struct RuntimeEnv {
    restore: Vec<(String, Option<String>)>,
}

/// One restored variable, as characters.
pub open spec fn entry_view(e: (String, Option<String>)) -> (Seq<char>, Option<Seq<char>>) {
    (
        e.0@,
        match e.1 {
            Some(v) => Some(v@),
            None => None,
        },
    )
}

impl View for RuntimeEnv {
    type V = Seq<(Seq<char>, Option<Seq<char>>)>;

    closed spec fn view(&self) -> Seq<(Seq<char>, Option<Seq<char>>)> {
        self.restore@.map_values(|e: (String, Option<String>)| entry_view(e))
    }
}

impl Default for RuntimeEnv {
    fn default() -> (r: Self)
        ensures
            r@ == Seq::<(Seq<char>, Option<Seq<char>>)>::empty(),
    {
        Self::unchanged()
    }
}

impl RuntimeEnv {
    /// The value for a process that set nothing, which is every development run
    /// and every test.
    pub fn unchanged() -> (r: Self)
        ensures
            r@ == Seq::<(Seq<char>, Option<Seq<char>>)>::empty(),
    {
        let r = RuntimeEnv { restore: Vec::new() };
        assert(r@ =~= Seq::<(Seq<char>, Option<Seq<char>>)>::empty());
        r
    }

    /// The value that restores exactly these variables.
    pub fn restoring(restore: Vec<(String, Option<String>)>) -> (r: Self)
        ensures
            r@ == restore@.map_values(|e: (String, Option<String>)| entry_view(e)),
    {
        RuntimeEnv { restore }
    }

    /// What a child's environment is put back to, one entry per variable.
    pub fn restores(&self) -> (r: &[(String, Option<String>)])
        ensures
            r@.map_values(|e: (String, Option<String>)| entry_view(e)) == self@,
    {
        self.restore.as_slice()
    }

    /// What starting against a prefix does, given whether the prefix is the
    /// private runtime and what the schema variable held (empty counting as
    /// unset): against the private runtime, the variable is set to the
    /// prefix's schema directory and its prior value is recorded for children;
    /// otherwise nothing is set and nothing is recorded.
    pub fn capture_when(private_runtime: bool, prefix: &str, prior: Option<String>) -> (r: (
        Option<String>,
        Self,
    ))
        ensures
            private_runtime ==> (r.0 matches Some(dir) && dir@ == joined_path(
                prefix@,
                SCHEMA_SUBDIRECTORY@,
            )),
            private_runtime ==> r.1@ == seq![
                (
                    SCHEMA_DIR_VARIABLE@,
                    match prior {
                        Some(p) => Some(p@),
                        None => None::<Seq<char>>,
                    },
                ),
            ],
            !private_runtime ==> r.0 is None && r.1@ == Seq::<(Seq<char>, Option<Seq<char>>)>::empty(),
    {
        if !private_runtime {
            return (None, Self::unchanged());
        }
        let directory = schema_directory(prefix);
        let restore = vec![(owned(SCHEMA_DIR_VARIABLE), prior)];
        let r = Self::restoring(restore);
        proof {
            assert(r@ =~= seq![
                (
                    SCHEMA_DIR_VARIABLE@,
                    match prior {
                        Some(p) => Some(p@),
                        None => None::<Seq<char>>,
                    },
                ),
            ]);
        }
        (Some(directory), r)
    }
}

/// The directory to append to the icon search path, given whether the prefix
/// is the private runtime: the prefix's icon themes there, and nothing on a
/// host toolkit, which is left exactly as it was.
pub fn bundled_icon_search_path_when(private_runtime: bool, prefix: &str) -> (r: Option<String>)
    ensures
        private_runtime ==> (r matches Some(d) && d@ == joined_path(prefix@, ICON_SUBDIRECTORY@)),
        !private_runtime ==> r is None,
{
    if private_runtime {
        Some(icon_directory(prefix))
    } else {
        None
    }
}

} // verus!
