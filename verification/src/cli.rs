//! The command line this binary answers.
//!
//! Almost nothing: the window is the product and the packaged `fermix` command
//! line is where a terminal belongs.
//!
//! * `--version` says what this build is. It prints the product version and
//!   the build id together, because the id is the half that decides whether a
//!   running window is older than the application on disk.
//! * Everything else is the toolkit's own and is handed to it unread, the one
//!   that matters being `--gapplication-service`.
//! * `--capture DIR` is this binary's, in a build that owns the flag: the flag
//!   and its directory are taken out before the rest reaches the toolkit. A build that does not own
//!   it passes it on and the toolkit refuses it by name.

use vstd::prelude::*;
use crate::capture::{FLAG, FLAG_WITH_VALUE};
use crate::text::{is_prefix, owned, push_str, starts_with, str_eq, views};

verus! {

/// This build's product version, which is the crate's.
pub const PRODUCT_VERSION: &'static str = "0.1.0";

/// The build id of a build nobody stamped. A build id is compared with a build
/// id, and this one is treated as no id at all, so a development window never
/// claims to be older or newer than an installed application.
pub const COMPILED_BUILD_ID: &'static str = "dev";

/// The one argument this binary reads for itself and answers without a window.
pub const VERSION_FLAG: &'static str = "--version";

/// This build's id: the one the release rail stamped into the build, and the
/// development id where nothing, or nothing but an empty value, was stamped.
pub open spec fn build_id_of(stamped: Option<Seq<char>>) -> Seq<char> {
    match stamped {
        Some(id) => if id.len() > 0 {
            id
        } else {
            COMPILED_BUILD_ID@
        },
        None => COMPILED_BUILD_ID@,
    }
}

/// This build's id, from what was stamped into it.
pub fn build_id(stamped: Option<&str>) -> (r: String)
    ensures
        r@ == build_id_of(
            match stamped {
                Some(s) => Some(s@),
                None => None,
            },
        ),
{
    match stamped {
        Some(id) => {
            if crate::text::chars_of(id).len() > 0 {
                owned(id)
            } else {
                owned(COMPILED_BUILD_ID)
            }
        },
        None => owned(COMPILED_BUILD_ID),
    }
}

/// What `--version` prints for a build carrying one id.
pub open spec fn version_text(build: Seq<char>) -> Seq<char> {
    "fermix-desktop "@ + PRODUCT_VERSION@ + " (build "@ + build + ")"@
}

/// What `--version` prints, given what was stamped into the build: the
/// product version and this build's id.
pub fn version_line(stamped: Option<&str>) -> (r: String)
    ensures
        r@ == version_text(
            build_id_of(
                match stamped {
                    Some(s) => Some(s@),
                    None => None,
                },
            ),
        ),
{
    let id = build_id(stamped);
    let mut s = owned("fermix-desktop ");
    push_str(&mut s, PRODUCT_VERSION);
    push_str(&mut s, " (build ");
    push_str(&mut s, id.as_str());
    push_str(&mut s, ")");
    s
}

/// Whether an invocation asks what the build is: the flag stands somewhere
/// after the program's own path.
pub open spec fn asks_version(arguments: Seq<Seq<char>>) -> bool {
    exists|i: int| 1 <= i < arguments.len() && #[trigger] arguments[i] == VERSION_FLAG@
}

/// Whether this invocation is asking what the build is rather than for a window.
pub fn wants_version(arguments: &[String]) -> (r: bool)
    ensures
        r == asks_version(views(arguments@)),
{
    let ghost all = views(arguments@);
    let mut i: usize = 1;
    while i < arguments.len()
        invariant
            1 <= i,
            all == views(arguments@),
            forall|k: int| 1 <= k < i && k < all.len() ==> #[trigger] all[k] != VERSION_FLAG@,
        decreases arguments@.len() - i,
    {
        if str_eq(arguments[i].as_str(), VERSION_FLAG) {
            proof {
                assert(all[i as int] == VERSION_FLAG@);
            }
            return true;
        }
        i = i + 1;
    }
    false
}

/// The arguments after the program's own that reach the toolkit. A build that
/// owns the capture flag takes out a bare flag together with the directory
/// after it, and a flag that carries its own directory; every other argument
/// reaches the toolkit in its order.
pub open spec fn passed_on(rest: Seq<Seq<char>>, owns_capture: bool) -> Seq<Seq<char>>
    decreases rest.len(),
{
    if rest.len() == 0 {
        Seq::empty()
    } else if owns_capture && rest[0] == FLAG@ {
        if rest.len() > 1 {
            passed_on(rest.skip(2), owns_capture)
        } else {
            Seq::empty()
        }
    } else if owns_capture && is_prefix(FLAG_WITH_VALUE@, rest[0]) {
        passed_on(rest.drop_first(), owns_capture)
    } else {
        seq![rest[0]] + passed_on(rest.drop_first(), owns_capture)
    }
}

/// The arguments the toolkit is handed: the program name, then everything this
/// binary does not own itself.
pub open spec fn toolkit_view(arguments: Seq<Seq<char>>, owns_capture: bool) -> Seq<Seq<char>> {
    if arguments.len() == 0 {
        Seq::empty()
    } else {
        seq![arguments[0]] + passed_on(arguments.drop_first(), owns_capture)
    }
}

/// The arguments the toolkit is handed, for a build that owns the capture flag
/// or for one that does not.
pub fn toolkit_arguments_when(owns_capture: bool, arguments: &[String]) -> (r: Vec<String>)
    ensures
        views(r@) == toolkit_view(views(arguments@), owns_capture),
{
    let ghost all = views(arguments@);
    let mut kept: Vec<String> = Vec::new();
    if arguments.len() == 0 {
        proof {
            assert(views(kept@) =~= Seq::<Seq<char>>::empty());
        }
        return kept;
    }
    kept.push(owned(arguments[0].as_str()));
    let mut i: usize = 1;
    proof {
        assert(views(kept@) =~= seq![all[0]]);
        assert(all.skip(1) =~= all.drop_first());
    }
    while i < arguments.len()
        invariant
            1 <= i <= arguments@.len(),
            all == views(arguments@),
            all.len() > 0,
            views(kept@) + passed_on(all.skip(i as int), owns_capture) == toolkit_view(
                all,
                owns_capture,
            ),
        decreases arguments@.len() - i,
    {
        let ghost rest = all.skip(i as int);
        let ghost before = views(kept@);
        proof {
            assert(rest[0] == arguments@[i as int]@);
            assert(rest.drop_first() =~= all.skip(i + 1));
        }
        if owns_capture && str_eq(arguments[i].as_str(), FLAG) {
            // The directory belongs to the flag, so it leaves with it.
            if i + 1 < arguments.len() {
                proof {
                    assert(rest.skip(2) =~= all.skip(i + 2));
                }
                i = i + 2;
            } else {
                proof {
                    assert(before + Seq::<Seq<char>>::empty() =~= before);
                }
                return kept;
            }
        } else if owns_capture && starts_with(arguments[i].as_str(), FLAG_WITH_VALUE) {
            i = i + 1;
        } else {
            kept.push(owned(arguments[i].as_str()));
            proof {
                assert(views(kept@) =~= before.push(rest[0]));
                assert(before + (seq![rest[0]] + passed_on(rest.drop_first(), owns_capture))
                    =~= before.push(rest[0]) + passed_on(rest.drop_first(), owns_capture));
            }
            i = i + 1;
        }
    }
    proof {
        assert(all.skip(i as int) =~= Seq::<Seq<char>>::empty());
        assert(views(kept@) + Seq::<Seq<char>>::empty() =~= views(kept@));
    }
    kept
}

/// The arguments the toolkit is handed by a build that owns the capture flag.
pub fn toolkit_arguments(arguments: &[String]) -> (r: Vec<String>)
    ensures
        views(r@) == toolkit_view(views(arguments@), true),
{
    toolkit_arguments_when(true, arguments)
}

} // verus!
