//! The capture flag: `--capture DIR` names a directory the reference states of
//! the running scenario are drawn into.
//!
//! The flag and its directory belong to this binary, so they are read here and
//! taken out before the rest of the command line reaches the toolkit.

use vstd::prelude::*;
use crate::text::{is_prefix, str_eq, strip_prefix, owned};

verus! {

/// The flag that turns capture on.
pub const FLAG: &'static str = "--capture";

/// The flag with its directory in the same argument.
pub const FLAG_WITH_VALUE: &'static str = "--capture=";

/// The directory a command line names for capture: the argument after the
/// first bare flag, or the value of the first flag that carries its own,
/// whichever comes first.
pub open spec fn capture_directory(arguments: Seq<Seq<char>>) -> Option<Seq<char>>
    decreases arguments.len(),
{
    if arguments.len() == 0 {
        None
    } else if arguments[0] == FLAG@ {
        if arguments.len() > 1 {
            Some(arguments[1])
        } else {
            None
        }
    } else if is_prefix(FLAG_WITH_VALUE@, arguments[0]) {
        Some(arguments[0].skip(FLAG_WITH_VALUE@.len() as int))
    } else {
        capture_directory(arguments.drop_first())
    }
}

/// The capture directory named on the command line, where one was.
pub fn directory_from(arguments: &[String]) -> (r: Option<String>)
    ensures
        match capture_directory(crate::text::views(arguments@)) {
            Some(d) => r matches Some(s) && s@ == d,
            None => r is None,
        },
{
    let ghost all = crate::text::views(arguments@);
    let mut i: usize = 0;
    proof {
        assert(all.skip(0) =~= all);
    }
    while i < arguments.len()
        invariant
            i <= arguments@.len(),
            all == crate::text::views(arguments@),
            capture_directory(all) == capture_directory(all.skip(i as int)),
        decreases arguments@.len() - i,
    {
        let ghost rest = all.skip(i as int);
        proof {
            assert(rest[0] == arguments@[i as int]@);
            assert(rest.drop_first() =~= all.skip(i + 1));
        }
        if str_eq(arguments[i].as_str(), FLAG) {
            if i + 1 < arguments.len() {
                proof {
                    assert(rest[1] == arguments@[i + 1]@);
                }
                return Some(owned(arguments[i + 1].as_str()));
            }
            return None;
        }
        match strip_prefix(arguments[i].as_str(), FLAG_WITH_VALUE) {
            Some(directory) => {
                proof {
                    assert(directory@ =~= rest[0].skip(FLAG_WITH_VALUE@.len() as int));
                }
                return Some(directory);
            },
            None => {},
        }
        i = i + 1;
    }
    proof {
        assert(all.skip(i as int) =~= Seq::<Seq<char>>::empty());
    }
    None
}

} // verus!
