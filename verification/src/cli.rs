//! The command line.

use vstd::prelude::*;
use crate::text::{same, texts};

verus! {

/// What the program is started for.
#[derive(Clone, Copy, PartialEq, Eq, Structural, Debug)]
pub enum Launch {
    /// To say its version.
    Version,
    /// To say how it is used.
    Help,
    /// To run.
    Run,
}

/// Whether one of the arguments is `long` or `short`.
pub open spec fn has_flag(args: Seq<Seq<char>>, long: Seq<char>, short: Seq<char>) -> bool {
    exists|i: int| 0 <= i < args.len() && (#[trigger] args[i] == long || args[i] == short)
}

/// What the program is started for with the given arguments.
pub open spec fn launch_of(args: Seq<Seq<char>>) -> Launch {
    if has_flag(args, "--version"@, "-V"@) {
        Launch::Version
    } else if has_flag(args, "--help"@, "-h"@) {
        Launch::Help
    } else {
        Launch::Run
    }
}

/// Whether one of the arguments is `long` or `short` ([`has_flag`]).
fn flag(args: &Vec<String>, long: &str, short: &str) -> (r: bool)
    ensures
        r == has_flag(texts(args@), long@, short@),
{
    let mut i: usize = 0;
    while i < args.len()
        invariant
            i <= args@.len(),
            forall|k: int|
                0 <= k < i ==> #[trigger] texts(args@)[k] != long@ && texts(args@)[k] != short@,
        decreases args.len() - i,
    {
        assert(texts(args@)[i as int] == args@[i as int]@);
        if same(args[i].as_str(), long) || same(args[i].as_str(), short) {
            return true;
        }
        i = i + 1;
    }
    false
}

/// What the program is started for ([`launch_of`]).
pub fn launch(args: &Vec<String>) -> (r: Launch)
    ensures
        r == launch_of(texts(args@)),
{
    if flag(args, "--version", "-V") {
        Launch::Version
    } else if flag(args, "--help", "-h") {
        Launch::Help
    } else {
        Launch::Run
    }
}

} // verus!
