//! The argument reader: the invocation arguments minus the program name.
//!
//! The process argument vector itself is read by the unverified shell around
//! this library and handed in as a plain `Vec<String>`; the logic here is the
//! pure part, dropping the leading program name and keeping the rest in
//! order.  Nothing is cached: every read works on the vector it is given.

use vstd::prelude::*;

verus! {

/// The argument vector minus its first element (the program name), in the
/// original order.  An empty vector stays empty.
pub open spec fn tail_of(argv: Seq<String>) -> Seq<String> {
    if argv.len() == 0 {
        argv
    } else {
        argv.skip(1)
    }
}

/// The ordered trailing arguments of the invocation `argv`: everything after
/// the program name.  Never fails; an empty or one-element vector yields an
/// empty sequence.
pub fn initial_args(argv: &Vec<String>) -> (args: Vec<String>)
    ensures
        args@ == tail_of(argv@),
{
    let mut args: Vec<String> = Vec::new();
    let mut i: usize = 1;
    while i < argv.len()
        invariant
            1 <= i,
            argv@.len() == 0 || i <= argv@.len(),
            args@.len() == (if i <= argv@.len() { i - 1 } else { 0int }),
            forall|j: int| 0 <= j < args@.len() ==> args@[j] == argv@[j + 1],
        decreases argv@.len() - i,
    {
        args.push(argv[i].clone());
        i += 1;
    }
    assert(args@ =~= tail_of(argv@));
    args
}

/// The argument query is idempotent: as long as the live argument vector is
/// the same, every call returns the same sequence — there is no cache to go
/// stale.
pub proof fn lemma_query_idempotent(argv: Seq<String>, first: Seq<String>, second: Seq<String>)
    requires
        first == tail_of(argv),
        second == tail_of(argv),
    ensures
        first == second,
{
}

} // verus!
