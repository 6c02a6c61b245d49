//! The start-up configuration: the initial query, built by joining the
//! non-flag command-line arguments with single spaces.

use vstd::prelude::*;

use crate::installed::byte_views;

verus! {

/// What the command line asked for.
pub struct Config {
    pub query: Option<Vec<u8>>,
}

/// The arguments joined by single spaces, in order.
pub open spec fn joined_args(args: Seq<Seq<u8>>) -> Seq<u8>
    decreases args.len(),
{
    if args.len() == 0 {
        Seq::empty()
    } else if args.len() == 1 {
        args[0]
    } else {
        joined_args(args.drop_last()) + seq![32u8] + args.last()
    }
}

impl Config {
    /// Build the configuration from the non-flag arguments: none means no
    /// initial query, otherwise they are joined by single spaces.
    pub fn new(args: &Vec<Vec<u8>>) -> (c: Config)
        ensures
            args@.len() == 0 ==> c.query is None,
            args@.len() > 0 ==> (c.query matches Some(q) && q@ == joined_args(byte_views(args@))),
    {
        if args.len() == 0 {
            return Config { query: None };
        }
        let mut q: Vec<u8> = Vec::new();
        let mut i: usize = 0;
        while i < args.len()
            invariant
                i <= args@.len(),
                args@.len() > 0,
                q@ == joined_args(byte_views(args@.subrange(0, i as int))),
            decreases args@.len() - i,
        {
            proof {
                assert(byte_views(args@.subrange(0, i + 1)).drop_last() =~= byte_views(
                    args@.subrange(0, i as int),
                ));
                assert(byte_views(args@.subrange(0, i + 1)).last() == args@[i as int]@);
            }
            if i > 0 {
                q.push(32);
            }
            let arg = &args[i];
            let mut j: usize = 0;
            let ghost base = q@;
            while j < arg.len()
                invariant
                    j <= arg@.len(),
                    q@ == base + arg@.subrange(0, j as int),
                decreases arg@.len() - j,
            {
                q.push(arg[j]);
                assert(arg@.subrange(0, j + 1) =~= arg@.subrange(0, j as int).push(arg@[j as int]));
                j = j + 1;
            }
            proof {
                assert(arg@.subrange(0, arg@.len() as int) =~= arg@);
                let views = byte_views(args@.subrange(0, i + 1));
                if i == 0 {
                    assert(q@ =~= views[0]);
                    assert(q@ == joined_args(views));
                } else {
                    assert(q@ =~= joined_args(views.drop_last()) + seq![32u8] + views.last());
                }
            }
            i = i + 1;
        }
        proof {
            assert(args@.subrange(0, args@.len() as int) =~= args@);
        }
        Config { query: Some(q) }
    }
}

} // verus!
