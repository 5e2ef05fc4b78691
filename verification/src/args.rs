use vstd::prelude::*;

verus! {

/// Command-line switches, already parsed.
#[derive(Clone, Copy, Debug)]
pub struct Args {
    /// Ask `jj` not to snapshot the working copy before printing the log.
    pub no_snapshot: bool,
}

impl Args {
    /// The switches with their default values.
    pub fn new() -> (args: Args)
        ensures
            !args.no_snapshot,
    {
        Args { no_snapshot: false }
    }
}

} // verus!
