//! What the command line configures.

use vstd::prelude::*;
use vstd::string::StringExecFns;

verus! {

/// The arguments of a run.
#[derive(Debug, Clone)]
pub struct Args {
    /// Directory the data files will be downloaded to.
    pub directory: String,
}

/// The directory that is used where none is named.
pub open spec fn default_directory() -> Seq<char> {
    "gm48_datafiles"@
}

impl Default for Args {
    fn default() -> (args: Args)
        ensures
            args.directory@ == default_directory(),
    {
        Args { directory: String::from_str("gm48_datafiles") }
    }
}

} // verus!
