use vstd::prelude::*;

use crate::error::BlogError;

verus! {

/// The two positional arguments of a run.
pub struct RunArgs {
    /// Path of the configuration file.
    pub config_path: String,
    /// Path of the output directory.
    pub output_dir: String,
}

/// Check the command line of a run: `args` is the full argument vector,
/// program name first. Exactly two positional arguments are accepted; any
/// other count is a usage error, reported before anything else is done.
pub fn parse_args(args: &Vec<String>) -> (r: Result<RunArgs, BlogError>)
    ensures
        r is Ok <==> args@.len() == 3,
        r matches Ok(a) ==> a.config_path@ == args@[1]@ && a.output_dir@ == args@[2]@,
        r matches Err(e) ==> e == BlogError::Usage,
{
    if args.len() == 3 {
        Ok(RunArgs { config_path: args[1].clone(), output_dir: args[2].clone() })
    } else {
        Err(BlogError::Usage)
    }
}

} // verus!
