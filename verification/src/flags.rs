use vstd::prelude::*;

verus! {

/// The build helper's parsed command line.
#[derive(Debug)]
pub struct Xtask {
    pub subcommand: XtaskCmd,
}

/// The helper knows a single subcommand.
#[derive(Debug)]
pub enum XtaskCmd {
    Dist(Dist),
}

/// The `dist` subcommand: build distributable artifacts. It takes no
/// arguments of its own.
#[derive(Debug)]
pub struct Dist;

/// A command-line parse failure, with a message for the user.
#[derive(Debug)]
pub struct FlagsError {
    pub message: String,
}

impl Xtask {
    /// Parses the helper's arguments (without the program name): exactly the
    /// single word `dist` is accepted.
    pub fn from_vec(args: Vec<String>) -> (r: Result<Xtask, FlagsError>)
        ensures
            r is Ok <==> args@.len() == 1 && args@[0]@ == "dist"@,
            r matches Ok(x) ==> x.subcommand matches XtaskCmd::Dist(_),
            r matches Err(e) ==> e.message@ == "expected exactly one subcommand: dist"@,
    {
        if args.len() == 1 {
            let dist_word = String::from_str("dist");
            if args[0] == dist_word {
                return Ok(Xtask { subcommand: XtaskCmd::Dist(Dist) });
            }
        }
        Err(FlagsError { message: String::from_str("expected exactly one subcommand: dist") })
    }
}

} // verus!
