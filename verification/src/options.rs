//! Parsing of the command-line arguments into the run options: the input
//! file path, the output directory, and the preview flag.
use vstd::prelude::*;
use vstd::string::StringExecFns;

verus! {

/// The options one run works with.
#[derive(Debug)]
pub struct RunOptions {
    /// Path of the archive file to scan.
    pub file_path: String,
    /// Directory the extracted images go under.
    pub output_directory: String,
    /// In preview mode nothing is written; sizes and paths are reported.
    pub is_preview: bool,
}

/// A usage error: a required argument is missing.
#[derive(Debug, Clone, Copy, PartialEq, Eq, Structural)]
pub enum UsageError {
    MissingInputPath,
    MissingOutputDirectory,
}

impl UsageError {
    /// The message to show for this usage error.
    pub fn message(&self) -> (r: &'static str)
        ensures
            *self is MissingInputPath ==> r@ == "missing input path argument"@,
            *self is MissingOutputDirectory ==> r@ == "missing output directory path argument"@,
    {
        match self {
            UsageError::MissingInputPath => "missing input path argument",
            UsageError::MissingOutputDirectory => "missing output directory path argument",
        }
    }
}

/// Parses the arguments that follow the program name: the input path, then
/// the output directory, then optionally the literal `--preview`.  Arguments
/// beyond those three are ignored.
pub fn parse_run_options(args: Vec<String>) -> (r: Result<RunOptions, UsageError>)
    ensures
        args@.len() == 0 ==> r == Err::<RunOptions, UsageError>(UsageError::MissingInputPath),
        args@.len() == 1 ==> r == Err::<RunOptions, UsageError>(
            UsageError::MissingOutputDirectory,
        ),
        args@.len() >= 2 ==> (r matches Ok(o) && o.file_path@ == args@[0]@
            && o.output_directory@ == args@[1]@ && (o.is_preview <==> (args@.len() >= 3
            && args@[2]@ == "--preview"@))),
{
    if args.len() == 0 {
        return Err(UsageError::MissingInputPath);
    }
    if args.len() == 1 {
        return Err(UsageError::MissingOutputDirectory);
    }
    let is_preview = if args.len() >= 3 {
        let flag = String::from_str("--preview");
        args[2] == flag
    } else {
        false
    };
    let mut args = args;
    let output_directory = args.remove(1);
    let file_path = args.remove(0);
    Ok(RunOptions { file_path, output_directory, is_preview })
}

} // verus!
