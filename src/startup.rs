//! The startup check, made before any sensor is read or any listener bound:
//! the process needs the directory of the web assets as its first argument.
use vstd::prelude::*;
use vstd::string::StringExecFns;

verus! {

/// Why the process cannot start.
#[derive(Clone, Copy, Debug, PartialEq, Eq, Structural)]
pub enum StartupError {
    /// The asset directory was not given on the command line.
    Usage,
}

/// Relies on `exitcode::USAGE`, the conventional code for a command used
/// wrongly (sysexits' `EX_USAGE`).
#[verifier::external_body]
fn usage_exit_code() -> (r: i32)
    ensures
        r == 64,
{
    exitcode::USAGE
}

impl StartupError {
    /// The code the process exits with.
    pub fn exit_code(&self) -> (r: i32)
        ensures
            *self == StartupError::Usage ==> r == 64,
    {
        match self {
            StartupError::Usage => usage_exit_code(),
        }
    }
}

/// The asset directory named by the command line `args`, whose first entry
/// is the program itself; arguments after the directory are ignored.
pub fn asset_directory(args: &Vec<String>) -> (r: Result<String, StartupError>)
    ensures
        args@.len() < 2 <==> r == Err::<String, StartupError>(StartupError::Usage),
        r is Ok ==> r->Ok_0@ == args@[1]@,
{
    if args.len() < 2 {
        Err(StartupError::Usage)
    } else {
        Ok(args[1].clone())
    }
}

/// The usage line printed when the asset directory is missing.
pub fn usage_message(program: &str) -> (r: String)
    ensures
        r@ == "Usage: "@ + program@ + " {path to web folder}"@,
{
    let mut m = String::from_str("Usage: ");
    m.append(program);
    m.append(" {path to web folder}");
    m
}

} // verus!
