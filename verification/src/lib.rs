//! The I/O dispatch core of a relay daemon.
//!
//! A single-threaded reactor multiplexes one relay socket, one control
//! listener and a bounded set of control connections.  This crate holds the
//! decisions of that reactor as verified code: how the token space is
//! partitioned, how long a wait may last, who handles a readiness
//! notification, and how the loop moves from one phase to the next.  The
//! program around it performs the waits and the socket work.
use vstd::prelude::*;


pub mod batch;
pub mod reactor;
pub mod routing;
pub mod slots;
pub mod timing;
pub mod tokens;

verus! {

/// The command-line synopsis of the daemon.
pub fn usage() -> (text: &'static str)
    ensures
        text@ == "usage:\n  wgsrd [config-file]\n  wgsrd --version\n  wgsrd --help"@,
{
    "usage:\n  wgsrd [config-file]\n  wgsrd --version\n  wgsrd --help"
}

/// What the first command-line argument asks of the daemon.
#[derive(Debug)]
pub enum Invocation {
    /// Print the version and leave.
    ShowVersion,
    /// Print the synopsis and leave.
    ShowHelp,
    /// Run the daemon with the named configuration file, or with the default
    /// one when none is named.
    Run { config_file: Option<String> },
}

/// Reads the first command-line argument: `--version` and `--help` are
/// answered at once, anything else names the configuration file.
pub fn invocation(first: Option<&str>) -> (asked: Invocation)
    ensures
        match first {
            None => asked matches Invocation::Run { config_file: None },
            Some(arg) => if arg@ == "--version"@ {
                asked is ShowVersion
            } else if arg@ == "--help"@ {
                asked is ShowHelp
            } else {
                asked matches Invocation::Run { config_file: Some(path) } && path@ == arg@
            },
        },
{
    match first {
        None => Invocation::Run { config_file: None },
        Some(arg) => {
            let given: String = arg.to_owned();
            let version: String = "--version".to_owned();
            let help: String = "--help".to_owned();
            if given == version {
                Invocation::ShowVersion
            } else if given == help {
                Invocation::ShowHelp
            } else {
                Invocation::Run { config_file: Some(given) }
            }
        },
    }
}

} // verus!
