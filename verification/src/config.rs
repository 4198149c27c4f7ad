//! Run configuration, and its assembly from the plain values that the
//! command line supplies.

use vstd::prelude::*;

verus! {

/// Immutable configuration of one run. Durations are held in
/// nanoseconds; `since` absent means no age filtering.
pub struct Config {
    pub dry_run: bool,
    pub install_task: bool,
    pub log_path: Option<String>,
    pub quiet: bool,
    pub since: Option<u128>,
    pub verbose: bool,
}

/// Assembles the configuration of one run from the plain values read
/// off the command line. The `created-before` argument arrives as the
/// boundary's parse outcome: the cutoff in nanoseconds, or the parse
/// failure's message. (The duration parser can abort the process on
/// one adversarial input, so no contract can promise a normal return
/// for every string; the boundary makes the call, fences off the
/// abnormal exit, and hands the outcome in as a plain value.)
///
/// Fails exactly when a cutoff was given and did not parse, returning
/// that parse failure; it is startup-fatal for the caller.
pub fn build_config(
    created_before: Option<Result<u128, String>>,
    dry_run: bool,
    install_task: bool,
    log_path: Option<String>,
    quiet: bool,
    verbose: bool,
) -> (r: Result<Config, String>)
    ensures
        match created_before {
            Some(p) => {
                &&& (r is Ok <==> p is Ok)
                &&& (r is Ok ==> r->Ok_0.since == Some(p->Ok_0))
                &&& (r is Err ==> r->Err_0 == p->Err_0)
            },
            None => r is Ok && r->Ok_0.since is None,
        },
        r matches Ok(c) ==> {
            &&& c.dry_run == dry_run
            &&& c.install_task == install_task
            &&& c.log_path == log_path
            &&& c.quiet == quiet
            &&& c.verbose == verbose
        },
{
    let since: Option<u128> = match created_before {
        Option::Some(parsed) => {
            match parsed {
                Ok(n) => Option::Some(n),
                Err(e) => {
                    return Err(e);
                },
            }
        },
        Option::None => Option::None,
    };
    Ok(Config { dry_run, install_task, log_path, quiet, since, verbose })
}

} // verus!
