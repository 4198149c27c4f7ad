//! Assembly of the command line with which the startup scheduled task
//! will invoke the cleaner: it reproduces the configuration of the run
//! that registered it. Registering the task itself is an external,
//! platform-level concern; only this argument list is the library's.

use crate::config::Config;
use vstd::prelude::*;

verus! {

/// The rendering that `humantime`'s duration formatter gives to a
/// duration of `secs` seconds and `nanos` subsecond nanoseconds.
pub uninterp spec fn formatted_duration(secs: u64, nanos: u32) -> Seq<char>;

/// Relies on `humantime::format_duration`: the rendering is a function
/// of the duration value alone. Subsecond nanoseconds stay below one
/// second, so building the duration value cannot overflow.
#[verifier::external_body]
fn format_duration_str(secs: u64, nanos: u32) -> (r: String)
    requires
        nanos < 1_000_000_000,
    ensures
        r@ == formatted_duration(secs, nanos),
{
    humantime::format_duration(std::time::Duration::new(secs, nanos)).to_string()
}

/// A value quoted for the generated registration script: wrapped in
/// escaped double quotes.
pub open spec fn spec_quoted(s: Seq<char>) -> Seq<char> {
    "`\""@ + s + "`\""@
}

fn quote(s: &str) -> (r: String)
    ensures
        r@ == spec_quoted(s@),
{
    String::from_str("`\"").concat(s).concat("`\"")
}

/// The arguments the scheduled task will pass to the cleaner: one flag
/// per boolean option that is set, the cutoff rendered back into its
/// human-readable form, and the log path, both quoted for the script.
pub open spec fn spec_task_args(c: Config) -> Seq<Seq<char>> {
    let dry: Seq<Seq<char>> = if c.dry_run {
        seq!["--dry-run"@]
    } else {
        Seq::empty()
    };
    let quiet: Seq<Seq<char>> = if c.quiet {
        seq!["--quiet"@]
    } else {
        Seq::empty()
    };
    let verbose: Seq<Seq<char>> = if c.verbose {
        seq!["--verbose"@]
    } else {
        Seq::empty()
    };
    let since: Seq<Seq<char>> = match c.since {
        Some(n) => seq![
            "--created-before"@,
            spec_quoted(
                formatted_duration((n / 1_000_000_000) as u64, (n % 1_000_000_000) as u32),
            ),
        ],
        None => Seq::empty(),
    };
    let log: Seq<Seq<char>> = match c.log_path {
        Some(p) => seq!["--log"@, spec_quoted(p@)],
        None => Seq::empty(),
    };
    dry + quiet + verbose + since + log
}

/// Builds the argument list for the startup-task registration from the
/// configuration of this run. The cutoff must fit std's duration type
/// (seconds in a machine word), which every parsed cutoff does.
pub fn parse_args(config: &Config) -> (args: Vec<String>)
    requires
        config.since matches Some(n) ==> n / 1_000_000_000 <= u64::MAX,
    ensures
        args.deep_view() == spec_task_args(*config),
{
    let mut args: Vec<String> = Vec::new();
    if config.dry_run {
        args.push(String::from_str("--dry-run"));
    }
    if config.quiet {
        args.push(String::from_str("--quiet"));
    }
    if config.verbose {
        args.push(String::from_str("--verbose"));
    }
    match &config.since {
        Option::Some(n) => {
            let secs: u64 = (*n / 1_000_000_000) as u64;
            let nanos: u32 = (*n % 1_000_000_000) as u32;
            args.push(String::from_str("--created-before"));
            let rendered = format_duration_str(secs, nanos);
            args.push(quote(rendered.as_str()));
        },
        Option::None => {},
    }
    match &config.log_path {
        Option::Some(p) => {
            args.push(String::from_str("--log"));
            args.push(quote(p.as_str()));
        },
        Option::None => {},
    }
    proof {
        assert(args.deep_view() =~~= spec_task_args(*config));
    }
    args
}

} // verus!
