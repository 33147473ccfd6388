//! The run's configuration and its checks: the host given, the port, the
//! attempt policy and the verbosity flags.
use vstd::prelude::*;

use crate::error::{CODE_OPTIONS_ERROR, Error, SourceError};
use crate::host::IpAddress;
use crate::verbosity::Verbosity;

verus! {

pub const DEFAULT_COUNT: u32 = 0;

pub const DEFAULT_INTERVAL: u64 = 1;

pub const DEFAULT_PORT: u16 = 443;

pub const DEFAULT_TIMEOUT: u64 = 5;

/// The options of a run.
#[derive(Clone, Debug)]
pub struct Args {
    /// Target host to connect to.
    pub host: String,
    /// Port number to connect to.
    pub port: u16,
    /// Count of connection attempts; 0 for infinite attempts.
    pub count: u32,
    /// Interval between attempts in seconds.
    pub interval: u64,
    /// Print a report every this many attempts; 0 for no intermediate reports.
    pub report_interval: u32,
    /// Connection attempt timeout in seconds.
    pub timeout: u64,
    /// Show each result only as 'ok' or 'failed'.
    pub quiet: bool,
    /// Suppress output except for errors and reports.
    pub silent: bool,
    /// Verbose level: 1 = warnings, 2 = debug, 3 = trace.
    pub verbose: u8,
}

/// A checked configuration and the verbosity it asks for.
#[derive(Clone, Debug)]
pub struct Cli {
    pub args: Args,
    pub verbose: Option<Verbosity>,
}

/// The number of `true` values in `v`.
pub open spec fn count_true(v: Seq<bool>) -> nat
    decreases v.len(),
{
    if v.len() == 0 {
        0
    } else {
        count_true(v.drop_last()) + if v.last() {
            1nat
        } else {
            0nat
        }
    }
}

/// More than one of quiet, silent and verbose is asked for.
pub open spec fn conflicting(a: Args) -> bool {
    (a.silent && a.quiet) || (a.silent && a.verbose != 0) || (a.quiet && a.verbose != 0)
}

/// The verbosity that the flags ask for, `None` when none is set.
pub open spec fn verbosity_of(a: Args) -> Option<Verbosity> {
    if a.quiet {
        Some(Verbosity::Quiet)
    } else if a.silent {
        Some(Verbosity::Silent)
    } else if a.verbose > 0 {
        Some(Verbosity::Verbose(a.verbose))
    } else {
        None
    }
}

/// The number of `true` values in `vec`.
pub fn _count_true(vec: Vec<bool>) -> (r: usize)
    ensures
        r == count_true(vec@),
{
    let mut n: usize = 0;
    let mut i: usize = 0;
    while i < vec.len()
        invariant
            i <= vec@.len(),
            n == count_true(vec@.take(i as int)),
            n <= i,
        decreases vec@.len() - i,
    {
        assert(vec@.take(i + 1).drop_last() =~= vec@.take(i as int));
        if vec[i] {
            n = n + 1;
        }
        i = i + 1;
    }
    assert(vec@.take(i as int) =~= vec@);
    n
}

/// Whitespace-trimmed text: what `str::trim` makes of a string.
pub uninterp spec fn trim_of(s: Seq<char>) -> Seq<char>;

/// Whether a string is a valid RFC 1123 host name, as `hostname_validator`
/// decides it.
pub uninterp spec fn hostname_ok(s: Seq<char>) -> bool;

/// Relies on `str::trim`: the string without leading and trailing whitespace,
/// which depends on the characters alone; an empty string stays empty.
#[verifier::external_body]
fn trimmed(s: &str) -> (r: &str)
    ensures
        r@ == trim_of(s@),
        s@.len() == 0 ==> r@.len() == 0,
{
    s.trim()
}

/// Relies on `hostname_validator::is_valid`: RFC 1123 host-name validity,
/// which depends on the characters alone; a valid name is not empty and
/// starts with neither `-` nor `.`.
#[verifier::external_body]
fn is_valid_hostname(s: &str) -> (r: bool)
    ensures
        r == hostname_ok(s@),
        r ==> s@.len() > 0 && s@[0] != '-' && s@[0] != '.',
{
    hostname_validator::is_valid(s)
}

/// Checks a host as given, with `literal` the host read as a literal IP
/// address (`None` when it is not one). A host that is empty after trimming
/// whitespace is refused; so is one that is neither a literal address nor a
/// valid host name. An accepted host is returned as it was given.
pub fn validate_host(host: &str, literal: Option<IpAddress>) -> (r: Result<String, String>)
    ensures
        trim_of(host@).len() == 0 ==> r is Err && r->Err_0@ == "Host cannot be empty"@,
        trim_of(host@).len() != 0 && (literal is Some || hostname_ok(host@)) ==> r is Ok
            && r->Ok_0@ == host@,
        trim_of(host@).len() != 0 && literal is None && !hostname_ok(host@) ==> r is Err
            && r->Err_0@ == "Invalid host format"@,
{
    if trimmed(host).is_empty() {
        Err(String::from_str("Host cannot be empty"))
    } else if literal.is_some() || is_valid_hostname(host) {
        Ok(host.to_owned())
    } else {
        Err(String::from_str("Invalid host format"))
    }
}

impl Args {
    /// The options for `host` with every other option at its default: port
    /// 443, infinite attempts one second apart, a five-second timeout, no
    /// intermediate reports, normal verbosity.
    pub fn new(host: String) -> (r: Args)
        ensures
            r.host == host,
            r.port == DEFAULT_PORT,
            r.count == DEFAULT_COUNT,
            r.interval == DEFAULT_INTERVAL,
            r.report_interval == 0,
            r.timeout == DEFAULT_TIMEOUT,
            !r.quiet,
            !r.silent,
            r.verbose == 0,
    {
        Args {
            host,
            port: DEFAULT_PORT,
            count: DEFAULT_COUNT,
            interval: DEFAULT_INTERVAL,
            report_interval: 0,
            timeout: DEFAULT_TIMEOUT,
            quiet: false,
            silent: false,
            verbose: 0,
        }
    }
}

impl Cli {
    /// Checks `args` and records the verbosity they ask for. Asking for more
    /// than one of quiet, silent and verbose is refused, and so is port 0;
    /// both refusals carry the options-error code and ask for the usage text.
    pub fn new(args: Args) -> (r: Result<Cli, Error>)
        ensures
            r is Err <==> conflicting(args) || args.port == 0,
            r is Ok ==> r->Ok_0.args == args && r->Ok_0.verbose == verbosity_of(args),
            r is Err ==> r->Err_0.spec_code() == Some(CODE_OPTIONS_ERROR)
                && r->Err_0.spec_print_help() && r->Err_0.spec_source() is Msg,
    {
        let is_verbose = args.verbose != 0;
        let flags = vec![args.silent, args.quiet, is_verbose];
        proof {
            let f = seq![args.silent, args.quiet, args.verbose != 0];
            assert(flags@ =~= f);
            assert(f.drop_last() =~= seq![args.silent, args.quiet]);
            assert(f.drop_last().drop_last() =~= seq![args.silent]);
            assert(f.drop_last().drop_last().drop_last() =~= Seq::<bool>::empty());
            let f2 = f.drop_last();
            let f1 = f2.drop_last();
            assert(count_true(f1.drop_last()) == 0);
            assert(count_true(f1) == if args.silent { 1nat } else { 0nat });
            assert(count_true(f2) == count_true(f1) + if args.quiet { 1nat } else { 0nat });
            assert(count_true(f) == count_true(f2) + if args.verbose != 0 { 1nat } else { 0nat });
            assert(count_true(f) > 1 <==> conflicting(args));
        }
        if _count_true(flags) > 1 {
            let e = Error::new(
                SourceError::Msg(
                    String::from_str("You may only specify one of: --quiet, --silent, --verbose"),
                ),
            );
            return Err(e.set_code(CODE_OPTIONS_ERROR).print_help());
        }
        if args.port == 0 {
            let e = Error::new(SourceError::Msg(String::from_str("Port must be between 1 and 65535")));
            return Err(e.set_code(CODE_OPTIONS_ERROR).print_help());
        }
        let mut c = Cli { args, verbose: None };
        c.verbose = c.verbosity();
        Ok(c)
    }

    /// The verbosity the flags ask for; quiet wins over silent, and silent
    /// over verbose.
    pub fn verbosity(&self) -> (r: Option<Verbosity>)
        ensures
            r == verbosity_of(self.args),
    {
        if self.args.quiet {
            Some(Verbosity::Quiet)
        } else if self.args.silent {
            Some(Verbosity::Silent)
        } else if self.args.verbose > 0 {
            Some(Verbosity::Verbose(self.args.verbose))
        } else {
            None
        }
    }

    /// The verbosity of the run: the one asked for, or normal.
    pub open spec fn mode_spec(&self) -> Verbosity {
        match self.verbose {
            Some(v) => v,
            None => Verbosity::Normal,
        }
    }

    /// The verbosity of the run: the one asked for, or normal.
    pub fn mode(&self) -> (r: Verbosity)
        ensures
            r == self.mode_spec(),
    {
        match self.verbose {
            Some(v) => v,
            None => Verbosity::Normal,
        }
    }
}

} // verus!
