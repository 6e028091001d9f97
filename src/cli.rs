//! The command line, read by `getopts`.

use vstd::prelude::*;
use getopts::{Fail, Matches, Options};
use crate::config::{opt_view, CliArgs, CliView, ConfigBuilder};
use crate::error::{ProgramError, ProgramResult};
use crate::settings_file::is_plain_name;

verus! {

#[verifier::external_type_specification]
#[verifier::external_body]
pub struct ExOptions(getopts::Options);

#[verifier::external_type_specification]
#[verifier::external_body]
pub struct ExMatches(getopts::Matches);

#[verifier::external_type_specification]
#[verifier::external_body]
pub struct ExFail(getopts::Fail);

/// The names, short and long, under which an option table can be asked about.
pub uninterp spec fn option_names(opts: Options) -> Set<Seq<char>>;

/// The names, short and long, under which a parse result can be asked about.
pub uninterp spec fn matched_names(m: Matches) -> Set<Seq<char>>;

/// Whether `getopts` accepts `args` under the table `opts`.
pub uninterp spec fn accepts(opts: Options, args: Seq<Seq<char>>) -> bool;

/// What `getopts` reads from `args` under the table `opts`.
pub uninterp spec fn matches_of(opts: Options, args: Seq<Seq<char>>) -> Matches;

/// Whether the option called `name` occurs in a parse result.
pub uninterp spec fn flag_given(m: Matches, name: Seq<char>) -> bool;

/// The first value given to the option called `name` in a parse result.
pub uninterp spec fn value_given(m: Matches, name: Seq<char>) -> Option<Seq<char>>;

/// A table that defines every option of the agent.
pub open spec fn is_agent_table(opts: Options) -> bool {
    &&& option_names(opts).contains("c"@)
    &&& option_names(opts).contains("s"@)
    &&& option_names(opts).contains("e"@)
    &&& option_names(opts).contains("i"@)
    &&& option_names(opts).contains("x"@)
    &&& option_names(opts).contains("n"@)
    &&& option_names(opts).contains("r"@)
    &&& option_names(opts).contains("h"@)
}

/// The command line that a parse result gives.
pub open spec fn cli_of(m: Matches) -> CliView {
    CliView {
        help: flag_given(m, "h"@),
        now: flag_given(m, "n"@),
        config: value_given(m, "c"@),
        stats_destination: value_given(m, "s"@),
        interface_name: value_given(m, "e"@),
        min_interval: value_given(m, "i"@),
        max_interval: value_given(m, "x"@),
        root_path: value_given(m, "r"@),
    }
}

/// A one-letter short name.
pub open spec fn is_short_name(s: Seq<char>) -> bool {
    s.len() == 1 && 'a' <= s[0] && s[0] <= 'z'
}

/// A long name of more than one character.
pub open spec fn is_long_name(s: Seq<char>) -> bool {
    s.len() > 1 && is_plain_name(s)
}

/// Relies on `Options::new`: a table with no options.
#[verifier::external_body]
fn new_options() -> (r: Options)
    ensures
        option_names(r) == Set::<Seq<char>>::empty(),
{
    Options::new()
}

/// Relies on `Options::optopt`: adds an option that takes a value; it panics
/// unless the short name is one character and the long name more than one.
#[verifier::external_body]
fn add_option(opts: &mut Options, short: &str, long: &str, desc: &str, hint: &str)
    requires
        is_short_name(short@),
        is_long_name(long@),
    ensures
        option_names(*final(opts)) == option_names(*old(opts)).insert(short@).insert(long@),
{
    opts.optopt(short, long, desc, hint);
}

/// Relies on `Options::optflag`: adds an option without a value, with the
/// same demands on the names.
#[verifier::external_body]
fn add_flag(opts: &mut Options, short: &str, long: &str, desc: &str)
    requires
        is_short_name(short@),
        is_long_name(long@),
    ensures
        option_names(*final(opts)) == option_names(*old(opts)).insert(short@).insert(long@),
{
    opts.optflag(short, long, desc);
}

/// Relies on `Options::parse`: it reads the arguments under the table, or
/// fails on arguments that the table does not accept; a successful parse can
/// be asked about every option of the table.
#[verifier::external_body]
fn parse_options(opts: &Options, args: &Vec<String>) -> (r: Result<Matches, Fail>)
    ensures
        r is Ok <==> accepts(*opts, args.deep_view()),
        r matches Ok(m) ==> m == matches_of(*opts, args.deep_view()),
        r matches Ok(m) ==> matched_names(m) == option_names(*opts),
{
    opts.parse(args)
}

/// Relies on `Matches::opt_present`: whether the option occurs; it panics on
/// a name that the table does not define.
#[verifier::external_body]
fn opt_present(m: &Matches, name: &str) -> (r: bool)
    requires
        matched_names(*m).contains(name@),
    ensures
        r == flag_given(*m, name@),
{
    m.opt_present(name)
}

/// Relies on `Matches::opt_str`: the first value given to the option; it
/// panics on a name that the table does not define.
#[verifier::external_body]
fn opt_str(m: &Matches, name: &str) -> (r: Option<String>)
    requires
        matched_names(*m).contains(name@),
    ensures
        opt_view(r) == value_given(*m, name@),
{
    m.opt_str(name)
}

/// The usage text that `getopts` writes for the table `opts` under `brief`.
pub uninterp spec fn usage_of(opts: Options, brief: Seq<char>) -> Seq<char>;

/// Relies on `Options::usage`: the usage text of the table under `brief`.
#[verifier::external_body]
fn options_usage(opts: &Options, brief: &str) -> (r: String)
    ensures
        r@ == usage_of(*opts, brief@),
{
    opts.usage(brief)
}

/// The option table of the agent.
pub fn cli_options() -> (r: Options)
    ensures
        is_agent_table(r),
{
    proof {
        reveal_strlit("c");
        reveal_strlit("config");
        reveal_strlit("s");
        reveal_strlit("stats");
        reveal_strlit("e");
        reveal_strlit("network-interface");
        reveal_strlit("i");
        reveal_strlit("min-interval");
        reveal_strlit("x");
        reveal_strlit("max-interval");
        reveal_strlit("n");
        reveal_strlit("now");
        reveal_strlit("m");
        reveal_strlit("meminfo");
        reveal_strlit("r");
        reveal_strlit("root");
        reveal_strlit("h");
        reveal_strlit("help");
    }
    let mut opts = new_options();
    add_option(
        &mut opts,
        "c",
        "config",
        "path to config file, the CLI options take precedence",
        "/path/to/config",
    );
    add_option(&mut opts, "s", "stats", "set statistics server socket", "HOST:PORT");
    add_option(
        &mut opts,
        "e",
        "network-interface",
        "set internet network interface to get MAC address from",
        "eth0",
    );
    add_option(
        &mut opts,
        "i",
        "min-interval",
        "minimum interval between sending statistics, defaults to 5 minutes",
        "5m",
    );
    add_option(
        &mut opts,
        "x",
        "max-interval",
        "maximum interval between sending statistics, defaults to 9 minutes",
        "9m",
    );
    add_flag(&mut opts, "n", "now", "send statistics now, defaults to waiting the interval");
    add_option(&mut opts, "m", "meminfo", "path to meminfo, defaults to /proc/meminfo", "PATH");
    add_option(
        &mut opts,
        "r",
        "root",
        "path to root for disk usage check, defaults to the first mount point",
        "PATH",
    );
    add_flag(&mut opts, "h", "help", "print this help menu");
    opts
}

/// The usage text printed for `--help`: the agent's option table under the
/// line `Usage: <program> FILE [options]`.
pub fn usage_text(program_name: &str) -> (r: String)
    ensures
        exists|opts: Options|
            is_agent_table(opts) && r@ == #[trigger] usage_of(
                opts,
                "Usage: "@ + program_name@ + " FILE [options]"@,
            ),
{
    let opts = cli_options();
    let brief = String::from_str("Usage: ").concat(program_name).concat(" FILE [options]");
    let r = options_usage(&opts, brief.as_str());
    assert(r@ == usage_of(opts, "Usage: "@ + program_name@ + " FILE [options]"@));
    r
}

/// Reads the command-line arguments that follow the program name under the
/// table `opts`.
pub fn read_cli(opts: &Options, args: &Vec<String>) -> (r: ProgramResult<CliArgs>)
    requires
        is_agent_table(*opts),
    ensures
        r is Done <==> accepts(*opts, args.deep_view()),
        r matches ProgramResult::Done(cli) ==> cli@ == cli_of(matches_of(*opts, args.deep_view())),
        r matches ProgramResult::Failed(e) ==> e is ArgParseError,
{
    let m = match parse_options(opts, args) {
        Ok(m) => m,
        Err(_) => return ProgramResult::Failed(
            ProgramError::ArgParseError(String::from_str("Couldn't parse arguments")),
        ),
    };
    ProgramResult::Done(
        CliArgs {
            help: opt_present(&m, "h"),
            now: opt_present(&m, "n"),
            config: opt_str(&m, "c"),
            stats_destination: opt_str(&m, "s"),
            interface_name: opt_str(&m, "e"),
            min_interval: opt_str(&m, "i"),
            max_interval: opt_str(&m, "x"),
            root_path: opt_str(&m, "r"),
        },
    )
}

impl ConfigBuilder {
    /// Takes in the command-line arguments that follow the program name:
    /// `None` where they ask for help, else the builder with every setting
    /// that they give.
    pub fn parse_args(self, args: &Vec<String>) -> (r: ProgramResult<Option<ConfigBuilder>>)
        ensures
            exists|opts: Options|
                #![trigger matches_of(opts, args.deep_view())]
                is_agent_table(opts) && (r is Done <==> accepts(opts, args.deep_view())) && match r {
                    ProgramResult::Done(o) => {
                        let cli = cli_of(matches_of(opts, args.deep_view()));
                        &&& (o is None <==> cli.help)
                        &&& (o matches Some(b) ==> b@ == self@.with_cli(cli))
                    },
                    ProgramResult::Failed(e) => e is ArgParseError,
                },
    {
        let opts = cli_options();
        let r = match read_cli(&opts, args) {
            ProgramResult::Done(cli) => ProgramResult::Done(self.apply_cli(cli)),
            ProgramResult::Failed(e) => ProgramResult::Failed(e),
        };
        // `opts` witnesses the table of the `ensures`.
        assert(matches_of(opts, args.deep_view()) == matches_of(opts, args.deep_view()));
        r
    }
}

} // verus!
