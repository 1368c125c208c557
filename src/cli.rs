//! The command-line reader. Option syntax is parsed by getopts; this module
//! declares the options, asks getopts for the outcome and turns it into plain
//! values.

use vstd::prelude::*;
use crate::config::opt_view;

verus! {

/// getopts::Options, the set of declared options; opaque here.
#[verifier::external_type_specification]
#[verifier::external_body]
pub struct ExOptions(getopts::Options);

/// getopts::Matches, the outcome of a successful parse; opaque here.
#[verifier::external_type_specification]
#[verifier::external_body]
pub struct ExMatches(getopts::Matches);

/// getopts::Fail, the reason a parse was refused; opaque here.
#[verifier::external_type_specification]
#[verifier::external_body]
pub struct ExFail(getopts::Fail);

/// A declared option as getopts holds it: short name, long name, and whether
/// it takes a value.
pub type OptDecl = (Seq<char>, Seq<char>, bool);

/// What each option that a name denotes was given with, one entry per
/// occurrence: `Some(v)` for a value, `None` for a bare flag.
pub type Occurrences = Map<Seq<char>, Seq<Option<Seq<char>>>>;

/// The options that a getopts option set holds, in order of declaration.
pub uninterp spec fn declared(o: getopts::Options) -> Seq<OptDecl>;

/// The occurrences that a getopts match set holds, by option name.
pub uninterp spec fn matched(m: getopts::Matches) -> Occurrences;

/// What getopts makes of `args` under the declared options `decls`:
/// `None` when it refuses them.
pub uninterp spec fn getopts_parse(decls: Seq<OptDecl>, args: Seq<Seq<char>>) -> Option<Occurrences>;

/// Relies on getopts::Options::new: an option set with nothing declared.
pub assume_specification[ getopts::Options::new ]() -> (r: getopts::Options)
    ensures
        declared(r) == Seq::<OptDecl>::empty(),
;

/// A name that getopts accepts as a short name: empty, or one ASCII character.
pub open spec fn valid_short(s: Seq<char>) -> bool {
    s.len() == 0 || (s.len() == 1 && (s[0] as u32) < 128)
}

/// Relies on getopts::Options::optflag: appends an option without a value;
/// it panics on a short name of more than one byte or a long name of one.
#[verifier::external_body]
fn declare_flag(o: &mut getopts::Options, short: &str, long: &str, desc: &str)
    requires
        valid_short(short@),
        long@.len() != 1,
    ensures
        declared(*final(o)) == declared(*old(o)).push((short@, long@, false)),
{
    o.optflag(short, long, desc);
}

/// Relies on getopts::Options::optopt: appends an option that takes a value;
/// it panics on a short name of more than one byte or a long name of one.
#[verifier::external_body]
fn declare_value(o: &mut getopts::Options, short: &str, long: &str, desc: &str, hint: &str)
    requires
        valid_short(short@),
        long@.len() != 1,
    ensures
        declared(*final(o)) == declared(*old(o)).push((short@, long@, true)),
{
    o.optopt(short, long, desc, hint);
}

/// Relies on getopts::Options::parse: the outcome depends on the declared
/// options and the arguments alone (the parsing style is never changed here),
/// and on success every declared long name denotes an option of the result.
/// It panics on an option with neither a short nor a long name.
#[verifier::external_body]
fn parse_args(o: &getopts::Options, args: &Vec<String>) -> (r: Result<getopts::Matches, getopts::Fail>)
    requires
        forall|i: int|
            0 <= i < declared(*o).len() ==> (#[trigger] declared(*o)[i]).0.len() > 0
                || declared(*o)[i].1.len() > 0,
    ensures
        r is Ok <==> getopts_parse(declared(*o), args.deep_view()) is Some,
        r is Ok ==> matched(r->Ok_0) == getopts_parse(declared(*o), args.deep_view())->Some_0,
        r is Ok ==> forall|i: int|
            0 <= i < declared(*o).len() && (#[trigger] declared(*o)[i]).1.len() > 1
                ==> matched(r->Ok_0).dom().contains(declared(*o)[i].1),
{
    o.parse(args)
}

/// Relies on getopts::Matches::opt_present: whether the option that `name`
/// denotes occurred; it panics on a name that denotes none.
#[verifier::external_body]
fn option_present(m: &getopts::Matches, name: &str) -> (r: bool)
    requires
        matched(*m).dom().contains(name@),
    ensures
        r == (matched(*m)[name@].len() > 0),
{
    m.opt_present(name)
}

/// The value of the first occurrence, if it carried one.
pub open spec fn first_value(occ: Seq<Option<Seq<char>>>) -> Option<Seq<char>> {
    if occ.len() > 0 {
        occ[0]
    } else {
        None
    }
}

/// Relies on getopts::Matches::opt_str: the value of the first occurrence of
/// the option that `name` denotes; it panics on a name that denotes none.
#[verifier::external_body]
fn option_value(m: &getopts::Matches, name: &str) -> (r: Option<String>)
    requires
        matched(*m).dom().contains(name@),
    ensures
        opt_view(r) == first_value(matched(*m)[name@]),
{
    m.opt_str(name)
}

/// The options of the command line, in order of declaration.
pub open spec fn option_table() -> Seq<OptDecl> {
    seq![
        ("h"@, "help"@, false),
        ("v"@, "version"@, false),
        (""@, "debug"@, false),
        (""@, "ipv6"@, false),
        ("t"@, "token"@, true),
        ("d"@, "domain"@, true),
        ("p"@, "proxy"@, false),
    ]
}

/// What the command line asked for. An option that was not given leaves
/// its switch off and its value unset.
#[derive(Debug)]
pub struct CliOptions {
    pub help: bool,
    pub version: bool,
    pub debug: bool,
    pub ipv6: bool,
    pub token: Option<String>,
    pub domain: Option<String>,
    pub proxy: bool,
}

/// The mathematical value of a `CliOptions`.
pub struct CliView {
    pub help: bool,
    pub version: bool,
    pub debug: bool,
    pub ipv6: bool,
    pub token: Option<Seq<char>>,
    pub domain: Option<Seq<char>>,
    pub proxy: bool,
}

impl View for CliOptions {
    type V = CliView;

    open spec fn view(&self) -> CliView {
        CliView {
            help: self.help,
            version: self.version,
            debug: self.debug,
            ipv6: self.ipv6,
            token: opt_view(self.token),
            domain: opt_view(self.domain),
            proxy: self.proxy,
        }
    }
}

/// The command line broke the option syntax: an unknown option, a missing
/// value, an option given twice.
#[derive(Clone, Copy, Debug, PartialEq, Eq, Structural)]
pub struct ParseError;

/// The options that the occurrences `occ` give.
pub open spec fn cli_of(occ: Occurrences) -> CliView {
    CliView {
        help: occ["help"@].len() > 0,
        version: occ["version"@].len() > 0,
        debug: occ["debug"@].len() > 0,
        ipv6: occ["ipv6"@].len() > 0,
        token: first_value(occ["token"@]),
        domain: first_value(occ["domain"@]),
        proxy: occ["proxy"@].len() > 0,
    }
}

/// What the command line `args` gives, or `None` when getopts refuses it.
pub open spec fn cli_outcome(args: Seq<Seq<char>>) -> Option<CliView> {
    match getopts_parse(option_table(), args) {
        Some(occ) => Some(cli_of(occ)),
        None => None,
    }
}

fn option_set() -> (r: getopts::Options)
    ensures
        declared(r) == option_table(),
{
    proof {
        reveal_strlit("h");
        reveal_strlit("v");
        reveal_strlit("");
        reveal_strlit("t");
        reveal_strlit("d");
        reveal_strlit("p");
        reveal_strlit("help");
        reveal_strlit("version");
        reveal_strlit("debug");
        reveal_strlit("ipv6");
        reveal_strlit("token");
        reveal_strlit("domain");
        reveal_strlit("proxy");
    }
    let mut opts = getopts::Options::new();
    declare_flag(&mut opts, "h", "help", "Print help");
    declare_flag(&mut opts, "v", "version", "Print version");
    declare_flag(&mut opts, "", "debug", "Enable debug mode");
    declare_flag(&mut opts, "", "ipv6", "Enable IPv6");
    declare_value(&mut opts, "t", "token", "Set token", "TOKEN");
    declare_value(&mut opts, "d", "domain", "Set domain", "DOMAIN");
    declare_flag(&mut opts, "p", "proxy", "Enable proxy");
    assert(declared(opts) =~= option_table());
    opts
}

/// Reads the command line `args` (the program name left out) against the
/// options `--help`/`-h`, `--version`/`-v`, `--debug`, `--ipv6`,
/// `--token`/`-t TOKEN`, `--domain`/`-d DOMAIN` and `--proxy`/`-p`.
pub fn read_cli(args: &Vec<String>) -> (r: Result<CliOptions, ParseError>)
    ensures
        match r {
            Ok(c) => cli_outcome(args.deep_view()) == Some(c@),
            Err(_) => cli_outcome(args.deep_view()) is None,
        },
{
    let opts = option_set();
    proof {
        reveal_strlit("help");
        reveal_strlit("version");
        reveal_strlit("debug");
        reveal_strlit("ipv6");
        reveal_strlit("token");
        reveal_strlit("domain");
        reveal_strlit("proxy");
        let t = option_table();
        assert(t[0].1.len() > 1 && t[1].1.len() > 1 && t[2].1.len() > 1 && t[3].1.len() > 1);
        assert(t[4].1.len() > 1 && t[5].1.len() > 1 && t[6].1.len() > 1);
        assert forall|i: int| 0 <= i < t.len() implies #[trigger] t[i].1.len() > 1 by {}
    }
    let parsed = parse_args(&opts, args);
    let m = match parsed {
        Ok(m) => m,
        Err(_) => {
            return Err(ParseError);
        },
    };
    let c = CliOptions {
        help: option_present(&m, "help"),
        version: option_present(&m, "version"),
        debug: option_present(&m, "debug"),
        ipv6: option_present(&m, "ipv6"),
        token: option_value(&m, "token"),
        domain: option_value(&m, "domain"),
        proxy: option_present(&m, "proxy"),
    };
    Ok(c)
}

} // verus!
