//! The resolver: the environment first, the command line only when the
//! environment leaves the credential or the domain unset.

use vstd::prelude::*;
use crate::config::{complete, env_config, lookup, read_env, token_var, domain_var, Config, ConfigView};
use crate::cli::{cli_outcome, read_cli, CliOptions, CliView, ParseError};
use crate::text::{help_layout, help_text, incomplete_layout, incomplete_text, version_layout, version_text};

verus! {

/// Why resolution stopped short of a configuration.
#[derive(Clone, Copy, Debug, PartialEq, Eq, Structural)]
pub enum ErrorKind {
    /// The command line broke the option syntax.
    Parse,
    /// The credential or the domain is still missing after both sources.
    Incomplete,
}

/// How resolution ended.
#[derive(Debug)]
pub enum Resolution {
    Resolved(Config),
    ShowHelp,
    ShowVersion,
    Fatal(ErrorKind),
}

/// The mathematical value of a `Resolution`.
pub enum ResolutionView {
    Resolved(ConfigView),
    ShowHelp,
    ShowVersion,
    Fatal(ErrorKind),
}

impl View for Resolution {
    type V = ResolutionView;

    open spec fn view(&self) -> ResolutionView {
        match self {
            Resolution::Resolved(c) => ResolutionView::Resolved(c@),
            Resolution::ShowHelp => ResolutionView::ShowHelp,
            Resolution::ShowVersion => ResolutionView::ShowVersion,
            Resolution::Fatal(e) => ResolutionView::Fatal(*e),
        }
    }
}

/// The command line's options laid over `env`: a field that `env` already
/// set is kept, an unset one or a switch that is off takes the command
/// line's.
pub open spec fn merged(env: ConfigView, cli: CliView) -> ConfigView {
    ConfigView {
        token: if env.token is Some { env.token } else { cli.token },
        domain: if env.domain is Some { env.domain } else { cli.domain },
        ipv6: env.ipv6 || cli.ipv6,
        proxy: env.proxy || cli.proxy,
        debug: env.debug || cli.debug,
    }
}

/// The outcome once the command line has been read (`None`: it was refused):
/// help before version, and otherwise the merged configuration if it is
/// complete.
pub open spec fn decision(env: ConfigView, cli: Option<CliView>) -> ResolutionView {
    match cli {
        None => ResolutionView::Fatal(ErrorKind::Parse),
        Some(c) => if c.help {
            ResolutionView::ShowHelp
        } else if c.version {
            ResolutionView::ShowVersion
        } else if complete(merged(env, c)) {
            ResolutionView::Resolved(merged(env, c))
        } else {
            ResolutionView::Fatal(ErrorKind::Incomplete)
        },
    }
}

/// The outcome of the whole resolution from the environment's configuration
/// `env` and the command line `args`.
pub open spec fn resolution(env: ConfigView, args: Seq<Seq<char>>) -> ResolutionView {
    if complete(env) {
        ResolutionView::Resolved(env)
    } else {
        decision(env, cli_outcome(args))
    }
}

/// What a command-line read gave, as an optional `CliView`.
pub open spec fn cli_view(cli: Result<CliOptions, ParseError>) -> Option<CliView> {
    match cli {
        Ok(c) => Some(c@),
        Err(_) => None,
    }
}

/// Lays the command line's options over `env` without overriding anything
/// that `env` set.
pub fn merge(env: Config, cli: CliOptions) -> (r: Config)
    ensures
        r@ == merged(env@, cli@),
{
    Config {
        token: if env.token.is_some() { env.token } else { cli.token },
        domain: if env.domain.is_some() { env.domain } else { cli.domain },
        ipv6: env.ipv6 || cli.ipv6,
        proxy: env.proxy || cli.proxy,
        debug: env.debug || cli.debug,
    }
}

/// Decides the outcome from the environment's configuration and what the
/// command line gave: a refused command line is fatal, help comes before
/// version, and the merged configuration must hold both the credential and
/// the domain.
pub fn decide(env: Config, cli: Result<CliOptions, ParseError>) -> (r: Resolution)
    ensures
        r@ == decision(env@, cli_view(cli)),
{
    match cli {
        Err(_) => Resolution::Fatal(ErrorKind::Parse),
        Ok(c) => {
            if c.help {
                Resolution::ShowHelp
            } else if c.version {
                Resolution::ShowVersion
            } else {
                let m = merge(env, c);
                if m.is_complete() {
                    Resolution::Resolved(m)
                } else {
                    Resolution::Fatal(ErrorKind::Incomplete)
                }
            }
        },
    }
}

/// Resolves from the environment's configuration `env` and the command line
/// `args` (the program name left out). When `env` holds both the credential
/// and the domain it is the result and `args` is not read at all.
pub fn resolve(env: Config, args: &Vec<String>) -> (r: Resolution)
    ensures
        r@ == resolution(env@, args.deep_view()),
        complete(env@) ==> r@ == ResolutionView::Resolved(env@),
{
    if env.is_complete() {
        Resolution::Resolved(env)
    } else {
        let cli = read_cli(args);
        decide(env, cli)
    }
}

/// Resolves from the environment variables `vars` and the command line
/// `args` (the program name left out).
pub fn get_configs(vars: &Vec<(String, String)>, args: &Vec<String>) -> (r: Resolution)
    ensures
        r@ == resolution(env_config(vars.deep_view()), args.deep_view()),
{
    let env = read_env(vars);
    resolve(env, args)
}

/// The process status that the outcome calls for: `0` after help or
/// version, `1` for a refused command line, `2` for a missing credential or
/// domain, and none when resolution succeeded.
pub fn exit_status(r: &Resolution) -> (s: Option<i32>)
    ensures
        s == match r@ {
            ResolutionView::Resolved(_) => None::<i32>,
            ResolutionView::ShowHelp => Some(0i32),
            ResolutionView::ShowVersion => Some(0i32),
            ResolutionView::Fatal(ErrorKind::Parse) => Some(1i32),
            ResolutionView::Fatal(ErrorKind::Incomplete) => Some(2i32),
        },
{
    match r {
        Resolution::Resolved(_) => None,
        Resolution::ShowHelp => Some(0),
        Resolution::ShowVersion => Some(0),
        Resolution::Fatal(ErrorKind::Parse) => Some(1),
        Resolution::Fatal(ErrorKind::Incomplete) => Some(2),
    }
}

/// What the outcome prints before the process ends: the help text, the
/// version text, the missing-field line followed by the help text, or
/// nothing (a refused command line, or a resolved configuration).
pub open spec fn outcome_layout(r: ResolutionView) -> Seq<char> {
    match r {
        ResolutionView::ShowHelp => help_layout(),
        ResolutionView::ShowVersion => version_layout(),
        ResolutionView::Fatal(ErrorKind::Incomplete) => incomplete_layout() + help_layout(),
        _ => Seq::empty(),
    }
}

/// The text to print for the outcome `r`.
pub fn outcome_text(r: &Resolution) -> (t: String)
    ensures
        t@ == outcome_layout(r@),
{
    match r {
        Resolution::ShowHelp => help_text(),
        Resolution::ShowVersion => version_text(),
        Resolution::Fatal(ErrorKind::Incomplete) => {
            let mut t = incomplete_text();
            t.append(help_text().as_str());
            t
        },
        _ => String::new(),
    }
}

/// When the environment sets both `CF_TOKEN` and `CF_DOMAIN`, the resolved
/// credential and domain are the environment's, whatever the command line
/// holds, `--help` included.
pub proof fn env_takes_precedence(vars: Seq<(Seq<char>, Seq<char>)>, args: Seq<Seq<char>>)
    requires
        lookup(vars, token_var()) is Some,
        lookup(vars, domain_var()) is Some,
    ensures
        resolution(env_config(vars), args) is Resolved,
        resolution(env_config(vars), args)->Resolved_0.token == lookup(vars, token_var()),
        resolution(env_config(vars), args)->Resolved_0.domain == lookup(vars, domain_var()),
{
}

/// When the environment gives the credential but no domain and the command
/// line gives the domain `x` without asking for help or the version,
/// resolution succeeds with the environment's credential and the domain `x`.
pub proof fn fallback_completion(env: ConfigView, cli: CliView, x: Seq<char>)
    requires
        env.token is Some,
        env.domain is None,
        cli.domain == Some(x),
        !cli.help,
        !cli.version,
    ensures
        decision(env, Some(cli)) is Resolved,
        decision(env, Some(cli))->Resolved_0.token == env.token,
        decision(env, Some(cli))->Resolved_0.domain == Some(x),
{
}

/// A proxy switch that the environment turned on stays on in any resolved
/// configuration, whatever the command line holds.
pub proof fn proxy_not_downgraded(env: ConfigView, args: Seq<Seq<char>>)
    requires
        env.proxy,
    ensures
        resolution(env, args) is Resolved ==> resolution(env, args)->Resolved_0.proxy,
{
}

} // verus!
