use cddns::cli::{read_cli, ParseError};
use cddns::config::{env_lookup, read_env, Config};
use cddns::resolve::{
    decide, exit_status, get_configs, merge, outcome_text, resolve, ErrorKind, Resolution,
};
use cddns::text::{help_text, version_text};

fn args(a: &[&str]) -> Vec<String> {
    a.iter().map(|s| s.to_string()).collect()
}

fn vars(a: &[(&str, &str)]) -> Vec<(String, String)> {
    a.iter().map(|(k, v)| (k.to_string(), v.to_string())).collect()
}

fn resolved(r: Resolution) -> Config {
    match r {
        Resolution::Resolved(c) => c,
        other => panic!("not resolved: {:?}", other),
    }
}

#[test]
fn new_config_is_empty() {
    let c = Config::new();
    assert_eq!(c.token, None);
    assert_eq!(c.domain, None);
    assert!(!c.ipv6 && !c.proxy && !c.debug);
    assert!(!c.is_complete());
}

#[test]
fn env_lookup_takes_first_match() {
    let v = vars(&[("A", "1"), ("CF_TOKEN", "x"), ("CF_TOKEN", "y")]);
    assert_eq!(env_lookup(&v, "CF_TOKEN"), Some("x".to_string()));
    assert_eq!(env_lookup(&v, "CF_DOMAIN"), None);
    assert_eq!(env_lookup(&vars(&[]), "A"), None);
}

#[test]
fn env_flags_follow_presence_not_value() {
    let v = vars(&[("CF_IPV6", ""), ("CF_PROXY", "false"), ("CF_TOKEN", "tok")]);
    let c = read_env(&v);
    assert!(c.ipv6);
    assert!(c.proxy);
    assert!(!c.debug);
    assert_eq!(c.token, Some("tok".to_string()));
    assert_eq!(c.domain, None);
}

#[test]
fn env_without_variables_is_empty() {
    let c = read_env(&vars(&[("PATH", "/bin")]));
    assert_eq!(c.token, None);
    assert_eq!(c.domain, None);
    assert!(!c.ipv6 && !c.proxy && !c.debug);
}

#[test]
fn cli_reads_long_and_short_forms() {
    let c = read_cli(&args(&["-t", "tok", "--domain", "a.example.com", "-p", "--ipv6", "--debug"])).unwrap();
    assert_eq!(c.token, Some("tok".to_string()));
    assert_eq!(c.domain, Some("a.example.com".to_string()));
    assert!(c.proxy && c.ipv6 && c.debug);
    assert!(!c.help && !c.version);

    let c = read_cli(&args(&["--token", "tok", "-d", "b.example.com"])).unwrap();
    assert_eq!(c.token, Some("tok".to_string()));
    assert_eq!(c.domain, Some("b.example.com".to_string()));
    assert!(!c.proxy && !c.ipv6 && !c.debug);
}

#[test]
fn cli_empty_sets_nothing() {
    let c = read_cli(&args(&[])).unwrap();
    assert!(!c.help && !c.version && !c.debug && !c.ipv6 && !c.proxy);
    assert_eq!(c.token, None);
    assert_eq!(c.domain, None);
}

#[test]
fn cli_refuses_malformed_syntax() {
    assert_eq!(read_cli(&args(&["--bogus"])).unwrap_err(), ParseError);
    assert_eq!(read_cli(&args(&["--token"])).unwrap_err(), ParseError);
    assert_eq!(read_cli(&args(&["-x"])).unwrap_err(), ParseError);
    assert_eq!(read_cli(&args(&["--proxy=yes"])).unwrap_err(), ParseError);
}

#[test]
fn precedence_env_wins_over_help() {
    let v = vars(&[("CF_TOKEN", "envtok"), ("CF_DOMAIN", "env.example.com")]);
    let c = resolved(get_configs(&v, &args(&["--help"])));
    assert_eq!(c.token, Some("envtok".to_string()));
    assert_eq!(c.domain, Some("env.example.com".to_string()));
    let c = resolved(get_configs(&v, &args(&["--token", "other", "--domain", "other.com", "--bogus"])));
    assert_eq!(c.token, Some("envtok".to_string()));
    assert_eq!(c.domain, Some("env.example.com".to_string()));
}

#[test]
fn fallback_completion_from_cli() {
    let v = vars(&[("CF_TOKEN", "envtok")]);
    let c = resolved(get_configs(&v, &args(&["--domain", "X"])));
    assert_eq!(c.token, Some("envtok".to_string()));
    assert_eq!(c.domain, Some("X".to_string()));
}

#[test]
fn env_token_not_overridden_by_cli() {
    let v = vars(&[("CF_TOKEN", "envtok")]);
    let c = resolved(get_configs(&v, &args(&["--token", "clitok", "-d", "X"])));
    assert_eq!(c.token, Some("envtok".to_string()));
    assert_eq!(c.domain, Some("X".to_string()));
}

#[test]
fn proxy_from_env_not_cleared() {
    let v = vars(&[("CF_PROXY", "1"), ("CF_TOKEN", "t")]);
    let c = resolved(get_configs(&v, &args(&["--domain", "d.example.com"])));
    assert!(c.proxy);
    assert!(!c.ipv6);
}

#[test]
fn missing_both_exits_two_with_message() {
    let r = get_configs(&vars(&[]), &args(&[]));
    assert!(matches!(r, Resolution::Fatal(ErrorKind::Incomplete)));
    assert_eq!(exit_status(&r), Some(2));
    let text = outcome_text(&r);
    assert!(text.contains("token"));
    assert!(text.contains("domain"));
    assert_eq!(
        text,
        format!("Error: You're missing either the token, or the domain\n\n{}", help_text())
    );
}

#[test]
fn help_has_priority_over_version() {
    let r = get_configs(&vars(&[]), &args(&["--help", "--version"]));
    assert!(matches!(r, Resolution::ShowHelp));
    assert_eq!(exit_status(&r), Some(0));
    assert_eq!(outcome_text(&r), help_text());
    assert!(!outcome_text(&r).contains("CDDNS"));
}

#[test]
fn version_alone_shows_version() {
    let r = get_configs(&vars(&[("CF_TOKEN", "t")]), &args(&["-v"]));
    assert!(matches!(r, Resolution::ShowVersion));
    assert_eq!(exit_status(&r), Some(0));
    assert_eq!(outcome_text(&r), version_text());
}

#[test]
fn parse_error_exits_one_silently() {
    let r = get_configs(&vars(&[]), &args(&["--domain"]));
    assert!(matches!(r, Resolution::Fatal(ErrorKind::Parse)));
    assert_eq!(exit_status(&r), Some(1));
    assert_eq!(outcome_text(&r), "");
}

#[test]
fn resolved_has_no_status_and_no_text() {
    let r = get_configs(&vars(&[]), &args(&["-t", "a", "-d", "b", "--ipv6", "--debug", "-p"]));
    assert_eq!(exit_status(&r), None);
    assert_eq!(outcome_text(&r), "");
    let c = resolved(r);
    assert!(c.ipv6 && c.debug && c.proxy);
}

#[test]
fn resolve_skips_cli_when_env_complete() {
    let mut env = Config::new();
    env.token = Some("t".to_string());
    env.domain = Some("d".to_string());
    let c = resolved(resolve(env, &args(&["--not-an-option"])));
    assert_eq!(c.token, Some("t".to_string()));
}

#[test]
fn merge_only_adds() {
    let mut env = Config::new();
    env.domain = Some("envdom".to_string());
    env.ipv6 = true;
    let cli = read_cli(&args(&["-d", "clidom", "-t", "clitok"])).unwrap();
    let m = merge(env, cli);
    assert_eq!(m.domain, Some("envdom".to_string()));
    assert_eq!(m.token, Some("clitok".to_string()));
    assert!(m.ipv6 && !m.proxy && !m.debug);
}

#[test]
fn decide_incomplete_and_parse_error() {
    let cli = read_cli(&args(&["--proxy"]));
    assert!(matches!(decide(Config::new(), cli), Resolution::Fatal(ErrorKind::Incomplete)));
    assert!(matches!(decide(Config::new(), Err(ParseError)), Resolution::Fatal(ErrorKind::Parse)));
}
