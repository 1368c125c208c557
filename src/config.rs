//! The configuration value and the environment reader.

use vstd::prelude::*;

verus! {

/// What a resolved run needs: the API credential, the domain to manage and
/// the three switches.
#[derive(Debug)]
pub struct Config {
    pub token: Option<String>,
    pub domain: Option<String>,
    pub ipv6: bool,
    pub proxy: bool,
    pub debug: bool,
}

/// The mathematical value of a `Config`: its strings as character sequences.
pub struct ConfigView {
    pub token: Option<Seq<char>>,
    pub domain: Option<Seq<char>>,
    pub ipv6: bool,
    pub proxy: bool,
    pub debug: bool,
}

/// An optional string as an optional character sequence.
pub open spec fn opt_view(o: Option<String>) -> Option<Seq<char>> {
    match o {
        Some(s) => Some(s@),
        None => None,
    }
}

impl View for Config {
    type V = ConfigView;

    open spec fn view(&self) -> ConfigView {
        ConfigView {
            token: opt_view(self.token),
            domain: opt_view(self.domain),
            ipv6: self.ipv6,
            proxy: self.proxy,
            debug: self.debug,
        }
    }
}

/// Both required fields are set.
pub open spec fn complete(c: ConfigView) -> bool {
    c.token is Some && c.domain is Some
}

/// The configuration before any source is read.
pub open spec fn empty_config() -> ConfigView {
    ConfigView { token: None, domain: None, ipv6: false, proxy: false, debug: false }
}

/// The value of the first variable named `key`, if any.
pub open spec fn lookup(vars: Seq<(Seq<char>, Seq<char>)>, key: Seq<char>) -> Option<Seq<char>>
    decreases vars.len(),
{
    if vars.len() == 0 {
        None
    } else if vars[0].0 == key {
        Some(vars[0].1)
    } else {
        lookup(vars.drop_first(), key)
    }
}

/// The name of the variable that holds the credential.
pub open spec fn token_var() -> Seq<char> {
    seq!['C', 'F', '_', 'T', 'O', 'K', 'E', 'N']
}

/// The name of the variable that holds the domain.
pub open spec fn domain_var() -> Seq<char> {
    seq!['C', 'F', '_', 'D', 'O', 'M', 'A', 'I', 'N']
}

/// The name of the variable whose presence selects IPv6.
pub open spec fn ipv6_var() -> Seq<char> {
    seq!['C', 'F', '_', 'I', 'P', 'V', '6']
}

/// The name of the variable whose presence turns the proxy on.
pub open spec fn proxy_var() -> Seq<char> {
    seq!['C', 'F', '_', 'P', 'R', 'O', 'X', 'Y']
}

/// The configuration that the environment `vars` gives: the credential and
/// the domain from their variables, and each switch on when its variable is
/// present, whatever its value.
pub open spec fn env_config(vars: Seq<(Seq<char>, Seq<char>)>) -> ConfigView {
    ConfigView {
        token: lookup(vars, token_var()),
        domain: lookup(vars, domain_var()),
        ipv6: lookup(vars, ipv6_var()) is Some,
        proxy: lookup(vars, proxy_var()) is Some,
        debug: false,
    }
}

impl Config {
    /// A configuration with no credential, no domain and every switch off.
    pub fn new() -> (r: Config)
        ensures
            r@ == empty_config(),
    {
        Config { token: None, domain: None, ipv6: false, proxy: false, debug: false }
    }

    /// Whether both the credential and the domain are set.
    pub fn is_complete(&self) -> (r: bool)
        ensures
            r == complete(self@),
    {
        self.token.is_some() && self.domain.is_some()
    }
}

proof fn lemma_lookup_step(vars: Seq<(Seq<char>, Seq<char>)>, key: Seq<char>, i: int)
    requires
        0 <= i < vars.len(),
    ensures
        lookup(vars.subrange(i, vars.len() as int), key) == if vars[i].0 == key {
            Some(vars[i].1)
        } else {
            lookup(vars.subrange(i + 1, vars.len() as int), key)
        },
{
    assert(vars.subrange(i, vars.len() as int).drop_first() =~= vars.subrange(
        i + 1,
        vars.len() as int,
    ));
}

/// The value of the first variable named `key` in `vars`.
pub fn env_lookup(vars: &Vec<(String, String)>, key: &str) -> (r: Option<String>)
    ensures
        opt_view(r) == lookup(vars.deep_view(), key@),
{
    let ghost dv = vars.deep_view();
    let wanted = String::from_str(key);
    let n = vars.len();
    let mut i: usize = 0;
    assert(dv.subrange(0, n as int) =~= dv);
    while i < n
        invariant
            n == vars.len(),
            dv == vars.deep_view(),
            wanted@ == key@,
            0 <= i <= n,
            lookup(dv.subrange(i as int, n as int), key@) == lookup(dv, key@),
        decreases n - i,
    {
        proof { lemma_lookup_step(dv, key@, i as int); }
        assert(dv[i as int] == (vars@[i as int].0@, vars@[i as int].1@));
        if vars[i].0 == wanted {
            return Some(vars[i].1.clone());
        }
        i = i + 1;
    }
    assert(dv.subrange(n as int, n as int) =~= Seq::<(Seq<char>, Seq<char>)>::empty());
    None
}

/// Reads the four variables of the environment `vars`: `CF_TOKEN` and
/// `CF_DOMAIN` give the credential and the domain, and the mere presence of
/// `CF_IPV6` or `CF_PROXY` turns that switch on. Debug output stays off.
pub fn read_env(vars: &Vec<(String, String)>) -> (r: Config)
    ensures
        r@ == env_config(vars.deep_view()),
{
    let mut conf = Config::new();
    let token_key = "CF_TOKEN";
    let domain_key = "CF_DOMAIN";
    let ipv6_key = "CF_IPV6";
    let proxy_key = "CF_PROXY";
    proof {
        reveal_strlit("CF_TOKEN");
        reveal_strlit("CF_DOMAIN");
        reveal_strlit("CF_IPV6");
        reveal_strlit("CF_PROXY");
        assert(token_key@ =~= token_var());
        assert(domain_key@ =~= domain_var());
        assert(ipv6_key@ =~= ipv6_var());
        assert(proxy_key@ =~= proxy_var());
    }
    conf.token = env_lookup(vars, token_key);
    conf.domain = env_lookup(vars, domain_key);
    conf.ipv6 = env_lookup(vars, ipv6_key).is_some();
    conf.proxy = env_lookup(vars, proxy_key).is_some();
    conf
}

} // verus!
