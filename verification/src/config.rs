//! The Config Assembler: reads each recognized variable from the
//! Environment Source, applies the matching parser, substitutes the
//! documented default when a variable is absent, and returns one immutable
//! aggregate or the first error found — construction is all-or-nothing.

use vstd::prelude::*;

use crate::addr::Addr;
use crate::addr::Ip;
use crate::addr::Listener;
use crate::addr::spec_addr_from_str;
use crate::control::HostAndPort;
use crate::control::HostAndPortView;
use crate::control::control_from_str;
use crate::control::spec_control_from_str;
use crate::env_source::Env;
use crate::env_source::EnvValue;
use crate::env_source::env_var;
use crate::env_source::env_var_parse;
use crate::errors::Error;
use crate::errors::ErrorView;
use crate::num::parse_u64;
use crate::num::parse_usize;
use crate::num::spec_parse_u64;
use crate::num::spec_parse_usize;

verus! {

// Environment variables read when loading the configuration.  These three
// are read verbatim by other components and carry no validation here.
pub const ENV_NODE_NAME: &'static str = "CONDUIT_PROXY_NODE_NAME";

pub const ENV_POD_NAME: &'static str = "CONDUIT_PROXY_POD_NAME";

pub const ENV_POD_NAMESPACE: &'static str = "CONDUIT_PROXY_POD_NAMESPACE";

/// Tracks all configuration settings for the process.
#[derive(Clone, Debug)]
pub struct Config {
    /// Where to listen for connections that are initiated on the host.
    pub private_listener: Listener,
    /// Where to listen for connections initiated by external sources.
    pub public_listener: Listener,
    /// Where to listen for connections initiated by the control plane.
    pub control_listener: Listener,
    /// Where to forward externally received connections.
    pub private_forward: Option<Addr>,
    /// The maximum time, in milliseconds, to wait for a connection to the
    /// public peer; absent means no timeout, never zero.
    pub public_connect_timeout: Option<u64>,
    /// The maximum time, in milliseconds, to wait for a connection to the
    /// private peer; absent means no timeout, never zero.
    pub private_connect_timeout: Option<u64>,
    /// The path to the resolver configuration file, recorded as opaque
    /// text; the file is never opened here.
    pub resolv_conf_path: String,
    /// Where to talk to the control plane.
    pub control_host_and_port: HostAndPort,
    /// Event queue capacity.
    pub event_buffer_capacity: usize,
    /// The interval, in seconds, after which metrics are flushed.
    pub metrics_flush_interval: u64,
}

/// The mathematical shape of a `Config`.
pub struct ConfigView {
    pub private_listener: Addr,
    pub public_listener: Addr,
    pub control_listener: Addr,
    pub private_forward: Option<Addr>,
    pub public_connect_timeout: Option<u64>,
    pub private_connect_timeout: Option<u64>,
    pub resolv_conf_path: Seq<char>,
    pub control_host_and_port: HostAndPortView,
    pub event_buffer_capacity: usize,
    pub metrics_flush_interval: u64,
}

impl View for Config {
    type V = ConfigView;

    open spec fn view(&self) -> ConfigView {
        ConfigView {
            private_listener: self.private_listener.addr,
            public_listener: self.public_listener.addr,
            control_listener: self.control_listener.addr,
            private_forward: self.private_forward,
            public_connect_timeout: self.public_connect_timeout,
            private_connect_timeout: self.private_connect_timeout,
            resolv_conf_path: self.resolv_conf_path@,
            control_host_and_port: self.control_host_and_port@,
            event_buffer_capacity: self.event_buffer_capacity,
            metrics_flush_interval: self.metrics_flush_interval,
        }
    }
}

/// The default private listener, `127.0.0.1:4140`.
pub open spec fn default_private_listener() -> Addr {
    Addr { ip: Ip::V4(0x7f000001), port: 4140 }
}

/// The default public listener, `0.0.0.0:4143`.
pub open spec fn default_public_listener() -> Addr {
    Addr { ip: Ip::V4(0), port: 4143 }
}

/// The default control listener, `0.0.0.0:4190`.
pub open spec fn default_control_listener() -> Addr {
    Addr { ip: Ip::V4(0), port: 4190 }
}

/// The control-plane URL assumed when its variable is absent.
pub open spec fn default_control_url() -> Seq<char> {
    "tcp://proxy-api.conduit.svc.cluster.local:8086/"@
}

/// The value under `name`, substituted by `d` when absent.
pub open spec fn opt_or<T>(o: Option<T>, d: T) -> T {
    match o {
        Some(v) => v,
        None => d,
    }
}

/// A parser outcome as `str::parse`-shaped results carry it.
pub open spec fn res_of_opt<T>(o: Option<T>) -> Result<T, ()> {
    match o {
        Some(v) => Ok(v),
        None => Err(()),
    }
}

/// One optional numeric setting parsed as `usize`.
pub open spec fn spec_opt_usize(env: Env, name: Seq<char>) -> Result<Option<usize>, ErrorView> {
    match env.spec_get(name) {
        None => Ok(None),
        Some(EnvValue::NotText) => Err(ErrorView::InvalidEnvVar { name, value: "<not unicode>"@ }),
        Some(EnvValue::Text(s)) => match spec_parse_usize(s@) {
            None => Err(ErrorView::InvalidEnvVar { name, value: s@ }),
            Some(v) => Ok(Some(v)),
        },
    }
}

/// One optional numeric setting parsed as `u64`.
pub open spec fn spec_opt_u64(env: Env, name: Seq<char>) -> Result<Option<u64>, ErrorView> {
    match env.spec_get(name) {
        None => Ok(None),
        Some(EnvValue::NotText) => Err(ErrorView::InvalidEnvVar { name, value: "<not unicode>"@ }),
        Some(EnvValue::Text(s)) => match spec_parse_u64(s@) {
            None => Err(ErrorView::InvalidEnvVar { name, value: s@ }),
            Some(v) => Ok(Some(v)),
        },
    }
}

/// One optional endpoint setting; a string that the endpoint parser
/// refuses is reported as an invalid variable, carrying the raw text.
pub open spec fn spec_opt_addr(env: Env, name: Seq<char>) -> Result<Option<Addr>, ErrorView> {
    match env.spec_get(name) {
        None => Ok(None),
        Some(EnvValue::NotText) => Err(ErrorView::InvalidEnvVar { name, value: "<not unicode>"@ }),
        Some(EnvValue::Text(s)) => match spec_addr_from_str(s@) {
            None => Err(ErrorView::InvalidEnvVar { name, value: s@ }),
            Some(a) => Ok(Some(a)),
        },
    }
}

/// One optional plain-text setting.
pub open spec fn spec_text(env: Env, name: Seq<char>) -> Result<Option<Seq<char>>, ErrorView> {
    match env.spec_get(name) {
        None => Ok(None),
        Some(EnvValue::NotText) => Err(ErrorView::InvalidEnvVar { name, value: "<not unicode>"@ }),
        Some(EnvValue::Text(s)) => Ok(Some(s@)),
    }
}

/// The control URL validator's verdict on one raw string, wrapped with
/// that string for diagnostics on failure.
pub open spec fn spec_control_result(s: Seq<char>) -> Result<HostAndPortView, ErrorView> {
    match spec_control_from_str(s) {
        Ok(hp) => Ok(hp@),
        Err(u) => Err(ErrorView::ControlPlaneConfigError(s, u)),
    }
}

/// The control-plane setting: the variable's text when present, else the
/// caller-supplied default string, validated either way.
pub open spec fn spec_control_field(env: Env, key: Seq<char>, default: Seq<char>) -> Result<
    HostAndPortView,
    ErrorView,
> {
    match env.spec_get(key) {
        Some(EnvValue::NotText) => Err(
            ErrorView::InvalidEnvVar { name: key, value: "<not unicode>"@ },
        ),
        Some(EnvValue::Text(s)) => spec_control_result(s@),
        None => spec_control_result(default),
    }
}

/// What loading returns for a given environment snapshot: the first
/// invalid field aborts the whole load, in the order the assembler reads
/// them.
pub open spec fn spec_load(env: Env) -> Result<ConfigView, ErrorView> {
    match spec_opt_usize(env, "CONDUIT_PROXY_EVENT_BUFFER_CAPACITY"@) {
        Err(e) => Err(e),
        Ok(cap) => match spec_opt_u64(env, "CONDUIT_PROXY_METRICS_FLUSH_INTERVAL_SECS"@) {
            Err(e) => Err(e),
            Ok(flush) => match spec_opt_addr(env, "CONDUIT_PROXY_PRIVATE_LISTENER"@) {
                Err(e) => Err(e),
                Ok(priv_l) => match spec_opt_addr(env, "CONDUIT_PROXY_PUBLIC_LISTENER"@) {
                    Err(e) => Err(e),
                    Ok(pub_l) => match spec_opt_addr(env, "CONDUIT_PROXY_CONTROL_LISTENER"@) {
                        Err(e) => Err(e),
                        Ok(ctl_l) => match spec_opt_addr(env, "CONDUIT_PROXY_PRIVATE_FORWARD"@) {
                            Err(e) => Err(e),
                            Ok(fwd) => match spec_opt_u64(
                                env,
                                "CONDUIT_PROXY_PUBLIC_CONNECT_TIMEOUT"@,
                            ) {
                                Err(e) => Err(e),
                                Ok(pub_to) => match spec_opt_u64(
                                    env,
                                    "CONDUIT_PROXY_PRIVATE_CONNECT_TIMEOUT"@,
                                ) {
                                    Err(e) => Err(e),
                                    Ok(priv_to) => match spec_text(env, "CONDUIT_RESOLV_CONF"@) {
                                        Err(e) => Err(e),
                                        Ok(resolv) => match spec_control_field(
                                            env,
                                            "CONDUIT_PROXY_CONTROL_URL"@,
                                            default_control_url(),
                                        ) {
                                            Err(e) => Err(e),
                                            Ok(chp) => Ok(
                                                ConfigView {
                                                    private_listener: opt_or(
                                                        priv_l,
                                                        default_private_listener(),
                                                    ),
                                                    public_listener: opt_or(
                                                        pub_l,
                                                        default_public_listener(),
                                                    ),
                                                    control_listener: opt_or(
                                                        ctl_l,
                                                        default_control_listener(),
                                                    ),
                                                    private_forward: fwd,
                                                    public_connect_timeout: pub_to,
                                                    private_connect_timeout: priv_to,
                                                    resolv_conf_path: opt_or(
                                                        resolv,
                                                        "/etc/resolv.conf"@,
                                                    ),
                                                    control_host_and_port: chp,
                                                    event_buffer_capacity: opt_or(cap, 10000),
                                                    metrics_flush_interval: opt_or(flush, 10),
                                                },
                                            ),
                                        },
                                    },
                                },
                            },
                        },
                    },
                },
            },
        },
    }
}

/// Reads one optional `usize` variable through the generic helper.
fn opt_usize_field(env: &Env, name: &str) -> (r: Result<Option<usize>, Error>)
    ensures
        match r {
            Ok(v) => spec_opt_usize(*env, name@) == Ok::<Option<usize>, ErrorView>(v),
            Err(e) => spec_opt_usize(*env, name@) == Err::<Option<usize>, ErrorView>(e@),
        },
{
    let p = (|s: &str| -> (pr: Result<usize, ()>)
        ensures
            pr == res_of_opt(spec_parse_usize(s@)),
        {
            match parse_usize(s) {
                Some(v) => Ok(v),
                None => Err(()),
            }
        });
    let r = env_var_parse(env, name, p);
    proof {
        if let Some(EnvValue::Text(s)) = env.spec_get(name@) {
            match &r {
                Ok(opt) => {
                    if let Some(t) = *opt {
                        let ss = choose|ss: &str|
                            ss@ == s@ && #[trigger] call_ensures(p, (ss,), Ok::<usize, ()>(t));
                        assert(spec_parse_usize(s@) == Some(t));
                    }
                },
                Err(e) => {
                    let (ss, err): (&str, ()) = choose|ss: &str, err: ()|
                        ss@ == s@ && #[trigger] call_ensures(p, (ss,), Err::<usize, ()>(err));
                    assert(spec_parse_usize(s@) is None);
                },
            }
        }
    }
    r
}

/// Reads one optional `u64` variable through the generic helper.
fn opt_u64_field(env: &Env, name: &str) -> (r: Result<Option<u64>, Error>)
    ensures
        match r {
            Ok(v) => spec_opt_u64(*env, name@) == Ok::<Option<u64>, ErrorView>(v),
            Err(e) => spec_opt_u64(*env, name@) == Err::<Option<u64>, ErrorView>(e@),
        },
{
    let p = (|s: &str| -> (pr: Result<u64, ()>)
        ensures
            pr == res_of_opt(spec_parse_u64(s@)),
        {
            match parse_u64(s) {
                Some(v) => Ok(v),
                None => Err(()),
            }
        });
    let r = env_var_parse(env, name, p);
    proof {
        if let Some(EnvValue::Text(s)) = env.spec_get(name@) {
            match &r {
                Ok(opt) => {
                    if let Some(t) = *opt {
                        let ss = choose|ss: &str|
                            ss@ == s@ && #[trigger] call_ensures(p, (ss,), Ok::<u64, ()>(t));
                        assert(spec_parse_u64(s@) == Some(t));
                    }
                },
                Err(e) => {
                    let (ss, err): (&str, ()) = choose|ss: &str, err: ()|
                        ss@ == s@ && #[trigger] call_ensures(p, (ss,), Err::<u64, ()>(err));
                    assert(spec_parse_u64(s@) is None);
                },
            }
        }
    }
    r
}

/// Reads one optional endpoint variable through the generic helper.
fn opt_addr_field(env: &Env, name: &str) -> (r: Result<Option<Addr>, Error>)
    ensures
        match r {
            Ok(v) => spec_opt_addr(*env, name@) == Ok::<Option<Addr>, ErrorView>(v),
            Err(e) => spec_opt_addr(*env, name@) == Err::<Option<Addr>, ErrorView>(e@),
        },
{
    let p = (|s: &str| -> (pr: Result<Addr, Error>)
        ensures
            match spec_addr_from_str(s@) {
                Some(a) => pr == Ok::<Addr, Error>(a),
                None => pr matches Err(Error::InvalidAddr),
            },
        { Addr::from_str(s) });
    let r = env_var_parse(env, name, p);
    proof {
        if let Some(EnvValue::Text(s)) = env.spec_get(name@) {
            match &r {
                Ok(opt) => {
                    if let Some(t) = *opt {
                        let ss = choose|ss: &str|
                            ss@ == s@ && #[trigger] call_ensures(p, (ss,), Ok::<Addr, Error>(t));
                        assert(spec_addr_from_str(s@) == Some(t));
                    }
                },
                Err(e) => {
                    let (ss, err): (&str, Error) = choose|ss: &str, err: Error|
                        ss@ == s@ && #[trigger] call_ensures(p, (ss,), Err::<Addr, Error>(err));
                    assert(spec_addr_from_str(s@) is None);
                },
            }
        }
    }
    r
}

/// Reads one optional plain-text variable.
fn text_field(env: &Env, name: &str) -> (r: Result<Option<String>, Error>)
    ensures
        match r {
            Ok(v) => match spec_text(*env, name@) {
                Ok(sv) => (v matches Some(t) && sv matches Some(tv) && t@ == tv) || (v is None
                    && sv is None),
                Err(_) => false,
            },
            Err(e) => spec_text(*env, name@) == Err::<Option<Seq<char>>, ErrorView>(e@),
        },
{
    env_var(env, name)
}

/// Reads the control-plane URL variable, falling back to the supplied
/// default string when it is absent, and validates it; a failure wraps the
/// offending raw string.
pub fn control_host_and_port_from_env(env: &Env, key: &str, default: &str) -> (r: Result<
    HostAndPort,
    Error,
>)
    ensures
        match r {
            Ok(hp) => spec_control_field(*env, key@, default@) == Ok::<
                HostAndPortView,
                ErrorView,
            >(hp@),
            Err(e) => spec_control_field(*env, key@, default@) == Err::<
                HostAndPortView,
                ErrorView,
            >(e@),
        },
{
    let s: String = match env_var(env, key) {
        Err(e) => {
            return Err(e);
        },
        Ok(Some(v)) => v,
        Ok(None) => default.to_owned(),
    };
    match control_from_str(s.as_str()) {
        Ok(hp) => Ok(hp),
        Err(u) => Err(Error::ControlPlaneConfigError(s, u)),
    }
}

impl Config {
    /// Loads a `Config` from an environment snapshot: every recognized
    /// variable is read, parsed and validated, documented defaults stand
    /// in for absent ones, and the first invalid field aborts the load.
    pub fn load_from_env(env: &Env) -> (r: Result<Config, Error>)
        ensures
            match r {
                Ok(c) => spec_load(*env) == Ok::<ConfigView, ErrorView>(c@),
                Err(e) => spec_load(*env) == Err::<ConfigView, ErrorView>(e@),
            },
    {
        let event_buffer_capacity: usize = match opt_usize_field(
            env,
            "CONDUIT_PROXY_EVENT_BUFFER_CAPACITY",
        ) {
            Err(e) => {
                return Err(e);
            },
            Ok(Some(v)) => v,
            Ok(None) => 10000,
        };
        let metrics_flush_interval: u64 = match opt_u64_field(
            env,
            "CONDUIT_PROXY_METRICS_FLUSH_INTERVAL_SECS",
        ) {
            Err(e) => {
                return Err(e);
            },
            Ok(Some(v)) => v,
            Ok(None) => 10,
        };
        let private_listener: Addr = match opt_addr_field(env, "CONDUIT_PROXY_PRIVATE_LISTENER") {
            Err(e) => {
                return Err(e);
            },
            Ok(Some(a)) => a,
            Ok(None) => Addr { ip: Ip::V4(0x7f000001), port: 4140 },
        };
        let public_listener: Addr = match opt_addr_field(env, "CONDUIT_PROXY_PUBLIC_LISTENER") {
            Err(e) => {
                return Err(e);
            },
            Ok(Some(a)) => a,
            Ok(None) => Addr { ip: Ip::V4(0), port: 4143 },
        };
        let control_listener: Addr = match opt_addr_field(env, "CONDUIT_PROXY_CONTROL_LISTENER") {
            Err(e) => {
                return Err(e);
            },
            Ok(Some(a)) => a,
            Ok(None) => Addr { ip: Ip::V4(0), port: 4190 },
        };
        let private_forward: Option<Addr> = match opt_addr_field(
            env,
            "CONDUIT_PROXY_PRIVATE_FORWARD",
        ) {
            Err(e) => {
                return Err(e);
            },
            Ok(v) => v,
        };
        let public_connect_timeout: Option<u64> = match opt_u64_field(
            env,
            "CONDUIT_PROXY_PUBLIC_CONNECT_TIMEOUT",
        ) {
            Err(e) => {
                return Err(e);
            },
            Ok(v) => v,
        };
        let private_connect_timeout: Option<u64> = match opt_u64_field(
            env,
            "CONDUIT_PROXY_PRIVATE_CONNECT_TIMEOUT",
        ) {
            Err(e) => {
                return Err(e);
            },
            Ok(v) => v,
        };
        let resolv_conf_path: String = match text_field(env, "CONDUIT_RESOLV_CONF") {
            Err(e) => {
                return Err(e);
            },
            Ok(Some(s)) => s,
            Ok(None) => "/etc/resolv.conf".to_owned(),
        };
        let control_host_and_port: HostAndPort = match control_host_and_port_from_env(
            env,
            "CONDUIT_PROXY_CONTROL_URL",
            "tcp://proxy-api.conduit.svc.cluster.local:8086/",
        ) {
            Err(e) => {
                return Err(e);
            },
            Ok(hp) => hp,
        };
        Ok(
            Config {
                private_listener: Listener { addr: private_listener },
                public_listener: Listener { addr: public_listener },
                control_listener: Listener { addr: control_listener },
                private_forward,
                public_connect_timeout,
                private_connect_timeout,
                resolv_conf_path,
                control_host_and_port,
                event_buffer_capacity,
                metrics_flush_interval,
            },
        )
    }
}

/// With no variables set, loading succeeds and every field holds its
/// documented default — given that the built-in control-plane URL passes
/// its own validation, which the validator's contract leaves to the URL
/// grammar.
pub proof fn lemma_load_defaults(env: Env, chp: HostAndPortView)
    requires
        env.vars@.len() == 0,
        spec_control_result(default_control_url()) == Ok::<HostAndPortView, ErrorView>(chp),
    ensures
        spec_load(env) == Ok::<ConfigView, ErrorView>(
            (ConfigView {
                private_listener: default_private_listener(),
                public_listener: default_public_listener(),
                control_listener: default_control_listener(),
                private_forward: None,
                public_connect_timeout: None,
                private_connect_timeout: None,
                resolv_conf_path: "/etc/resolv.conf"@,
                control_host_and_port: chp,
                event_buffer_capacity: 10000,
                metrics_flush_interval: 10,
            }),
        ),
{
}

/// A present but non-numeric event-buffer-capacity value fails the whole
/// load with `InvalidEnvVar`, carrying that variable's name and the raw
/// text.
pub proof fn lemma_capacity_not_numeric(env: Env, s: String)
    requires
        env.spec_get("CONDUIT_PROXY_EVENT_BUFFER_CAPACITY"@) == Some(EnvValue::Text(s)),
        spec_parse_usize(s@) is None,
    ensures
        spec_load(env) == Err::<ConfigView, ErrorView>(
            (ErrorView::InvalidEnvVar {
                name: "CONDUIT_PROXY_EVENT_BUFFER_CAPACITY"@,
                value: s@,
            }),
        ),
{
}

/// In any configuration that loads, a present connect-timeout variable
/// yields a timeout of exactly that many milliseconds, and an absent one
/// yields no timeout — never zero.
pub proof fn lemma_connect_timeouts(env: Env, m: ConfigView)
    requires
        spec_load(env) == Ok::<ConfigView, ErrorView>(m),
    ensures
        env.spec_get("CONDUIT_PROXY_PUBLIC_CONNECT_TIMEOUT"@) matches Some(EnvValue::Text(s))
            ==> m.public_connect_timeout == spec_parse_u64(s@),
        env.spec_get("CONDUIT_PROXY_PUBLIC_CONNECT_TIMEOUT"@) is None
            ==> m.public_connect_timeout is None,
        env.spec_get("CONDUIT_PROXY_PRIVATE_CONNECT_TIMEOUT"@) matches Some(EnvValue::Text(s))
            ==> m.private_connect_timeout == spec_parse_u64(s@),
        env.spec_get("CONDUIT_PROXY_PRIVATE_CONNECT_TIMEOUT"@) is None
            ==> m.private_connect_timeout is None,
{
}

} // verus!
