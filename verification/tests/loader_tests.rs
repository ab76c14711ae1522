//! End-to-end tests of the configuration loader against the real `url`
//! crate: the endpoint parser, the control URL validator, the numeric
//! parser, and whole loads from environment snapshots.

use proxy_config::Addr;
use proxy_config::Config;
use proxy_config::Env;
use proxy_config::EnvValue;
use proxy_config::Error;
use proxy_config::Ip;
use proxy_config::UrlError;
use proxy_config::env_var_parse;
use proxy_config::num::parse_u64;
use proxy_config::urls::HostAddr;

fn env_of(pairs: &[(&str, &str)]) -> Env {
    Env {
        vars: pairs
            .iter()
            .map(|(k, v)| (k.to_string(), EnvValue::Text(v.to_string())))
            .collect(),
    }
}

#[test]
fn addr_parses_ipv4() {
    let a = Addr::from_str("tcp://127.0.0.1:4140").unwrap();
    assert_eq!(a, Addr { ip: Ip::V4(0x7f000001), port: 4140 });
}

#[test]
fn addr_parses_ipv6() {
    let a = Addr::from_str("tcp://[::1]:4143").unwrap();
    assert_eq!(a, Addr { ip: Ip::V6(1), port: 4143 });
}

#[test]
fn addr_rejects_other_scheme() {
    assert!(matches!(Addr::from_str("http://127.0.0.1:80"), Err(Error::InvalidAddr)));
}

#[test]
fn addr_rejects_symbolic_host() {
    assert!(matches!(Addr::from_str("tcp://localhost:80"), Err(Error::InvalidAddr)));
}

#[test]
fn addr_rejects_missing_port() {
    assert!(matches!(Addr::from_str("tcp://127.0.0.1"), Err(Error::InvalidAddr)));
}

#[test]
fn addr_rejects_garbage() {
    assert!(matches!(Addr::from_str("not a url"), Err(Error::InvalidAddr)));
}

#[test]
fn control_rejects_non_root_path() {
    let r = proxy_config::control::control_from_str("tcp://host:8086/foo");
    assert!(matches!(r, Err(UrlError::PathNotAllowed)));
}

#[test]
fn control_rejects_empty_path() {
    let r = proxy_config::control::control_from_str("tcp://host:8086");
    assert!(matches!(r, Err(UrlError::PathNotAllowed)));
}

#[test]
fn control_accepts_root_path() {
    let hp = proxy_config::control::control_from_str("tcp://host:8086/").unwrap();
    assert_eq!(hp.host, HostAddr::Domain("host".to_string()));
    assert_eq!(hp.port, 8086);
}

#[test]
fn control_accepts_ipv4_host() {
    let hp = proxy_config::control::control_from_str("tcp://127.0.0.1:8086/").unwrap();
    assert_eq!(hp.host, HostAddr::Ipv4(0x7f000001));
    assert_eq!(hp.port, 8086);
}

#[test]
fn control_rejects_fragment() {
    let r = proxy_config::control::control_from_str("tcp://host:8086/#frag");
    assert!(matches!(r, Err(UrlError::FragmentNotAllowed)));
}

#[test]
fn control_rejects_missing_port() {
    let r = proxy_config::control::control_from_str("tcp://host/");
    assert!(matches!(r, Err(UrlError::MissingPort)));
}

#[test]
fn control_rejects_unsupported_scheme() {
    let r = proxy_config::control::control_from_str("http://host:8086/");
    assert!(matches!(r, Err(UrlError::UnsupportedScheme)));
}

#[test]
fn control_reports_missing_host_before_scheme() {
    let r = proxy_config::control::control_from_str("data:text/plain,x");
    assert!(matches!(r, Err(UrlError::MissingHost)));
}

#[test]
fn control_rejects_bad_syntax() {
    let r = proxy_config::control::control_from_str("not a url");
    assert!(matches!(r, Err(UrlError::SyntaxError)));
}

#[test]
fn parse_u64_exact_bounds() {
    assert_eq!(parse_u64("18446744073709551615"), Some(u64::MAX));
    assert_eq!(parse_u64("18446744073709551616"), None);
    assert_eq!(parse_u64("+42"), Some(42));
    assert_eq!(parse_u64("0"), Some(0));
    assert_eq!(parse_u64("007"), Some(7));
    assert_eq!(parse_u64(""), None);
    assert_eq!(parse_u64("+"), None);
    assert_eq!(parse_u64("-1"), None);
    assert_eq!(parse_u64("1 "), None);
    assert_eq!(parse_u64("0x10"), None);
}

#[test]
fn load_defaults() {
    let c = Config::load_from_env(&Env::empty()).unwrap();
    assert_eq!(c.private_listener.addr, Addr { ip: Ip::V4(0x7f000001), port: 4140 });
    assert_eq!(c.public_listener.addr, Addr { ip: Ip::V4(0), port: 4143 });
    assert_eq!(c.control_listener.addr, Addr { ip: Ip::V4(0), port: 4190 });
    assert!(c.private_forward.is_none());
    assert!(c.public_connect_timeout.is_none());
    assert!(c.private_connect_timeout.is_none());
    assert_eq!(c.resolv_conf_path, "/etc/resolv.conf");
    assert_eq!(
        c.control_host_and_port.host,
        HostAddr::Domain("proxy-api.conduit.svc.cluster.local".to_string())
    );
    assert_eq!(c.control_host_and_port.port, 8086);
    assert_eq!(c.event_buffer_capacity, 10000);
    assert_eq!(c.metrics_flush_interval, 10);
}

#[test]
fn load_rejects_non_numeric_capacity() {
    let env = env_of(&[("CONDUIT_PROXY_EVENT_BUFFER_CAPACITY", "abc")]);
    match Config::load_from_env(&env) {
        Err(Error::InvalidEnvVar { name, value }) => {
            assert_eq!(name, "CONDUIT_PROXY_EVENT_BUFFER_CAPACITY");
            assert_eq!(value, "abc");
        },
        other => panic!("unexpected result: {:?}", other),
    }
}

#[test]
fn load_reads_capacity_and_flush_interval() {
    let env = env_of(&[
        ("CONDUIT_PROXY_EVENT_BUFFER_CAPACITY", "512"),
        ("CONDUIT_PROXY_METRICS_FLUSH_INTERVAL_SECS", "30"),
    ]);
    let c = Config::load_from_env(&env).unwrap();
    assert_eq!(c.event_buffer_capacity, 512);
    assert_eq!(c.metrics_flush_interval, 30);
}

#[test]
fn load_reads_present_timeout_and_leaves_absent_one() {
    let env = env_of(&[("CONDUIT_PROXY_PUBLIC_CONNECT_TIMEOUT", "3000")]);
    let c = Config::load_from_env(&env).unwrap();
    assert_eq!(c.public_connect_timeout, Some(3000));
    assert_eq!(c.private_connect_timeout, None);
}

#[test]
fn load_rejects_non_numeric_timeout() {
    let env = env_of(&[("CONDUIT_PROXY_PRIVATE_CONNECT_TIMEOUT", "soon")]);
    match Config::load_from_env(&env) {
        Err(Error::InvalidEnvVar { name, value }) => {
            assert_eq!(name, "CONDUIT_PROXY_PRIVATE_CONNECT_TIMEOUT");
            assert_eq!(value, "soon");
        },
        other => panic!("unexpected result: {:?}", other),
    }
}

#[test]
fn load_reads_private_forward() {
    let env = env_of(&[("CONDUIT_PROXY_PRIVATE_FORWARD", "tcp://10.0.0.1:7777")]);
    let c = Config::load_from_env(&env).unwrap();
    assert_eq!(c.private_forward, Some(Addr { ip: Ip::V4(0x0a000001), port: 7777 }));
}

#[test]
fn load_reads_listeners_from_env() {
    let env = env_of(&[
        ("CONDUIT_PROXY_PRIVATE_LISTENER", "tcp://127.0.0.1:5000"),
        ("CONDUIT_PROXY_PUBLIC_LISTENER", "tcp://[::]:5001"),
    ]);
    let c = Config::load_from_env(&env).unwrap();
    assert_eq!(c.private_listener.addr, Addr { ip: Ip::V4(0x7f000001), port: 5000 });
    assert_eq!(c.public_listener.addr, Addr { ip: Ip::V6(0), port: 5001 });
    assert_eq!(c.control_listener.addr, Addr { ip: Ip::V4(0), port: 4190 });
}

#[test]
fn load_rejects_bad_listener_as_invalid_env_var() {
    let env = env_of(&[("CONDUIT_PROXY_PRIVATE_LISTENER", "tcp://localhost:999")]);
    match Config::load_from_env(&env) {
        Err(Error::InvalidEnvVar { name, value }) => {
            assert_eq!(name, "CONDUIT_PROXY_PRIVATE_LISTENER");
            assert_eq!(value, "tcp://localhost:999");
        },
        other => panic!("unexpected result: {:?}", other),
    }
}

#[test]
fn load_rejects_non_text_value() {
    let env = Env {
        vars: vec![("CONDUIT_RESOLV_CONF".to_string(), EnvValue::NotText)],
    };
    match Config::load_from_env(&env) {
        Err(Error::InvalidEnvVar { name, value }) => {
            assert_eq!(name, "CONDUIT_RESOLV_CONF");
            assert_eq!(value, "<not unicode>");
        },
        other => panic!("unexpected result: {:?}", other),
    }
}

#[test]
fn load_reads_control_url_from_env() {
    let env = env_of(&[("CONDUIT_PROXY_CONTROL_URL", "tcp://10.1.2.3:9000/")]);
    let c = Config::load_from_env(&env).unwrap();
    assert_eq!(c.control_host_and_port.host, HostAddr::Ipv4(0x0a010203));
    assert_eq!(c.control_host_and_port.port, 9000);
}

#[test]
fn load_wraps_control_url_error_with_raw_string() {
    let env = env_of(&[("CONDUIT_PROXY_CONTROL_URL", "tcp://host:9/x")]);
    match Config::load_from_env(&env) {
        Err(Error::ControlPlaneConfigError(raw, kind)) => {
            assert_eq!(raw, "tcp://host:9/x");
            assert_eq!(kind, UrlError::PathNotAllowed);
        },
        other => panic!("unexpected result: {:?}", other),
    }
}

#[test]
fn load_reads_resolv_conf_path() {
    let env = env_of(&[("CONDUIT_RESOLV_CONF", "/tmp/resolv.conf")]);
    let c = Config::load_from_env(&env).unwrap();
    assert_eq!(c.resolv_conf_path, "/tmp/resolv.conf");
}

#[test]
fn env_var_parse_applies_the_supplied_parser() {
    let env = env_of(&[("K", "5")]);
    let r = env_var_parse(&env, "K", |s: &str| s.parse::<u16>());
    assert_eq!(r.unwrap(), Some(5));
    let absent = env_var_parse(&env, "MISSING", |s: &str| s.parse::<u16>());
    assert_eq!(absent.unwrap(), None);
    match env_var_parse(&env, "K", |_s: &str| Err::<u16, ()>(())) {
        Err(Error::InvalidEnvVar { name, value }) => {
            assert_eq!(name, "K");
            assert_eq!(value, "5");
        },
        other => panic!("unexpected result: {:?}", other),
    }
}
