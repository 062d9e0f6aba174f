use event_collector::server::{choose_listen_address, fallback_port, Args, ArgsError, DEFAULT_PORT};

fn argv(a: &[&str]) -> Vec<String> {
    a.iter().map(|s| s.to_string()).collect()
}

#[test]
fn defaults() {
    let a = Args::parse(&argv(&["prog"])).unwrap();
    assert_eq!(a.host, "127.0.0.1");
    assert_eq!(a.port, 9000);
    let a = Args::parse(&argv(&[])).unwrap();
    assert_eq!(a.host, "127.0.0.1");
    assert_eq!(a.port, DEFAULT_PORT);
}

#[test]
fn later_arguments_win() {
    let a = Args::parse(&argv(&["prog", "--host=0.0.0.0", "--port=8080", "--verbose", "--host=::1", "--port=+81"])).unwrap();
    assert_eq!(a.host, "::1");
    assert_eq!(a.port, 81);
}

#[test]
fn program_name_is_not_an_argument() {
    let a = Args::parse(&argv(&["--port=1234"])).unwrap();
    assert_eq!(a.port, 9000);
}

#[test]
fn invalid_port_is_refused() {
    assert_eq!(Args::parse(&argv(&["prog", "--port=70000"])).err(), Some(ArgsError::InvalidPort));
    assert_eq!(Args::parse(&argv(&["prog", "--port=abc", "--port=80"])).err(), Some(ArgsError::InvalidPort));
    assert_eq!(Args::parse(&argv(&["prog", "--port="])).err(), Some(ArgsError::InvalidPort));
}

#[test]
fn fallback_port_wraps_to_default() {
    assert_eq!(fallback_port(9000), 9001);
    assert_eq!(fallback_port(0), 1);
    assert_eq!(fallback_port(65535), 9000);
}

#[test]
fn localhost_prefers_ipv6() {
    assert_eq!(choose_listen_address("localhost", &vec![false, true, true]), Some(1));
    assert_eq!(choose_listen_address("LOCALHOST", &vec![false, false]), Some(0));
    assert_eq!(choose_listen_address("example.org", &vec![false, true]), Some(0));
    assert_eq!(choose_listen_address("localhost", &vec![]), None);
    assert_eq!(choose_listen_address("example.org", &vec![]), None);
}
