use tcpproxy::{parse_args, split_address, ArgError};

fn args(list: &[&str]) -> Vec<String> {
    list.iter().map(|s| s.to_string()).collect()
}

#[test]
fn defaults_without_arguments() {
    let c = parse_args(&args(&[])).ok().unwrap();
    assert_eq!(c.listen, ":8080");
    assert_eq!(c.dst, "127.0.0.1:9090");
}

#[test]
fn listen_and_backend_flags() {
    let c = parse_args(&args(&["-l", "0.0.0.0:7000", "-d", "10.0.0.2:80"])).ok().unwrap();
    assert_eq!(c.listen, "0.0.0.0:7000");
    assert_eq!(c.dst, "10.0.0.2:80");
}

#[test]
fn later_flag_overrides_earlier() {
    let c = parse_args(&args(&["-d", "a:1", "-d", "b:2"])).ok().unwrap();
    assert_eq!(c.dst, "b:2");
    assert_eq!(c.listen, ":8080");
}

#[test]
fn missing_values_are_refused() {
    assert_eq!(parse_args(&args(&["-l"])).err(), Some(ArgError::MissingListen));
    assert_eq!(parse_args(&args(&["-l", ":1", "-d"])).err(), Some(ArgError::MissingBackend));
    assert_eq!(ArgError::MissingListen.message(), "missing argument for -l");
}

#[test]
fn unknown_argument_is_refused() {
    assert_eq!(parse_args(&args(&["-x"])).err(), Some(ArgError::Usage));
    assert_eq!(parse_args(&args(&["-l", ":1", "extra"])).err(), Some(ArgError::Usage));
}

fn chars(s: &str) -> Vec<char> {
    s.chars().collect()
}

fn text(v: &[char]) -> String {
    v.iter().collect()
}

#[test]
fn split_host_and_port() {
    let hp = split_address(&chars("127.0.0.1:9090")).unwrap();
    assert_eq!(text(hp.host.as_ref().unwrap()), "127.0.0.1");
    assert_eq!(text(&hp.service), "9090");
}

#[test]
fn split_empty_host_means_none() {
    let hp = split_address(&chars(":8080")).unwrap();
    assert!(hp.host.is_none());
    assert_eq!(text(&hp.service), "8080");
}

#[test]
fn split_at_first_colon_only() {
    let hp = split_address(&chars("www.example.com:http:x")).unwrap();
    assert_eq!(text(hp.host.as_ref().unwrap()), "www.example.com");
    assert_eq!(text(&hp.service), "http:x");
    let hp = split_address(&chars("host:")).unwrap();
    assert_eq!(text(&hp.service), "");
}

#[test]
fn split_without_colon_is_refused() {
    assert!(split_address(&chars("localhost")).is_none());
    assert!(split_address(&chars("")).is_none());
}
