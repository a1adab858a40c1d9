use netrelay::command::format_error;
use netrelay::command::Command;
use netrelay::endpoint::DEFAULT_PORT;

#[test]
fn test_parse_command_line_server() {
    let args = vec!["-l".to_string(), "localhost:1337".to_string()];

    match Command::new(args).unwrap() {
        Command::Server(host, port) => {
            assert_eq!("localhost", host);
            assert_eq!(1337, port);
        }
        _ => panic!("parse_command_line has a bug!"),
    }
}

#[test]
fn test_parse_command_line_client() {
    let args = vec!["example.com:4221".to_string()];

    match Command::new(args).unwrap() {
        Command::Client(host, port) => {
            assert_eq!("example.com", host);
            assert_eq!(4221, port);
        }
        _ => panic!("parse_command_line has a bug!"),
    }
}

#[test]
fn test_parse_command_line_server_default_port() {
    let args = vec!["-l".to_string(), "localhost".to_string()];

    match Command::new(args).unwrap() {
        Command::Server(host, port) => {
            assert_eq!("localhost", host);
            assert_eq!(DEFAULT_PORT, port);
        }
        _ => panic!("parse_command_line has a bug!"),
    }
}

#[test]
fn default_port_without_colon() {
    let args = vec!["example.com".to_string()];

    match Command::new(args).unwrap() {
        Command::Client(host, port) => {
            assert_eq!("example.com", host);
            assert_eq!(41270, port);
        }
        _ => panic!("expected a client command"),
    }
}

#[test]
fn server_needs_exact_listen_flag() {
    let args = vec!["-L".to_string(), "example.com:80".to_string()];
    assert!(matches!(Command::new(args).unwrap(), Command::Client(_, _)));

    let args = vec!["--l".to_string(), "example.com:80".to_string()];
    assert!(matches!(Command::new(args).unwrap(), Command::Client(_, _)));

    let args = vec!["-l".to_string(), "example.com:80".to_string()];
    assert!(matches!(Command::new(args).unwrap(), Command::Server(_, _)));
}

#[test]
fn single_argument_is_always_client() {
    let args = vec!["-l".to_string()];

    match Command::new(args).unwrap() {
        Command::Client(host, port) => {
            assert_eq!("-l", host);
            assert_eq!(41270, port);
        }
        _ => panic!("expected a client command"),
    }
}

#[test]
fn only_the_element_before_last_is_inspected() {
    let args = vec![
        "ignored".to_string(),
        "-l".to_string(),
        "example.com:80".to_string(),
    ];
    assert!(matches!(Command::new(args).unwrap(), Command::Server(_, _)));

    let args = vec![
        "-l".to_string(),
        "ignored".to_string(),
        "example.com:80".to_string(),
    ];
    assert!(matches!(Command::new(args).unwrap(), Command::Client(_, _)));
}

#[test]
fn round_trip_host_and_port() {
    let (host, port) = Command::parse_host_and_port("example.com:80".to_string()).unwrap();
    assert_eq!("example.com", host);
    assert_eq!(80, port);
}

#[test]
fn split_happens_at_first_colon() {
    // The port part "b:1" is not numeric, so the token is rejected.
    assert!(Command::parse_host_and_port("a:b:1".to_string()).is_err());
}

#[test]
fn empty_host_is_not_rejected() {
    let (host, port) = Command::parse_host_and_port(":1234".to_string()).unwrap();
    assert_eq!("", host);
    assert_eq!(1234, port);
}

#[test]
fn port_boundaries() {
    let (_, port) = Command::parse_host_and_port("h:0".to_string()).unwrap();
    assert_eq!(0, port);

    let (_, port) = Command::parse_host_and_port("h:65535".to_string()).unwrap();
    assert_eq!(65535, port);

    assert!(Command::parse_host_and_port("h:65536".to_string()).is_err());
    assert!(Command::parse_host_and_port("h:99999999999999999999".to_string()).is_err());
}

#[test]
fn leading_zeros_are_plain_decimal() {
    let (_, port) = Command::parse_host_and_port("h:0080".to_string()).unwrap();
    assert_eq!(80, port);
}

#[test]
fn non_numeric_port_is_rejected() {
    assert_eq!(
        Err("invalid port".to_string()),
        Command::parse_host_and_port("h:8o".to_string())
    );
    assert!(Command::parse_host_and_port("h:".to_string()).is_err());
    assert!(Command::parse_host_and_port("h: 80".to_string()).is_err());
}

#[test]
fn invalid_port_fails_resolution() {
    let args = vec!["-l".to_string(), "h:not-a-port".to_string()];
    match Command::new(args) {
        Err(e) => assert_eq!("invalid port", e),
        Ok(_) => panic!("an unreadable port must fail resolution"),
    }
}

#[test]
fn empty_argument_list_is_rejected() {
    let args: Vec<String> = Vec::new();
    match Command::new(args) {
        Err(e) => assert_eq!("Too few command line arguments provided", e),
        Ok(_) => panic!("an empty argument list must fail resolution"),
    }
}

#[test]
fn unicode_host_is_preserved() {
    let (host, port) = Command::parse_host_and_port("héllo:80".to_string()).unwrap();
    assert_eq!("héllo", host);
    assert_eq!(80, port);

    match Command::new(vec!["héllo".to_string()]).unwrap() {
        Command::Client(host, port) => {
            assert_eq!("héllo", host);
            assert_eq!(41270, port);
        }
        _ => panic!("expected a client command"),
    }
}

#[test]
fn format_error_wraps_the_rendering() {
    let r: Result<(), String> = format_error("connection refused");
    assert_eq!(Err("connection refused".to_string()), r);
}
