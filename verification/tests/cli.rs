//! Validation of the command line: the argument parser hands over flags and
//! positionals, and `Config::from_raw` turns them into a configuration.

use vibecat::cli::{AddrFamily, Config, Mode, Proto, RawArgs};

/// The flags and positionals that the argument parser produces for `args`
/// (program name excluded): each flag in its short or long form.
fn parsed(args: &[&str]) -> RawArgs {
    let mut raw = RawArgs {
        listen: false,
        udp: false,
        verbose: false,
        ipv4: false,
        ipv6: false,
        zero: false,
        positionals: Vec::new(),
    };
    for a in args {
        match *a {
            "-l" | "--listen" => raw.listen = true,
            "-u" | "--udp" => raw.udp = true,
            "-v" | "--verbose" => raw.verbose = true,
            "-4" | "--ipv4" => raw.ipv4 = true,
            "-6" | "--ipv6" => raw.ipv6 = true,
            "-z" | "--zero" => raw.zero = true,
            other => raw.positionals.push(other.to_string()),
        }
    }
    raw
}

fn from_args(args: &[&str]) -> Result<Config, String> {
    Config::from_raw(parsed(args))
}

#[test]
fn connect_tcp_host_and_port() {
    let c = from_args(&["example.com", "80"]).unwrap();
    assert_eq!(c.mode, Mode::Connect);
    assert_eq!(c.proto, Proto::Tcp);
    assert_eq!(c.host.as_deref(), Some("example.com"));
    assert_eq!(c.port, 80);
}

#[test]
fn connect_udp_flag() {
    let c = from_args(&["-u", "1.2.3.4", "9"]).unwrap();
    assert_eq!(c.proto, Proto::Udp);
    assert_eq!(c.mode, Mode::Connect);
}

#[test]
fn listen_single_positional_is_port() {
    let c = from_args(&["-l", "8080"]).unwrap();
    assert_eq!(c.mode, Mode::Listen);
    assert_eq!(c.host, None);
    assert_eq!(c.port, 8080);
}

#[test]
fn listen_two_positionals_is_host_and_port() {
    let c = from_args(&["-l", "127.0.0.1", "8080"]).unwrap();
    assert_eq!(c.host.as_deref(), Some("127.0.0.1"));
    assert_eq!(c.port, 8080);
}

#[test]
fn connect_missing_port_is_error() {
    assert!(from_args(&["example.com"]).is_err());
}

#[test]
fn listen_missing_port_is_error() {
    assert!(from_args(&["-l"]).is_err());
}

#[test]
fn non_numeric_port_is_error() {
    assert!(from_args(&["example.com", "http"]).is_err());
}

#[test]
fn out_of_range_port_is_error() {
    assert!(from_args(&["example.com", "70000"]).is_err());
}

#[test]
fn verbose_flag_short() {
    let c = from_args(&["-v", "example.com", "80"]).unwrap();
    assert!(c.verbose);
}

#[test]
fn verbose_flag_long() {
    let c = from_args(&["--verbose", "-l", "8080"]).unwrap();
    assert!(c.verbose);
}

#[test]
fn verbose_defaults_to_false() {
    let c = from_args(&["example.com", "80"]).unwrap();
    assert!(!c.verbose);
}

#[test]
fn ipv4_flag_short() {
    let c = from_args(&["-4", "example.com", "80"]).unwrap();
    assert_eq!(c.addr_family, AddrFamily::Ipv4);
}

#[test]
fn ipv6_flag_short() {
    let c = from_args(&["-6", "example.com", "80"]).unwrap();
    assert_eq!(c.addr_family, AddrFamily::Ipv6);
}

#[test]
fn ipv4_flag_long() {
    let c = from_args(&["--ipv4", "-l", "8080"]).unwrap();
    assert_eq!(c.addr_family, AddrFamily::Ipv4);
}

#[test]
fn ipv6_flag_long() {
    let c = from_args(&["--ipv6", "-l", "8080"]).unwrap();
    assert_eq!(c.addr_family, AddrFamily::Ipv6);
}

#[test]
fn addr_family_defaults_to_both() {
    let c = from_args(&["example.com", "80"]).unwrap();
    assert_eq!(c.addr_family, AddrFamily::Both);
}

#[test]
fn ipv4_and_ipv6_together_is_error() {
    assert!(from_args(&["-4", "-6", "example.com", "80"]).is_err());
}

#[test]
fn ipv4_with_udp_and_listen() {
    let c = from_args(&["-4", "-u", "-l", "8080"]).unwrap();
    assert_eq!(c.addr_family, AddrFamily::Ipv4);
    assert_eq!(c.proto, Proto::Udp);
    assert_eq!(c.mode, Mode::Listen);
}

#[test]
fn error_messages_name_the_problem() {
    assert_eq!(
        from_args(&["example.com"]).unwrap_err(),
        "connect mode requires <host> <port>"
    );
    assert_eq!(from_args(&["a", "b", "c"]).unwrap_err(), "connect mode requires <host> <port>");
    assert_eq!(
        from_args(&["-l"]).unwrap_err(),
        "listen mode requires <port> (and optional bind host)"
    );
    assert_eq!(
        from_args(&["-l", "a", "b", "1"]).unwrap_err(),
        "listen mode requires <port> (and optional bind host)"
    );
    assert_eq!(from_args(&["example.com", "http"]).unwrap_err(), "invalid port: http");
    assert_eq!(from_args(&["example.com", "70000"]).unwrap_err(), "invalid port: 70000");
    assert_eq!(
        from_args(&["-4", "-6", "example.com", "80"]).unwrap_err(),
        "-4 and -6 are mutually exclusive"
    );
}

#[test]
fn usage_error_comes_before_port_and_family_errors() {
    assert_eq!(
        from_args(&["-4", "-6", "http"]).unwrap_err(),
        "connect mode requires <host> <port>"
    );
    assert_eq!(from_args(&["-4", "-6", "-l", "http"]).unwrap_err(), "invalid port: http");
}

#[test]
fn port_text_follows_integer_parsing() {
    assert_eq!(from_args(&["h", "+80"]).unwrap().port, 80);
    assert_eq!(from_args(&["h", "0080"]).unwrap().port, 80);
    assert_eq!(from_args(&["h", "65535"]).unwrap().port, 65535);
    assert_eq!(from_args(&["h", "0"]).unwrap().port, 0);
    assert!(from_args(&["h", "65536"]).is_err());
    assert!(from_args(&["h", "+"]).is_err());
    assert!(from_args(&["h", "-1"]).is_err());
    assert!(from_args(&["h", ""]).is_err());
    assert!(from_args(&["h", " 80"]).is_err());
    assert!(from_args(&["h", "++80"]).is_err());
}

#[test]
fn zero_flag_selects_a_tcp_port_scan() {
    let c = from_args(&["-z", "example.com", "443"]).unwrap();
    assert_eq!(c.mode, Mode::ScanPort);
    assert_eq!(c.host.as_deref(), Some("example.com"));
    assert_eq!(c.port, 443);
    assert_eq!(c.proto, Proto::Tcp);
    let c = from_args(&["--zero", "-v", "-6", "::1", "22"]).unwrap();
    assert_eq!(c.mode, Mode::ScanPort);
    assert!(c.verbose);
    assert_eq!(c.addr_family, AddrFamily::Ipv6);
}

#[test]
fn scan_needs_host_and_port() {
    assert_eq!(from_args(&["-z", "443"]).unwrap_err(), "scan mode requires <host> <port>");
    assert_eq!(from_args(&["-z"]).unwrap_err(), "scan mode requires <host> <port>");
    assert_eq!(from_args(&["-z", "h", "http"]).unwrap_err(), "invalid port: http");
}

#[test]
fn scan_excludes_listen_and_udp() {
    assert_eq!(
        from_args(&["-z", "-l", "443"]).unwrap_err(),
        "-l and -z are mutually exclusive"
    );
    assert_eq!(
        from_args(&["-z", "-u", "example.com", "443"]).unwrap_err(),
        "-u and -z are mutually exclusive"
    );
}
