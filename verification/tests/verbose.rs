use vibecat::cli::{AddrFamily, Config, Mode, Proto};
use vibecat::net::{IpFamily, SocketAddress};
use vibecat::verbose::{connected_message, format_destination, listening_message, proto_label};

fn cfg(verbose: bool, proto: Proto, host: Option<&str>) -> Config {
    Config {
        mode: Mode::Connect,
        proto,
        host: host.map(String::from),
        port: 80,
        verbose,
        addr_family: AddrFamily::Both,
    }
}

fn addr(ip: [u8; 4], port: u16) -> SocketAddress {
    SocketAddress {
        family: IpFamily::V4,
        ip: format!("{}.{}.{}.{}", ip[0], ip[1], ip[2], ip[3]),
        port,
        flowinfo: 0,
        scope_id: 0,
    }
}

fn addr6(ip: &str, port: u16) -> SocketAddress {
    SocketAddress { family: IpFamily::V6, ip: ip.to_string(), port, flowinfo: 0, scope_id: 0 }
}

#[test]
fn format_destination_with_hostname() {
    owo_colors::set_override(false);
    let result = format_destination(Some("example.com"), "93.184.216.34");
    assert_eq!(result, "example.com (93.184.216.34)");
    owo_colors::unset_override();
}

#[test]
fn format_destination_ip_only() {
    owo_colors::set_override(false);
    let result = format_destination(Some("93.184.216.34"), "93.184.216.34");
    assert_eq!(result, "93.184.216.34");
    owo_colors::unset_override();
}

#[test]
fn format_destination_no_host() {
    owo_colors::set_override(false);
    let result = format_destination(None, "93.184.216.34");
    assert_eq!(result, "93.184.216.34");
    owo_colors::unset_override();
}

#[test]
fn log_connected_is_noop_when_not_verbose() {
    let config = cfg(false, Proto::Tcp, Some("example.com"));
    let message = connected_message(&config, &addr([192, 168, 1, 5], 54321), &addr([93, 184, 216, 34], 80));
    assert!(message.is_none());
}

#[test]
fn log_listening_is_noop_when_not_verbose() {
    let config = cfg(false, Proto::Tcp, None);
    assert!(listening_message(&config, &addr([0, 0, 0, 0], 9999)).is_none());
}

#[test]
fn proto_label_ipv4_tcp() {
    assert_eq!(proto_label(Proto::Tcp, &addr([127, 0, 0, 1], 80)), "IPv4/TCP");
}

#[test]
fn proto_label_ipv4_udp() {
    assert_eq!(proto_label(Proto::Udp, &addr([0, 0, 0, 0], 9999)), "IPv4/UDP");
}

#[test]
fn proto_label_ipv6_tcp() {
    assert_eq!(proto_label(Proto::Tcp, &addr6("::1", 80)), "IPv6/TCP");
}

#[test]
fn proto_label_ipv6_udp() {
    assert_eq!(proto_label(Proto::Udp, &addr6("::", 9999)), "IPv6/UDP");
}

#[test]
fn listening_message_text() {
    owo_colors::set_override(false);
    let config = cfg(true, Proto::Tcp, None);
    let m = listening_message(&config, &addr6("::", 9999)).unwrap();
    assert_eq!(m, "vibecat: Listening on :: on port 9999 (IPv6/TCP).");
    let m = listening_message(&cfg(true, Proto::Udp, None), &addr([0, 0, 0, 0], 9999)).unwrap();
    assert_eq!(m, "vibecat: Listening on 0.0.0.0 on port 9999 (IPv4/UDP).");
}

#[test]
fn connected_message_text() {
    owo_colors::set_override(false);
    let config = cfg(true, Proto::Tcp, Some("example.com"));
    let m = connected_message(&config, &addr([192, 168, 1, 5], 54321), &addr([93, 184, 216, 34], 80))
        .unwrap();
    assert_eq!(
        m,
        "vibecat: Connected to example.com (93.184.216.34) on port 80 (IPv4/TCP) from 192.168.1.5 on port 54321."
    );
    let config = cfg(true, Proto::Tcp, Some("127.0.0.1"));
    let m = connected_message(&config, &addr([127, 0, 0, 1], 40000), &addr([127, 0, 0, 1], 8080))
        .unwrap();
    assert_eq!(
        m,
        "vibecat: Connected to 127.0.0.1 on port 8080 (IPv4/TCP) from 127.0.0.1 on port 40000."
    );
}
