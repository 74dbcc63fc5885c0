//! Colored output, forced on; kept in a test binary of its own so that the
//! forced override cannot race with the tests that switch colors off.

use vibecat::cli::{AddrFamily, Config, Mode, Proto};
use vibecat::net::{IpFamily, SocketAddress};
use vibecat::verbose::{connected_message, listening_message};

fn cfg(verbose: bool, proto: Proto, host: Option<&str>) -> Config {
    Config {
        mode: Mode::Connect,
        proto,
        host: host.map(String::from),
        port: 80,
        verbose,
        addr_family: AddrFamily::Both,
    }
}

fn v4(ip: &str, port: u16) -> SocketAddress {
    SocketAddress { family: IpFamily::V4, ip: ip.to_string(), port, flowinfo: 0, scope_id: 0 }
}

#[test]
fn colored_messages_use_the_styles() {
    owo_colors::with_override(true, || {
        let config = cfg(true, Proto::Tcp, None);
        let m = listening_message(&config, &v4("0.0.0.0", 9999)).unwrap();
        assert_eq!(
            m,
            "vibecat: \x1b[32mListening\x1b[39m on \x1b[36;1m0.0.0.0\x1b[0m on port \x1b[36;1m9999\x1b[0m (IPv4/TCP)."
        );
    });
}

#[test]
fn colored_connected_message_emphasizes_names() {
    owo_colors::with_override(true, || {
        let config = cfg(true, Proto::Udp, Some("example.com"));
        let m = connected_message(&config, &v4("10.0.0.2", 5000), &v4("93.184.216.34", 53)).unwrap();
        assert_eq!(
            m,
            "vibecat: \x1b[32mConnected\x1b[39m to \x1b[36;1mexample.com\x1b[0m (\x1b[36;1m93.184.216.34\x1b[0m) on port \x1b[36;1m53\x1b[0m (IPv4/UDP) from 10.0.0.2 on port 5000."
        );
    });
}
