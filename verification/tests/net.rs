use vibecat::cli::{AddrFamily, Config, Mode, Proto};
use vibecat::net::{
    accept_step, accept_strategy, choose_udp_target, AcceptAction, AcceptEvent, listen_addrs, listener_setup, no_listeners_error,
    plan_tcp_connect, target_host, unspecified, AcceptStrategy, IpFamily, NetErrorKind,
    SocketAddress, TcpPlan,
};

fn v4(ip: &str, port: u16) -> SocketAddress {
    SocketAddress { family: IpFamily::V4, ip: ip.to_string(), port, flowinfo: 0, scope_id: 0 }
}

fn v6(ip: &str, port: u16) -> SocketAddress {
    SocketAddress { family: IpFamily::V6, ip: ip.to_string(), port, flowinfo: 0, scope_id: 0 }
}

fn cfg(host: Option<&str>, family: AddrFamily) -> Config {
    Config {
        mode: Mode::Listen,
        proto: Proto::Tcp,
        host: host.map(String::from),
        port: 9999,
        verbose: false,
        addr_family: family,
    }
}

fn ips(v: &[SocketAddress]) -> Vec<String> {
    v.iter().map(|a| a.ip.clone()).collect()
}

#[test]
fn listen_defaults_bind_both_families() {
    let v = listen_addrs(&cfg(None, AddrFamily::Both), &Vec::new()).unwrap();
    assert_eq!(v, vec![v6("::", 9999), v4("0.0.0.0", 9999)]);
    let v = listen_addrs(&cfg(None, AddrFamily::Ipv4), &Vec::new()).unwrap();
    assert_eq!(v, vec![v4("0.0.0.0", 9999)]);
    let v = listen_addrs(&cfg(None, AddrFamily::Ipv6), &Vec::new()).unwrap();
    assert_eq!(v, vec![v6("::", 9999)]);
}

#[test]
fn listen_on_host_keeps_wanted_family() {
    let resolved = vec![v6("::1", 9999), v4("127.0.0.1", 9999)];
    let both = listen_addrs(&cfg(Some("localhost"), AddrFamily::Both), &resolved).unwrap();
    assert_eq!(ips(&both), vec!["::1", "127.0.0.1"]);
    let only4 = listen_addrs(&cfg(Some("localhost"), AddrFamily::Ipv4), &resolved).unwrap();
    assert_eq!(ips(&only4), vec!["127.0.0.1"]);
    let e = listen_addrs(&cfg(Some("127.0.0.1"), AddrFamily::Ipv6), &vec![v4("127.0.0.1", 9999)])
        .unwrap_err();
    assert_eq!(e.kind, NetErrorKind::AddrNotAvailable);
    assert_eq!(e.message, "no addresses resolved for 127.0.0.1");
}

#[test]
fn tcp_plan_races_ipv6_against_ipv4() {
    let resolved = vec![v4("127.0.0.1", 80), v6("::1", 80), v4("10.0.0.1", 80)];
    match plan_tcp_connect("localhost", &resolved, AddrFamily::Both).unwrap() {
        TcpPlan::Race { primary, fallback } => {
            assert_eq!(ips(&primary), vec!["::1"]);
            assert_eq!(ips(&fallback), vec!["127.0.0.1", "10.0.0.1"]);
        }
        other => panic!("expected a race, got {:?}", other),
    }
}

#[test]
fn tcp_plan_is_sequential_with_one_family() {
    let resolved = vec![v4("127.0.0.1", 80), v6("::1", 80), v4("10.0.0.1", 80)];
    match plan_tcp_connect("localhost", &resolved, AddrFamily::Ipv4).unwrap() {
        TcpPlan::Sequential(v) => assert_eq!(ips(&v), vec!["127.0.0.1", "10.0.0.1"]),
        other => panic!("expected sequential, got {:?}", other),
    }
    match plan_tcp_connect("localhost", &vec![v4("127.0.0.1", 80)], AddrFamily::Both).unwrap() {
        TcpPlan::Sequential(v) => assert_eq!(ips(&v), vec!["127.0.0.1"]),
        other => panic!("expected sequential, got {:?}", other),
    }
    match plan_tcp_connect("localhost", &vec![v6("::1", 80)], AddrFamily::Both).unwrap() {
        TcpPlan::Sequential(v) => assert_eq!(ips(&v), vec!["::1"]),
        other => panic!("expected sequential, got {:?}", other),
    }
}

#[test]
fn tcp_plan_without_addresses_is_an_error() {
    let e = plan_tcp_connect("example.com", &vec![v4("1.2.3.4", 80)], AddrFamily::Ipv6).unwrap_err();
    assert_eq!(e.kind, NetErrorKind::InvalidInput);
    assert_eq!(e.message, "no addresses resolved for example.com");
}

#[test]
fn udp_target_prefers_ipv6() {
    let resolved = vec![v4("127.0.0.1", 53), v6("::1", 53)];
    let t = choose_udp_target("localhost", &resolved, AddrFamily::Both).unwrap();
    assert_eq!(t.remote, v6("::1", 53));
    assert_eq!(t.local, v6("::", 0));
    let t = choose_udp_target("localhost", &resolved, AddrFamily::Ipv4).unwrap();
    assert_eq!(t.remote, v4("127.0.0.1", 53));
    assert_eq!(t.local, v4("0.0.0.0", 0));
    let t = choose_udp_target("localhost", &vec![v4("127.0.0.1", 53)], AddrFamily::Both).unwrap();
    assert_eq!(t.remote, v4("127.0.0.1", 53));
    let e = choose_udp_target("localhost", &vec![v4("127.0.0.1", 53)], AddrFamily::Ipv6).unwrap_err();
    assert_eq!(e.kind, NetErrorKind::AddrNotAvailable);
    assert_eq!(e.message, "no matching addresses for localhost");
    let e = choose_udp_target("nowhere", &Vec::new(), AddrFamily::Both).unwrap_err();
    assert_eq!(e.kind, NetErrorKind::InvalidInput);
    assert_eq!(e.message, "could not resolve to any addresses");
}

#[test]
fn listeners_are_set_up_for_dual_stack() {
    let s = listener_setup(&v6("::", 1), Proto::Tcp);
    assert!(s.only_v6 && s.reuse_address && !s.datagram);
    assert_eq!(s.family, IpFamily::V6);
    assert_eq!(s.backlog, Some(1));
    let s = listener_setup(&v4("0.0.0.0", 1), Proto::Udp);
    assert!(!s.only_v6 && s.reuse_address && s.datagram);
    assert_eq!(s.backlog, None);
}

#[test]
fn accept_strategy_by_count_and_protocol() {
    assert_eq!(accept_strategy(0, Proto::Tcp), AcceptStrategy::NoListeners);
    assert_eq!(accept_strategy(1, Proto::Udp), AcceptStrategy::Single);
    assert_eq!(accept_strategy(2, Proto::Tcp), AcceptStrategy::RaceTcp);
    assert_eq!(accept_strategy(2, Proto::Udp), AcceptStrategy::RaceUdp);
    let e = no_listeners_error();
    assert_eq!(e.kind, NetErrorKind::InvalidInput);
    assert_eq!(e.message, "no listeners provided");
}

#[test]
fn target_host_defaults_to_localhost() {
    assert_eq!(target_host(&cfg(None, AddrFamily::Both)), "localhost");
    assert_eq!(target_host(&cfg(Some("example.com"), AddrFamily::Both)), "example.com");
}

#[test]
fn unspecified_addresses() {
    assert_eq!(unspecified(IpFamily::V4, 7), v4("0.0.0.0", 7));
    assert_eq!(unspecified(IpFamily::V6, 7), v6("::", 7));
}

#[test]
fn accept_polling_rule() {
    assert_eq!(accept_step(Proto::Tcp, AcceptEvent::Arrived), AcceptAction::Take);
    assert_eq!(accept_step(Proto::Tcp, AcceptEvent::WouldBlock), AcceptAction::Wait);
    assert_eq!(accept_step(Proto::Tcp, AcceptEvent::TimedOut), AcceptAction::Report);
    assert_eq!(accept_step(Proto::Tcp, AcceptEvent::Failed), AcceptAction::Report);
    assert_eq!(accept_step(Proto::Udp, AcceptEvent::Arrived), AcceptAction::Take);
    assert_eq!(accept_step(Proto::Udp, AcceptEvent::WouldBlock), AcceptAction::Wait);
    assert_eq!(accept_step(Proto::Udp, AcceptEvent::TimedOut), AcceptAction::Wait);
    assert_eq!(accept_step(Proto::Udp, AcceptEvent::Failed), AcceptAction::Report);
}

#[test]
fn scoped_ipv6_addresses_keep_their_scope() {
    let scoped = SocketAddress {
        family: IpFamily::V6,
        ip: "fe80::1".to_string(),
        port: 9999,
        flowinfo: 7,
        scope_id: 3,
    };
    let resolved = vec![scoped.duplicate(), v4("127.0.0.1", 9999)];
    let kept = listen_addrs(&cfg(Some("fe80::1%3"), AddrFamily::Ipv6), &resolved).unwrap();
    assert_eq!(kept, vec![scoped.duplicate()]);
    let target = choose_udp_target("fe80::1%3", &resolved, AddrFamily::Both).unwrap();
    assert_eq!(target.remote, scoped);
    assert_eq!(target.local.scope_id, 0);
    assert_eq!(target.local.ip, "::");
}
