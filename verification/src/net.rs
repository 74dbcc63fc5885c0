//! Decisions of connection setup: which addresses to listen on, how to try
//! the addresses a host resolves to, which address a UDP client talks to, how
//! each listening socket is configured, and how to accept from the listeners.
//!
//! Resolving names and opening sockets happens outside this module; it works
//! on [`SocketAddress`] values that stand for the resolved addresses.

use vstd::prelude::*;
use vstd::string::*;

use crate::cli::{AddrFamily, Config, Proto};

verus! {

/// The family of an IP address.
#[derive(Debug, Clone, Copy, PartialEq, Eq, Structural)]
pub enum IpFamily {
    V4,
    V6,
}

/// A socket address: its family, the IP address as its standard text form,
/// the port, and for IPv6 the flow label and scope id (both 0 for IPv4).
#[derive(Debug, PartialEq, Eq)]
pub struct SocketAddress {
    pub family: IpFamily,
    pub ip: String,
    pub port: u16,
    pub flowinfo: u32,
    pub scope_id: u32,
}

/// The mathematical content of a [`SocketAddress`].
pub struct SocketAddressView {
    pub family: IpFamily,
    pub ip: Seq<char>,
    pub port: u16,
    pub flowinfo: u32,
    pub scope_id: u32,
}

impl View for SocketAddress {
    type V = SocketAddressView;

    open spec fn view(&self) -> SocketAddressView {
        SocketAddressView {
            family: self.family,
            ip: self.ip@,
            port: self.port,
            flowinfo: self.flowinfo,
            scope_id: self.scope_id,
        }
    }
}

impl SocketAddress {
    /// A copy of this address.
    pub fn duplicate(&self) -> (r: SocketAddress)
        ensures
            r@ == self@,
    {
        SocketAddress {
            family: self.family,
            ip: self.ip.clone(),
            port: self.port,
            flowinfo: self.flowinfo,
            scope_id: self.scope_id,
        }
    }
}

/// The views of a list of addresses.
pub open spec fn addrs_view(v: Seq<SocketAddress>) -> Seq<SocketAddressView> {
    v.map_values(|a: SocketAddress| a@)
}

/// The unspecified ("any") address text of a family.
pub open spec fn unspecified_ip(family: IpFamily) -> Seq<char> {
    match family {
        IpFamily::V4 => "0.0.0.0"@,
        IpFamily::V6 => "::"@,
    }
}

/// The unspecified address of `family` with `port`, with no flow label and
/// no scope.
pub open spec fn unspecified_view(family: IpFamily, port: u16) -> SocketAddressView {
    SocketAddressView { family, ip: unspecified_ip(family), port, flowinfo: 0, scope_id: 0 }
}

/// The unspecified address of `family` with `port`.
pub fn unspecified(family: IpFamily, port: u16) -> (r: SocketAddress)
    ensures
        r@ == unspecified_view(family, port),
{
    let ip = match family {
        IpFamily::V4 => String::from_str("0.0.0.0"),
        IpFamily::V6 => String::from_str("::"),
    };
    SocketAddress { family, ip, port, flowinfo: 0, scope_id: 0 }
}

/// The addresses of `s` in `family`, in their order.
pub open spec fn keep_family(s: Seq<SocketAddressView>, family: IpFamily) -> Seq<
    SocketAddressView,
>
    decreases s.len(),
{
    if s.len() == 0 {
        Seq::empty()
    } else {
        let prev = keep_family(s.drop_last(), family);
        if s.last().family == family {
            prev.push(s.last())
        } else {
            prev
        }
    }
}

/// Law: keeping the addresses of one family yields only addresses of that
/// family, each one of the given addresses, and drops none of that family.
pub proof fn lemma_keep_family(s: Seq<SocketAddressView>, family: IpFamily)
    ensures
        forall|i: int|
            0 <= i < keep_family(s, family).len() ==> (#[trigger] keep_family(s, family)[i]).family
                == family && s.contains(keep_family(s, family)[i]),
        forall|i: int|
            0 <= i < s.len() && (#[trigger] s[i]).family == family ==> keep_family(
                s,
                family,
            ).contains(s[i]),
    decreases s.len(),
{
    if s.len() > 0 {
        let prev = s.drop_last();
        lemma_keep_family(prev, family);
        let k = keep_family(s, family);
        let kp = keep_family(prev, family);
        assert forall|i: int| 0 <= i < k.len() implies (#[trigger] k[i]).family == family
            && s.contains(k[i]) by {
            if i < kp.len() {
                assert(k[i] == kp[i]);
                let j = choose|j: int| 0 <= j < prev.len() && prev[j] == kp[i];
                assert(s[j] == prev[j]);
            } else {
                assert(k[i] == s.last());
                assert(s[s.len() - 1] == s.last());
            }
        }
        assert forall|i: int| 0 <= i < s.len() && (#[trigger] s[i]).family == family implies k.contains(
            s[i],
        ) by {
            if i < s.len() - 1 {
                assert(prev[i] == s[i]);
                let j = choose|j: int| 0 <= j < kp.len() && kp[j] == prev[i];
                assert(k[j] == kp[j]);
            } else {
                assert(k[k.len() - 1] == s[i]);
            }
        }
    }
}

/// The addresses of `addrs` in `family`, in their order.
pub fn addrs_of_family(addrs: &Vec<SocketAddress>, family: IpFamily) -> (r: Vec<SocketAddress>)
    ensures
        addrs_view(r@) == keep_family(addrs_view(addrs@), family),
{
    let mut r: Vec<SocketAddress> = Vec::new();
    let mut i: usize = 0;
    while i < addrs.len()
        invariant
            i <= addrs@.len(),
            addrs_view(r@) == keep_family(addrs_view(addrs@).subrange(0, i as int), family),
        decreases addrs@.len() - i,
    {
        let ghost all = addrs_view(addrs@);
        assert(all.subrange(0, i + 1).drop_last() =~= all.subrange(0, i as int));
        assert(all.subrange(0, i + 1).last() == addrs@[i as int]@);
        if addrs[i].family == family {
            let a = addrs[i].duplicate();
            r.push(a);
            assert(addrs_view(r@) =~= addrs_view(r@.drop_last()).push(a@));
        }
        i = i + 1;
    }
    assert(addrs_view(addrs@).subrange(0, addrs@.len() as int) =~= addrs_view(addrs@));
    r
}

/// The addresses that the constraint `family` admits, in their order.
pub open spec fn admitted(s: Seq<SocketAddressView>, family: AddrFamily) -> Seq<
    SocketAddressView,
> {
    match family {
        AddrFamily::Both => s,
        AddrFamily::Ipv4 => keep_family(s, IpFamily::V4),
        AddrFamily::Ipv6 => keep_family(s, IpFamily::V6),
    }
}

/// The kind of a connection-setup error.
#[derive(Debug, Clone, Copy, PartialEq, Eq, Structural)]
pub enum NetErrorKind {
    AddrNotAvailable,
    InvalidInput,
}

/// A connection-setup error: its kind and message.
#[derive(Debug)]
pub struct NetError {
    pub kind: NetErrorKind,
    pub message: String,
}

/// The message when a host resolves to no usable address.
pub open spec fn no_addresses_message(host: Seq<char>) -> Seq<char> {
    "no addresses resolved for "@ + host
}

/// The message when a host resolves to no address of the wanted family.
pub open spec fn no_matching_message(host: Seq<char>) -> Seq<char> {
    "no matching addresses for "@ + host
}

/// The default listen addresses when no bind host is given: both unspecified
/// addresses (IPv6 first), or the one of the wanted family.
pub open spec fn default_listen_addrs(family: AddrFamily, port: u16) -> Seq<SocketAddressView> {
    let v6 = unspecified_view(IpFamily::V6, port);
    let v4 = unspecified_view(IpFamily::V4, port);
    match family {
        AddrFamily::Both => seq![v6, v4],
        AddrFamily::Ipv4 => seq![v4],
        AddrFamily::Ipv6 => seq![v6],
    }
}

/// The addresses to listen on for `config`, where `resolved` holds what the
/// bind host resolved to (it is not read when there is no bind host).
///
/// Without a bind host: the defaults of [`default_listen_addrs`]. With one:
/// the resolved addresses of the wanted family, in order, and an
/// `AddrNotAvailable` error when none is left.
pub fn listen_addrs(config: &Config, resolved: &Vec<SocketAddress>) -> (r: Result<
    Vec<SocketAddress>,
    NetError,
>)
    ensures
        match config.host {
            None => r matches Ok(v) && addrs_view(v@) == default_listen_addrs(
                config.addr_family,
                config.port,
            ),
            Some(h) => {
                let kept = admitted(addrs_view(resolved@), config.addr_family);
                match r {
                    Ok(v) => kept.len() > 0 && addrs_view(v@) == kept,
                    Err(e) => kept.len() == 0 && e.kind == NetErrorKind::AddrNotAvailable
                        && e.message@ == no_addresses_message(h@),
                }
            },
        },
{
    match &config.host {
        None => {
            let mut v: Vec<SocketAddress> = Vec::new();
            match config.addr_family {
                AddrFamily::Both => {
                    v.push(unspecified(IpFamily::V6, config.port));
                    v.push(unspecified(IpFamily::V4, config.port));
                },
                AddrFamily::Ipv4 => {
                    v.push(unspecified(IpFamily::V4, config.port));
                },
                AddrFamily::Ipv6 => {
                    v.push(unspecified(IpFamily::V6, config.port));
                },
            }
            assert(addrs_view(v@) =~= default_listen_addrs(config.addr_family, config.port));
            Ok(v)
        },
        Some(host) => {
            let kept = match config.addr_family {
                AddrFamily::Both => copy_addrs(resolved),
                AddrFamily::Ipv4 => addrs_of_family(resolved, IpFamily::V4),
                AddrFamily::Ipv6 => addrs_of_family(resolved, IpFamily::V6),
            };
            if kept.len() == 0 {
                Err(
                    NetError {
                        kind: NetErrorKind::AddrNotAvailable,
                        message: String::from_str("no addresses resolved for ").concat(
                            host.as_str(),
                        ),
                    },
                )
            } else {
                Ok(kept)
            }
        },
    }
}

/// A copy of a list of addresses.
pub fn copy_addrs(addrs: &Vec<SocketAddress>) -> (r: Vec<SocketAddress>)
    ensures
        addrs_view(r@) == addrs_view(addrs@),
{
    let mut r: Vec<SocketAddress> = Vec::new();
    let mut i: usize = 0;
    while i < addrs.len()
        invariant
            i <= addrs@.len(),
            r@.len() == i,
            forall|j: int| 0 <= j < i ==> (#[trigger] r@[j])@ == addrs@[j]@,
        decreases addrs@.len() - i,
    {
        r.push(addrs[i].duplicate());
        i = i + 1;
    }
    assert(addrs_view(r@) =~= addrs_view(addrs@));
    r
}


/// How to try the addresses of a TCP connection.
#[derive(Debug)]
pub enum TcpPlan {
    /// Try these addresses one after another, in order.
    Sequential(Vec<SocketAddress>),
    /// Try `primary` (IPv6) at once and `fallback` (IPv4) after a head start,
    /// each in order; the first connection made wins.
    Race { primary: Vec<SocketAddress>, fallback: Vec<SocketAddress> },
}

/// The primary and fallback address lists for a TCP connection: with one
/// family wanted, its addresses and no fallback; with both, the IPv6 addresses
/// first and the IPv4 ones as fallback. Each list keeps the resolver's order.
pub open spec fn tcp_lists(s: Seq<SocketAddressView>, family: AddrFamily) -> (
    Seq<SocketAddressView>,
    Seq<SocketAddressView>,
) {
    match family {
        AddrFamily::Ipv4 => (keep_family(s, IpFamily::V4), Seq::empty()),
        AddrFamily::Ipv6 => (keep_family(s, IpFamily::V6), Seq::empty()),
        AddrFamily::Both => (keep_family(s, IpFamily::V6), keep_family(s, IpFamily::V4)),
    }
}

/// Whether address `a` is of a family that the constraint `family` admits.
pub open spec fn fits(a: SocketAddressView, family: AddrFamily) -> bool {
    match family {
        AddrFamily::Ipv4 => a.family == IpFamily::V4,
        AddrFamily::Ipv6 => a.family == IpFamily::V6,
        AddrFamily::Both => true,
    }
}

/// Law: the lists of a TCP plan. With `-4` (or `-6`) the primary list holds
/// only IPv4 (or IPv6) addresses, every resolved one of that family, and
/// there is no fallback. With both families the primary list holds exactly
/// the resolved IPv6 addresses and the fallback exactly the IPv4 ones. Every
/// address listed was resolved.
pub proof fn lemma_tcp_lists_family(s: Seq<SocketAddressView>, family: AddrFamily)
    ensures
        family != AddrFamily::Both ==> tcp_lists(s, family).1.len() == 0,
        forall|i: int|
            0 <= i < tcp_lists(s, family).0.len() ==> s.contains(
                #[trigger] tcp_lists(s, family).0[i],
            ) && tcp_lists(s, family).0[i].family == (if family == AddrFamily::Ipv4 {
                IpFamily::V4
            } else {
                IpFamily::V6
            }),
        forall|i: int|
            0 <= i < tcp_lists(s, family).1.len() ==> s.contains(
                #[trigger] tcp_lists(s, family).1[i],
            ) && tcp_lists(s, family).1[i].family == IpFamily::V4,
        forall|i: int|
            0 <= i < s.len() && (#[trigger] s[i]).family == IpFamily::V4 && family
                != AddrFamily::Ipv6 ==> (if family == AddrFamily::Ipv4 {
                tcp_lists(s, family).0
            } else {
                tcp_lists(s, family).1
            }).contains(s[i]),
        forall|i: int|
            0 <= i < s.len() && (#[trigger] s[i]).family == IpFamily::V6 && family
                != AddrFamily::Ipv4 ==> tcp_lists(s, family).0.contains(s[i]),
{
    lemma_keep_family(s, IpFamily::V4);
    lemma_keep_family(s, IpFamily::V6);
}

/// Plan a TCP connection to `host`, given the addresses it resolved to.
///
/// No usable address is an `InvalidInput` error; a single non-empty list is
/// tried in order; two non-empty lists race (Happy Eyeballs).
pub fn plan_tcp_connect(host: &str, addrs: &Vec<SocketAddress>, family: AddrFamily) -> (r:
    Result<TcpPlan, NetError>)
    ensures
        ({
            let (p, f) = tcp_lists(addrs_view(addrs@), family);
            match r {
                Err(e) => p.len() == 0 && f.len() == 0 && e.kind == NetErrorKind::InvalidInput
                    && e.message@ == no_addresses_message(host@),
                Ok(TcpPlan::Sequential(v)) => (p.len() == 0 || f.len() == 0) && addrs_view(v@)
                    == (if f.len() == 0 {
                    p
                } else {
                    f
                }) && v@.len() > 0,
                Ok(TcpPlan::Race { primary, fallback }) => p.len() > 0 && f.len() > 0
                    && addrs_view(primary@) == p && addrs_view(fallback@) == f,
            }
        }),
        (r matches Ok(TcpPlan::Race { .. })) ==> family == AddrFamily::Both,
        r matches Ok(TcpPlan::Sequential(v)) ==> forall|i: int|
            0 <= i < v@.len() ==> fits(#[trigger] v@[i]@, family),
{
    proof {
        lemma_tcp_lists_family(addrs_view(addrs@), family);
    }
    let (primary, fallback) = match family {
        AddrFamily::Ipv4 => (addrs_of_family(addrs, IpFamily::V4), Vec::new()),
        AddrFamily::Ipv6 => (addrs_of_family(addrs, IpFamily::V6), Vec::new()),
        AddrFamily::Both => (
            addrs_of_family(addrs, IpFamily::V6),
            addrs_of_family(addrs, IpFamily::V4),
        ),
    };
    assert(addrs_view(Seq::<SocketAddress>::empty()) =~= Seq::<SocketAddressView>::empty());
    if primary.len() == 0 && fallback.len() == 0 {
        return Err(
            NetError {
                kind: NetErrorKind::InvalidInput,
                message: String::from_str("no addresses resolved for ").concat(host),
            },
        );
    }
    if fallback.len() == 0 {
        proof {
            assert forall|i: int| 0 <= i < primary@.len() implies fits(
                #[trigger] primary@[i]@,
                family,
            ) by {
                assert(addrs_view(primary@)[i] == primary@[i]@);
            }
        }
        return Ok(TcpPlan::Sequential(primary));
    }
    if primary.len() == 0 {
        proof {
            assert forall|i: int| 0 <= i < fallback@.len() implies fits(
                #[trigger] fallback@[i]@,
                family,
            ) by {
                assert(addrs_view(fallback@)[i] == fallback@[i]@);
            }
        }
        return Ok(TcpPlan::Sequential(fallback));
    }
    Ok(TcpPlan::Race { primary, fallback })
}

/// Law: with both families wanted, the two lists of a TCP plan hold every
/// resolved address exactly once between them.
pub proof fn lemma_tcp_lists_cover(s: Seq<SocketAddressView>)
    ensures
        tcp_lists(s, AddrFamily::Both).0.to_multiset().add(
            tcp_lists(s, AddrFamily::Both).1.to_multiset(),
        ) =~= s.to_multiset(),
    decreases s.len(),
{
    broadcast use vstd::seq_lib::group_to_multiset_ensures;

    if s.len() == 0 {
        assert(s =~= Seq::<SocketAddressView>::empty());
    } else {
        lemma_tcp_lists_cover(s.drop_last());
        assert(s =~= s.drop_last().push(s.last()));
    }
}

/// The first address of `s` in `family`, if any.
pub open spec fn first_of_family(s: Seq<SocketAddressView>, family: IpFamily) -> Option<
    SocketAddressView,
>
    decreases s.len(),
{
    if s.len() == 0 {
        None
    } else if s[0].family == family {
        Some(s[0])
    } else {
        first_of_family(s.drop_first(), family)
    }
}

/// Whether `r` is the first address of `s` in `family`, or `None` when `s`
/// has none of that family.
pub open spec fn is_first_of(s: Seq<SocketAddressView>, r: Option<SocketAddressView>, family: IpFamily) -> bool {
    match r {
        Some(a) => exists|i: int|
            0 <= i < s.len() && #[trigger] s[i] == a && a.family == family && forall|j: int|
                0 <= j < i ==> (#[trigger] s[j]).family != family,
        None => forall|j: int| 0 <= j < s.len() ==> (#[trigger] s[j]).family != family,
    }
}

/// Law: [`first_of_family`] gives the first address of the family, or none
/// when there is none.
pub proof fn lemma_first_of_family(s: Seq<SocketAddressView>, family: IpFamily)
    ensures
        is_first_of(s, first_of_family(s, family), family),
    decreases s.len(),
{
    if s.len() > 0 && s[0].family != family {
        let rest = s.drop_first();
        lemma_first_of_family(rest, family);
        match first_of_family(rest, family) {
            Some(a) => {
                let i = choose|i: int|
                    0 <= i < rest.len() && #[trigger] rest[i] == a && a.family == family
                        && forall|j: int| 0 <= j < i ==> (#[trigger] rest[j]).family != family;
                assert(s[i + 1] == a);
                assert forall|j: int| 0 <= j < i + 1 implies (#[trigger] s[j]).family != family by {
                    if j > 0 {
                        assert(s[j] == rest[j - 1]);
                    }
                }
            },
            None => {
                assert forall|j: int| 0 <= j < s.len() implies (#[trigger] s[j]).family != family by {
                    if j > 0 {
                        assert(s[j] == rest[j - 1]);
                    }
                }
            },
        }
    } else if s.len() > 0 {
        assert(s[0] == s[0]);
    }
}

/// Law: the remote address of a UDP client is the first resolved address of
/// the wanted family; with both families, the first IPv6 one if there is
/// any, else the first IPv4 one; and there is none exactly when no resolved
/// address is of an admitted family.
pub proof fn lemma_udp_remote_first(s: Seq<SocketAddressView>, family: AddrFamily)
    ensures
        family == AddrFamily::Ipv4 ==> is_first_of(s, udp_remote(s, family), IpFamily::V4),
        family == AddrFamily::Ipv6 ==> is_first_of(s, udp_remote(s, family), IpFamily::V6),
        family == AddrFamily::Both && (exists|i: int| 0 <= i < s.len() && (#[trigger] s[i]).family
            == IpFamily::V6) ==> is_first_of(s, udp_remote(s, family), IpFamily::V6),
        family == AddrFamily::Both && (forall|i: int| 0 <= i < s.len() ==> (#[trigger] s[i]).family
            != IpFamily::V6) ==> is_first_of(s, udp_remote(s, family), IpFamily::V4),
{
    lemma_first_of_family(s, IpFamily::V4);
    lemma_first_of_family(s, IpFamily::V6);
}

/// The first address of `addrs` in `family`, if any.
pub fn find_family(addrs: &Vec<SocketAddress>, family: IpFamily) -> (r: Option<SocketAddress>)
    ensures
        match r {
            Some(a) => first_of_family(addrs_view(addrs@), family) == Some(a@),
            None => first_of_family(addrs_view(addrs@), family) is None,
        },
{
    let mut i: usize = 0;
    assert(addrs_view(addrs@).subrange(0, addrs@.len() as int) =~= addrs_view(addrs@));
    while i < addrs.len()
        invariant
            i <= addrs@.len(),
            first_of_family(addrs_view(addrs@), family) == first_of_family(
                addrs_view(addrs@).subrange(i as int, addrs@.len() as int),
                family,
            ),
        decreases addrs@.len() - i,
    {
        let ghost rest = addrs_view(addrs@).subrange(i as int, addrs@.len() as int);
        assert(rest[0] == addrs@[i as int]@);
        assert(rest.drop_first() =~= addrs_view(addrs@).subrange(i + 1, addrs@.len() as int));
        if addrs[i].family == family {
            return Some(addrs[i].duplicate());
        }
        i = i + 1;
    }
    None
}

/// Where a UDP client sends: the remote address, and the local address to
/// bind first (the unspecified address of the remote's family, any port).
#[derive(Debug)]
pub struct UdpTarget {
    pub remote: SocketAddress,
    pub local: SocketAddress,
}

/// The remote address a UDP client uses: the first one of the wanted family;
/// with both families wanted, the first IPv6 address, else the first IPv4 one.
pub open spec fn udp_remote(s: Seq<SocketAddressView>, family: AddrFamily) -> Option<
    SocketAddressView,
> {
    match family {
        AddrFamily::Ipv4 => first_of_family(s, IpFamily::V4),
        AddrFamily::Ipv6 => first_of_family(s, IpFamily::V6),
        AddrFamily::Both => match first_of_family(s, IpFamily::V6) {
            Some(a) => Some(a),
            None => first_of_family(s, IpFamily::V4),
        },
    }
}

/// The message of std's socket `connect` for a host that resolves to no
/// address.
pub open spec fn unresolved_message() -> Seq<char> {
    "could not resolve to any addresses"@
}

/// Choose the remote and local addresses of a UDP client for `host`, given
/// the addresses it resolved to. A host that resolved to no address at all is
/// the `InvalidInput` error that std's `connect` gives for it; addresses but
/// none of the wanted family is an `AddrNotAvailable` error.
pub fn choose_udp_target(host: &str, addrs: &Vec<SocketAddress>, family: AddrFamily) -> (r:
    Result<UdpTarget, NetError>)
    ensures
        match r {
            Ok(t) => udp_remote(addrs_view(addrs@), family) == Some(t.remote@) && t.local@
                == unspecified_view(t.remote.family, 0) && fits(t.remote@, family),
            Err(e) => udp_remote(addrs_view(addrs@), family) is None && if addrs@.len() == 0 {
                e.kind == NetErrorKind::InvalidInput && e.message@ == unresolved_message()
            } else {
                e.kind == NetErrorKind::AddrNotAvailable && e.message@ == no_matching_message(
                    host@,
                )
            },
        },
{
    proof {
        lemma_udp_remote_first(addrs_view(addrs@), family);
    }
    if addrs.len() == 0 {
        return Err(
            NetError {
                kind: NetErrorKind::InvalidInput,
                message: String::from_str("could not resolve to any addresses"),
            },
        );
    }
    let found = match family {
        AddrFamily::Ipv4 => find_family(addrs, IpFamily::V4),
        AddrFamily::Ipv6 => find_family(addrs, IpFamily::V6),
        AddrFamily::Both => match find_family(addrs, IpFamily::V6) {
            Some(a) => Some(a),
            None => find_family(addrs, IpFamily::V4),
        },
    };
    match found {
        Some(remote) => {
            let local = unspecified(remote.family, 0);
            Ok(UdpTarget { remote, local })
        },
        None => Err(
            NetError {
                kind: NetErrorKind::AddrNotAvailable,
                message: String::from_str("no matching addresses for ").concat(host),
            },
        ),
    }
}

/// How a listening socket is set up before it is bound.
#[derive(Debug, Clone, Copy, PartialEq, Eq, Structural)]
pub struct SocketSetup {
    /// The address family of the socket.
    pub family: IpFamily,
    /// A datagram (UDP) socket rather than a stream (TCP) one.
    pub datagram: bool,
    /// Set `SO_REUSEADDR`.
    pub reuse_address: bool,
    /// Set `IPV6_V6ONLY`, so that an IPv4 listener can share the port.
    pub only_v6: bool,
    /// The backlog to listen with (stream sockets only).
    pub backlog: Option<i32>,
}

/// The setup of a listening socket for `addr` and `proto`: the address's
/// family, address reuse on, IPv6-only for IPv6 addresses, and for TCP a
/// backlog of one connection.
pub fn listener_setup(addr: &SocketAddress, proto: Proto) -> (r: SocketSetup)
    ensures
        r.family == addr.family,
        r.datagram == (proto == Proto::Udp),
        r.reuse_address,
        r.only_v6 == (addr.family == IpFamily::V6),
        r.backlog == (if proto == Proto::Tcp {
            Some(1i32)
        } else {
            None
        }),
{
    SocketSetup {
        family: addr.family,
        datagram: match proto {
            Proto::Tcp => false,
            Proto::Udp => true,
        },
        reuse_address: true,
        only_v6: match addr.family {
            IpFamily::V4 => false,
            IpFamily::V6 => true,
        },
        backlog: match proto {
            Proto::Tcp => Some(1),
            Proto::Udp => None,
        },
    }
}

/// How to accept the single connection of listen mode.
#[derive(Debug, Clone, Copy, PartialEq, Eq, Structural)]
pub enum AcceptStrategy {
    /// There is nothing to accept from: an `InvalidInput` error.
    NoListeners,
    /// Accept from the one listener directly.
    Single,
    /// Accept on every TCP listener at once; the first connection wins.
    RaceTcp,
    /// Wait on every UDP socket at once; the first datagram wins.
    RaceUdp,
}

/// The message when there is no listener to accept from.
pub open spec fn no_listeners_message() -> Seq<char> {
    "no listeners provided"@
}

/// The way to accept from `count` listeners of protocol `proto`.
pub fn accept_strategy(count: usize, proto: Proto) -> (r: AcceptStrategy)
    ensures
        r == (if count == 0 {
            AcceptStrategy::NoListeners
        } else if count == 1 {
            AcceptStrategy::Single
        } else if proto == Proto::Tcp {
            AcceptStrategy::RaceTcp
        } else {
            AcceptStrategy::RaceUdp
        }),
{
    if count == 0 {
        AcceptStrategy::NoListeners
    } else if count == 1 {
        AcceptStrategy::Single
    } else {
        match proto {
            Proto::Tcp => AcceptStrategy::RaceTcp,
            Proto::Udp => AcceptStrategy::RaceUdp,
        }
    }
}

/// What one poll of a listener in an accept race came back with.
#[derive(Debug, Clone, Copy, PartialEq, Eq, Structural)]
pub enum AcceptEvent {
    /// A connection (TCP) or a datagram (UDP) arrived.
    Arrived,
    /// Nothing yet: the non-blocking call would have blocked.
    WouldBlock,
    /// Nothing yet: the read timeout ran out.
    TimedOut,
    /// Any other error.
    Failed,
}

/// What a listener of an accept race does after a poll.
#[derive(Debug, Clone, Copy, PartialEq, Eq, Structural)]
pub enum AcceptAction {
    /// Claim the race and hand over what arrived.
    Take,
    /// Poll again (a TCP listener pauses briefly first).
    Wait,
    /// Hand the error over and stop polling.
    Report,
}

/// The polling rule of the accept races: what arrived is taken; a TCP
/// listener keeps waiting while `accept` would block, a UDP socket also while
/// its read timeout runs out; any other error is reported.
pub open spec fn accept_next(proto: Proto, event: AcceptEvent) -> AcceptAction {
    match event {
        AcceptEvent::Arrived => AcceptAction::Take,
        AcceptEvent::WouldBlock => AcceptAction::Wait,
        AcceptEvent::TimedOut => if proto == Proto::Udp {
            AcceptAction::Wait
        } else {
            AcceptAction::Report
        },
        AcceptEvent::Failed => AcceptAction::Report,
    }
}

/// Decide what a listener of protocol `proto` does after a poll.
pub fn accept_step(proto: Proto, event: AcceptEvent) -> (a: AcceptAction)
    ensures
        a == accept_next(proto, event),
{
    match event {
        AcceptEvent::Arrived => AcceptAction::Take,
        AcceptEvent::WouldBlock => AcceptAction::Wait,
        AcceptEvent::TimedOut => match proto {
            Proto::Udp => AcceptAction::Wait,
            Proto::Tcp => AcceptAction::Report,
        },
        AcceptEvent::Failed => AcceptAction::Report,
    }
}

/// The error for [`AcceptStrategy::NoListeners`].
pub fn no_listeners_error() -> (e: NetError)
    ensures
        e.kind == NetErrorKind::InvalidInput,
        e.message@ == no_listeners_message(),
{
    NetError { kind: NetErrorKind::InvalidInput, message: String::from_str("no listeners provided") }
}


/// The host a client connects to: the configured one, else `localhost`.
pub open spec fn target_host_text(config: Config) -> Seq<char> {
    match config.host {
        Some(h) => h@,
        None => "localhost"@,
    }
}

/// The host a client connects to: the configured one, else `localhost`.
pub fn target_host(config: &Config) -> (r: String)
    ensures
        r@ == target_host_text(*config),
{
    match &config.host {
        Some(h) => h.clone(),
        None => String::from_str("localhost"),
    }
}

} // verus!
