//! Diagnostic messages of verbose mode, colored when standard error
//! supports it.

use owo_colors::OwoColorize;
use owo_colors::Stream;
use owo_colors::Style;
use vstd::prelude::*;
use vstd::string::*;

use crate::cli::{option_view, Config, Proto};
use crate::decimal::{decimal_text, port_text};
use crate::net::{IpFamily, SocketAddress};

verus! {

/// `text` in bold cyan, as `owo_colors` writes `Style::new().bold().cyan()`.
pub open spec fn bold_cyan(text: Seq<char>) -> Seq<char> {
    seq!['\u{1b}', '[', '3', '6', ';', '1', 'm'] + text + seq!['\u{1b}', '[', '0', 'm']
}

/// `text` in green, as `owo_colors` writes `green()`.
pub open spec fn green(text: Seq<char>) -> Seq<char> {
    seq!['\u{1b}', '[', '3', '2', 'm'] + text + seq!['\u{1b}', '[', '3', '9', 'm']
}

/// `out` shows `text`, in bold cyan or plain.
pub open spec fn emphasized(out: Seq<char>, text: Seq<char>) -> bool {
    out == text || out == bold_cyan(text)
}

/// `out` shows `text`, in green or plain.
pub open spec fn greened(out: Seq<char>, text: Seq<char>) -> bool {
    out == text || out == green(text)
}

/// `text` in bold cyan if standard error supports colors, else plain.
///
/// Calls `OwoColorize::if_supports_color` for `Stream::Stderr` with the style
/// `Style::new().bold().cyan()` and formats the result. Which of the two forms
/// comes back depends on the terminal, the environment and the override that
/// `owo_colors::set_override` sets, and is not stated.
#[verifier::external_body]
fn emphasize(text: &str) -> (r: String)
    ensures
        emphasized(r@, text@),
{
    format!("{}", text.if_supports_color(Stream::Stderr, |t| t.style(Style::new().bold().cyan())))
}

/// `text` in green if standard error supports colors, else plain.
///
/// Calls `OwoColorize::if_supports_color` for `Stream::Stderr` with
/// `OwoColorize::green` and formats the result. Which of the two forms comes
/// back is not stated.
#[verifier::external_body]
fn highlight(text: &str) -> (r: String)
    ensures
        greened(r@, text@),
{
    format!("{}", text.if_supports_color(Stream::Stderr, |t| t.green()))
}

/// The protocol label of verbose messages: the address family of the socket
/// address, then the transport.
pub open spec fn label_text(proto: Proto, family: IpFamily) -> Seq<char> {
    match (family, proto) {
        (IpFamily::V4, Proto::Tcp) => "IPv4/TCP"@,
        (IpFamily::V4, Proto::Udp) => "IPv4/UDP"@,
        (IpFamily::V6, Proto::Tcp) => "IPv6/TCP"@,
        (IpFamily::V6, Proto::Udp) => "IPv6/UDP"@,
    }
}

/// The protocol label for `proto` over `addr`, such as `IPv4/TCP`; the
/// family comes from the socket address, not from the command line.
pub fn proto_label(proto: Proto, addr: &SocketAddress) -> (r: String)
    ensures
        r@ == label_text(proto, addr.family),
{
    match (addr.family, proto) {
        (IpFamily::V4, Proto::Tcp) => String::from_str("IPv4/TCP"),
        (IpFamily::V4, Proto::Udp) => String::from_str("IPv4/UDP"),
        (IpFamily::V6, Proto::Tcp) => String::from_str("IPv6/TCP"),
        (IpFamily::V6, Proto::Udp) => String::from_str("IPv6/UDP"),
    }
}

/// The text of an optional host name.
pub open spec fn host_view(host: Option<&str>) -> Option<Seq<char>> {
    match host {
        Some(h) => Some(h@),
        None => None,
    }
}

/// `out` is the destination of a connected message: `host (ip)` when a host
/// was given that differs from the resolved IP text, else the IP alone; each
/// name emphasized or plain.
pub open spec fn destination_shape(out: Seq<char>, host: Option<Seq<char>>, ip: Seq<char>) -> bool {
    match host {
        Some(h) => if h != ip {
            exists|a: Seq<char>, b: Seq<char>|
                #![trigger emphasized(a, h), emphasized(b, ip)]
                emphasized(a, h) && emphasized(b, ip) && out == a + " ("@ + b + ")"@
        } else {
            emphasized(out, ip)
        },
        None => emphasized(out, ip),
    }
}

/// Law: the destination of a connected message. When a host was given and
/// its text differs from the resolved IP, the destination is the host, then
/// ` (`, the IP and `)`, each name plain or in bold cyan. Otherwise it is the
/// IP alone, plain or in bold cyan.
pub proof fn lemma_destination(out: Seq<char>, host: Option<Seq<char>>, ip: Seq<char>)
    requires
        destination_shape(out, host, ip),
    ensures
        match host {
            Some(h) => h != ip ==> exists|a: Seq<char>, b: Seq<char>|
                #![trigger a + " ("@ + b + ")"@]
                (a == h || a == bold_cyan(h)) && (b == ip || b == bold_cyan(ip)) && out == a
                    + " ("@ + b + ")"@,
            None => true,
        },
        (host is None || host == Some(ip)) ==> (out == ip || out == bold_cyan(ip)),
{
    if let Some(h) = host {
        if h != ip {
            let (a, b) = choose|a: Seq<char>, b: Seq<char>|
                emphasized(a, h) && emphasized(b, ip) && out == a + " ("@ + b + ")"@;
            assert(out == a + " ("@ + b + ")"@);
        }
    }
}

/// Format the destination as `hostname (ip)` or just `ip`: the host name is
/// shown only when one was given and it differs from the resolved IP.
pub fn format_destination(host: Option<&str>, resolved_ip: &str) -> (r: String)
    ensures
        destination_shape(r@, host_view(host), resolved_ip@),
{
    match host {
        Some(h) => {
            let named = String::from_str(h);
            let ip = String::from_str(resolved_ip);
            if named != ip {
                let a = emphasize(h);
                let b = emphasize(resolved_ip);
                let r = a.concat(" (").concat(b.as_str()).concat(")");
                assert(emphasized(a@, h@) && emphasized(b@, resolved_ip@) && r@ == a@ + " ("@
                    + b@ + ")"@);
                r
            } else {
                emphasize(resolved_ip)
            }
        },
        None => emphasize(resolved_ip),
    }
}

/// The listening message, from its parts.
pub open spec fn listening_text(verb: Seq<char>, ip: Seq<char>, port: Seq<char>, label: Seq<char>) -> Seq<char> {
    "vibecat: "@ + verb + " on "@ + ip + " on port "@ + port + " ("@ + label + ")."@
}

/// The message announcing that the tool listens on `bind_addr`, or `None`
/// when verbose mode is off:
/// `vibecat: Listening on <ip> on port <port> (<label>).`
pub fn listening_message(config: &Config, bind_addr: &SocketAddress) -> (r: Option<String>)
    ensures
        r is Some <==> config.verbose,
        r matches Some(m) ==> exists|v: Seq<char>, a: Seq<char>, p: Seq<char>|
            #![trigger greened(v, "Listening"@), emphasized(a, bind_addr.ip@), emphasized(p, decimal_text(bind_addr.port as nat))]
            greened(v, "Listening"@) && emphasized(a, bind_addr.ip@) && emphasized(
                p,
                decimal_text(bind_addr.port as nat),
            ) && m@ == listening_text(v, a, p, label_text(config.proto, bind_addr.family)),
{
    if !config.verbose {
        return None;
    }
    let label = proto_label(config.proto, bind_addr);
    let verb = highlight("Listening");
    let ip = emphasize(bind_addr.ip.as_str());
    let port_digits = port_text(bind_addr.port);
    let port = emphasize(port_digits.as_str());
    let m = String::from_str("vibecat: ").concat(verb.as_str()).concat(" on ").concat(
        ip.as_str(),
    ).concat(" on port ").concat(port.as_str()).concat(" (").concat(label.as_str()).concat(").");
    assert(greened(verb@, "Listening"@) && emphasized(ip@, bind_addr.ip@) && emphasized(
        port@,
        decimal_text(bind_addr.port as nat),
    ) && m@ == listening_text(verb@, ip@, port@, label_text(config.proto, bind_addr.family)));
    Some(m)
}

/// The connected message, from its parts.
pub open spec fn connected_text(
    verb: Seq<char>,
    destination: Seq<char>,
    port: Seq<char>,
    label: Seq<char>,
    local_ip: Seq<char>,
    local_port: Seq<char>,
) -> Seq<char> {
    "vibecat: "@ + verb + " to "@ + destination + " on port "@ + port + " ("@ + label
        + ") from "@ + local_ip + " on port "@ + local_port + "."@
}

/// The message announcing a connection from `local_addr` to `remote_addr`,
/// or `None` when verbose mode is off:
/// `vibecat: Connected to <destination> on port <port> (<label>) from <ip> on port <port>.`
/// The label's family is the remote address's.
pub fn connected_message(config: &Config, local_addr: &SocketAddress, remote_addr: &SocketAddress) -> (r: Option<String>)
    ensures
        r is Some <==> config.verbose,
        r matches Some(m) ==> exists|v: Seq<char>, d: Seq<char>, p: Seq<char>|
            #![trigger greened(v, "Connected"@), destination_shape(d, option_view(config.host), remote_addr.ip@), emphasized(p, decimal_text(remote_addr.port as nat))]
            greened(v, "Connected"@) && destination_shape(
                d,
                option_view(config.host),
                remote_addr.ip@,
            ) && emphasized(p, decimal_text(remote_addr.port as nat)) && m@ == connected_text(
                v,
                d,
                p,
                label_text(config.proto, remote_addr.family),
                local_addr.ip@,
                decimal_text(local_addr.port as nat),
            ),
{
    if !config.verbose {
        return None;
    }
    let label = proto_label(config.proto, remote_addr);
    let host: Option<&str> = match &config.host {
        Some(h) => Some(h.as_str()),
        None => None,
    };
    assert(host_view(host) == option_view(config.host));
    let destination = format_destination(host, remote_addr.ip.as_str());
    let verb = highlight("Connected");
    let remote_digits = port_text(remote_addr.port);
    let port = emphasize(remote_digits.as_str());
    let local_port = port_text(local_addr.port);
    let m = String::from_str("vibecat: ").concat(verb.as_str()).concat(" to ").concat(
        destination.as_str(),
    ).concat(" on port ").concat(port.as_str()).concat(" (").concat(label.as_str()).concat(
        ") from ",
    ).concat(local_addr.ip.as_str()).concat(" on port ").concat(local_port.as_str()).concat(".");
    assert(greened(verb@, "Connected"@) && destination_shape(
        destination@,
        option_view(config.host),
        remote_addr.ip@,
    ) && emphasized(port@, decimal_text(remote_addr.port as nat)) && m@ == connected_text(
        verb@,
        destination@,
        port@,
        label_text(config.proto, remote_addr.family),
        local_addr.ip@,
        decimal_text(local_addr.port as nat),
    ));
    Some(m)
}

} // verus!
