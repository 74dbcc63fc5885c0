//! Validation of the parsed command line into a [`Config`].

use vstd::prelude::*;
use vstd::string::*;

use crate::decimal::{parse_port, port_of};

verus! {

/// Whether the tool connects out, listens for an incoming connection, or only
/// tests whether a port is open.
#[derive(Debug, Clone, Copy, PartialEq, Eq, Structural)]
pub enum Mode {
    Connect,
    Listen,
    /// Zero-I/O scan: connect over TCP, report, exit.
    ScanPort,
}

/// Transport protocol.
#[derive(Debug, Clone, Copy, PartialEq, Eq, Structural)]
pub enum Proto {
    Tcp,
    Udp,
}

/// Address family constraint.
#[derive(Debug, Clone, Copy, PartialEq, Eq, Structural)]
pub enum AddrFamily {
    Both,
    Ipv4,
    Ipv6,
}

/// Fully resolved, validated configuration handed to the rest of the program.
#[derive(Debug, Clone, PartialEq, Eq)]
pub struct Config {
    pub mode: Mode,
    pub proto: Proto,
    /// `None` only in listen mode with no explicit bind address.
    pub host: Option<String>,
    pub port: u16,
    pub verbose: bool,
    pub addr_family: AddrFamily,
}

/// The flags and positional arguments of the command line, as the argument
/// parser hands them over, before semantic validation.
#[derive(Debug, Clone)]
pub struct RawArgs {
    /// `-l` / `--listen`
    pub listen: bool,
    /// `-u` / `--udp`
    pub udp: bool,
    /// `-v` / `--verbose`
    pub verbose: bool,
    /// `-4` / `--ipv4`
    pub ipv4: bool,
    /// `-6` / `--ipv6`
    pub ipv6: bool,
    /// `-z` / `--zero`
    pub zero: bool,
    /// Positional arguments: `[host] <port>`.
    pub positionals: Vec<String>,
}

/// The mathematical content of a [`Config`].
pub struct ConfigView {
    pub mode: Mode,
    pub proto: Proto,
    pub host: Option<Seq<char>>,
    pub port: u16,
    pub verbose: bool,
    pub addr_family: AddrFamily,
}

pub open spec fn option_view(o: Option<String>) -> Option<Seq<char>> {
    match o {
        Some(s) => Some(s@),
        None => None,
    }
}

impl View for Config {
    type V = ConfigView;

    open spec fn view(&self) -> ConfigView {
        ConfigView {
            mode: self.mode,
            proto: self.proto,
            host: option_view(self.host),
            port: self.port,
            verbose: self.verbose,
            addr_family: self.addr_family,
        }
    }
}

/// The error for a connect-mode command line without exactly two positionals.
pub open spec fn connect_usage() -> Seq<char> {
    "connect mode requires <host> <port>"@
}

/// The error for a listen-mode command line without one or two positionals.
pub open spec fn listen_usage() -> Seq<char> {
    "listen mode requires <port> (and optional bind host)"@
}

/// The error for a scan command line without exactly two positionals.
pub open spec fn scan_usage() -> Seq<char> {
    "scan mode requires <host> <port>"@
}

/// The error for `-z` given with `-l`.
pub open spec fn scan_listen_conflict() -> Seq<char> {
    "-l and -z are mutually exclusive"@
}

/// The error for `-z` given with `-u`: the scan is a TCP connect.
pub open spec fn scan_udp_conflict() -> Seq<char> {
    "-u and -z are mutually exclusive"@
}

/// The error for a port argument that is not a valid `u16`.
pub open spec fn invalid_port(text: Seq<char>) -> Seq<char> {
    "invalid port: "@ + text
}

/// The error for `-4` and `-6` given together.
pub open spec fn family_conflict() -> Seq<char> {
    "-4 and -6 are mutually exclusive"@
}

/// The positional arguments as text.
pub open spec fn positionals_of(raw: RawArgs) -> Seq<Seq<char>> {
    raw.positionals@.map_values(|s: String| s@)
}

/// What validating `raw` gives.
///
/// - `-z` (a TCP port scan) excludes `-l` and `-u`.
/// - The mode is scan iff `-z` was given, else listen iff `-l` was, else
///   connect; the protocol is UDP iff `-u` was.
/// - Connect and scan mode need exactly `<host> <port>`; listen mode takes
///   `<port>` or `<host> <port>`. Anything else is a usage error for that mode.
/// - The last positional is the port and must parse as a `u16`.
/// - `-4` and `-6` exclude each other; neither means both families.
/// Errors are checked in that order.
pub open spec fn config_from(raw: RawArgs) -> Result<ConfigView, Seq<char>> {
    let args = positionals_of(raw);
    let n = args.len();
    let mode = if raw.zero {
        Mode::ScanPort
    } else if raw.listen {
        Mode::Listen
    } else {
        Mode::Connect
    };
    let proto = if raw.udp { Proto::Udp } else { Proto::Tcp };
    if raw.zero && raw.listen {
        Err(scan_listen_conflict())
    } else if raw.zero && raw.udp {
        Err(scan_udp_conflict())
    } else if mode == Mode::Connect && n != 2 {
        Err(connect_usage())
    } else if mode == Mode::ScanPort && n != 2 {
        Err(scan_usage())
    } else if mode == Mode::Listen && n != 1 && n != 2 {
        Err(listen_usage())
    } else {
        let host = if n == 2 { Some(args[0]) } else { None };
        let port_text = args[n - 1];
        match port_of(port_text) {
            None => Err(invalid_port(port_text)),
            Some(port) => {
                if raw.ipv4 && raw.ipv6 {
                    Err(family_conflict())
                } else {
                    Ok(
                        ConfigView {
                            mode,
                            proto,
                            host,
                            port,
                            verbose: raw.verbose,
                            addr_family: if raw.ipv4 {
                                AddrFamily::Ipv4
                            } else if raw.ipv6 {
                                AddrFamily::Ipv6
                            } else {
                                AddrFamily::Both
                            },
                        },
                    )
                }
            },
        }
    }
}

/// Law: what a successful validation gives, in terms of the command line.
/// With two positionals the host is the first one, whatever the protocol;
/// with one there is no host, which only listen mode accepts; connect and
/// scan mode always have a host. The port is the last positional read as a
/// `u16`. The protocol is UDP exactly when `-u` was given; the mode is scan
/// exactly when `-z` was, listen exactly when `-l` was; `-v` is kept.
pub proof fn lemma_config_from_args(raw: RawArgs)
    ensures
        match config_from(raw) {
            Ok(c) => {
                let args = positionals_of(raw);
                &&& args.len() == 1 || args.len() == 2
                &&& args.len() == 2 ==> c.host == Some(args[0])
                &&& args.len() == 1 ==> c.host is None && c.mode == Mode::Listen
                &&& c.mode != Mode::Listen ==> c.host is Some
                &&& port_of(args[args.len() - 1]) == Some(c.port)
                &&& (c.proto == Proto::Udp <==> raw.udp)
                &&& (c.mode == Mode::ScanPort <==> raw.zero)
                &&& (c.mode == Mode::Listen <==> raw.listen)
                &&& c.verbose == raw.verbose
            },
            Err(_) => true,
        },
{
}

impl Config {
    /// Validate the parsed command line.
    pub fn from_raw(raw: RawArgs) -> (r: Result<Config, String>)
        ensures
            match r {
                Ok(c) => config_from(raw) == Ok::<ConfigView, Seq<char>>(c@),
                Err(e) => config_from(raw) == Err::<ConfigView, Seq<char>>(e@),
            },
    {
        let ghost args = positionals_of(raw);
        if raw.zero && raw.listen {
            return Err(String::from_str("-l and -z are mutually exclusive"));
        }
        if raw.zero && raw.udp {
            return Err(String::from_str("-u and -z are mutually exclusive"));
        }
        let mode = if raw.zero {
            Mode::ScanPort
        } else if raw.listen {
            Mode::Listen
        } else {
            Mode::Connect
        };
        let proto = if raw.udp {
            Proto::Udp
        } else {
            Proto::Tcp
        };
        let n = raw.positionals.len();
        assert(args.len() == n);
        let usage_ok = match mode {
            Mode::Connect | Mode::ScanPort => n == 2,
            Mode::Listen => n == 1 || n == 2,
        };
        if !usage_ok {
            return match mode {
                Mode::Connect => Err(String::from_str("connect mode requires <host> <port>")),
                Mode::ScanPort => Err(String::from_str("scan mode requires <host> <port>")),
                Mode::Listen => Err(
                    String::from_str("listen mode requires <port> (and optional bind host)"),
                ),
            };
        }
        let host = if n == 2 {
            Some(raw.positionals[0].clone())
        } else {
            None
        };
        let port_str = &raw.positionals[n - 1];
        assert(args[n - 1] == port_str@);
        let port = match parse_port(port_str.as_str()) {
            Some(p) => p,
            None => {
                return Err(String::from_str("invalid port: ").concat(port_str.as_str()));
            },
        };
        if raw.ipv4 && raw.ipv6 {
            return Err(String::from_str("-4 and -6 are mutually exclusive"));
        }
        let addr_family = if raw.ipv4 {
            AddrFamily::Ipv4
        } else if raw.ipv6 {
            AddrFamily::Ipv6
        } else {
            AddrFamily::Both
        };
        let c = Config { mode, proto, host, port, verbose: raw.verbose, addr_family };
        assert(n == 2 ==> option_view(c.host) == Some(args[0]));
        Ok(c)
    }
}

} // verus!
