use crate::error::ConfigError;
use crate::literal::{literal_fits, literal_value, parse_u16, parse_u32, reports_digits, split_base};
use crate::server::{server_kind_named, BridgeKind, ServerKind};
use clap::ArgMatches;
use vstd::prelude::*;

verus! {

/// Default listen port for servers.
pub const DEFAULT_BIND_PORT: u32 = 3333;

/// The raw text of each flag that configures the tool, as given on the
/// command line; `None` where the flag is absent.
#[derive(Debug)]
pub struct FlagValues {
    pub vid: Option<String>,
    pub pid: Option<String>,
    pub serial: Option<String>,
    pub baud: Option<String>,
    pub address: Option<String>,
    pub value: Option<String>,
    pub port: Option<String>,
    pub bind_addr: Option<String>,
    pub server_kind: Option<String>,
    pub random_loops: Option<String>,
    pub random_address: Option<String>,
}

/// The flags as sequences of characters.
pub ghost struct FlagsView {
    pub vid: Option<Seq<char>>,
    pub pid: Option<Seq<char>>,
    pub serial: Option<Seq<char>>,
    pub baud: Option<Seq<char>>,
    pub address: Option<Seq<char>>,
    pub value: Option<Seq<char>>,
    pub port: Option<Seq<char>>,
    pub bind_addr: Option<Seq<char>>,
    pub server_kind: Option<Seq<char>>,
    pub random_loops: Option<Seq<char>>,
    pub random_address: Option<Seq<char>>,
}

/// The characters of an optional string.
pub open spec fn opt_view(o: Option<String>) -> Option<Seq<char>> {
    match o {
        Some(s) => Some(s@),
        None => None,
    }
}

impl View for FlagValues {
    type V = FlagsView;

    open spec fn view(&self) -> FlagsView {
        FlagsView {
            vid: opt_view(self.vid),
            pid: opt_view(self.pid),
            serial: opt_view(self.serial),
            baud: opt_view(self.baud),
            address: opt_view(self.address),
            value: opt_view(self.value),
            port: opt_view(self.port),
            bind_addr: opt_view(self.bind_addr),
            server_kind: opt_view(self.server_kind),
            random_loops: opt_view(self.random_loops),
            random_address: opt_view(self.random_address),
        }
    }
}

/// An absent flag, or a well-formed literal whose value is at most `max`.
pub open spec fn opt_fits(o: Option<Seq<char>>, max: nat) -> bool {
    o matches Some(s) ==> literal_fits(s, max)
}

/// The error reports the flag text `o` as a malformed literal.
pub open spec fn number_error_for(e: ConfigError, o: Option<Seq<char>>) -> bool {
    o matches Some(s) && reports_digits(e, split_base(s).0)
}

/// The field holds the value of the flag's literal, or nothing where the flag is absent.
pub open spec fn same_u16(x: Option<u16>, o: Option<Seq<char>>) -> bool {
    match x {
        Some(v) => o matches Some(s) && literal_value(s) == Some(v as nat),
        None => o is None,
    }
}

/// The field holds the value of the flag's literal, or nothing where the flag is absent.
pub open spec fn same_u32(x: Option<u32>, o: Option<Seq<char>>) -> bool {
    match x {
        Some(v) => o matches Some(s) && literal_value(s) == Some(v as nat),
        None => o is None,
    }
}

/// The field holds the value of the flag's literal, or nothing where the flag is absent.
pub open spec fn same_usize(x: Option<usize>, o: Option<Seq<char>>) -> bool {
    match x {
        Some(v) => o matches Some(s) && literal_value(s) == Some(v as nat),
        None => o is None,
    }
}

impl FlagsView {
    /// The server-kind flag is absent or names a known server.
    pub open spec fn kind_known(self) -> bool {
        self.server_kind matches Some(s) ==> server_kind_named(s) is Some
    }

    /// The server kind that the flags select: none where the flag is absent.
    pub open spec fn resolved_kind(self) -> ServerKind {
        match self.server_kind {
            Some(s) => match server_kind_named(s) {
                Some(k) => k,
                None => ServerKind::NoServer,
            },
            None => ServerKind::NoServer,
        }
    }

    /// The flags ask for something to be done: a memory access or a server.
    pub open spec fn requests_operation(self) -> bool {
        self.address is Some || self.resolved_kind() != ServerKind::NoServer
    }

    /// The numeric flags read before the server kind are all well formed.
    pub open spec fn leading_numbers_fit(self) -> bool {
        &&& opt_fits(self.vid, u16::MAX as nat)
        &&& opt_fits(self.pid, u16::MAX as nat)
        &&& opt_fits(self.baud, u32::MAX as nat)
        &&& opt_fits(self.address, u32::MAX as nat)
        &&& opt_fits(self.value, u32::MAX as nat)
        &&& opt_fits(self.port, u32::MAX as nat)
    }

    /// The numeric flags read after the server kind are well formed.
    pub open spec fn trailing_numbers_fit(self) -> bool {
        &&& opt_fits(self.random_loops, u32::MAX as nat)
        &&& opt_fits(self.random_address, u32::MAX as nat)
    }

    /// A configuration can be built from these flags.
    pub open spec fn builds(self) -> bool {
        &&& self.leading_numbers_fit()
        &&& self.kind_known()
        &&& self.trailing_numbers_fit()
        &&& self.requests_operation()
    }

    /// `e` is the first error met when the flags are read in order: vid, pid,
    /// baud, address, value, port, server kind, random loops, random address,
    /// and last the check that an operation was asked for.
    pub open spec fn first_error(self, e: ConfigError) -> bool {
        if !opt_fits(self.vid, u16::MAX as nat) {
            number_error_for(e, self.vid)
        } else if !opt_fits(self.pid, u16::MAX as nat) {
            number_error_for(e, self.pid)
        } else if !opt_fits(self.baud, u32::MAX as nat) {
            number_error_for(e, self.baud)
        } else if !opt_fits(self.address, u32::MAX as nat) {
            number_error_for(e, self.address)
        } else if !opt_fits(self.value, u32::MAX as nat) {
            number_error_for(e, self.value)
        } else if !opt_fits(self.port, u32::MAX as nat) {
            number_error_for(e, self.port)
        } else if !self.kind_known() {
            e matches ConfigError::UnknownServerKind(t) && self.server_kind == Some(t@)
        } else if !opt_fits(self.random_loops, u32::MAX as nat) {
            number_error_for(e, self.random_loops)
        } else if !opt_fits(self.random_address, u32::MAX as nat) {
            number_error_for(e, self.random_address)
        } else {
            e is NoOperationSpecified
        }
    }
}

/// The matches of clap's command-line parser, carried opaquely.
#[verifier::external_type_specification]
#[verifier::external_body]
pub struct ExArgMatches<'a>(ArgMatches<'a>);

/// What a set of clap matches holds: each argument name that was given at
/// least one value, mapped to its first value, or to `None` where that value
/// is not valid UTF-8.
pub uninterp spec fn arg_first_values(m: ArgMatches) -> Map<Seq<char>, Option<Seq<char>>>;

/// Relies on clap's `ArgMatches::value_of`: the first value of the named
/// argument, or `None` where it has no value; it panics where that value is
/// not valid UTF-8.
#[verifier::external_body]
fn first_value<'b>(m: &'b ArgMatches, name: &str) -> (r: Option<&'b str>)
    requires
        arg_first_values(*m).contains_key(name@) ==> arg_first_values(*m)[name@] is Some,
    ensures
        match r {
            Some(v) => arg_first_values(*m).contains_key(name@) && arg_first_values(*m)[name@]
                == Some(v@),
            None => !arg_first_values(*m).contains_key(name@),
        },
{
    m.value_of(name)
}

/// The value of the named flag in the matches, where it has one.
pub open spec fn flag_in(a: Map<Seq<char>, Option<Seq<char>>>, name: Seq<char>) -> Option<Seq<char>> {
    if a.contains_key(name) {
        a[name]
    } else {
        None
    }
}

/// The flags that a set of matches gives, by their argument names.
pub open spec fn flags_of_matches(m: ArgMatches) -> FlagsView {
    let a = arg_first_values(m);
    FlagsView {
        vid: flag_in(a, "vid"@),
        pid: flag_in(a, "pid"@),
        serial: flag_in(a, "serial"@),
        baud: flag_in(a, "baud"@),
        address: flag_in(a, "address"@),
        value: flag_in(a, "value"@),
        port: flag_in(a, "port"@),
        bind_addr: flag_in(a, "bind-addr"@),
        server_kind: flag_in(a, "server-kind"@),
        random_loops: flag_in(a, "random-loops"@),
        random_address: flag_in(a, "random-address"@),
    }
}

fn owned_value(m: &ArgMatches, name: &str) -> (r: Option<String>)
    requires
        forall|k: Seq<char>| #[trigger] arg_first_values(*m).contains_key(k) ==> arg_first_values(*m)[k] is Some,
    ensures
        opt_view(r) == flag_in(arg_first_values(*m), name@),
{
    match first_value(m, name) {
        Some(v) => Some(v.to_owned()),
        None => None,
    }
}

/// The validated configuration of the tool.
#[derive(Debug)]
pub struct Config {
    pub usb_pid: Option<u16>,
    pub usb_vid: Option<u16>,
    pub memory_address: Option<u32>,
    pub memory_value: Option<u32>,
    pub server_kind: ServerKind,
    pub bridge_kind: BridgeKind,
    pub serial_port: Option<String>,
    pub serial_baud: Option<usize>,
    pub bind_addr: String,
    pub bind_port: u32,
    pub random_loops: Option<u32>,
    pub random_address: Option<u32>,
}

impl Config {
    /// Every field holds what the flags `f` give it, or its default.
    pub open spec fn built_from(self, f: FlagsView) -> bool {
        &&& same_u16(self.usb_vid, f.vid)
        &&& same_u16(self.usb_pid, f.pid)
        &&& opt_view(self.serial_port) == f.serial
        &&& self.bridge_kind == (if f.serial is Some {
            BridgeKind::UartBridge
        } else {
            BridgeKind::UsbBridge
        })
        &&& same_usize(self.serial_baud, f.baud)
        &&& same_u32(self.memory_address, f.address)
        &&& same_u32(self.memory_value, f.value)
        &&& match f.port {
            Some(p) => literal_value(p) == Some(self.bind_port as nat),
            None => self.bind_port == DEFAULT_BIND_PORT,
        }
        &&& self.bind_addr@ == match f.bind_addr {
            Some(a) => a,
            None => "127.0.0.1"@,
        }
        &&& self.server_kind == f.resolved_kind()
        &&& same_u32(self.random_loops, f.random_loops)
        &&& same_u32(self.random_address, f.random_address)
    }
}

fn parse_opt_u16(o: &Option<String>) -> (r: Result<Option<u16>, ConfigError>)
    ensures
        match r {
            Ok(x) => opt_fits(opt_view(*o), u16::MAX as nat) && same_u16(x, opt_view(*o)),
            Err(e) => !opt_fits(opt_view(*o), u16::MAX as nat) && number_error_for(e, opt_view(*o)),
        },
{
    match o {
        Some(s) => match parse_u16(s.as_str()) {
            Ok(v) => Ok(Some(v)),
            Err(e) => Err(e),
        },
        None => Ok(None),
    }
}

fn parse_opt_u32(o: &Option<String>) -> (r: Result<Option<u32>, ConfigError>)
    ensures
        match r {
            Ok(x) => opt_fits(opt_view(*o), u32::MAX as nat) && same_u32(x, opt_view(*o)),
            Err(e) => !opt_fits(opt_view(*o), u32::MAX as nat) && number_error_for(e, opt_view(*o)),
        },
{
    match o {
        Some(s) => match parse_u32(s.as_str()) {
            Ok(v) => Ok(Some(v)),
            Err(e) => Err(e),
        },
        None => Ok(None),
    }
}

fn clone_opt(o: &Option<String>) -> (r: Option<String>)
    ensures
        opt_view(r) == opt_view(*o),
{
    match o {
        Some(s) => Some(s.clone()),
        None => None,
    }
}

impl Config {
    /// Builds the configuration from the flags' text. The first malformed
    /// flag, in the order of `FlagsView::first_error`, is reported; a
    /// configuration that asks for no operation is refused.
    pub fn from_flags(flags: &FlagValues) -> (r: Result<Config, ConfigError>)
        ensures
            match r {
                Ok(c) => flags@.builds() && c.built_from(flags@),
                Err(e) => !flags@.builds() && flags@.first_error(e),
            },
    {
        let mut bridge_kind = BridgeKind::UsbBridge;
        let usb_vid = match parse_opt_u16(&flags.vid) {
            Ok(v) => v,
            Err(e) => return Err(e),
        };
        let usb_pid = match parse_opt_u16(&flags.pid) {
            Ok(v) => v,
            Err(e) => return Err(e),
        };
        let serial_port = clone_opt(&flags.serial);
        if serial_port.is_some() {
            bridge_kind = BridgeKind::UartBridge;
        }
        let serial_baud: Option<usize> = match parse_opt_u32(&flags.baud) {
            Ok(Some(v)) => Some(v as usize),
            Ok(None) => None,
            Err(e) => return Err(e),
        };
        let memory_address = match parse_opt_u32(&flags.address) {
            Ok(v) => v,
            Err(e) => return Err(e),
        };
        let memory_value = match parse_opt_u32(&flags.value) {
            Ok(v) => v,
            Err(e) => return Err(e),
        };
        let bind_port: u32 = match parse_opt_u32(&flags.port) {
            Ok(Some(v)) => v,
            Ok(None) => DEFAULT_BIND_PORT,
            Err(e) => return Err(e),
        };
        let bind_addr = match &flags.bind_addr {
            Some(a) => a.clone(),
            None => "127.0.0.1".to_owned(),
        };
        let kind_text: Option<&str> = match &flags.server_kind {
            Some(s) => Some(s.as_str()),
            None => None,
        };
        let server_kind = match ServerKind::from_string(&kind_text) {
            Ok(k) => k,
            Err(e) => return Err(e),
        };
        let random_loops = match parse_opt_u32(&flags.random_loops) {
            Ok(v) => v,
            Err(e) => return Err(e),
        };
        let random_address = match parse_opt_u32(&flags.random_address) {
            Ok(v) => v,
            Err(e) => return Err(e),
        };
        if memory_address.is_none() && server_kind == ServerKind::NoServer {
            Err(ConfigError::NoOperationSpecified)
        } else {
            Ok(Config {
                usb_pid,
                usb_vid,
                memory_address,
                memory_value,
                server_kind,
                bridge_kind,
                serial_port,
                serial_baud,
                bind_addr,
                bind_port,
                random_loops,
                random_address,
            })
        }
    }
    /// Builds the configuration from clap's matches, reading each flag by
    /// its argument name; see `from_flags`.
    pub fn parse(matches: ArgMatches) -> (r: Result<Config, ConfigError>)
        requires
            forall|k: Seq<char>| #[trigger] arg_first_values(matches).contains_key(k)
                ==> arg_first_values(matches)[k] is Some,
        ensures
            match r {
                Ok(c) => flags_of_matches(matches).builds() && c.built_from(flags_of_matches(matches)),
                Err(e) => !flags_of_matches(matches).builds() && flags_of_matches(matches).first_error(e),
            },
    {
        let flags = FlagValues {
            vid: owned_value(&matches, "vid"),
            pid: owned_value(&matches, "pid"),
            serial: owned_value(&matches, "serial"),
            baud: owned_value(&matches, "baud"),
            address: owned_value(&matches, "address"),
            value: owned_value(&matches, "value"),
            port: owned_value(&matches, "port"),
            bind_addr: owned_value(&matches, "bind-addr"),
            server_kind: owned_value(&matches, "server-kind"),
            random_loops: owned_value(&matches, "random-loops"),
            random_address: owned_value(&matches, "random-address"),
        };
        assert(flags@ == flags_of_matches(matches));
        Config::from_flags(&flags)
    }
}

/// A built configuration uses the UART bridge exactly when a serial port was
/// given, whatever operation the other flags ask for.
pub proof fn serial_selects_uart(f: FlagsView, c: Config)
    requires
        c.built_from(f),
    ensures
        (c.bridge_kind == BridgeKind::UartBridge) <==> f.serial is Some,
        (c.bridge_kind == BridgeKind::UsbBridge) <==> f.serial is None,
{
}

/// Flags with well-formed numbers that give no address and select no server
/// build nothing, and the error is the no-operation error.
pub proof fn no_operation_refused(f: FlagsView, e: ConfigError)
    requires
        f.address is None,
        f.kind_known(),
        f.resolved_kind() == ServerKind::NoServer,
        f.leading_numbers_fit(),
        f.trailing_numbers_fit(),
    ensures
        !f.builds(),
        f.first_error(e) <==> e is NoOperationSpecified,
{
}

/// A well-formed address with every other flag absent builds a
/// configuration that listens on 127.0.0.1, port 3333, over USB.
pub proof fn address_alone_builds(f: FlagsView, c: Config)
    requires
        f.address matches Some(a) && literal_fits(a, u32::MAX as nat),
        f.vid is None,
        f.pid is None,
        f.serial is None,
        f.baud is None,
        f.value is None,
        f.port is None,
        f.bind_addr is None,
        f.server_kind is None,
        f.random_loops is None,
        f.random_address is None,
    ensures
        f.builds(),
        c.built_from(f) ==> c.bind_addr@ == "127.0.0.1"@ && c.bind_port == 3333
            && c.bridge_kind == BridgeKind::UsbBridge,
{
}

/// A server kind that names no known server is refused, once the numbers
/// read before it are well formed, with an error that carries its text.
pub proof fn unknown_server_kind_refused(f: FlagsView, s: Seq<char>, e: ConfigError)
    requires
        f.server_kind == Some(s),
        server_kind_named(s) is None,
        f.leading_numbers_fit(),
    ensures
        !f.builds(),
        f.first_error(e) <==> (e matches ConfigError::UnknownServerKind(t) && t@ == s),
{
}

} // verus!
