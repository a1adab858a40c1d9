//! The resolved command: client or server, with host and port.
//!
//! The last element of the argument list is always the endpoint-address
//! token; the only flag that means anything is a literal `-l` standing
//! immediately before it, which selects server mode. Everything earlier in
//! the list is ignored.

use crate::endpoint::invalid_port_message;
use crate::endpoint::parse_endpoint;
use crate::endpoint::parse_endpoint_str;
use vstd::prelude::*;
use vstd::string::StrSliceExecFns;

verus! {

/// A fully resolved invocation: connect somewhere, or listen somewhere.
/// Each variant carries the host text and the port.
#[derive(Debug)]
pub enum Command {
    Client(String, u16),
    Server(String, u16),
}

impl Command {
    /// The host this command addresses.
    pub open spec fn host(self) -> Seq<char> {
        match self {
            Command::Client(h, _) => h@,
            Command::Server(h, _) => h@,
        }
    }

    /// The port this command addresses.
    pub open spec fn port(self) -> u16 {
        match self {
            Command::Client(_, p) => p,
            Command::Server(_, p) => p,
        }
    }

    /// Whether this command runs the listening side.
    pub open spec fn is_server(self) -> bool {
        self is Server
    }

    /// Splits an endpoint token into host text and port, per
    /// [`parse_endpoint`].
    pub fn parse_host_and_port(arg: String) -> (r: Result<(String, u16), String>)
        ensures
            match parse_endpoint(arg@) {
                Some((h, p)) => r matches Ok(hp) && hp.0@ == h && hp.1 == p,
                None => r matches Err(e) && e@ == invalid_port_message(),
            },
    {
        parse_endpoint_str(arg)
    }

    /// Resolves a raw argument list into a command, per [`parse_endpoint`]
    /// and [`selects_server`]: the last argument is the endpoint token, and
    /// a `-l` immediately before it selects server mode. An empty list and
    /// an unreadable port are the only errors.
    pub fn new(args: Vec<String>) -> (r: Result<Command, String>)
        ensures
            args@.len() == 0 ==> (r matches Err(e) && e@ == too_few_arguments_message()),
            args@.len() > 0 ==> match parse_endpoint(args@.last()@) {
                Some((h, p)) => r matches Ok(c) && c.host() == h && c.port() == p
                    && c.is_server() == selects_server(args@),
                None => r matches Err(e) && e@ == invalid_port_message(),
            },
    {
        if args.len() == 0 {
            return Err("Too few command line arguments provided".to_string());
        }
        let n = args.len();
        let listen = if n >= 2 {
            is_listen_flag_str(args[n - 2].as_str())
        } else {
            false
        };
        match Command::parse_host_and_port(args[n - 1].clone()) {
            Ok((host, port)) => if listen {
                Ok(Command::Server(host, port))
            } else {
                Ok(Command::Client(host, port))
            },
            Err(e) => Err(e),
        }
    }
}

/// Whether `f` is exactly the listen flag `-l`.
pub open spec fn is_listen_flag(f: Seq<char>) -> bool {
    f.len() == 2 && f[0] == '-' && f[1] == 'l'
}

/// Whether an argument list selects server mode: it holds at least two
/// elements and the one immediately before the last is exactly `-l`.
pub open spec fn selects_server(args: Seq<String>) -> bool {
    args.len() >= 2 && is_listen_flag(args[args.len() - 2]@)
}

/// The error text reported for an empty argument list.
pub open spec fn too_few_arguments_message() -> Seq<char> {
    "Too few command line arguments provided"@
}

/// Whether `s` is exactly the listen flag `-l`.
fn is_listen_flag_str(s: &str) -> (r: bool)
    ensures
        r == is_listen_flag(s@),
{
    if s.unicode_len() == 2 {
        s.get_char(0) == '-' && s.get_char(1) == 'l'
    } else {
        false
    }
}

/// A non-empty argument list whose endpoint token holds no `:` resolves to
/// the default port, with the whole token as host.
pub proof fn lemma_no_colon_gives_default_port(args: Seq<String>)
    requires
        args.len() > 0,
        !crate::endpoint::has_colon(args.last()@),
    ensures
        parse_endpoint(args.last()@) == Some((args.last()@, crate::endpoint::DEFAULT_PORT)),
{
}

/// A two-element argument list `[flag, token]` selects server mode exactly
/// when the flag is `-l`, letter for letter.
pub proof fn lemma_server_iff_listen_flag(flag: String, token: String)
    ensures
        selects_server(seq![flag, token]) <==> is_listen_flag(flag@),
{
    assert(seq![flag, token][0] == flag);
}

/// A single-element argument list never selects server mode, whatever it
/// holds.
pub proof fn lemma_single_argument_is_client(args: Seq<String>)
    requires
        args.len() == 1,
    ensures
        !selects_server(args),
{
}

/// Formats the given error as a `String` in an `Err`: the message is the
/// error's `Display` rendering, as `ToString::to_string` produces it.
pub fn format_error<T, E: core::fmt::Display>(err: E) -> (r: Result<T, String>)
    ensures
        r matches Err(e) && vstd::string::to_string_from_display_ensures::<E>(&err, e),
{
    Err(err.to_string())
}

} // verus!
