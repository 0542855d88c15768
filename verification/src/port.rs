//! The port the engine listens on, and the addresses made from it.
//!
//! The port is held by one value of `PortConfig`. Whoever needs the port
//! reads it there at the moment of use, so a change made by `set_port` is
//! seen by the very next address that is built.

use vstd::prelude::*;
use vstd::string::StringExecFns;
use crate::decimal::{decimal, decimal_text, parse_u16, parse_u16_text};
use crate::text::{chars_of, string_of};

verus! {

/// The port the engine listens on where nothing else is configured.
pub const DEFAULT_OLLAMA_PORT: u16 = 11434;

/// The lowest port that may be configured; the ports below it are reserved
/// to the system.
pub const LOWEST_PORT: u16 = 1024;

/// The base URL of the engine's HTTP interface on `port`.
pub open spec fn base_url(port: u16) -> Seq<char> {
    "http://localhost:"@ + decimal(port as nat)
}

/// The URL of one endpoint of the engine's HTTP interface.
pub open spec fn api_url(port: u16, endpoint: Seq<char>) -> Seq<char> {
    base_url(port) + "/api/"@ + endpoint
}

/// The socket address that a connection test dials.
pub open spec fn socket_address(port: u16) -> Seq<char> {
    "127.0.0.1:"@ + decimal(port as nat)
}

/// The port that a configured override selects: the number it writes, or the
/// default where there is no override or it writes no 16-bit number.
pub open spec fn port_from_override(text: Option<Seq<char>>) -> u16 {
    match text {
        Some(t) => match parse_u16(t) {
            Some(port) => port,
            None => DEFAULT_OLLAMA_PORT,
        },
        None => DEFAULT_OLLAMA_PORT,
    }
}

pub open spec fn port_accepted_message(port: u16) -> Seq<char> {
    "Ollama port set to "@ + decimal(port as nat)
}

pub open spec fn port_rejected_message() -> Seq<char> {
    "Port must be between 1024 and 65535"@
}

/// The engine's port.
#[derive(Clone, Copy, Debug)]
pub struct PortConfig {
    port: u16,
}

impl View for PortConfig {
    type V = u16;

    closed spec fn view(&self) -> u16 {
        self.port
    }
}

impl PortConfig {
    /// The configuration with the default port.
    pub fn new() -> (r: PortConfig)
        ensures
            r@ == DEFAULT_OLLAMA_PORT,
    {
        PortConfig { port: DEFAULT_OLLAMA_PORT }
    }

    /// The configuration that an override from outside selects.
    pub fn from_override(text: Option<&str>) -> (r: PortConfig)
        ensures
            r@ == port_from_override(
                match text {
                    Some(t) => Some(t@),
                    None => None,
                },
            ),
    {
        match text {
            Some(t) => {
                let given = chars_of(t);
                match parse_u16_text(given.as_slice()) {
                    Some(port) => PortConfig { port },
                    None => PortConfig { port: DEFAULT_OLLAMA_PORT },
                }
            },
            None => PortConfig { port: DEFAULT_OLLAMA_PORT },
        }
    }

    /// The port as it is configured now.
    pub fn port(&self) -> (r: u16)
        ensures
            r == self@,
    {
        self.port
    }

    /// Sets the port. A port below 1024 is rejected and leaves the
    /// configuration as it was; every other port is taken, and the message
    /// names it.
    pub fn set_port(&mut self, port: u16) -> (r: Result<String, String>)
        ensures
            port >= LOWEST_PORT ==> r is Ok && r->Ok_0@ == port_accepted_message(port),
            port >= LOWEST_PORT ==> final(self)@ == port,
            port < LOWEST_PORT ==> r is Err && r->Err_0@ == port_rejected_message(),
            port < LOWEST_PORT ==> final(self)@ == old(self)@,
    {
        if port < LOWEST_PORT {
            return Err("Port must be between 1024 and 65535".to_string());
        }
        self.port = port;
        let mut message = "Ollama port set to ".to_string();
        message.append(string_of(decimal_text(port as u64).as_slice()).as_str());
        Ok(message)
    }
}

/// The base URL of the engine's HTTP interface.
pub fn get_ollama_base_url(config: &PortConfig) -> (r: String)
    ensures
        r@ == base_url(config@),
{
    let mut url = "http://localhost:".to_string();
    url.append(string_of(decimal_text(config.port() as u64).as_slice()).as_str());
    url
}

/// The URL of one endpoint of the engine's HTTP interface.
pub fn get_ollama_api_url(config: &PortConfig, endpoint: &str) -> (r: String)
    ensures
        r@ == api_url(config@, endpoint@),
{
    let mut url = get_ollama_base_url(config);
    url.append("/api/");
    url.append(endpoint);
    url
}

/// The socket address that a connection test dials.
pub fn get_socket_address(config: &PortConfig) -> (r: String)
    ensures
        r@ == socket_address(config@),
{
    let mut address = "127.0.0.1:".to_string();
    address.append(string_of(decimal_text(config.port() as u64).as_slice()).as_str());
    address
}

} // verus!
