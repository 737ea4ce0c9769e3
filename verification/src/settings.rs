//! Where the server listens and where the client connects: the fixed limits of
//! both programs and the `host:port` address they are built from.
use vstd::prelude::*;
use vstd::string::StringExecFns;

verus! {

/// Size of the buffer each `read` fills.
pub const BUFFER_SIZE: usize = 1024;

/// How many times a retrying client tries to connect before it gives up.
pub const MAX_CONNECTION_ATTEMPTS: u32 = 15;

/// How long one connection attempt of a retrying client may take, in seconds.
pub const CONNECTION_TIMEOUT_SECS: u64 = 5;

/// Pause between two connection attempts, in seconds.
pub const RETRY_PAUSE_SECS: u64 = 1;

/// Pause of the fixed-reply server before it answers a message, in seconds.
pub const REPLY_DELAY_SECS: u64 = 1;

/// Host the server listens on when none is configured.
pub open spec fn default_server_host() -> Seq<char> {
    "0.0.0.0"@
}

/// Host the retrying client connects to when none is configured.
pub open spec fn default_client_host() -> Seq<char> {
    "echo-server"@
}

/// Port used by both sides when none is configured.
pub open spec fn default_port() -> Seq<char> {
    "5000"@
}

/// Message the retrying client sends when none is configured.
pub open spec fn default_message() -> Seq<char> {
    "Olá do cliente echo!"@
}

/// The configured value, or `default` when nothing was configured.
pub fn setting_or(value: Option<String>, default: &str) -> (s: String)
    ensures
        s@ == (match value {
            Some(v) => v@,
            None => default@,
        }),
        value is None ==> s@ == default@,
        value matches Some(v) ==> s@ == v@,
{
    match value {
        Some(v) => v,
        None => default.to_owned(),
    }
}

/// Host of the server, defaulting to every interface.
pub fn server_host(value: Option<String>) -> (s: String)
    ensures
        value is None ==> s@ == "0.0.0.0"@,
        value matches Some(v) ==> s@ == v@,
        s@ == (match value {
            Some(v) => v@,
            None => default_server_host(),
        }),
{
    setting_or(value, "0.0.0.0")
}

/// Host the retrying client connects to, defaulting to the service name.
pub fn client_host(value: Option<String>) -> (s: String)
    ensures
        value is None ==> s@ == "echo-server"@,
        value matches Some(v) ==> s@ == v@,
        s@ == (match value {
            Some(v) => v@,
            None => default_client_host(),
        }),
{
    setting_or(value, "echo-server")
}

/// Port of either side.
pub fn port(value: Option<String>) -> (s: String)
    ensures
        value is None ==> s@ == "5000"@,
        value matches Some(v) ==> s@ == v@,
        s@ == (match value {
            Some(v) => v@,
            None => default_port(),
        }),
{
    setting_or(value, "5000")
}

/// Message the retrying client sends.
pub fn message(value: Option<String>) -> (s: String)
    ensures
        value is None ==> s@ == "Olá do cliente echo!"@,
        value matches Some(v) ==> s@ == v@,
        s@ == (match value {
            Some(v) => v@,
            None => default_message(),
        }),
{
    setting_or(value, "Olá do cliente echo!")
}

/// The address `host:port`.
pub open spec fn address_text(host: Seq<char>, port: Seq<char>) -> Seq<char> {
    host + seq![':'] + port
}

/// The address is the whole host, one ':', then the whole port: its length is
/// the two lengths plus one, it starts with the host, holds ':' right after
/// it, and ends with the port.
pub proof fn lemma_address_parts(host: Seq<char>, port: Seq<char>)
    ensures
        address_text(host, port) == host + seq![':'] + port,
        address_text(host, port).len() == host.len() + 1 + port.len(),
        address_text(host, port).subrange(0, host.len() as int) == host,
        address_text(host, port)[host.len() as int] == ':',
        address_text(host, port).subrange(host.len() + 1int, address_text(host, port).len() as int)
            == port,
{
    let a = address_text(host, port);
    assert(a.subrange(0, host.len() as int) =~= host);
    assert(a.subrange(host.len() + 1int, a.len() as int) =~= port);
}

/// Builds the address `host:port` that the server binds and the client dials.
pub fn socket_address(host: &str, port: &str) -> (addr: String)
    ensures
        addr@ == address_text(host@, port@),
        addr@ == host@ + seq![':'] + port@,
        addr@.len() == host@.len() + 1 + port@.len(),
        addr@.subrange(0, host@.len() as int) == host@,
        addr@[host@.len() as int] == ':',
        addr@.subrange(host@.len() + 1int, addr@.len() as int) == port@,
{
    let mut addr = host.to_owned();
    addr.append(":");
    proof {
        reveal_strlit(":");
    }
    addr.append(port);
    proof {
        assert(addr@ =~= host@ + seq![':'] + port@);
        assert(addr@.subrange(0, host@.len() as int) =~= host@);
        assert(addr@.subrange(host@.len() + 1int, addr@.len() as int) =~= port@);
    }
    addr
}

} // verus!
