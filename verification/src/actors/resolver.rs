//! Name resolution and connection: the decisions of the resolver actor.
//!
//! The actor answers two messages. [`Resolve`] asks for the socket addresses
//! of a host; [`Connect`] asks for a connection to one of them. Looking names
//! up, keeping time and opening sockets is the caller's work. What to look
//! up, what to make of the answer and which address to try next is decided
//! here.

use crate::fut::Async;
use crate::handler::Message;
use std::collections::VecDeque;
use vstd::prelude::*;

verus! {

/// The I/O error of the standard library, as a value that is carried through
/// unread.
#[verifier::external_type_specification]
#[verifier::external_body]
pub struct ExIoError(std::io::Error);

/// The TCP stream of the `tokio-core` crate, as a value that is carried
/// through unread.
#[verifier::external_type_specification]
#[verifier::external_body]
pub struct ExTcpStream(tokio_core::net::TcpStream);

/// An internet address: the bits of an IPv4 or of an IPv6 address, the first
/// octet in the highest place.
#[derive(Debug, Clone, Copy, PartialEq, Eq, Hash, Structural)]
pub enum IpAddress {
    /// An IPv4 address.
    V4(u32),
    /// An IPv6 address.
    V6(u128),
}

/// A socket address: an internet address and a port. The flow information
/// and the scope belong to IPv6 and are 0 otherwise.
#[derive(Debug, Clone, Copy, PartialEq, Eq, Hash, Structural)]
pub struct SocketAddress {
    /// The internet address.
    pub ip: IpAddress,
    /// The port.
    pub port: u16,
    /// The flow information of an IPv6 address.
    pub flowinfo: u32,
    /// The scope of an IPv6 address.
    pub scope_id: u32,
}

impl SocketAddress {
    /// The socket address of an internet address and a port, without flow
    /// information or scope.
    pub open spec fn spec_new(ip: IpAddress, port: u16) -> SocketAddress {
        SocketAddress { ip, port, flowinfo: 0, scope_id: 0 }
    }

    /// Makes the socket address of an internet address and a port.
    #[verifier::when_used_as_spec(spec_new)]
    pub fn new(ip: IpAddress, port: u16) -> (addr: SocketAddress)
        ensures
            addr == SocketAddress::spec_new(ip, port),
    {
        SocketAddress { ip, port, flowinfo: 0, scope_id: 0 }
    }
}

/// A span of time: whole seconds and the nanoseconds beyond them.
#[derive(Debug, Clone, Copy, PartialEq, Eq, Structural)]
pub struct Delay {
    /// The whole seconds.
    pub secs: u64,
    /// The nanoseconds beyond the whole seconds.
    pub nanos: u32,
}

/// What can go wrong when a host is resolved or connected to.
#[derive(Debug)]
pub enum ConnectorError {
    /// The name could not be resolved.
    Resolver(String),
    /// The address makes no sense.
    InvalidInput(&'static str),
    /// Connecting took too long.
    Timeout,
    /// The connection failed.
    IoError(std::io::Error),
}

/// What a `ConnectorError` is, mathematically: the same error with its
/// texts as sequences of characters.
pub enum Failure {
    /// The name could not be resolved.
    Resolver(Seq<char>),
    /// The address makes no sense.
    InvalidInput(Seq<char>),
    /// Connecting took too long.
    Timeout,
    /// The connection failed.
    IoError(std::io::Error),
}

impl Failure {
    /// The text that describes this error to a person, where this library
    /// words it: an I/O error words itself.
    pub open spec fn description(self) -> Option<Seq<char>> {
        match self {
            Failure::Resolver(reason) => Some("Failed resolving hostname: "@ + reason),
            Failure::InvalidInput(reason) => Some("Invalid input: "@ + reason),
            Failure::Timeout => Some("Timeout out while establishing connection"@),
            Failure::IoError(_) => None,
        }
    }
}

impl View for ConnectorError {
    type V = Failure;

    open spec fn view(&self) -> Failure {
        match self {
            ConnectorError::Resolver(reason) => Failure::Resolver(reason@),
            ConnectorError::InvalidInput(reason) => Failure::InvalidInput(reason@),
            ConnectorError::Timeout => Failure::Timeout,
            ConnectorError::IoError(err) => Failure::IoError(*err),
        }
    }
}

impl ConnectorError {
    /// Describes the error to a person.
    pub fn describe(&self) -> (s: String)
        ensures
            self@.description() matches Some(text) ==> s@ == text,
    {
        match self {
            ConnectorError::Resolver(reason) => "Failed resolving hostname: ".to_owned().concat(
                reason.as_str(),
            ),
            ConnectorError::InvalidInput(reason) => "Invalid input: ".to_owned().concat(reason),
            ConnectorError::Timeout => "Timeout out while establishing connection".to_owned(),
            ConnectorError::IoError(err) => err.to_string(),
        }
    }
}

/// Asks for the socket addresses of a host.
#[derive(Debug)]
pub struct Resolve {
    name: String,
    port: Option<u16>,
}

impl Resolve {
    /// The host to resolve, as it was given.
    pub closed spec fn spec_name(&self) -> Seq<char> {
        self.name@
    }

    /// The port to use where the host names none.
    pub closed spec fn spec_port(&self) -> Option<u16> {
        self.port
    }

    /// Asks for the addresses of `host`, which may name a port after a colon.
    pub fn host(host: &str) -> (msg: Resolve)
        ensures
            msg.spec_name() == host@,
            msg.spec_port() is None,
    {
        Resolve { name: host.to_owned(), port: None }
    }

    /// Asks for the addresses of `host`, with `port` where the host names
    /// none.
    pub fn host_and_port(host: &str, port: u16) -> (msg: Resolve)
        ensures
            msg.spec_name() == host@,
            msg.spec_port() == Some(port),
    {
        Resolve { name: host.to_owned(), port: Some(port) }
    }

    /// The host to resolve, as it was given.
    pub fn name(&self) -> (name: &str)
        ensures
            name@ == self.spec_name(),
    {
        self.name.as_str()
    }

    /// The port to use where the host names none.
    #[verifier::when_used_as_spec(spec_port)]
    pub fn port(&self) -> (port: Option<u16>)
        ensures
            port == self.spec_port(),
    {
        self.port
    }
}

impl Message for Resolve {
    type Result = Result<VecDeque<SocketAddress>, ConnectorError>;
}

/// Asks for a connection to a host.
#[derive(Debug)]
pub struct Connect {
    name: String,
    port: Option<u16>,
}

impl Connect {
    /// The host to connect to, as it was given.
    pub closed spec fn spec_name(&self) -> Seq<char> {
        self.name@
    }

    /// The port to use where the host names none.
    pub closed spec fn spec_port(&self) -> Option<u16> {
        self.port
    }

    /// Asks for a connection to `host`, which may name a port after a colon.
    pub fn host(host: &str) -> (msg: Connect)
        ensures
            msg.spec_name() == host@,
            msg.spec_port() is None,
    {
        Connect { name: host.to_owned(), port: None }
    }

    /// Asks for a connection to `host`, on `port` where the host names none.
    pub fn host_and_port(host: &str, port: u16) -> (msg: Connect)
        ensures
            msg.spec_name() == host@,
            msg.spec_port() == Some(port),
    {
        Connect { name: host.to_owned(), port: Some(port) }
    }

    /// The host to connect to, as it was given.
    pub fn name(&self) -> (name: &str)
        ensures
            name@ == self.spec_name(),
    {
        self.name.as_str()
    }

    /// The port to use where the host names none.
    #[verifier::when_used_as_spec(spec_port)]
    pub fn port(&self) -> (port: Option<u16>)
        ensures
            port == self.spec_port(),
    {
        self.port
    }
}

impl Message for Connect {
    type Result = Result<tokio_core::net::TcpStream, ConnectorError>;
}

/// Whether a character is a decimal digit.
pub open spec fn is_digit(c: char) -> bool {
    '0' as u32 <= c as u32 <= '9' as u32
}

/// The value of a decimal digit.
pub open spec fn digit_value(c: char) -> nat {
    (c as u32 - '0' as u32) as nat
}

/// Whether a text consists of decimal digits.
pub open spec fn all_digits(s: Seq<char>) -> bool {
    forall|i: int| 0 <= i < s.len() ==> is_digit(#[trigger] s[i])
}

/// The number that a text of decimal digits writes.
pub open spec fn decimal(s: Seq<char>) -> nat
    decreases s.len(),
{
    if s.len() == 0 {
        0
    } else {
        decimal(s.drop_last()) * 10 + digit_value(s.last())
    }
}

/// The port that a text writes: decimal digits, at least one, with or without
/// a plus sign before them, that write a number of at most 65535. Any other
/// text writes no port.
pub open spec fn port_number(s: Seq<char>) -> Option<u16> {
    let digits = if s.len() > 0 && s[0] == '+' {
        s.skip(1)
    } else {
        s
    };
    if digits.len() > 0 && all_digits(digits) && decimal(digits) <= u16::MAX {
        Some(decimal(digits) as u16)
    } else {
        None
    }
}

/// The place of the last colon in a text; -1 if there is none.
pub open spec fn last_colon(s: Seq<char>) -> int
    decreases s.len(),
{
    if s.len() == 0 {
        -1
    } else if s.last() == ':' {
        s.len() - 1
    } else {
        last_colon(s.drop_last())
    }
}

/// The host and the port that an address names. The last colon parts the
/// host from the port; where what follows it writes no port, and where there
/// is no colon, the port is the one given. An address without a colon is a
/// host; the empty address names nothing.
pub open spec fn split_address(addr: Seq<char>, port: u16) -> Option<(Seq<char>, u16)> {
    let colon = last_colon(addr);
    if colon >= 0 {
        Some(
            (
                addr.take(colon),
                match port_number(addr.skip(colon + 1)) {
                    Some(p) => p,
                    None => port,
                },
            ),
        )
    } else if addr.len() == 0 {
        None
    } else {
        Some((addr, port))
    }
}

/// The number that a text writes does not shrink as the text grows.
pub proof fn lemma_decimal_grows(s: Seq<char>, k: int)
    requires
        0 <= k <= s.len(),
    ensures
        decimal(s.take(k)) <= decimal(s),
    decreases s.len() - k,
{
    if k < s.len() {
        lemma_decimal_grows(s.drop_last(), k);
        assert(s.drop_last().take(k) =~= s.take(k));
    } else {
        assert(s.take(k) =~= s);
    }
}

/// A text has its last colon where a colon stands and none follows.
pub proof fn lemma_last_colon(s: Seq<char>, k: int)
    requires
        0 <= k <= s.len(),
        forall|i: int| k <= i < s.len() ==> s[i] != ':',
    ensures
        last_colon(s) == last_colon(s.take(k)),
        k > 0 && s[k - 1] == ':' ==> last_colon(s) == k - 1,
    decreases s.len() - k,
{
    if k < s.len() {
        lemma_last_colon(s.drop_last(), k);
        assert(s.drop_last().take(k) =~= s.take(k));
    } else {
        assert(s.take(k) =~= s);
    }
    if k > 0 && s[k - 1] == ':' {
        assert(s.take(k).last() == ':');
    }
}

/// Reads a port as `port_number` defines it.
fn parse_port(s: &str) -> (r: Option<u16>)
    ensures
        r == port_number(s@),
{
    let n: usize = s.unicode_len();
    if n == 0 {
        return None;
    }
    let start: usize = if s.get_char(0) == '+' {
        1
    } else {
        0
    };
    let ghost digits = if s@[0] == '+' {
        s@.skip(1)
    } else {
        s@
    };
    proof {
        assert(s@.skip(0) =~= s@);
        assert(digits.take(0) =~= Seq::<char>::empty());
    }
    if start == n {
        return None;
    }
    let mut acc: u32 = 0;
    let mut i: usize = start;
    while i < n
        invariant
            start <= i <= n,
            start <= 1,
            n == s@.len(),
            n > 0,
            digits == s@.skip(start as int),
            digits == if s@[0] == '+' {
                s@.skip(1)
            } else {
                s@
            },
            all_digits(digits.take(i - start)),
            acc == decimal(digits.take(i - start)),
            acc <= u16::MAX,
        decreases n - i,
    {
        let c = s.get_char(i);
        assert(digits[i - start] == c);
        if !(c >= '0' && c <= '9') {
            assert(!is_digit(digits[i - start]));
            return None;
        }
        let d: u32 = c as u32 - '0' as u32;
        proof {
            assert(digits.take(i - start + 1).drop_last() =~= digits.take(i - start));
            assert(digits.take(i - start + 1).last() == c);
            lemma_decimal_grows(digits, i - start + 1);
            assert(all_digits(digits.take(i - start + 1))) by {
                assert forall|j: int| 0 <= j < i - start + 1 implies is_digit(
                    #[trigger] digits.take(i - start + 1)[j],
                ) by {
                    if j < i - start {
                        assert(digits.take(i - start)[j] == digits[j]);
                    }
                }
            }
        }
        acc = acc * 10 + d;
        if acc > 65535 {
            return None;
        }
        i = i + 1;
    }
    proof {
        assert(digits.take(n - start) =~= digits);
    }
    Some(acc as u16)
}

/// Finds the last colon of a text; the length of the text if there is none.
fn find_last_colon(s: &str, n: usize) -> (at: usize)
    requires
        n == s@.len(),
    ensures
        at <= n,
        at < n ==> last_colon(s@) == at,
        at == n ==> last_colon(s@) == -1,
{
    let mut i: usize = n;
    while i > 0
        invariant
            i <= n,
            n == s@.len(),
            forall|j: int| i <= j < n ==> s@[j] != ':',
        decreases i,
    {
        if s.get_char(i - 1) == ':' {
            proof {
                lemma_last_colon(s@, i as int);
            }
            return i - 1;
        }
        i = i - 1;
    }
    proof {
        lemma_last_colon(s@, 0);
        assert(s@.take(0) =~= Seq::<char>::empty());
    }
    n
}

/// One answer of the name service, as the caller has it from polling the
/// lookup.
#[derive(Debug)]
pub enum Lookup {
    /// No answer yet.
    NotReady,
    /// The addresses of the host.
    Ready(Vec<IpAddress>),
    /// The lookup failed, for this reason.
    Failed(String),
}

/// What a resolver is, mathematically.
pub struct ResolverView {
    /// The host that is to be looked up, while the lookup is under way.
    pub lookup: Option<Seq<char>>,
    /// The port that goes with every address of the host.
    pub port: u16,
    /// The addresses, once they are known and until they are handed out.
    pub addrs: Option<Seq<SocketAddress>>,
    /// The error, once there is one and until it is handed out.
    pub error: Option<Failure>,
}

/// The socket addresses of a host's internet addresses, all with one port.
pub open spec fn with_port(ips: Seq<IpAddress>, port: u16) -> Seq<SocketAddress> {
    ips.map_values(|ip: IpAddress| SocketAddress::spec_new(ip, port))
}

impl ResolverView {
    /// The resolver for an address and a default port. `literal` is the
    /// address read as a socket address, if it can be read so: then the
    /// answer is known at once. Otherwise the host that the address names is
    /// to be looked up, and an address that names nothing is an error.
    pub open spec fn new(addr: Seq<char>, port: u16, literal: Option<SocketAddress>) -> Self {
        match literal {
            Some(a) => ResolverView { lookup: None, port, addrs: Some(seq![a]), error: None },
            None => match split_address(addr, port) {
                Some((host, port)) => ResolverView {
                    lookup: Some(host),
                    port,
                    addrs: None,
                    error: None,
                },
                None => ResolverView {
                    lookup: None,
                    port,
                    addrs: None,
                    error: Some(Failure::InvalidInput("invalid socket address"@)),
                },
            },
        }
    }

    /// Whether anything is left for the resolver to say.
    pub open spec fn pending(self) -> bool {
        self.error is Some || self.addrs is Some || self.lookup is Some
    }

    /// One step of a resolver.
    ///
    /// An error that was found, or addresses that are known, are handed out
    /// at once. Otherwise the answer of the name service decides: no answer
    /// yet, not ready; its addresses, each with this resolver's port,
    /// if there is at least one; an error if there is none, or if the lookup
    /// failed. Whatever is handed out is handed out once.
    pub open spec fn poll(self, event: Lookup) -> (
        Self,
        Result<Async<Seq<SocketAddress>>, Failure>,
    ) {
        if self.error is Some {
            (ResolverView { error: None, ..self }, Err(self.error->0))
        } else if self.addrs is Some {
            (ResolverView { addrs: None, ..self }, Ok(Async::Ready(self.addrs->0)))
        } else {
            match event {
                Lookup::NotReady => (self, Ok(Async::NotReady)),
                Lookup::Ready(ips) => (
                    ResolverView { lookup: None, ..self },
                    if ips@.len() == 0 {
                        Err(Failure::Resolver("Expect at least one A dns record"@))
                    } else {
                        Ok(Async::Ready(with_port(ips@, self.port)))
                    },
                ),
                Lookup::Failed(reason) => (
                    ResolverView { lookup: None, ..self },
                    Err(Failure::Resolver(reason@)),
                ),
            }
        }
    }
}

/// An answer of a resolver with the addresses as a sequence.
pub open spec fn answer(
    r: Result<Async<VecDeque<SocketAddress>>, ConnectorError>,
) -> Result<Async<Seq<SocketAddress>>, Failure> {
    match r {
        Ok(Async::Ready(addrs)) => Ok(Async::Ready(addrs@)),
        Ok(Async::NotReady) => Ok(Async::NotReady),
        Err(e) => Err(e@),
    }
}

/// A resolution under way.
#[derive(Debug)]
pub struct Resolver {
    lookup: Option<String>,
    port: u16,
    addrs: Option<VecDeque<SocketAddress>>,
    error: Option<ConnectorError>,
}

impl View for Resolver {
    type V = ResolverView;

    closed spec fn view(&self) -> ResolverView {
        ResolverView {
            lookup: match self.lookup {
                Some(host) => Some(host@),
                None => None,
            },
            port: self.port,
            addrs: match self.addrs {
                Some(addrs) => Some(addrs@),
                None => None,
            },
            error: match self.error {
                Some(e) => Some(e@),
                None => None,
            },
        }
    }
}

impl Resolver {
    /// Splits an address into the host and the port that it names. The error
    /// is `InvalidInput`, and comes for the empty address only.
    pub fn parse<'a>(addr: &'a str, port: u16) -> (r: Result<(&'a str, u16), ConnectorError>)
        ensures
            match r {
                Ok((host, p)) => split_address(addr@, port) == Some((host@, p)),
                Err(e) => split_address(addr@, port) is None && e@ == Failure::InvalidInput(
                    "invalid socket address"@,
                ),
            },
    {
        let n: usize = addr.unicode_len();
        let colon: usize = find_last_colon(addr, n);
        if colon < n {
            let host = addr.substring_char(0, colon);
            let port_str = addr.substring_char(colon + 1, n);
            let port: u16 = match parse_port(port_str) {
                Some(p) => p,
                None => port,
            };
            Ok((host, port))
        } else if n == 0 {
            Err(ConnectorError::InvalidInput("invalid socket address"))
        } else {
            Ok((addr, port))
        }
    }

    /// Begins to resolve `addr`. `literal` is `addr` read as a socket
    /// address, where it can be read so.
    pub fn new(addr: &str, port: u16, literal: Option<SocketAddress>) -> (r: Resolver)
        ensures
            r@ == ResolverView::new(addr@, port, literal),
    {
        if let Some(a) = literal {
            let mut addrs = VecDeque::new();
            addrs.push_back(a);
            assert(addrs@ =~= seq![a]);
            Resolver { lookup: None, port, addrs: Some(addrs), error: None }
        } else {
            match Resolver::parse(addr, port) {
                Ok((host, port)) => Resolver {
                    lookup: Some(host.to_owned()),
                    port,
                    addrs: None,
                    error: None,
                },
                Err(err) => Resolver { lookup: None, port, addrs: None, error: Some(err) },
            }
        }
    }

    /// The host that is to be looked up, while the resolver waits for the
    /// name service.
    pub fn lookup(&self) -> (host: Option<&str>)
        ensures
            match host {
                Some(h) => self@.lookup == Some(h@),
                None => self@.lookup is None,
            },
    {
        match &self.lookup {
            Some(h) => Some(h.as_str()),
            None => None,
        }
    }

    /// Whether anything is left for the resolver to say.
    pub fn pending(&self) -> (r: bool)
        ensures
            r == self@.pending(),
    {
        self.error.is_some() || self.addrs.is_some() || self.lookup.is_some()
    }

    /// Takes the resolution one step further. `event` is what the name
    /// service has answered; it counts only while a lookup is under way.
    pub fn poll(&mut self, event: Lookup) -> (r: Result<
        Async<VecDeque<SocketAddress>>,
        ConnectorError,
    >)
        requires
            old(self)@.pending(),
        ensures
            (final(self)@, answer(r)) == old(self)@.poll(event),
    {
        if let Some(err) = self.error.take() {
            return Err(err);
        }
        if let Some(addrs) = self.addrs.take() {
            return Ok(Async::Ready(addrs));
        }
        match event {
            Lookup::NotReady => Ok(Async::NotReady),
            Lookup::Ready(ips) => {
                self.lookup = None;
                let mut addrs: VecDeque<SocketAddress> = VecDeque::new();
                let mut i: usize = 0;
                while i < ips.len()
                    invariant
                        i <= ips.len(),
                        addrs@ == with_port(ips@.take(i as int), self.port),
                    decreases ips.len() - i,
                {
                    addrs.push_back(SocketAddress::new(ips[i], self.port));
                    assert(with_port(ips@.take(i + 1), self.port) =~= with_port(
                        ips@.take(i as int),
                        self.port,
                    ).push(SocketAddress::spec_new(ips@[i as int], self.port)));
                    i = i + 1;
                }
                assert(ips@.take(ips.len() as int) =~= ips@);
                if addrs.len() == 0 {
                    Err(ConnectorError::Resolver("Expect at least one A dns record".to_owned()))
                } else {
                    Ok(Async::Ready(addrs))
                }
            },
            Lookup::Failed(reason) => {
                self.lookup = None;
                Err(ConnectorError::Resolver(reason))
            },
        }
    }
}

/// What polling the connection under way has given.
#[derive(Debug)]
pub enum Attempt<S> {
    /// The connection is not there yet.
    NotReady,
    /// The connection stands; `S` is the stream.
    Connected(S),
    /// The connection failed.
    Failed(std::io::Error),
}

/// What a connector asks of its caller, or tells it.
#[derive(Debug)]
pub enum Dial<S> {
    /// Open a connection to this address, and poll it.
    Connect(SocketAddress),
    /// The connection under way is not there yet.
    NotReady,
    /// The connection stands.
    Ready(S),
}

/// What a connector is, mathematically.
pub struct TcpConnectorView {
    /// The addresses that have not been tried, in the order of trying.
    pub addrs: Seq<SocketAddress>,
    /// How long all attempts together may take.
    pub timeout: Delay,
    /// Whether a connection is under way.
    pub connecting: bool,
}

impl TcpConnectorView {
    /// The connector with the next address under way.
    pub open spec fn dial<S>(self) -> (Self, Result<Dial<S>, ConnectorError>) {
        (
            TcpConnectorView { addrs: self.addrs.drop_first(), connecting: true, ..self },
            Ok(Dial::Connect(self.addrs[0])),
        )
    }

    /// One step of a connector.
    ///
    /// When the time is up, the connector gives up. A connection that stands
    /// is handed out; one that is not there yet is waited for. When the
    /// connection under way has failed, or none is under way, the next
    /// address is tried; when the last has failed, its error is the
    /// connector's.
    pub open spec fn poll<S>(self, timed_out: bool, attempt: Attempt<S>) -> (
        Self,
        Result<Dial<S>, ConnectorError>,
    ) {
        if timed_out {
            (self, Err(ConnectorError::Timeout))
        } else if self.connecting {
            match attempt {
                Attempt::Connected(stream) => (self, Ok(Dial::Ready(stream))),
                Attempt::NotReady => (self, Ok(Dial::NotReady)),
                Attempt::Failed(err) => if self.addrs.len() == 0 {
                    (self, Err(ConnectorError::IoError(err)))
                } else {
                    self.dial()
                },
            }
        } else {
            self.dial()
        }
    }
}

/// Connects to the first of a host's addresses that takes the connection.
#[derive(Debug)]
pub struct TcpConnector {
    addrs: VecDeque<SocketAddress>,
    timeout: Delay,
    connecting: bool,
}

impl View for TcpConnector {
    type V = TcpConnectorView;

    closed spec fn view(&self) -> TcpConnectorView {
        TcpConnectorView { addrs: self.addrs@, timeout: self.timeout, connecting: self.connecting }
    }
}

impl TcpConnector {
    /// A connector for these addresses that gives up after one second.
    pub fn new(addrs: VecDeque<SocketAddress>) -> (r: TcpConnector)
        ensures
            r@ == (TcpConnectorView {
                addrs: addrs@,
                timeout: Delay { secs: 1, nanos: 0 },
                connecting: false,
            }),
    {
        TcpConnector::with_timeout(addrs, Delay { secs: 1, nanos: 0 })
    }

    /// A connector for these addresses that gives up after `timeout`.
    pub fn with_timeout(addrs: VecDeque<SocketAddress>, timeout: Delay) -> (r: TcpConnector)
        ensures
            r@ == (TcpConnectorView { addrs: addrs@, timeout, connecting: false }),
    {
        TcpConnector { addrs, timeout, connecting: false }
    }

    /// How long all attempts together may take.
    pub fn timeout(&self) -> (r: Delay)
        ensures
            r == self@.timeout,
    {
        self.timeout
    }

    /// Whether a connection is under way.
    pub fn connecting(&self) -> (r: bool)
        ensures
            r == self@.connecting,
    {
        self.connecting
    }

    /// How many addresses have not been tried.
    pub fn remaining(&self) -> (r: usize)
        ensures
            r == self@.addrs.len(),
    {
        self.addrs.len()
    }

    /// Takes the connecting one step further. `timed_out` tells whether the
    /// time is up; `attempt` is what polling the connection under way has
    /// given, and counts only while one is under way.
    pub fn poll<S>(&mut self, timed_out: bool, attempt: Attempt<S>) -> (r: Result<
        Dial<S>,
        ConnectorError,
    >)
        requires
            !timed_out && !old(self)@.connecting ==> old(self)@.addrs.len() > 0,
        ensures
            (final(self)@, r) == old(self)@.poll(timed_out, attempt),
    {
        if timed_out {
            return Err(ConnectorError::Timeout);
        }
        if self.connecting {
            match attempt {
                Attempt::Connected(stream) => {
                    return Ok(Dial::Ready(stream));
                },
                Attempt::NotReady => {
                    return Ok(Dial::NotReady);
                },
                Attempt::Failed(err) => {
                    if self.addrs.len() == 0 {
                        return Err(ConnectorError::IoError(err));
                    }
                },
            }
        }
        match self.addrs.pop_front() {
            Some(addr) => {
                self.connecting = true;
                Ok(Dial::Connect(addr))
            },
            None => Ok(Dial::NotReady),
        }
    }
}

/// The resolver actor's handlers: what it makes of its two messages.
#[derive(Debug)]
pub struct Connector {}

impl Connector {
    /// The resolution that answers a `Resolve`. Where the message names no
    /// port, the port is 0 unless the host names one.
    pub fn resolve(msg: Resolve, literal: Option<SocketAddress>) -> (r: Resolver)
        ensures
            r@ == ResolverView::new(
                msg.spec_name(),
                match msg.spec_port() {
                    Some(p) => p,
                    None => 0,
                },
                literal,
            ),
    {
        let port: u16 = match msg.port {
            Some(p) => p,
            None => 0,
        };
        Resolver::new(msg.name.as_str(), port, literal)
    }

    /// The resolution with which the answer to a `Connect` begins; the
    /// addresses that it finds go to a `TcpConnector`.
    pub fn connect(msg: Connect, literal: Option<SocketAddress>) -> (r: Resolver)
        ensures
            r@ == ResolverView::new(
                msg.spec_name(),
                match msg.spec_port() {
                    Some(p) => p,
                    None => 0,
                },
                literal,
            ),
    {
        let port: u16 = match msg.port {
            Some(p) => p,
            None => 0,
        };
        Resolver::new(msg.name.as_str(), port, literal)
    }
}

} // verus!
