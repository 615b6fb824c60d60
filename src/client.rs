//! Connections: where to connect, and the `Dormant`/`Live` lifecycle of a client.
use vstd::prelude::*;

use crate::accounts::ManagedAccounts;
use crate::bootstrap::Bootstrap;
use crate::handshake::{parse_handshake, reply_of, Handshake, HandshakeError, Timestamp};
use crate::ids::IdSequence;

verus! {

/// The two kinds of trading environment a connection can reach.
#[derive(Debug, Clone, Copy, PartialEq, Eq, Structural, PartialOrd, Ord, Hash)]
pub enum Mode {
    /// A live trading connection with real money.
    Live,
    /// A paper (simulated) trading connection.
    Paper,
}

/// The two platforms that relay a connection to the trading systems.
#[derive(Debug, Clone, Copy, PartialEq, Eq, Structural, PartialOrd, Ord, Hash)]
pub enum Host {
    /// The full desktop workstation.
    Tws,
    /// The lighter gateway application.
    Gateway,
}

impl Default for Mode {
    /// Paper trading is the default, for safety.
    fn default() -> (r: Self)
        ensures
            r == Mode::Paper,
    {
        Mode::Paper
    }
}

/// An IPv4 address, octet by octet.
#[derive(Debug, Clone, Copy, PartialEq, Eq, Structural, PartialOrd, Ord, Hash)]
pub struct Ipv4 {
    pub a: u8,
    pub b: u8,
    pub c: u8,
    pub d: u8,
}

impl Ipv4 {
    /// The loopback address, 127.0.0.1.
    pub fn localhost() -> (r: Ipv4)
        ensures
            r == (Ipv4 { a: 127, b: 0, c: 0, d: 1 }),
    {
        Ipv4 { a: 127, b: 0, c: 0, d: 1 }
    }
}

/// The ports of the four kinds of platform.
#[derive(Debug, Clone, Copy, PartialEq, Eq, Structural, PartialOrd, Ord, Hash)]
pub struct Ports {
    pub tws_live: u16,
    pub tws_paper: u16,
    pub gateway_live: u16,
    pub gateway_paper: u16,
}

/// Where the platforms listen, as a configuration file states it.
#[derive(Debug, Clone, Copy, PartialEq, Eq, Structural, PartialOrd, Ord, Hash)]
pub struct Config {
    pub address: Ipv4,
    pub ports: Ports,
}

/// The port that `ports` give for a mode and a host.
pub open spec fn port_for(ports: Ports, mode: Mode, host: Host) -> u16 {
    match (mode, host) {
        (Mode::Live, Host::Tws) => ports.tws_live,
        (Mode::Live, Host::Gateway) => ports.gateway_live,
        (Mode::Paper, Host::Tws) => ports.tws_paper,
        (Mode::Paper, Host::Gateway) => ports.gateway_paper,
    }
}

/// Where a connection goes, and the mode and host it was chosen by, if any.
#[derive(Debug, Clone, Copy, PartialEq, Eq, Structural, PartialOrd, Ord, Hash)]
pub struct Endpoint {
    pub mode: Option<Mode>,
    pub host: Option<Host>,
    pub port: u16,
    pub address: Ipv4,
}

#[derive(Debug, Clone, Copy, PartialEq, Eq, Structural, PartialOrd, Ord, Hash)]
enum Inner {
    ConfigFile { mode: Mode, host: Host, config: Config },
    Manual { port: u16, address: Ipv4 },
}

/// What a new connection is made from: a mode and host looked up in a configuration, or
/// a port and address given by hand.
#[derive(Debug, Clone, Copy, PartialEq, Eq, Structural, PartialOrd, Ord, Hash)]
pub struct Builder(Inner);

impl Builder {
    /// Where a connection made from this builder goes.
    pub closed spec fn target(&self) -> Endpoint {
        match self.0 {
            Inner::ConfigFile { mode, host, config } => Endpoint {
                mode: Some(mode),
                host: Some(host),
                port: port_for(config.ports, mode, host),
                address: config.address,
            },
            Inner::Manual { port, address } => Endpoint {
                mode: None,
                host: None,
                port,
                address,
            },
        }
    }

    /// A builder for the platform of `mode` and `host`, at the address and port that
    /// `config` gives it.
    pub fn from_config(mode: Mode, host: Host, config: Config) -> (r: Builder)
        ensures
            r.target() == (Endpoint {
                mode: Some(mode),
                host: Some(host),
                port: port_for(config.ports, mode, host),
                address: config.address,
            }),
    {
        Builder(Inner::ConfigFile { mode, host, config })
    }

    /// A builder for `port` at `address`, or at the loopback address when none is given.
    pub fn manual(port: u16, address: Option<Ipv4>) -> (r: Builder)
        ensures
            r.target() == (Endpoint {
                mode: None,
                host: None,
                port,
                address: match address {
                    Some(a) => a,
                    None => Ipv4 { a: 127, b: 0, c: 0, d: 1 },
                },
            }),
    {
        let address = match address {
            Some(a) => a,
            None => Ipv4::localhost(),
        };
        Builder(Inner::Manual { port, address })
    }

    /// Where a connection made from this builder goes.
    pub fn endpoint(&self) -> (r: Endpoint)
        ensures
            r == self.target(),
    {
        match self.0 {
            Inner::ConfigFile { mode, host, config } => {
                let port = match (mode, host) {
                    (Mode::Live, Host::Tws) => config.ports.tws_live,
                    (Mode::Live, Host::Gateway) => config.ports.gateway_live,
                    (Mode::Paper, Host::Tws) => config.ports.tws_paper,
                    (Mode::Paper, Host::Gateway) => config.ports.gateway_paper,
                };
                Endpoint { mode: Some(mode), host: Some(host), port, address: config.address }
            },
            Inner::Manual { port, address } => Endpoint {
                mode: None,
                host: None,
                port,
                address,
            },
        }
    }
}

/// The lifecycle state of a client.
pub trait Status {}

/// A connection that has completed its handshake but cannot make requests yet.
pub struct Inactive {}

impl Status for Inactive {}

/// A live connection: its managed accounts and its two identifier sequences.
pub struct Active {
    managed_accounts: ManagedAccounts,
    order_ids: IdSequence,
    req_ids: IdSequence,
}

impl Status for Active {}

/// A live client, which can issue requests.
pub type ActiveClient = Client<Active>;

/// The attributes of a connection, readable in either state.
#[derive(Debug, Clone, Copy, PartialEq, Eq, Structural)]
pub struct Attributes {
    pub mode: Option<Mode>,
    pub host: Option<Host>,
    pub port: u16,
    pub address: Ipv4,
    pub client_id: i64,
    pub server_version: u32,
    pub conn_time: Timestamp,
}

/// A connection to the trading platform. Its state decides what it offers: a client is
/// made `Inactive` by a handshake, and only `into_active` makes it `Active`, which alone
/// can issue identifiers for requests.
pub struct Client<S: Status> {
    attributes: Attributes,
    status: S,
}

/// Why a request was refused before anything was sent.
#[derive(Debug, Clone, Copy, PartialEq, Eq, Structural)]
pub enum RequestError {
    /// The account is not one of the client's managed accounts.
    InvalidAccount,
}

impl<S: Status> Client<S> {
    /// The connection's attributes.
    pub closed spec fn attrs(&self) -> Attributes {
        self.attributes
    }

    /// The mode the connection was chosen by, if it came from a configuration.
    pub fn get_mode(&self) -> (r: Option<Mode>)
        ensures
            r == self.attrs().mode,
    {
        self.attributes.mode
    }

    /// The host the connection was chosen by, if it came from a configuration.
    pub fn get_host(&self) -> (r: Option<Host>)
        ensures
            r == self.attrs().host,
    {
        self.attributes.host
    }

    /// The connection's port.
    pub fn get_port(&self) -> (r: u16)
        ensures
            r == self.attrs().port,
    {
        self.attributes.port
    }

    /// The connection's address.
    pub fn get_address(&self) -> (r: Ipv4)
        ensures
            r == self.attrs().address,
    {
        self.attributes.address
    }

    /// The id by which the server tells this client from others.
    pub fn get_client_id(&self) -> (r: i64)
        ensures
            r == self.attrs().client_id,
    {
        self.attributes.client_id
    }

    /// When the connection was made, as the server stated it.
    pub fn get_conn_time(&self) -> (r: Timestamp)
        ensures
            r == self.attrs().conn_time,
    {
        self.attributes.conn_time
    }

    /// The protocol version of the server.
    pub fn get_server_version(&self) -> (r: u32)
        ensures
            r == self.attrs().server_version,
    {
        self.attributes.server_version
    }
}

impl Client<Inactive> {
    /// The inactive client that a handshake with `endpoint` makes, given the server's
    /// reply.
    pub fn from_handshake(endpoint: Endpoint, client_id: i64, reply: &Vec<u8>) -> (r: Result<
        Client<Inactive>,
        HandshakeError,
    >)
        ensures
            match reply_of(reply@) {
                Ok(h) => r matches Ok(c) && c.attrs() == (Attributes {
                    mode: endpoint.mode,
                    host: endpoint.host,
                    port: endpoint.port,
                    address: endpoint.address,
                    client_id,
                    server_version: h.server_version,
                    conn_time: h.conn_time,
                }),
                Err(e) => r == Err::<Client<Inactive>, HandshakeError>(e),
            },
    {
        let h = parse_handshake(reply)?;
        Ok(Client::connected(endpoint, client_id, h))
    }

    /// The inactive client of a completed handshake.
    pub fn connected(endpoint: Endpoint, client_id: i64, handshake: Handshake) -> (r: Client<
        Inactive,
    >)
        ensures
            r.attrs() == (Attributes {
                mode: endpoint.mode,
                host: endpoint.host,
                port: endpoint.port,
                address: endpoint.address,
                client_id,
                server_version: handshake.server_version,
                conn_time: handshake.conn_time,
            }),
    {
        Client {
            attributes: Attributes {
                mode: endpoint.mode,
                host: endpoint.host,
                port: endpoint.port,
                address: endpoint.address,
                client_id,
                server_version: handshake.server_version,
                conn_time: handshake.conn_time,
            },
            status: Inactive {  },
        }
    }

    /// Makes the client live once start-up has found the managed accounts and the first
    /// order id: order ids then start there, request ids at zero. Before that, the client
    /// and the start-up state come back unchanged.
    pub fn into_active(self, boot: Bootstrap) -> (r: Result<Client<Active>, (Client<Inactive>, Bootstrap)>)
        ensures
            (boot@.0 is Some && boot@.1 is Some) ==> (r matches Ok(c) && c.attrs() == self.attrs()
                && c.managed_accounts() == boot@.0->0 && c.order_ids().upcoming() == boot@.1->0
                && c.order_ids().issued().len() == 0 && c.req_ids().upcoming() == 0
                && c.req_ids().issued().len() == 0),
            !(boot@.0 is Some && boot@.1 is Some) ==> (r matches Err(back) && back.0.attrs()
                == self.attrs() && back.1@ == boot@),
    {
        match boot.finish() {
            Ok((accounts, first_order_id)) => Ok(
                Client {
                    attributes: self.attributes,
                    status: Active {
                        managed_accounts: accounts,
                        order_ids: IdSequence::starting_at(first_order_id),
                        req_ids: IdSequence::starting_at(0),
                    },
                },
            ),
            Err(back) => Err((self, back)),
        }
    }
}

impl Client<Active> {
    /// The managed accounts.
    pub closed spec fn managed_accounts(&self) -> Set<Seq<char>> {
        self.status.managed_accounts@
    }

    /// The sequence of order ids.
    pub closed spec fn order_ids(&self) -> IdSequence {
        self.status.order_ids
    }

    /// The sequence of request ids.
    pub closed spec fn req_ids(&self) -> IdSequence {
        self.status.req_ids
    }

    /// The accounts this client manages.
    pub fn get_managed_accounts(&self) -> (r: &ManagedAccounts)
        ensures
            r@ == self.managed_accounts(),
    {
        &self.status.managed_accounts
    }

    /// Whether another order id can be handed out.
    pub fn can_allocate_order_id(&self) -> (r: bool)
        ensures
            r == (self.order_ids().upcoming() < i64::MAX),
    {
        self.status.order_ids.can_allocate()
    }

    /// Whether another request id can be handed out.
    pub fn can_allocate_req_id(&self) -> (r: bool)
        ensures
            r == (self.req_ids().upcoming() < i64::MAX),
    {
        self.status.req_ids.can_allocate()
    }

    /// Hands out the next order id.
    pub fn get_next_order_id(&mut self) -> (r: i64)
        requires
            old(self).order_ids().upcoming() < i64::MAX,
        ensures
            r == old(self).order_ids().upcoming(),
            final(self).order_ids().upcoming() == r + 1,
            final(self).order_ids().issued() == old(self).order_ids().issued().push(r),
            final(self).req_ids() == old(self).req_ids(),
            final(self).managed_accounts() == old(self).managed_accounts(),
            final(self).attrs() == old(self).attrs(),
    {
        self.status.order_ids.allocate()
    }

    /// Hands out the next request id.
    pub fn get_next_req_id(&mut self) -> (r: i64)
        requires
            old(self).req_ids().upcoming() < i64::MAX,
        ensures
            r == old(self).req_ids().upcoming(),
            final(self).req_ids().upcoming() == r + 1,
            final(self).req_ids().issued() == old(self).req_ids().issued().push(r),
            final(self).order_ids() == old(self).order_ids(),
            final(self).managed_accounts() == old(self).managed_accounts(),
            final(self).attrs() == old(self).attrs(),
    {
        self.status.req_ids.allocate()
    }

    /// Ends the client and returns a builder that reconnects to the same port and
    /// address.
    pub fn disconnect(self) -> (r: Builder)
        ensures
            r.target() == (Endpoint {
                mode: None,
                host: None,
                port: self.attrs().port,
                address: self.attrs().address,
            }),
    {
        Builder(Inner::Manual { port: self.attributes.port, address: self.attributes.address })
    }
}

/// Checks that `account_number` is one of the client's managed accounts, before anything
/// is sent.
pub fn check_valid_account(client: &Client<Active>, account_number: &str) -> (r: Result<
    (),
    RequestError,
>)
    ensures
        r is Ok <==> client.managed_accounts().contains(account_number@),
        r is Err ==> r == Err::<(), RequestError>(RequestError::InvalidAccount),
{
    if client.status.managed_accounts.contains(account_number) {
        Ok(())
    } else {
        Err(RequestError::InvalidAccount)
    }
}

} // verus!
