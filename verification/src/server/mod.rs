//! The collaboration server: documents, permissions, the wire protocol, the
//! handling of each connection, and the starting and stopping of it all.
//!
//! The server listens on the loopback address only or on all interfaces, as
//! its configuration says. Binding the socket and talking to it is the
//! caller's; what is decided here is whether the server may start, where it
//! binds, what it reports of itself, and what becomes of its state.

pub mod dispatch;
pub mod documents;
pub mod permissions;
pub mod protocol;
pub mod session;

use vstd::prelude::*;
use vstd::string::*;
use crate::auth::jwt::TokenConfig;
use crate::auth::users::UserStore;
use crate::server::dispatch::{lookup, ServerState};
use crate::server::documents::{DocumentMetadata, DocumentStore, loaded_index};
use crate::server::protocol::{DocEvent, DocEventType};
use crate::text::{concat_str, decimal, push_decimal};

verus! {

/// Which interfaces the server listens on.
#[derive(Clone, Copy, Debug, PartialEq, Eq, Structural)]
pub enum NetworkMode {
    /// The loopback interface only: connections from this machine.
    Localhost,
    /// All interfaces: connections from the local network.
    Lan,
}

impl Default for NetworkMode {
    fn default() -> (r: Self)
        ensures
            r == NetworkMode::Lan,
    {
        NetworkMode::Lan
    }
}

/// How the server is set up.
#[derive(Clone, Copy, Debug, PartialEq, Eq, Structural)]
pub struct ServerConfig {
    /// Which interfaces the server listens on.
    pub network_mode: NetworkMode,
    /// How many connections the server advertises to take; 0 for any number.
    pub max_connections: u16,
    /// The port to listen on; 0 for whichever is free.
    pub port: u16,
}

impl Default for ServerConfig {
    fn default() -> (r: Self)
        ensures
            r.network_mode == NetworkMode::Lan,
            r.max_connections == 10,
            r.port == 9876,
    {
        ServerConfig { network_mode: NetworkMode::Lan, max_connections: 10, port: 9876 }
    }
}

/// What the server reports of itself.
#[derive(Debug)]
pub struct ServerStatus {
    pub running: bool,
    pub port: u16,
    pub connected_clients: usize,
    /// The address to give to clients first; empty while the server is down.
    pub address: String,
    /// All addresses under which clients reach the server.
    pub addresses: Vec<String>,
    pub network_mode: NetworkMode,
    pub max_connections: u16,
}

/// An IPv4 address, by its four bytes.
pub type Ipv4 = [u8; 4];

/// Whether an address belongs to one of the ranges set aside for private
/// networks: 10.0.0.0/8, 172.16.0.0/12 and 192.168.0.0/16.
pub open spec fn is_private(a: Ipv4) -> bool {
    a[0] == 10 || (a[0] == 172 && 16 <= a[1] <= 31) || (a[0] == 192 && a[1] == 168)
}

/// Whether an address is one under which the local network reaches this
/// machine: a private one that is no loopback address.
pub open spec fn is_lan(a: Ipv4) -> bool {
    is_private(a) && a[0] != 127
}

/// The test that picks the addresses of the local network.
pub open spec fn lan_filter() -> spec_fn(Ipv4) -> bool {
    |a: Ipv4| is_lan(a)
}

/// The addresses among those of this machine's interfaces under which the
/// local network reaches it, in their order.
pub fn get_local_ips(interfaces: &Vec<Ipv4>) -> (r: Vec<Ipv4>)
    ensures
        r@ == interfaces@.filter(lan_filter()),
{
    let mut out: Vec<Ipv4> = Vec::new();
    let mut i: usize = 0;
    assert(interfaces@.take(0) =~= Seq::<Ipv4>::empty());
    assert(interfaces@.take(0).filter(lan_filter()) =~= Seq::<Ipv4>::empty());
    while i < interfaces.len()
        invariant
            i <= interfaces.len(),
            out@ == interfaces@.take(i as int).filter(lan_filter()),
        decreases interfaces.len() - i,
    {
        let a = interfaces[i];
        proof {
            assert(interfaces@.take(i + 1) =~= interfaces@.take(i as int).push(a));
            Seq::lemma_filter_push(interfaces@.take(i as int), a, lan_filter());
        }
        let private = a[0] == 10 || (a[0] == 172 && 16 <= a[1] && a[1] <= 31) || (a[0] == 192
            && a[1] == 168);
        if private && a[0] != 127 {
            out.push(a);
        }
        i += 1;
    }
    assert(interfaces@.take(interfaces.len() as int) =~= interfaces@);
    out
}

/// An address in dotted decimal.
pub open spec fn dotted(a: Ipv4) -> Seq<char> {
    decimal(a[0] as nat) + "."@ + decimal(a[1] as nat) + "."@ + decimal(a[2] as nat) + "."@
        + decimal(a[3] as nat)
}

/// An address in dotted decimal.
pub fn ip_to_string(a: &Ipv4) -> (r: String)
    ensures
        r@ == dotted(*a),
{
    let mut r = String::new();
    push_decimal(&mut r, a[0] as u64);
    r.append(".");
    push_decimal(&mut r, a[1] as u64);
    r.append(".");
    push_decimal(&mut r, a[2] as u64);
    r.append(".");
    push_decimal(&mut r, a[3] as u64);
    assert(r@ =~= dotted(*a));
    r
}

/// The address under which clients reach the server at `host`.
pub open spec fn ws_address(host: Seq<char>, port: u16) -> Seq<char> {
    "ws://"@ + host + ":"@ + decimal(port as nat)
}

/// The address under which clients reach the server at `host`.
pub fn format_ws_address(host: &str, port: u16) -> (r: String)
    ensures
        r@ == ws_address(host@, port),
{
    let mut r = concat_str("ws://", host);
    r.append(":");
    push_decimal(&mut r, port as u64);
    r
}

/// The address that the server binds to: the loopback address or all
/// interfaces, and the port.
pub open spec fn bind_address(mode: NetworkMode, port: u16) -> Seq<char> {
    match mode {
        NetworkMode::Localhost => "127.0.0.1:"@ + decimal(port as nat),
        NetworkMode::Lan => "0.0.0.0:"@ + decimal(port as nat),
    }
}

/// The address to give to clients first: in the local network the first
/// address of this machine there, and `localhost` where there is none or
/// where the server listens to this machine only.
pub open spec fn primary_address(mode: NetworkMode, port: u16, lan_ips: Seq<Ipv4>) -> Seq<char> {
    match mode {
        NetworkMode::Localhost => ws_address("localhost"@, port),
        NetworkMode::Lan => if lan_ips.len() > 0 {
            ws_address(dotted(lan_ips[0]), port)
        } else {
            ws_address("localhost"@, port)
        },
    }
}

/// All addresses under which clients reach a running server.
pub open spec fn all_addresses(mode: NetworkMode, port: u16, lan_ips: Seq<Ipv4>) -> Seq<Seq<char>> {
    match mode {
        NetworkMode::Localhost => seq![
            ws_address("localhost"@, port),
            ws_address("127.0.0.1"@, port),
        ],
        NetworkMode::Lan => seq![ws_address("localhost"@, port)] + Seq::new(
            lan_ips.len(),
            |i: int| ws_address(dotted(lan_ips[i]), port),
        ),
    }
}

/// The texts of a list of addresses.
pub open spec fn texts(v: Seq<String>) -> Seq<Seq<char>> {
    Seq::new(v.len(), |i: int| v[i]@)
}

fn compute_primary_address(mode: NetworkMode, port: u16, lan_ips: &Vec<Ipv4>) -> (r: String)
    ensures
        r@ == primary_address(mode, port, lan_ips@),
{
    match mode {
        NetworkMode::Localhost => format_ws_address("localhost", port),
        NetworkMode::Lan => if lan_ips.len() > 0 {
            format_ws_address(ip_to_string(&lan_ips[0]).as_str(), port)
        } else {
            format_ws_address("localhost", port)
        },
    }
}

fn compute_addresses(mode: NetworkMode, port: u16, lan_ips: &Vec<Ipv4>) -> (r: Vec<String>)
    ensures
        texts(r@) == all_addresses(mode, port, lan_ips@),
{
    let mut out: Vec<String> = Vec::new();
    out.push(format_ws_address("localhost", port));
    match mode {
        NetworkMode::Localhost => {
            out.push(format_ws_address("127.0.0.1", port));
            assert(texts(out@) =~= all_addresses(mode, port, lan_ips@));
        },
        NetworkMode::Lan => {
            let mut i: usize = 0;
            while i < lan_ips.len()
                invariant
                    i <= lan_ips.len(),
                    out@.len() == i + 1,
                    out@[0]@ == ws_address("localhost"@, port),
                    forall|j: int|
                        0 <= j < i ==> (#[trigger] out@[j + 1])@ == ws_address(
                            dotted(lan_ips[j]),
                            port,
                        ),
                decreases lan_ips.len() - i,
            {
                out.push(format_ws_address(ip_to_string(&lan_ips[i]).as_str(), port));
                i += 1;
            }
            assert(texts(out@) =~= all_addresses(mode, port, lan_ips@)) by {
                assert forall|k: int| 0 <= k < out@.len() implies texts(out@)[k] == all_addresses(
                    mode,
                    port,
                    lan_ips@,
                )[k] by {
                    if k > 0 {
                        assert(out@[(k - 1) + 1]@ == ws_address(dotted(lan_ips[k - 1]), port));
                    }
                }
            }
        },
    }
    out
}

/// What the caller is to do to start the server.
#[derive(Debug)]
pub struct StartPlan {
    /// The directory that holds the application's data.
    pub app_data_dir: String,
    /// The address to bind the listening socket to.
    pub bind_address: String,
}

/// The server and what it is set up with, running or not.
pub struct WebSocketServer {
    /// Whether the server is running.
    pub running: bool,
    /// The port that the server listens on; 0 while it is down.
    pub port: u16,
    /// How the server is set up.
    pub config: ServerConfig,
    /// The directory that holds the application's data.
    pub app_data_dir: Option<String>,
    /// The secret that tokens shown by clients must be signed with.
    pub jwt_secret: String,
    /// The registry of users, where the server keeps one.
    pub user_store: Option<UserStore>,
    /// How tokens are signed and how long they last.
    pub token_config: TokenConfig,
    /// The connections and documents of a server that was started.
    pub state: Option<ServerState>,
}

impl WebSocketServer {
    /// Users and state are well formed, and a server that is down listens on
    /// no port.
    pub open spec fn wf(&self) -> bool {
        &&& self.user_store matches Some(s) ==> s.wf()
        &&& self.state matches Some(s) ==> s.wf()
        &&& !self.running ==> self.port == 0
    }

    /// A server that is down, set up to listen on the local network.
    pub fn new() -> (r: Self)
        ensures
            r.wf(),
            !r.running,
            r.port == 0,
            r.config == (ServerConfig {
                network_mode: NetworkMode::Lan,
                max_connections: 10,
                port: 9876,
            }),
            r.app_data_dir is None,
            r.jwt_secret@ == "diagrammer-jwt-secret-change-in-production"@,
            r.user_store is None,
            r.state is None,
    {
        WebSocketServer {
            running: false,
            port: 0,
            config: ServerConfig::default(),
            app_data_dir: None,
            jwt_secret: "diagrammer-jwt-secret-change-in-production".to_owned(),
            user_store: None,
            token_config: TokenConfig::default(),
            state: None,
        }
    }

    /// Tells the server where the application's data is kept.
    pub fn set_app_data_dir(&mut self, dir: String)
        ensures
            *final(self) == (WebSocketServer { app_data_dir: Some(dir), ..*old(self) }),
    {
        self.app_data_dir = Some(dir);
    }

    /// Sets the secret that tokens shown by clients must be signed with.
    pub fn set_jwt_secret(&mut self, secret: String)
        ensures
            *final(self) == (WebSocketServer { jwt_secret: secret, ..*old(self) }),
    {
        self.jwt_secret = secret;
    }

    /// Gives the server a registry of users to log clients in with.
    pub fn set_user_store(&mut self, store: UserStore)
        ensures
            *final(self) == (WebSocketServer { user_store: Some(store), ..*old(self) }),
    {
        self.user_store = Some(store);
    }

    /// Sets how tokens are signed and how long they last.
    pub fn set_token_config(&mut self, config: TokenConfig)
        ensures
            *final(self) == (WebSocketServer { token_config: config, ..*old(self) }),
    {
        self.token_config = config;
    }

    /// Whether the server is running.
    pub fn is_running(&self) -> (r: bool)
        ensures
            r == self.running,
    {
        self.running
    }

    /// How the server is set up.
    pub fn get_config(&self) -> (r: ServerConfig)
        ensures
            r == self.config,
    {
        self.config
    }

    /// Sets the server up anew. A running server refuses.
    pub fn set_config(&mut self, config: ServerConfig) -> (r: Result<(), String>)
        ensures
            match r {
                Ok(_) => !old(self).running && *final(self) == (WebSocketServer {
                    config,
                    ..*old(self)
                }),
                Err(e) => old(self).running && *final(self) == *old(self) && e@
                    == "Cannot change configuration while server is running"@,
            },
    {
        if self.running {
            return Err("Cannot change configuration while server is running".to_owned());
        }
        self.config = config;
        Ok(())
    }

    /// Whether `r` is what the server reports of itself: whether it runs,
    /// on which port, with how many connections, and, while it runs, under
    /// which addresses clients reach it.
    pub open spec fn reports(self, lan_ips: Seq<Ipv4>, r: ServerStatus) -> bool {
        &&& r.running == self.running
        &&& r.port == self.port
        &&& r.connected_clients == match self.state {
            Some(s) => s.client_count as usize,
            None => 0usize,
        }
        &&& r.network_mode == self.config.network_mode
        &&& r.max_connections == self.config.max_connections
        &&& if self.running {
            &&& r.address@ == primary_address(self.config.network_mode, self.port, lan_ips)
            &&& texts(r.addresses@) == all_addresses(
                self.config.network_mode,
                self.port,
                lan_ips,
            )
        } else {
            r.address@.len() == 0 && r.addresses@.len() == 0
        }
    }

    /// Whether `r` is what beginning to start the server on `port` comes to:
    /// a server that runs refuses and stays as it is; one that was not told
    /// where the data is kept refuses too, though it remembers the port;
    /// else the caller is told where the data is and where to bind.
    pub open spec fn start_begun(
        before: WebSocketServer,
        after: WebSocketServer,
        port: u16,
        r: Result<StartPlan, String>,
    ) -> bool {
        if before.running {
            &&& after == before
            &&& r matches Err(e)
            &&& e@ == "Server is already running"@
        } else {
            &&& after == (WebSocketServer {
                config: ServerConfig { port, ..before.config },
                ..before
            })
            &&& match before.app_data_dir {
                None => r matches Err(e) && e@ == "App data directory not set"@,
                Some(dir) => r matches Ok(plan) && plan.app_data_dir == dir
                    && plan.bind_address@ == bind_address(before.config.network_mode, port),
            }
        }
    }

    /// What the server reports of itself. `lan_ips` are the addresses of
    /// this machine in the local network.
    pub fn status(&self, lan_ips: &Vec<Ipv4>) -> (r: ServerStatus)
        ensures
            self.reports(lan_ips@, r),
    {
        let connected_clients: usize = match &self.state {
            Some(s) => s.client_count() as usize,
            None => 0,
        };
        let (address, addresses) = if self.running {
            (
                compute_primary_address(self.config.network_mode, self.port, lan_ips),
                compute_addresses(self.config.network_mode, self.port, lan_ips),
            )
        } else {
            (String::new(), Vec::new())
        };
        ServerStatus {
            running: self.running,
            port: self.port,
            connected_clients,
            address,
            addresses,
            network_mode: self.config.network_mode,
            max_connections: self.config.max_connections,
        }
    }

    /// Begins the starting of the server on `port`. A server that runs
    /// refuses; so does one that was not told where the data is kept, though
    /// it remembers the port. Else the caller is told where to bind.
    pub fn start(&mut self, port: u16) -> (r: Result<StartPlan, String>)
        ensures
            WebSocketServer::start_begun(*old(self), *final(self), port, r),
    {
        if self.running {
            return Err("Server is already running".to_owned());
        }
        self.config.port = port;
        let app_data_dir = match &self.app_data_dir {
            Some(dir) => dir.clone(),
            None => {
                return Err("App data directory not set".to_owned());
            },
        };
        let mut bind = match self.config.network_mode {
            NetworkMode::Localhost => "127.0.0.1:".to_owned(),
            NetworkMode::Lan => "0.0.0.0:".to_owned(),
        };
        push_decimal(&mut bind, port as u64);
        Ok(StartPlan { app_data_dir, bind_address: bind })
    }

    /// Opens the documents of a server that is starting: `index` holds the
    /// entries of the index as it was last written, none where it never was.
    /// The server has no connections yet.
    pub fn open_documents(&mut self, index: &Vec<DocumentMetadata>)
        ensures
            final(self).state is Some,
            final(self).state->0.wf(),
            final(self).state->0.doc_store@ == loaded_index(index@),
            final(self).state->0.clients@ == Map::<
                u64,
                crate::server::session::ClientState,
            >::empty(),
            final(self).state->0.client_count == 0,
            final(self).state->0.next_client_id == 1,
            final(self).state->0.jwt_secret == old(self).jwt_secret,
            final(self).state->0.token_config == old(self).token_config,
            final(self).running == old(self).running,
            final(self).port == old(self).port,
            final(self).config == old(self).config,
            final(self).app_data_dir == old(self).app_data_dir,
            final(self).jwt_secret == old(self).jwt_secret,
            final(self).user_store == old(self).user_store,
            final(self).token_config == old(self).token_config,
    {
        self.state = Some(
            ServerState::new(
                DocumentStore::with_index(index),
                self.jwt_secret.clone(),
                self.token_config.clone(),
            ),
        );
    }

    /// The message that tells why the listening socket could not be bound.
    pub fn bind_error(bind_address: &str, reason: &str) -> (r: String)
        ensures
            r@ == "Failed to bind to "@ + bind_address@ + ": "@ + reason@,
    {
        let mut r = concat_str("Failed to bind to ", bind_address);
        r.append(": ");
        r.append(reason);
        r
    }

    /// Ends the starting of the server, now that the socket is bound to
    /// `actual_port`: the server runs, and the address to give to clients
    /// first is returned.
    pub fn started(&mut self, actual_port: u16, lan_ips: &Vec<Ipv4>) -> (r: String)
        ensures
            *final(self) == (WebSocketServer { running: true, port: actual_port, ..*old(self) }),
            r@ == primary_address(old(self).config.network_mode, actual_port, lan_ips@),
    {
        self.running = true;
        self.port = actual_port;
        compute_primary_address(self.config.network_mode, actual_port, lan_ips)
    }

    /// Stops the server: it listens on no port any more, and its connections
    /// and documents are let go. A server that is down stays as it is.
    /// Returns whether the server was running.
    pub fn stop(&mut self) -> (was_running: bool)
        ensures
            was_running == old(self).running,
            !final(self).running,
            match old(self).running {
                true => *final(self) == (WebSocketServer {
                    running: false,
                    port: 0,
                    state: None,
                    ..*old(self)
                }),
                false => *final(self) == *old(self),
            },
    {
        if !self.running {
            return false;
        }
        self.running = false;
        self.port = 0;
        self.state = None;
        true
    }

    /// The index of the documents of a server that was started.
    pub fn get_doc_store(&self) -> (r: Option<&DocumentStore>)
        ensures
            match r {
                Some(store) => self.state is Some && *store == self.state->0.doc_store,
                None => self.state is None,
            },
    {
        match &self.state {
            Some(s) => Some(&s.doc_store),
            None => None,
        }
    }

    /// The event that tells all clients of a change to a document that was
    /// made on the host itself: it carries the metadata that the index has
    /// of the document, and names `system` as the user where no user is
    /// given. A server that was not started tells nobody.
    pub fn broadcast_doc_event(
        &self,
        doc_id: &str,
        event_type: DocEventType,
        user_id: Option<String>,
    ) -> (r: Option<DocEvent>)
        requires
            self.wf(),
        ensures
            match r {
                None => self.state is None,
                Some(event) => {
                    &&& self.state is Some
                    &&& event.event_type == event_type
                    &&& event.doc_id@ == doc_id@
                    &&& event.user_id@ == match user_id {
                        Some(u) => u@,
                        None => "system"@,
                    }
                    &&& match event.metadata {
                        Some(m) => lookup(self.state->0.doc_store, doc_id@) == Some(m@),
                        None => lookup(self.state->0.doc_store, doc_id@) is None,
                    }
                },
            },
    {
        match &self.state {
            Some(s) => {
                let metadata = s.doc_store.get_metadata(doc_id);
                let user_id = match user_id {
                    Some(u) => u,
                    None => "system".to_owned(),
                };
                Some(DocEvent { event_type, doc_id: doc_id.to_owned(), metadata, user_id })
            },
            None => None,
        }
    }
}

impl Default for WebSocketServer {
    fn default() -> (r: Self)
        ensures
            r.wf(),
            !r.running,
            r.state is None,
    {
        WebSocketServer::new()
    }
}

} // verus!
