//! The node's configuration, and what is settled before the node runs.
//!
//! A `Splash` is assembled by chained calls and turned, by `build`, into a
//! `NodeSetup`: everything the host needs to construct the protocol engines,
//! bind the listeners and start the event loop. `build` binds nothing itself,
//! so a configuration that it refuses has left no trace.

use crate::address::{parse_address, parsed_address, peer_of, terminal_peer};
use crate::error::SplashError;
use crate::message::{validate_payload, validation};
use crate::names::{
    identify_protocol, identify_protocol_name, kad_protocol, kad_protocol_name,
    lemma_mainnet_identifiers, lemma_testnet_identifiers, topic, topic_name, MAINNET, TESTNET,
};
use libp2p::identity::Keypair;
use libp2p::Multiaddr;
use libp2p::PeerId;
use vstd::prelude::*;
use vstd::string::*;

verus! {

/// `libp2p::identity::Keypair`, carried through the library as an opaque
/// value.
#[verifier::external_type_specification]
#[verifier::external_body]
pub struct ExKeypair(Keypair);

/// The peer identity that belongs to a keypair: `PublicKey::to_peer_id` of
/// its public key.
pub uninterp spec fn keypair_peer_id(keys: Keypair) -> PeerId;

/// Makes a fresh identity with `Keypair::generate_ed25519`.
///
/// Trusted, with nothing claimed: the key is random.
#[verifier::external_body]
fn generate_keys() -> Keypair {
    Keypair::generate_ed25519()
}

/// Derives the peer identity of a keypair with `Keypair::public` and
/// `PublicKey::to_peer_id`.
///
/// Trusted: the identity depends on the keypair alone.
#[verifier::external_body]
fn derive_peer_id(keys: &Keypair) -> (id: PeerId)
    ensures
        id == keypair_peer_id(*keys),
{
    keys.public().to_peer_id()
}

/// `Clone` of `Keypair`.
///
/// Trusted: the copy equals the original.
pub assume_specification[ <Keypair as Clone>::clone ](keys: &Keypair) -> (copy: Keypair)
    ensures
        copy == *keys,
;

/// Number of submitted messages that may wait for the event loop.
pub const SUBMISSION_QUEUE_CAPACITY: usize = 100;

/// Number of events that may wait for the host.
pub const EVENT_CHANNEL_CAPACITY: usize = 100;

/// Seconds between two heartbeats of the gossip engine.
pub const HEARTBEAT_INTERVAL_SECS: u64 = 5;

/// Seconds after which a DHT query is given up.
pub const QUERY_TIMEOUT_SECS: u64 = 60;

/// Seconds between two rounds of peer discovery.
pub const DISCOVERY_INTERVAL_SECS: u64 = 10;

/// Seconds after which an idle connection is closed.
pub const IDLE_CONNECTION_TIMEOUT_SECS: u64 = 60;

/// Where the node listens when it is given no address: every IPv4 interface,
/// on a port of the system's choice.
pub const DEFAULT_LISTEN_IP4: &'static str = "/ip4/0.0.0.0/tcp/0";

/// The same for IPv6.
pub const DEFAULT_LISTEN_IP6: &'static str = "/ip6/::/tcp/0";

/// The place of the consumer end of a node's submission queue in a
/// configuration. The queue has one consumer, the event loop, so only one
/// configuration can hold its consumer end: the one that `Splash::new` made.
/// A copy shares what the node is, not its queue's consumer end, and building
/// a node takes the consumer end out for good.
#[derive(Debug)]
pub struct ReceiverSlot {
    held: bool,
}

impl ReceiverSlot {
    /// Whether the consumer end is still in its place.
    pub closed spec fn held(&self) -> bool {
        self.held
    }

    /// Whether the consumer end is still in its place.
    pub fn is_held(&self) -> (r: bool)
        ensures
            r == self.held(),
    {
        self.held
    }
}

/// Configuration of a node.
pub struct Splash {
    /// Addresses to listen on; none means all interfaces of both IP families.
    pub listen_addresses: Vec<Multiaddr>,
    /// Peers to join the network through; none means that they are looked
    /// up by the network's name.
    pub known_peers: Vec<Multiaddr>,
    /// The node's identity.
    pub keys: Keypair,
    /// Whether the node joins the test network instead of the production
    /// network.
    pub testnet: bool,
    /// The consumer end of the node's submission queue, if this configuration
    /// holds it. Only a configuration that does can be built.
    pub submission_receiver: ReceiverSlot,
}

/// Why a configuration cannot be started.
#[derive(Debug, Clone, Copy, PartialEq, Eq, Structural)]
pub enum StartupError {
    /// A bootstrap address does not end in a peer identity.
    MissingPeerId,
    /// No address to listen on is configured and one of the two default
    /// addresses does not parse. Configured addresses are never inspected.
    InvalidListenAddress,
    /// The configuration does not hold the consumer end of the submission
    /// queue: it is a copy, or a node was built from it already.
    ReceiverConsumed,
}

/// A peer to seed the routing table with.
#[derive(Debug)]
pub struct BootstrapPeer {
    pub peer_id: PeerId,
    pub address: Multiaddr,
}

/// A configuration that was accepted, with all that follows from it.
pub struct NodeSetup {
    /// The configuration as it was built.
    pub node: Splash,
    /// The node's own peer identity.
    pub local_peer_id: PeerId,
    /// The bootstrap peers, one for each known peer and in their order.
    pub bootstrap: Vec<BootstrapPeer>,
    /// The addresses to listen on, in the order in which to bind them.
    pub listen_on: Vec<Multiaddr>,
    /// The gossip topic to subscribe to.
    pub topic: String,
    /// The DHT's protocol name.
    pub kad_protocol: String,
    /// The identify protocol's name.
    pub identify_protocol: String,
}

/// Every address ends in a peer identity.
pub open spec fn all_name_a_peer(addrs: Seq<Multiaddr>) -> bool {
    forall|i: int| 0 <= i < addrs.len() ==> peer_of(#[trigger] addrs[i]) is Some
}

/// The bootstrap peers that a list of addresses gives.
pub open spec fn bootstrap_of(addrs: Seq<Multiaddr>) -> Seq<BootstrapPeer> {
    Seq::new(
        addrs.len(),
        |i: int| BootstrapPeer { peer_id: peer_of(addrs[i])->Some_0, address: addrs[i] },
    )
}

/// The addresses to listen on: the configured ones, or the two defaults
/// where none is configured. `None` if a default does not parse.
pub open spec fn listen_plan(configured: Seq<Multiaddr>) -> Option<Seq<Multiaddr>> {
    if configured.len() > 0 {
        Some(configured)
    } else if parsed_address(DEFAULT_LISTEN_IP4@) is Some && parsed_address(DEFAULT_LISTEN_IP6@)
        is Some {
        Some(
            seq![
                parsed_address(DEFAULT_LISTEN_IP4@)->Some_0,
                parsed_address(DEFAULT_LISTEN_IP6@)->Some_0,
            ],
        )
    } else {
        None
    }
}

impl StartupError {
    /// The text that describes the error.
    pub open spec fn text(self) -> Seq<char> {
        match self {
            StartupError::MissingPeerId => "Expect peer multiaddr to contain peer ID."@,
            StartupError::InvalidListenAddress => "Invalid listen address"@,
            StartupError::ReceiverConsumed => "Submission receiver already consumed"@,
        }
    }

    /// Describes the error in words.
    pub fn to_string(&self) -> (s: String)
        ensures
            s@ == self.text(),
    {
        match self {
            StartupError::MissingPeerId => String::from_str(
                "Expect peer multiaddr to contain peer ID.",
            ),
            StartupError::InvalidListenAddress => String::from_str("Invalid listen address"),
            StartupError::ReceiverConsumed => String::from_str(
                "Submission receiver already consumed",
            ),
        }
    }
}

impl NodeSetup {
    /// The setup is the one that the configuration `node` calls for. It
    /// keeps the configuration, with the consumer end of the submission queue
    /// taken out of it: what is built once cannot be built again.
    pub open spec fn realises(&self, node: Splash) -> bool {
        &&& self.node.listen_addresses == node.listen_addresses
        &&& self.node.known_peers == node.known_peers
        &&& self.node.keys == node.keys
        &&& self.node.testnet == node.testnet
        &&& !self.node.submission_receiver.held()
        &&& self.local_peer_id == keypair_peer_id(node.keys)
        &&& self.bootstrap@ == bootstrap_of(node.known_peers@)
        &&& Some(self.listen_on@) == listen_plan(node.listen_addresses@)
        &&& self.topic@ == topic_name(node.namespace())
        &&& self.kad_protocol@ == kad_protocol_name(node.namespace())
        &&& self.identify_protocol@ == identify_protocol_name(node.namespace())
    }
}

impl Splash {
    /// The namespace of the network that the node joins.
    pub open spec fn namespace(&self) -> Seq<char> {
        if self.testnet {
            TESTNET@
        } else {
            MAINNET@
        }
    }

    /// A configuration with a fresh identity, for the production network,
    /// with no listen address and no known peer. It holds the consumer end of
    /// the node's submission queue.
    pub fn new() -> (node: Splash)
        ensures
            node.listen_addresses@.len() == 0,
            node.known_peers@.len() == 0,
            !node.testnet,
            node.submission_receiver.held(),
    {
        Splash {
            listen_addresses: Vec::new(),
            known_peers: Vec::new(),
            keys: generate_keys(),
            testnet: false,
            submission_receiver: ReceiverSlot { held: true },
        }
    }

    pub fn with_listen_addresses(self, listen_addresses: Vec<Multiaddr>) -> (node: Self)
        ensures
            node.listen_addresses == listen_addresses,
            node.known_peers == self.known_peers,
            node.keys == self.keys,
            node.testnet == self.testnet,
            node.submission_receiver == self.submission_receiver,
    {
        let mut node = self;
        node.listen_addresses = listen_addresses;
        node
    }

    pub fn with_known_peers(self, known_peers: Vec<Multiaddr>) -> (node: Self)
        ensures
            node.known_peers == known_peers,
            node.listen_addresses == self.listen_addresses,
            node.keys == self.keys,
            node.testnet == self.testnet,
            node.submission_receiver == self.submission_receiver,
    {
        let mut node = self;
        node.known_peers = known_peers;
        node
    }

    pub fn with_keys(self, keys: Keypair) -> (node: Self)
        ensures
            node.keys == keys,
            node.listen_addresses == self.listen_addresses,
            node.known_peers == self.known_peers,
            node.testnet == self.testnet,
            node.submission_receiver == self.submission_receiver,
    {
        let mut node = self;
        node.keys = keys;
        node
    }

    pub fn with_testnet(self) -> (node: Self)
        ensures
            node.testnet,
            node.listen_addresses == self.listen_addresses,
            node.known_peers == self.known_peers,
            node.keys == self.keys,
            node.submission_receiver == self.submission_receiver,
    {
        let mut node = self;
        node.testnet = true;
        node
    }

    /// The name of the network that the node joins.
    pub fn network_name(&self) -> (name: &'static str)
        ensures
            name@ == self.namespace(),
    {
        if self.testnet {
            TESTNET
        } else {
            MAINNET
        }
    }

    /// Whether bootstrap peers have to be looked up by the network's name
    /// before the node is built: they do when none is configured.
    pub fn needs_seed_peers(&self) -> (r: bool)
        ensures
            r == (self.known_peers@.len() == 0),
    {
        self.known_peers.len() == 0
    }

    /// Applies the validation rules to a message: it must not be longer than
    /// `MAX_MESSAGE_SIZE` bytes.
    pub fn validate_message(message: &str) -> (r: Result<(), SplashError>)
        ensures
            r == validation(message@),
    {
        validate_payload(message.as_bytes())
    }

    /// Takes a message for the network: validates it and gives the payload
    /// to put into the submission queue. An invalid message gives no payload.
    pub fn broadcast_message(&self, message: &str) -> (r: Result<Vec<u8>, SplashError>)
        ensures
            match r {
                Ok(payload) => validation(message@) is Ok && payload@ == message.spec_bytes(),
                Err(e) => validation(message@) == Err::<(), SplashError>(e),
            },
    {
        match Splash::validate_message(message) {
            Ok(_) => Ok(message.as_bytes_vec()),
            Err(e) => Err(e),
        }
    }

    /// What the submitter is told once the payload was offered to the
    /// submission queue: success if the queue took it, `SendError` if the
    /// queue is gone.
    pub fn submission_outcome(enqueued: bool) -> (r: Result<(), SplashError>)
        ensures
            r == if enqueued {
                Ok::<(), SplashError>(())
            } else {
                Err(SplashError::SendError)
            },
    {
        if enqueued {
            Ok(())
        } else {
            Err(SplashError::SendError)
        }
    }

    /// Settles everything that the configuration determines, and refuses a
    /// configuration that cannot be started: first one with a bootstrap
    /// address that names no peer, then one that configures no listen address
    /// where a default address does not parse, last one that does not hold
    /// the consumer end of the submission queue. Configured listen addresses
    /// are taken as they are.
    pub fn build(self) -> (r: Result<NodeSetup, StartupError>)
        ensures
            match r {
                Ok(setup) => all_name_a_peer(self.known_peers@) && self.submission_receiver.held()
                    && setup.realises(self),
                Err(StartupError::MissingPeerId) => !all_name_a_peer(self.known_peers@),
                Err(StartupError::InvalidListenAddress) => all_name_a_peer(self.known_peers@)
                    && listen_plan(self.listen_addresses@) is None,
                Err(StartupError::ReceiverConsumed) => all_name_a_peer(self.known_peers@)
                    && listen_plan(self.listen_addresses@) is Some
                    && !self.submission_receiver.held(),
            },
    {
        let mut bootstrap: Vec<BootstrapPeer> = Vec::new();
        let mut i: usize = 0;
        while i < self.known_peers.len()
            invariant
                i <= self.known_peers.len(),
                bootstrap@ == bootstrap_of(self.known_peers@.take(i as int)),
                all_name_a_peer(self.known_peers@.take(i as int)),
            decreases self.known_peers.len() - i,
        {
            let address = self.known_peers[i].clone();
            match terminal_peer(&address) {
                Some(peer_id) => {
                    bootstrap.push(BootstrapPeer { peer_id, address });
                },
                None => {
                    return Err(StartupError::MissingPeerId);
                },
            }
            proof {
                let before = self.known_peers@.take(i as int);
                let after = self.known_peers@.take(i + 1);
                assert(after =~= before.push(self.known_peers@[i as int]));
                assert(bootstrap@ =~= bootstrap_of(after));
            }
            i += 1;
        }
        proof {
            assert(self.known_peers@.take(i as int) =~= self.known_peers@);
        }
        let listen_on = if self.listen_addresses.len() > 0 {
            self.listen_addresses.clone()
        } else {
            let mut defaults: Vec<Multiaddr> = Vec::new();
            match parse_address(DEFAULT_LISTEN_IP4) {
                Some(addr) => defaults.push(addr),
                None => {
                    return Err(StartupError::InvalidListenAddress);
                },
            }
            match parse_address(DEFAULT_LISTEN_IP6) {
                Some(addr) => defaults.push(addr),
                None => {
                    return Err(StartupError::InvalidListenAddress);
                },
            }
            defaults
        };
        proof {
            assert(Some(listen_on@) =~= listen_plan(self.listen_addresses@));
        }
        if !self.submission_receiver.is_held() {
            return Err(StartupError::ReceiverConsumed);
        }
        let namespace = self.network_name();
        let local_peer_id = derive_peer_id(&self.keys);
        let mut node = self;
        node.submission_receiver = ReceiverSlot { held: false };
        Ok(
            NodeSetup {
                local_peer_id,
                bootstrap,
                listen_on,
                topic: topic(namespace),
                kad_protocol: kad_protocol(namespace),
                identify_protocol: identify_protocol(namespace),
                node,
            },
        )
    }
}

impl Clone for Splash {
    /// A copy of the configuration that does not hold the consumer end of the
    /// submission queue, whether or not this one does: the copy cannot be
    /// built, and the queue keeps its one consumer.
    fn clone(&self) -> (copy: Self)
        ensures
            copy.listen_addresses@ == self.listen_addresses@,
            copy.known_peers@ == self.known_peers@,
            copy.keys == self.keys,
            copy.testnet == self.testnet,
            !copy.submission_receiver.held(),
    {
        Splash {
            listen_addresses: self.listen_addresses.clone(),
            known_peers: self.known_peers.clone(),
            keys: self.keys.clone(),
            testnet: self.testnet,
            submission_receiver: ReceiverSlot { held: false },
        }
    }
}

impl Default for Splash {
    fn default() -> (node: Self)
        ensures
            node.listen_addresses@.len() == 0,
            node.known_peers@.len() == 0,
            !node.testnet,
            node.submission_receiver.held(),
    {
        Splash::new()
    }
}

/// The identifiers of a node are fixed by its network: on the test network
/// they are `/splash-testnet/messages/1`, `/splash-testnet/kad/1` and
/// `/splash-testnet/id/1`, on the production network `/splash/messages/1`,
/// `/splash/kad/1` and `/splash/id/1`.
pub proof fn lemma_setup_identifiers(setup: NodeSetup, node: Splash)
    requires
        setup.realises(node),
    ensures
        node.testnet ==> setup.topic@ == "/splash-testnet/messages/1"@ && setup.kad_protocol@
            == "/splash-testnet/kad/1"@ && setup.identify_protocol@ == "/splash-testnet/id/1"@,
        !node.testnet ==> setup.topic@ == "/splash/messages/1"@ && setup.kad_protocol@
            == "/splash/kad/1"@ && setup.identify_protocol@ == "/splash/id/1"@,
{
    lemma_testnet_identifiers();
    lemma_mainnet_identifiers();
}

} // verus!
