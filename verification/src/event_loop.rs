//! The decisions of the running node.
//!
//! The host owns the protocol engines, the submission queue, the discovery
//! timer and the event channel. Whenever one of its sources is ready it hands
//! what happened to `EventLoop::step` and carries out the one `Reaction` that
//! comes back. The loop never looks beyond the input at hand, so inputs are
//! answered in the order in which they are handed in.

use crate::address::{global_addresses, non_global_address, retain_global};
use crate::event::{SplashEvent, SplashEventView};
use crate::message::{
    lemma_text_survives_encoding, payload_text, payload_validation, text_of, validate_payload,
};
use crate::node::NodeSetup;
use libp2p::gossipsub::MessageId;
use libp2p::gossipsub::PublishError;
use libp2p::Multiaddr;
use libp2p::PeerId;
use vstd::prelude::*;
use vstd::utf8::*;

verus! {

/// What the protocol engines report.
#[derive(Debug)]
pub enum NetworkEvent {
    /// A connection to the peer was established.
    ConnectionEstablished(PeerId),
    /// A connection to the peer was closed.
    ConnectionClosed(PeerId),
    /// The gossip engine received a message and waits for a verdict on it.
    Message { propagation_source: PeerId, message_id: MessageId, data: Vec<u8> },
    /// A peer told its listen addresses and the address under which it sees
    /// this node.
    Identified { peer_id: PeerId, listen_addrs: Vec<Multiaddr>, observed_addr: Multiaddr },
    /// A listener was bound to the address.
    NewListenAddr(Multiaddr),
    /// Anything else.
    Other,
}

/// One thing that happened, handed to the event loop.
#[derive(Debug)]
pub enum LoopInput {
    /// A payload was taken from the submission queue.
    Submission(Vec<u8>),
    /// The gossip engine answered the request to publish `payload`.
    Published { payload: Vec<u8>, failure: Option<PublishError> },
    /// The discovery timer fired.
    DiscoveryTick,
    /// The protocol engines reported an event.
    Network(NetworkEvent),
}

/// What the host has to do in answer to one input.
#[derive(Debug)]
pub enum Reaction {
    /// Publish the payload on the topic, and hand the outcome back as
    /// `LoopInput::Published`.
    Publish { topic: String, payload: Vec<u8> },
    /// Ask the DHT for the peers closest to the target.
    Discover { target: PeerId },
    /// Deliver the event to the host's consumer.
    Emit(SplashEvent),
    /// Deliver the event, then tell the gossip engine that the message is
    /// accepted, so that it is relayed further.
    Accept { event: SplashEvent, message_id: MessageId, propagation_source: PeerId },
    /// Tell the gossip engine that the message is rejected, so that it is not
    /// relayed.
    Reject { message_id: MessageId, propagation_source: PeerId },
    /// Enter the addresses into the routing table under the peer, then confirm
    /// `observed_addr` as an external address of this node.
    Register { peer_id: PeerId, addresses: Vec<Multiaddr>, observed_addr: Multiaddr },
    /// Nothing.
    Ignore,
}

/// A `Reaction` over sequences. The target of a discovery round is left
/// out: it is drawn at random and nothing is required of it.
pub enum ReactionView {
    Publish { topic: Seq<char>, payload: Seq<u8> },
    Discover,
    Emit(SplashEventView),
    Accept { event: SplashEventView, message_id: MessageId, propagation_source: PeerId },
    Reject { message_id: MessageId, propagation_source: PeerId },
    Register { peer_id: PeerId, addresses: Seq<Multiaddr>, observed_addr: Multiaddr },
    Ignore,
}

impl View for Reaction {
    type V = ReactionView;

    open spec fn view(&self) -> ReactionView {
        match *self {
            Reaction::Publish { topic, payload } => ReactionView::Publish {
                topic: topic@,
                payload: payload@,
            },
            Reaction::Discover { target } => ReactionView::Discover,
            Reaction::Emit(event) => ReactionView::Emit(event@),
            Reaction::Accept { event, message_id, propagation_source } => ReactionView::Accept {
                event: event@,
                message_id,
                propagation_source,
            },
            Reaction::Reject { message_id, propagation_source } => ReactionView::Reject {
                message_id,
                propagation_source,
            },
            Reaction::Register { peer_id, addresses, observed_addr } => ReactionView::Register {
                peer_id,
                addresses: addresses@,
                observed_addr,
            },
            Reaction::Ignore => ReactionView::Ignore,
        }
    }
}

/// The verdict on a message from the network with payload `data`: a valid
/// payload is accepted and reported as text, any other is rejected.
pub open spec fn inbound_verdict(
    data: Seq<u8>,
    message_id: MessageId,
    propagation_source: PeerId,
) -> ReactionView {
    if payload_validation(data) is Ok {
        ReactionView::Accept {
            event: SplashEventView::MessageReceived(text_of(data)),
            message_id,
            propagation_source,
        }
    } else {
        ReactionView::Reject { message_id, propagation_source }
    }
}

/// The answer to an event of the protocol engines.
pub open spec fn network_reaction(event: NetworkEvent) -> ReactionView {
    match event {
        NetworkEvent::ConnectionEstablished(peer) => ReactionView::Emit(
            SplashEventView::PeerConnected(peer),
        ),
        NetworkEvent::ConnectionClosed(peer) => ReactionView::Emit(
            SplashEventView::PeerDisconnected(peer),
        ),
        NetworkEvent::Message { propagation_source, message_id, data } => inbound_verdict(
            data@,
            message_id,
            propagation_source,
        ),
        NetworkEvent::Identified { peer_id, listen_addrs, observed_addr } => ReactionView::Register {
            peer_id,
            addresses: global_addresses(listen_addrs@),
            observed_addr,
        },
        NetworkEvent::NewListenAddr(addr) => ReactionView::Emit(
            SplashEventView::NewListenAddress(addr),
        ),
        NetworkEvent::Other => ReactionView::Ignore,
    }
}

/// The answer of a node with the given topic to an input.
pub open spec fn reaction_to(topic: Seq<char>, input: LoopInput) -> ReactionView {
    match input {
        LoopInput::Submission(payload) => ReactionView::Publish { topic, payload: payload@ },
        LoopInput::Published { payload, failure } => match failure {
            Some(reason) => ReactionView::Emit(SplashEventView::MessageBroadcastFailed(reason)),
            None => ReactionView::Emit(SplashEventView::MessageBroadcasted(text_of(payload@))),
        },
        LoopInput::DiscoveryTick => ReactionView::Discover,
        LoopInput::Network(event) => network_reaction(event),
    }
}

/// The payloads that a run of inputs takes from the submission queue, in the
/// order of the run.
pub open spec fn submitted(inputs: Seq<LoopInput>) -> Seq<Seq<u8>>
    decreases inputs.len(),
{
    if inputs.len() == 0 {
        Seq::empty()
    } else {
        let before = submitted(inputs.drop_last());
        match inputs.last() {
            LoopInput::Submission(payload) => before.push(payload@),
            _ => before,
        }
    }
}

/// The payloads that the node asks to publish in answer to a run of inputs,
/// in the order of its answers.
pub open spec fn requested(topic: Seq<char>, inputs: Seq<LoopInput>) -> Seq<Seq<u8>>
    decreases inputs.len(),
{
    if inputs.len() == 0 {
        Seq::empty()
    } else {
        let before = requested(topic, inputs.drop_last());
        match reaction_to(topic, inputs.last()) {
            ReactionView::Publish { payload, .. } => before.push(payload),
            _ => before,
        }
    }
}

/// Draws a peer identity with `PeerId::random`.
///
/// Trusted, with nothing claimed: the identity is random.
#[verifier::external_body]
fn random_target() -> PeerId {
    PeerId::random()
}

/// The running node. It comes into being when a node that was set up is
/// started, and it keeps what was fixed then: the topic.
pub struct EventLoop {
    topic: String,
}

impl EventLoop {
    /// The gossip topic of the node.
    pub closed spec fn topic(&self) -> Seq<char> {
        self.topic@
    }

    /// Starts the event loop of a node that was set up: the engines are
    /// constructed, the listeners bound, the topic subscribed. The event that
    /// comes with it is the first that the host's consumer gets: the node's
    /// own peer identity.
    pub fn start(setup: &NodeSetup) -> (started: (EventLoop, SplashEvent))
        ensures
            started.0.topic() == setup.topic@,
            started.1@ == SplashEventView::Initialized(setup.local_peer_id),
    {
        (EventLoop { topic: setup.topic.clone() }, SplashEvent::Initialized(setup.local_peer_id))
    }

    /// Decides on a message from the network: a payload that passes
    /// validation is accepted and reported as received, rendered as text; any
    /// other is rejected and not rendered at all.
    pub fn judge_inbound(data: Vec<u8>, message_id: MessageId, propagation_source: PeerId) -> (reaction:
        Reaction)
        ensures
            reaction@ == inbound_verdict(data@, message_id, propagation_source),
    {
        match validate_payload(data.as_slice()) {
            Ok(_) => Reaction::Accept {
                event: SplashEvent::MessageReceived(payload_text(&data)),
                message_id,
                propagation_source,
            },
            Err(_) => Reaction::Reject { message_id, propagation_source },
        }
    }

    /// Decides what to do about an event of the protocol engines.
    pub fn on_network_event(event: NetworkEvent) -> (reaction: Reaction)
        ensures
            reaction@ == network_reaction(event),
    {
        match event {
            NetworkEvent::ConnectionEstablished(peer) => Reaction::Emit(
                SplashEvent::PeerConnected(peer),
            ),
            NetworkEvent::ConnectionClosed(peer) => Reaction::Emit(
                SplashEvent::PeerDisconnected(peer),
            ),
            NetworkEvent::Message { propagation_source, message_id, data } => {
                EventLoop::judge_inbound(data, message_id, propagation_source)
            },
            NetworkEvent::Identified { peer_id, listen_addrs, observed_addr } => {
                let addresses = retain_global(&listen_addrs);
                Reaction::Register { peer_id, addresses, observed_addr }
            },
            NetworkEvent::NewListenAddr(addr) => Reaction::Emit(SplashEvent::NewListenAddress(addr)),
            NetworkEvent::Other => Reaction::Ignore,
        }
    }

    /// Decides what to do about one input.
    pub fn step(&self, input: LoopInput) -> (reaction: Reaction)
        ensures
            reaction@ == reaction_to(self.topic(), input),
    {
        match input {
            LoopInput::Submission(payload) => Reaction::Publish {
                topic: self.topic.clone(),
                payload,
            },
            LoopInput::Published { payload, failure } => match failure {
                Some(reason) => Reaction::Emit(SplashEvent::MessageBroadcastFailed(reason)),
                None => Reaction::Emit(SplashEvent::MessageBroadcasted(payload_text(&payload))),
            },
            LoopInput::DiscoveryTick => Reaction::Discover { target: random_target() },
            LoopInput::Network(event) => EventLoop::on_network_event(event),
        }
    }
}

/// A submitted text comes back as it was: once the gossip engine has taken
/// the payload of a message, the node reports `MessageBroadcasted` with the
/// very text that was submitted.
pub proof fn lemma_broadcast_reports_submitted_text(
    topic: Seq<char>,
    message: Seq<char>,
    payload: Vec<u8>,
)
    requires
        payload@ == encode_utf8(message),
    ensures
        reaction_to(topic, LoopInput::Published { payload, failure: None })
            == ReactionView::Emit(SplashEventView::MessageBroadcasted(message)),
{
    lemma_text_survives_encoding(message);
}

/// Of the addresses that a peer reports, exactly the globally routable ones
/// enter the routing table: no address with an IPv4 loopback or private-range
/// component or the IPv6 loopback component is registered, and every other
/// reported address is.
pub proof fn lemma_registration_admits_global_only(
    peer_id: PeerId,
    listen_addrs: Vec<Multiaddr>,
    observed_addr: Multiaddr,
    addr: Multiaddr,
)
    ensures
        network_reaction(
            NetworkEvent::Identified { peer_id, listen_addrs, observed_addr },
        )->Register_addresses.contains(addr) <==> listen_addrs@.contains(addr)
            && !non_global_address(addr),
{
    let pred = |a: Multiaddr| !non_global_address(a);
    let kept = global_addresses(listen_addrs@);
    if kept.contains(addr) {
        let i = choose|i: int| 0 <= i < kept.len() && kept[i] == addr;
        listen_addrs@.lemma_filter_pred(pred, i);
        listen_addrs@.lemma_filter_contains_rev(pred, addr);
    }
    if listen_addrs@.contains(addr) && !non_global_address(addr) {
        let i = choose|i: int| 0 <= i < listen_addrs@.len() && listen_addrs@[i] == addr;
        listen_addrs@.lemma_filter_contains(pred, i);
    }
}

/// The verdict on inbound messages: a message is accepted, and reported as
/// received with its payload rendered as text, exactly when the payload has
/// at most 300 x 1024 bytes; otherwise it is rejected and nothing is
/// reported.
pub proof fn lemma_inbound_verdict(propagation_source: PeerId, message_id: MessageId, data: Vec<u8>)
    ensures
        ({
            let reaction = network_reaction(
                NetworkEvent::Message { propagation_source, message_id, data },
            );
            if data@.len() <= 300 * 1024 {
                reaction == (ReactionView::Accept {
                    event: SplashEventView::MessageReceived(text_of(data@)),
                    message_id,
                    propagation_source,
                })
            } else {
                reaction == (ReactionView::Reject { message_id, propagation_source })
            }
        }),
{
}

/// Whatever else happens in between, the node asks to publish exactly the
/// payloads that it took from the submission queue, each once, unchanged and
/// in the order in which it took them.
pub proof fn lemma_publishing_follows_submission(topic: Seq<char>, inputs: Seq<LoopInput>)
    ensures
        requested(topic, inputs) == submitted(inputs),
    decreases inputs.len(),
{
    if inputs.len() > 0 {
        lemma_publishing_follows_submission(topic, inputs.drop_last());
    }
}

/// Messages that are taken from the submission queue in the order
/// `messages` are published in that order, each once and byte for byte as its
/// UTF-8 form.
pub proof fn lemma_messages_published_in_order(
    topic: Seq<char>,
    messages: Seq<Seq<char>>,
    inputs: Seq<LoopInput>,
)
    requires
        inputs.len() == messages.len(),
        forall|i: int|
            0 <= i < inputs.len() ==> (#[trigger] inputs[i]) is Submission
                && inputs[i]->Submission_0@ == encode_utf8(messages[i]),
    ensures
        requested(topic, inputs) == Seq::new(messages.len(), |i: int| encode_utf8(messages[i])),
    decreases inputs.len(),
{
    if inputs.len() > 0 {
        let earlier = inputs.drop_last();
        assert forall|i: int| 0 <= i < earlier.len() implies (#[trigger] earlier[i]) is Submission
            && earlier[i]->Submission_0@ == encode_utf8(messages.drop_last()[i]) by {
            assert(earlier[i] == inputs[i]);
        }
        lemma_messages_published_in_order(topic, messages.drop_last(), earlier);
        assert(inputs.last() == inputs[inputs.len() - 1]);
    }
    assert(requested(topic, inputs) =~= Seq::new(
        messages.len(),
        |i: int| encode_utf8(messages[i]),
    ));
}

} // verus!
