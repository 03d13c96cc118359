//! What the node tells its host.

use libp2p::gossipsub::MessageId;
use libp2p::gossipsub::PublishError;
use libp2p::Multiaddr;
use libp2p::PeerId;
use vstd::prelude::*;

verus! {

/// `libp2p::gossipsub::PublishError`, carried through the library as an
/// opaque value.
#[verifier::external_type_specification]
#[verifier::external_body]
pub struct ExPublishError(PublishError);

/// `libp2p::gossipsub::MessageId`, carried through the library as an opaque
/// value.
#[verifier::external_type_specification]
#[verifier::external_body]
pub struct ExMessageId(MessageId);

/// One event of the node, in the order in which the event loop produced it.
#[derive(Debug)]
pub enum SplashEvent {
    /// The node is set up; the peer identity is its own.
    Initialized(PeerId),
    /// A connection to the peer was established.
    PeerConnected(PeerId),
    /// A connection to the peer was closed.
    PeerDisconnected(PeerId),
    /// A valid message arrived from the network.
    MessageReceived(String),
    /// The node now listens on this address.
    NewListenAddress(Multiaddr),
    /// A submitted message was handed to the gossip engine.
    MessageBroadcasted(String),
    /// The gossip engine refused a submitted message.
    MessageBroadcastFailed(PublishError),
}

/// A `SplashEvent` with its texts as sequences of characters.
pub enum SplashEventView {
    Initialized(PeerId),
    PeerConnected(PeerId),
    PeerDisconnected(PeerId),
    MessageReceived(Seq<char>),
    NewListenAddress(Multiaddr),
    MessageBroadcasted(Seq<char>),
    MessageBroadcastFailed(PublishError),
}

impl View for SplashEvent {
    type V = SplashEventView;

    open spec fn view(&self) -> SplashEventView {
        match *self {
            SplashEvent::Initialized(peer) => SplashEventView::Initialized(peer),
            SplashEvent::PeerConnected(peer) => SplashEventView::PeerConnected(peer),
            SplashEvent::PeerDisconnected(peer) => SplashEventView::PeerDisconnected(peer),
            SplashEvent::MessageReceived(text) => SplashEventView::MessageReceived(text@),
            SplashEvent::NewListenAddress(addr) => SplashEventView::NewListenAddress(addr),
            SplashEvent::MessageBroadcasted(text) => SplashEventView::MessageBroadcasted(text@),
            SplashEvent::MessageBroadcastFailed(reason) => SplashEventView::MessageBroadcastFailed(
                reason,
            ),
        }
    }
}

} // verus!
