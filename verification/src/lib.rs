//! A peer-to-peer broadcast node: the rules by which it takes, names and
//! relays messages, judges peer addresses and answers what its protocol
//! engines report. The engines themselves, the queues and the timers belong
//! to the host; this library decides and the host carries out.


pub mod address;
pub mod error;
pub mod event;
pub mod event_loop;
pub mod message;
pub mod metrics;
pub mod names;
pub mod node;
pub mod text;
pub mod ws;

pub use error::SplashError;
pub use event::SplashEvent;
pub use event_loop::{EventLoop, LoopInput, NetworkEvent, Reaction};
pub use message::MAX_MESSAGE_SIZE;
pub use metrics::{Metrics, MetricsData};
pub use node::{BootstrapPeer, NodeSetup, ReceiverSlot, Splash, StartupError};
