//! Everything that deals with managing a remote connection over which actor messages are sent
//! and received.

pub mod backpressure;
pub mod call;
pub mod call_response;
pub mod connection_error;
pub mod incoming;
pub mod messages;
pub mod peer_event;
pub mod response;
pub mod state;

pub use backpressure::{BackPressure, WaitPoll};
pub use call::Call;
pub use call_response::CallResponse;
pub use connection_error::ConnectionError;
pub use incoming::{Incoming, IncomingCall, IncomingCallResponse, IncomingConnErr, IncomingSend, classify};
pub use messages::{AddServices, CloseConnection, ListServices, RemoveServices, RequestError};
pub use peer_event::PeerEvent;
pub use response::Response;
pub use state::{Peer, Provider};
