//! Relay engine for an IBC-style protocol between two chains.
//!
//! The engine observes both chains, decides which protocol datagrams must be
//! submitted next, and keeps the per-destination transaction nonce in order.
//! All decision logic is pure: it is re-derived from observed chain state on
//! every finalized header, so the relayer itself carries no durable state.

mod calls;
mod comparator;
mod dispatcher;
mod errors;
mod hashing;
mod model;
mod packets;
mod remote_read;

pub use calls::{
    Ibc, NodeRuntime, RecvPacketArgs, TemplateModule, TestBindPortCall, TestChanOpenInitCall,
    TestConnOpenInitCall, TestCreateClientCall, TestReleasePortCall, TestSendPacketCall,
    UpdateClientArgs, recv_packet, update_client,
};
pub use comparator::{
    ChannelPair, ConnectionPair, Observation, channel_datagram, channel_datagrams, compare,
    connection_datagram, connection_datagrams, client_updates,
};
pub use dispatcher::{
    Dispatcher, Disposition, SubmissionReport, SubmitDecision, SubmitOutcome, Transaction,
};
pub use errors::Error;
pub use hashing::{client_identifier_for, parse_hash32, storage_value_key};
pub use model::{
    ChannelEnd, ChannelKey, ChannelOrder, ChannelState, ClientState, ConnectionEnd,
    ConnectionState, Datagram, Event, Header, Packet, Proof,
};
pub use packets::{EventWithProof, is_packet_event, packet_datagram, process_events};
pub use remote_read::{RemoteReadRequest, convert_hash};
