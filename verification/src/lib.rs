//! Node configuration defaults for the indexer gRPC service, and the message
//! types and channel registry of the secure network controller.

pub mod indexer_grpc_config;
pub mod network_controller;

pub use indexer_grpc_config::IndexerGrpcConfig;

pub use network_controller::{Message, MessageType, NetworkController, NetworkMessage, PeerAddress};
