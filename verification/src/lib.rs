//! The validator's block-engine stage: what it does with packets, bundles, slots and connections.
pub mod bundle;
pub mod config;
pub mod consumer;
pub mod delayer;
pub mod error;
pub mod forwarder;
pub mod grpc;
pub mod packets;
pub mod pipeline;
pub mod session;
pub mod settings;
pub mod slot;
pub mod solana;
pub mod stage;
pub mod stats;
pub mod transaction;
