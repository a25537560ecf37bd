//! Telemetry bridge that batches gossip events and hands them to an external sink.
//!
//! Observers take the host's gossip messages and offer a record of each to a bounded queue,
//! without ever waiting. A single worker gathers the records into batches and asks for a
//! batch to be delivered when it is large enough or old enough. Delivery is best effort: a
//! record that finds the queue full, a batch that the sink refuses and a batch that is still
//! pending when the queue closes are lost.

pub mod chain;
pub mod channel;
pub mod config;
pub mod event;
pub mod ffi;
pub mod gossip;
pub mod init;
pub mod metrics;
pub mod observer;
pub mod scheduler;
pub mod shim;
pub mod text;
pub mod trace;
pub mod worker;

pub use chain::XatuChain;
pub use config::{NetworkInfo, XatuConfig};
pub use init::{init, init_with_chain_spec, init_with_chain_spec_and_genesis};
pub use observer::{ObserverResult, XatuObserver};
pub use shim::{create_exporter_from_config, create_exporter_with_network_info};
