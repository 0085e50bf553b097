//! Runtime core of a nimbus cluster node: the configuration model, the node
//! resource, the command surface, and the decision logic of the connection
//! handler, the listener and the node start-up, each with a proved contract.

pub mod conf;
pub mod error;
pub mod node;
pub mod handler;
pub mod listener;
pub mod start;
pub mod args;
