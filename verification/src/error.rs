//! The failures that the node core reports to the command layer.

use vstd::prelude::*;

verus! {

/// `std::io::Error`: an I/O failure of the operating system or the runtime.
/// It is opaque here. The core never looks inside one: it only carries it
/// from the place where it arose to the report.
#[verifier::external_type_specification]
#[verifier::external_body]
pub struct ExIoError(std::io::Error);

/// Why a start-up step, a listener or a connection handler did not succeed.
#[derive(Debug)]
pub enum Error {
    /// The cluster configuration has no node with this id.
    NodeNotFound(u64),
    /// Binding, accepting, reading or writing failed.
    RuntimeIoError(std::io::Error),
    /// A write took no byte of a chunk that was not empty: the connection
    /// accepts nothing more.
    WriteZero,
}

} // verus!
