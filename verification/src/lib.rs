//! CANaerospace application layer for CAN bus nodes.
//!
//! The crate turns 8-byte CAN payloads into typed messages and back, sorts
//! identifiers into the seven CANaerospace message classes, and runs the
//! per-node engine that answers identification requests and queues every
//! other frame for the application.
//!
//! [`CANAerospaceLite`] is the node. It is built from a node id and a
//! [`driver::CANAerospaceDriver`], which is all it knows of the hardware.

use vstd::prelude::*;

pub mod bytes;
pub mod driver;
pub mod error;
pub mod ids;
pub mod message;
pub mod node;
pub mod queue;
pub mod types;

pub use crate::error::CANAerospaceError;
pub use crate::node::{CANAerospaceLite, Disposition, Outcome, Receipt};

verus! {

/// The configuration of a node that follows the standard.
pub fn ids_conf_standard() -> (conf: types::IDSConfiguration)
    ensures
        conf == types::IDSConfiguration(0),
{
    types::IDSConfiguration(0)
}

/// The header configuration byte of a node that follows the standard.
pub const IDS_MSG_HEADER_STANDARD: types::IDSHeaderConfiguration = 0;

} // verus!
