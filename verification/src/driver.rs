//! The transport that a node sends and receives through.

use vstd::prelude::*;
use crate::message::CANAerospaceFrame;

verus! {

/// What a node needs from the CAN hardware: a way to send a frame and a way
/// to ask for one that has arrived.
///
/// The trait is implemented by the transport; the library knows nothing of
/// what an implementation does with a frame, so neither method promises
/// anything.
pub trait CANAerospaceDriver {
    /// Sends `frame`. Nothing comes back: retries and errors are the
    /// transport's own business.
    fn send_frame(&mut self, frame: CANAerospaceFrame);

    /// The next frame that has arrived, or `None` where there is none. The
    /// call does not wait.
    fn recv_frame(&mut self) -> Option<CANAerospaceFrame>;
}

} // verus!
