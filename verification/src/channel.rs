//! The one-shot reply transport: a single-producer, single-consumer pair
//! carrying one call result. The sender is fire-and-forget (delivery to an
//! abandoned receiver is a silent no-op) and the receiver blocks for the
//! one reply, reporting a closed channel as `ChannelClosed`.

use vstd::prelude::*;
use crate::error::VmError;

verus! {

/// The sending half of a one-shot reply channel; consumed by `send`.
pub struct Tx {
    sender: crossbeam_channel::Sender<Result<serde_json::Value, VmError>>,
}

/// The receiving half of a one-shot reply channel; consumed by `recv`.
pub struct Rx {
    receiver: crossbeam_channel::Receiver<Result<serde_json::Value, VmError>>,
}

/// A fresh, connected reply pair.
pub fn oneshot() -> (r: (Tx, Rx)) {
    let (sender, receiver) = crossbeam_channel::unbounded();
    (Tx { sender }, Rx { receiver })
}

impl Tx {
    /// Delivers the one reply. Consuming `self` makes delivery
    /// exactly-once at the type level; if the receiver has given up
    /// waiting, the reply is dropped silently.
    pub fn send(self, result: Result<serde_json::Value, VmError>) {
        match self.sender.send(result) {
            Ok(()) => (),
            Err(_) => (),
        }
    }
}

impl Rx {
    /// Blocks until the reply arrives. Every failure is host-level: a
    /// channel that closes with no reply (the worker exited, or the
    /// reply's sink was dropped unused) is reported as `ChannelClosed`.
    pub fn recv(self) -> (r: Result<serde_json::Value, VmError>) {
        match self.receiver.recv() {
            Ok(reply) => reply,
            Err(_) => Err(VmError::ChannelClosed),
        }
    }
}

} // verus!
