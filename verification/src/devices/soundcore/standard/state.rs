//! The holder of a device's current snapshot.

use vstd::prelude::*;

verus! {

/// `tokio::sync::watch::Sender`, the writing end of a watch channel. It is
/// held, never looked into.
#[verifier::external_type_specification]
#[verifier::external_body]
#[verifier::reject_recursive_types(T)]
pub struct ExWatchSender<T>(tokio::sync::watch::Sender<T>);

/// `tokio::sync::watch::Receiver`, a reading end of a watch channel. It is
/// handed out, never looked into.
#[verifier::external_type_specification]
#[verifier::external_body]
#[verifier::reject_recursive_types(T)]
pub struct ExWatchReceiver<T>(tokio::sync::watch::Receiver<T>);

/// `tokio::sync::watch::Sender::new`: opens a channel that holds `initial`.
/// Nothing is claimed of the channel.
#[verifier::external_body]
fn open_channel<S>(initial: S) -> tokio::sync::watch::Sender<S> {
    tokio::sync::watch::Sender::new(initial)
}

/// `tokio::sync::watch::Sender::send_replace`: hands `snapshot` to the
/// channel, which wakes its receivers. Nothing is claimed of the channel.
#[verifier::external_body]
fn publish<S>(sender: &tokio::sync::watch::Sender<S>, snapshot: S) {
    let _ = sender.send_replace(snapshot);
}

/// `tokio::sync::watch::Sender::subscribe`: a new receiver of the channel.
/// Nothing is claimed of the receiver.
#[verifier::external_body]
fn new_receiver<S>(sender: &tokio::sync::watch::Sender<S>) -> tokio::sync::watch::Receiver<S> {
    sender.subscribe()
}

/// The single-writer holder of a device's current snapshot.
///
/// The cell keeps the snapshot itself and counts the installs. Every
/// installed snapshot is also handed to a watch channel, through which
/// readers elsewhere are woken and see the latest one. What the cell states
/// is stated of its own copy; the channel's guarantees are the channel's.
#[verifier::reject_recursive_types(S)]
pub struct StateCell<S> {
    current: S,
    installs: u64,
    sender: tokio::sync::watch::Sender<S>,
}

impl<S: Copy> StateCell<S> {
    /// The snapshot that the cell holds.
    pub closed spec fn spec_current(&self) -> S {
        self.current
    }

    /// How many snapshots have been installed since the cell was made. The
    /// count stops at the largest number it can hold.
    pub closed spec fn spec_installs(&self) -> u64 {
        self.installs
    }

    /// Whether `self` is what `before` becomes when `next` is installed.
    pub open spec fn is_install_of(&self, before: &Self, next: S) -> bool {
        &&& self.spec_current() == next
        &&& self.spec_installs() == if before.spec_installs() < u64::MAX {
            (before.spec_installs() + 1) as u64
        } else {
            before.spec_installs()
        }
    }

    /// A cell that holds `initial`.
    pub fn new(initial: S) -> (r: Self)
        ensures
            r.spec_current() == initial,
            r.spec_installs() == 0,
    {
        StateCell { current: initial, installs: 0, sender: open_channel(initial) }
    }

    /// The snapshot that the cell holds.
    pub fn current(&self) -> (r: S)
        ensures
            r == self.spec_current(),
    {
        self.current
    }

    /// Exec counterpart of [`StateCell::spec_installs`].
    pub fn installs(&self) -> (r: u64)
        ensures
            r == self.spec_installs(),
    {
        self.installs
    }

    /// Replaces the snapshot wholesale and publishes the new one.
    pub fn install(&mut self, next: S)
        ensures
            final(self).is_install_of(old(self), next),
    {
        self.current = next;
        if self.installs < u64::MAX {
            self.installs = self.installs + 1;
        }
        publish(&self.sender, next);
    }

    /// A new receiver of the cell's watch channel, for readers elsewhere.
    /// That it is woken by every install and sees the latest snapshot is the
    /// channel's doing: the receiver is handed out as the channel made it,
    /// and nothing is stated of it here.
    pub fn subscribe(&self) -> tokio::sync::watch::Receiver<S> {
        new_receiver(&self.sender)
    }
}

} // verus!
