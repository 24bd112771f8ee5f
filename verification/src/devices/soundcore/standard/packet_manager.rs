//! The dispatch table from commands to handlers.

use std::collections::HashMap;
use vstd::prelude::*;

use crate::devices::soundcore::standard::packets::parsing::DecodeError;
use crate::devices::soundcore::standard::packets::{Command, Packet};
use crate::devices::soundcore::standard::state::StateCell;

verus! {

/// What handles the packets of one command for a device model with state
/// `S`.
pub trait PacketHandler<S: Copy> {
    /// The snapshot that the packet leads to from `state`, or why the packet
    /// is refused.
    spec fn spec_handle(&self, state: S, packet: Packet) -> Result<S, DecodeError>;

    /// Decodes the packet and installs the snapshot it leads to. A refused
    /// packet leaves the cell as it was.
    fn handle_packet(&self, state: &mut StateCell<S>, packet: &Packet) -> (r: Result<
        (),
        DecodeError,
    >)
        ensures
            match self.spec_handle(old(state).spec_current(), *packet) {
                Ok(next) => r is Ok && final(state).is_install_of(old(state), next),
                Err(e) => r == Err::<(), DecodeError>(e) && *final(state) == *old(state),
            },
    ;
}

/// What became of a delivered packet.
#[derive(Clone, Copy, Debug, PartialEq, Eq, Structural)]
pub enum Delivery {
    /// The handler of the packet's command took it and installed a snapshot.
    Handled,
    /// No handler is registered for the command: the packet was dropped.
    Unhandled,
    /// The handler of the packet's command refused the packet.
    Refused(DecodeError),
}

/// The dispatch table of a device model with state `S` and handlers `H`: at
/// most one handler per command.
#[verifier::reject_recursive_types(S)]
#[verifier::reject_recursive_types(H)]
pub struct PacketManager<S, H> {
    handlers: HashMap<u16, H>,
    unhandled: u64,
    state: core::marker::PhantomData<S>,
}

impl<S: Copy, H: PacketHandler<S>> PacketManager<S, H> {
    /// The handlers, by the key of their command.
    pub closed spec fn spec_handlers(&self) -> Map<u16, H> {
        self.handlers@
    }

    /// The handler registered for a command, if any. The lookup is exact:
    /// no other command finds it.
    pub open spec fn spec_handler(&self, command: Command) -> Option<H> {
        if self.spec_handlers().contains_key(command.spec_key()) {
            Some(self.spec_handlers()[command.spec_key()])
        } else {
            None
        }
    }

    /// How many packets were dropped for want of a handler. The count stops
    /// at the largest number it can hold.
    pub closed spec fn spec_unhandled(&self) -> u64 {
        self.unhandled
    }

    /// What becomes of `packet` when it is delivered to a cell that holds
    /// `state`.
    pub open spec fn spec_delivery(&self, state: S, packet: Packet) -> Delivery {
        match self.spec_handler(packet.command) {
            Some(handler) => match handler.spec_handle(state, packet) {
                Ok(_) => Delivery::Handled,
                Err(e) => Delivery::Refused(e),
            },
            None => Delivery::Unhandled,
        }
    }

    /// A table without handlers.
    pub fn new() -> (r: Self)
        ensures
            r.spec_handlers() == Map::<u16, H>::empty(),
            r.spec_unhandled() == 0,
    {
        PacketManager { handlers: HashMap::new(), unhandled: 0, state: core::marker::PhantomData }
    }

    /// Registers `handler` for `command`, in place of any handler that was
    /// registered for it before.
    pub fn set_handler(&mut self, command: Command, handler: H)
        ensures
            final(self).spec_handlers() == old(self).spec_handlers().insert(
                command.spec_key(),
                handler,
            ),
            final(self).spec_unhandled() == old(self).spec_unhandled(),
    {
        self.handlers.insert(command.key(), handler);
    }

    /// Exec counterpart of [`PacketManager::spec_unhandled`].
    pub fn unhandled(&self) -> (r: u64)
        ensures
            r == self.spec_unhandled(),
    {
        self.unhandled
    }

    /// Whether a handler is registered for `command`.
    pub fn has_handler(&self, command: Command) -> (r: bool)
        ensures
            r == self.spec_handler(command) is Some,
    {
        self.handlers.contains_key(&command.key())
    }

    /// Delivers a packet: the handler registered for exactly its command is
    /// run once and installs the snapshot it arrives at; without a handler
    /// the packet is dropped and counted, and a refused packet changes
    /// nothing.
    pub fn handle(&mut self, state: &mut StateCell<S>, packet: &Packet) -> (r: Delivery)
        ensures
            r == old(self).spec_delivery(old(state).spec_current(), *packet),
            final(self).spec_handlers() == old(self).spec_handlers(),
            match old(self).spec_handler(packet.command) {
                Some(handler) => match handler.spec_handle(old(state).spec_current(), *packet) {
                    Ok(next) => final(state).is_install_of(old(state), next),
                    Err(_) => *final(state) == *old(state),
                },
                None => *final(state) == *old(state),
            },
            final(self).spec_unhandled() == if r == Delivery::Unhandled && old(
                self,
            ).spec_unhandled() < u64::MAX {
                (old(self).spec_unhandled() + 1) as u64
            } else {
                old(self).spec_unhandled()
            },
    {
        let key = packet.command.key();
        match self.handlers.get(&key) {
            Some(handler) => match handler.handle_packet(state, packet) {
                Ok(()) => Delivery::Handled,
                Err(e) => Delivery::Refused(e),
            },
            None => {
                if self.unhandled < u64::MAX {
                    self.unhandled = self.unhandled + 1;
                }
                Delivery::Unhandled
            },
        }
    }
}

/// After a handler is registered for a command, that command finds exactly
/// that handler, and every other command finds what it found before.
pub proof fn lemma_registration_is_exact<S: Copy, H: PacketHandler<S>>(
    before: PacketManager<S, H>,
    after: PacketManager<S, H>,
    command: Command,
    handler: H,
    other: Command,
)
    requires
        after.spec_handlers() == before.spec_handlers().insert(command.spec_key(), handler),
    ensures
        after.spec_handler(command) == Some(handler),
        other != command ==> after.spec_handler(other) == before.spec_handler(other),
{
    Command::lemma_key_identifies(command, other);
}

} // verus!
