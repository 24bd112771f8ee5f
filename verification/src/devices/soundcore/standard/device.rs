//! A device: the current snapshot and the handlers that advance it.

use vstd::prelude::*;

use crate::devices::soundcore::standard::modules::ModuleCollection;
use crate::devices::soundcore::standard::packet_manager::{Delivery, PacketHandler, PacketManager};
use crate::devices::soundcore::standard::packets::Packet;
use crate::devices::soundcore::standard::state::StateCell;

verus! {

/// The snapshot that delivering one packet leads to from `state`: what the
/// handler of its command arrives at, and `state` itself where there is no
/// handler or the handler refuses the packet.
pub open spec fn snapshot_after<S: Copy, H: PacketHandler<S>>(
    table: PacketManager<S, H>,
    state: S,
    packet: Packet,
) -> S {
    match table.spec_handler(packet.command) {
        Some(handler) => match handler.spec_handle(state, packet) {
            Ok(next) => next,
            Err(_) => state,
        },
        None => state,
    }
}

/// The snapshot that delivering packets one after the other leads to from
/// `state`.
pub open spec fn snapshot_after_all<S: Copy, H: PacketHandler<S>>(
    table: PacketManager<S, H>,
    state: S,
    packets: Seq<Packet>,
) -> S
    decreases packets.len(),
{
    if packets.len() == 0 {
        state
    } else {
        snapshot_after(
            table,
            snapshot_after_all(table, state, packets.drop_last()),
            packets.last(),
        )
    }
}

/// How many of the packets lead to an install when they are delivered one
/// after the other from `state`.
pub open spec fn installs_among<S: Copy, H: PacketHandler<S>>(
    table: PacketManager<S, H>,
    state: S,
    packets: Seq<Packet>,
) -> nat
    decreases packets.len(),
{
    if packets.len() == 0 {
        0
    } else {
        let before = snapshot_after_all(table, state, packets.drop_last());
        installs_among(table, state, packets.drop_last()) + if table.spec_delivery(
            before,
            packets.last(),
        ) == Delivery::Handled {
            1nat
        } else {
            0nat
        }
    }
}

/// A device model bound to its state: the one writer of the state cell.
#[verifier::reject_recursive_types(S)]
#[verifier::reject_recursive_types(H)]
pub struct SoundcoreDevice<S, H> {
    pub state: StateCell<S>,
    pub modules: ModuleCollection<S, H>,
}

impl<S: Copy, H: PacketHandler<S>> SoundcoreDevice<S, H> {
    /// A device that starts from `initial`.
    pub fn new(initial: S, modules: ModuleCollection<S, H>) -> (r: Self)
        ensures
            r.state.spec_current() == initial,
            r.state.spec_installs() == 0,
            r.modules == modules,
    {
        SoundcoreDevice { state: StateCell::new(initial), modules }
    }

    /// The latest snapshot.
    pub fn current(&self) -> (r: S)
        ensures
            r == self.state.spec_current(),
    {
        self.state.current()
    }

    /// Delivers one packet.
    pub fn receive(&mut self, packet: &Packet) -> (r: Delivery)
        ensures
            r == old(self).modules.packet_handlers.spec_delivery(
                old(self).state.spec_current(),
                *packet,
            ),
            final(self).state.spec_current() == snapshot_after(
                old(self).modules.packet_handlers,
                old(self).state.spec_current(),
                *packet,
            ),
            final(self).modules.packet_handlers.spec_handlers() == old(
                self,
            ).modules.packet_handlers.spec_handlers(),
            r != Delivery::Handled ==> final(self).state == old(self).state,
            r == Delivery::Handled ==> final(self).state.spec_installs() == if old(
                self,
            ).state.spec_installs() < u64::MAX {
                (old(self).state.spec_installs() + 1) as u64
            } else {
                old(self).state.spec_installs()
            },
            final(self).modules.packet_handlers.spec_unhandled() == if r == Delivery::Unhandled
                && old(self).modules.packet_handlers.spec_unhandled() < u64::MAX {
                (old(self).modules.packet_handlers.spec_unhandled() + 1) as u64
            } else {
                old(self).modules.packet_handlers.spec_unhandled()
            },
    {
        self.modules.packet_handlers.handle(&mut self.state, packet)
    }

    /// Delivers packets one after the other. A packet that is dropped or
    /// refused does not stop the ones behind it. Hands back how many led to
    /// an install.
    pub fn receive_all(&mut self, packets: &[Packet]) -> (r: usize)
        ensures
            final(self).state.spec_current() == snapshot_after_all(
                old(self).modules.packet_handlers,
                old(self).state.spec_current(),
                packets@,
            ),
            r == installs_among(
                old(self).modules.packet_handlers,
                old(self).state.spec_current(),
                packets@,
            ),
            final(self).state.spec_installs() >= old(self).state.spec_installs(),
            final(self).modules.packet_handlers.spec_handlers() == old(
                self,
            ).modules.packet_handlers.spec_handlers(),
    {
        let ghost table = self.modules.packet_handlers;
        let ghost start = self.state.spec_current();
        let mut installed: usize = 0;
        let mut i: usize = 0;
        while i < packets.len()
            invariant
                i <= packets@.len(),
                installed <= i,
                self.modules.packet_handlers.spec_handlers() == table.spec_handlers(),
                self.state.spec_current() == snapshot_after_all(table, start, packets@.take(i as int)),
                installed == installs_among(table, start, packets@.take(i as int)),
                self.state.spec_installs() >= old(self).state.spec_installs(),
            decreases packets@.len() - i,
        {
            let ghost before = self.state.spec_current();
            let delivery = self.receive(&packets[i]);
            proof {
                let prefix = packets@.take(i + 1);
                assert(prefix.drop_last() =~= packets@.take(i as int));
                assert(prefix.last() == packets@[i as int]);
                lemma_same_handlers_same_delivery(
                    self.modules.packet_handlers,
                    table,
                    before,
                    packets@[i as int],
                );
            }
            if delivery == Delivery::Handled {
                installed = installed + 1;
            }
            i = i + 1;
        }
        assert(packets@.take(i as int) =~= packets@);
        installed
    }
}

/// Tables with the same handlers deliver alike.
pub proof fn lemma_same_handlers_same_delivery<S: Copy, H: PacketHandler<S>>(
    a: PacketManager<S, H>,
    b: PacketManager<S, H>,
    state: S,
    packet: Packet,
)
    requires
        a.spec_handlers() == b.spec_handlers(),
    ensures
        a.spec_handler(packet.command) == b.spec_handler(packet.command),
        a.spec_delivery(state, packet) == b.spec_delivery(state, packet),
        snapshot_after(a, state, packet) == snapshot_after(b, state, packet),
{
}

/// Delivering to a command that was just registered runs exactly the handler
/// that was registered, once: the outcome and the next snapshot are that
/// handler's. Delivering to a command without a handler runs none: the
/// packet is reported unhandled and the snapshot stays.
pub proof fn lemma_dispatch_is_exact<S: Copy, H: PacketHandler<S>>(
    before: PacketManager<S, H>,
    after: PacketManager<S, H>,
    handler: H,
    state: S,
    packet: Packet,
    stray: Packet,
)
    requires
        after.spec_handlers() == before.spec_handlers().insert(
            packet.command.spec_key(),
            handler,
        ),
        after.spec_handler(stray.command) is None,
    ensures
        after.spec_handler(packet.command) == Some(handler),
        after.spec_delivery(state, packet) == match handler.spec_handle(state, packet) {
            Ok(_) => Delivery::Handled,
            Err(e) => Delivery::Refused(e),
        },
        snapshot_after(after, state, packet) == match handler.spec_handle(state, packet) {
            Ok(next) => next,
            Err(_) => state,
        },
        after.spec_delivery(state, stray) == Delivery::Unhandled,
        snapshot_after(after, state, stray) == state,
{
}

/// Delivering packets one after the other is delivering all but the last
/// and then the last: the snapshot after them is the result of the updates
/// in their order.
pub proof fn lemma_updates_apply_in_order<S: Copy, H: PacketHandler<S>>(
    table: PacketManager<S, H>,
    state: S,
    earlier: Seq<Packet>,
    last: Packet,
)
    ensures
        snapshot_after_all(table, state, earlier.push(last)) == snapshot_after(
            table,
            snapshot_after_all(table, state, earlier),
            last,
        ),
{
    assert(earlier.push(last).drop_last() =~= earlier);
}

} // verus!
