use openscq30_lib::devices::soundcore::a3959::new_device;
use openscq30_lib::devices::soundcore::a3959::packets::state_update_packet::{
    command, A3959PacketHandler, StateUpdatePacketHandler,
};
use openscq30_lib::devices::soundcore::a3959::state::A3959State;
use openscq30_lib::devices::soundcore::standard::modules::ModuleCollection;
use openscq30_lib::devices::soundcore::standard::packet_manager::{
    Delivery, PacketHandler, PacketManager,
};
use openscq30_lib::devices::soundcore::standard::packets::parsing::DecodeError;
use openscq30_lib::devices::soundcore::standard::packets::{Command, Packet};
use openscq30_lib::devices::soundcore::standard::state::StateCell;

fn body_with(touch_tone: bool, gaming_mode: bool, left_level: u8) -> Vec<u8> {
    let mut body = vec![1, 1, left_level, 5, 0, 1];
    body.extend_from_slice(b"02.1502.16");
    body.extend_from_slice(b"3959ABCDEF012345");
    body.extend_from_slice(&[0; 20]);
    body.push(0);
    body.extend_from_slice(&[1, 0, 1, 1, 0, 2, 1, 3, 1, 4, 0, 6]);
    body.push(5);
    body.extend_from_slice(&[0, 0x21, 1, 2, 1, 7, 0]);
    body.push(0);
    body.push(touch_tone as u8);
    body.extend_from_slice(&[0, 0]);
    body.extend_from_slice(&[1, 3, 0, gaming_mode as u8]);
    body.extend_from_slice(&[0; 12]);
    body
}

fn update(touch_tone: bool, gaming_mode: bool, left_level: u8) -> Packet {
    Packet { command: command(), body: body_with(touch_tone, gaming_mode, left_level) }
}

#[test]
fn device_starts_from_the_first_state_update() {
    let device = new_device(&body_with(true, false, 4)).unwrap();
    assert!(device.current().touch_tone);
    assert!(!device.current().gaming_mode);
    assert_eq!(device.state.installs(), 0);
    assert_eq!(device.modules.packet_handlers.unhandled(), 0);
    assert!(device.modules.packet_handlers.has_handler(command()));
    assert!(!device.modules.packet_handlers.has_handler(Command(1, 2)));
    assert!(matches!(new_device(&[1, 2, 3]), Err(DecodeError::Incomplete)));
}

#[test]
fn registered_command_runs_its_handler_once() {
    let mut device = new_device(&body_with(false, false, 1)).unwrap();
    let delivery = device.receive(&update(true, true, 2));
    assert_eq!(delivery, Delivery::Handled);
    assert_eq!(device.state.installs(), 1);
    assert!(device.current().touch_tone);
    assert!(device.current().gaming_mode);
    assert_eq!(device.current().dual_battery.left.level, 2);
    assert_eq!(device.modules.packet_handlers.unhandled(), 0);
}

#[test]
fn unknown_command_leaves_the_state_and_is_counted() {
    let mut device = new_device(&body_with(true, false, 4)).unwrap();
    let before = device.current();
    for (count, stray) in [Command(1, 0), Command(0, 1), Command(0x01, 0x81), Command(255, 255)]
        .into_iter()
        .enumerate()
    {
        let packet = Packet { command: stray, body: body_with(false, true, 9) };
        assert_eq!(device.receive(&packet), Delivery::Unhandled);
        assert_eq!(device.current(), before);
        assert_eq!(device.state.installs(), 0);
        assert_eq!(device.modules.packet_handlers.unhandled(), count as u64 + 1);
    }
}

#[test]
fn refused_packet_leaves_the_state() {
    let mut device = new_device(&body_with(true, false, 4)).unwrap();
    let before = device.current();
    let mut truncated = update(false, true, 9);
    truncated.body.pop();
    assert_eq!(device.receive(&truncated), Delivery::Refused(DecodeError::Incomplete));
    let mut extended = update(false, true, 9);
    extended.body.push(0);
    assert_eq!(device.receive(&extended), Delivery::Refused(DecodeError::TrailingData));
    let mut malformed = update(false, true, 9);
    malformed.body[0] = 7;
    assert_eq!(device.receive(&malformed), Delivery::Refused(DecodeError::Malformed));
    assert_eq!(device.current(), before);
    assert_eq!(device.state.installs(), 0);
    assert_eq!(device.modules.packet_handlers.unhandled(), 0);
    assert_eq!(device.receive(&update(false, true, 9)), Delivery::Handled);
    assert!(device.current().gaming_mode);
}

#[test]
fn updates_apply_in_order_and_the_latest_wins() {
    let mut device = new_device(&body_with(false, false, 0)).unwrap();
    let receiver = device.state.subscribe();
    let mut packets: Vec<Packet> = (1u8..=20).map(|level| update(level % 2 == 0, false, level)).collect();
    packets.insert(5, Packet { command: Command(9, 9), body: vec![] });
    let mut broken = update(true, true, 77);
    broken.body.truncate(10);
    packets.insert(12, broken);
    let installed = device.receive_all(&packets);
    assert_eq!(installed, 20);
    assert_eq!(device.state.installs(), 20);
    assert_eq!(device.modules.packet_handlers.unhandled(), 1);
    assert_eq!(device.current().dual_battery.left.level, 20);
    assert!(device.current().touch_tone);
    assert!(!device.current().gaming_mode);
    assert!(matches!(receiver.has_changed(), Ok(true)));
    assert_eq!(*receiver.borrow(), device.current());
}

#[test]
fn readers_see_each_install() {
    let first = A3959State::from_state_update(&body_with(false, false, 1)).unwrap();
    let second = A3959State::from_state_update(&body_with(true, false, 2)).unwrap();
    let mut cell = StateCell::new(first);
    let mut receiver = cell.subscribe();
    assert_eq!(cell.current(), first);
    assert_eq!(*receiver.borrow_and_update(), first);
    assert!(matches!(receiver.has_changed(), Ok(false)));
    cell.install(second);
    assert_eq!(cell.current(), second);
    assert_eq!(cell.installs(), 1);
    assert!(matches!(receiver.has_changed(), Ok(true)));
    assert_eq!(*receiver.borrow_and_update(), second);
}

#[test]
fn later_registration_replaces_the_earlier_one() {
    let mut table: PacketManager<A3959State, A3959PacketHandler> = PacketManager::new();
    assert!(!table.has_handler(command()));
    let handler = A3959PacketHandler::StateUpdate(StateUpdatePacketHandler {});
    table.set_handler(Command(2, 2), handler);
    table.set_handler(Command(2, 2), handler);
    assert!(table.has_handler(Command(2, 2)));
    assert!(!table.has_handler(Command(2, 3)));
    assert!(!table.has_handler(Command(3, 2)));
    let first = A3959State::from_state_update(&body_with(false, false, 1)).unwrap();
    let mut cell = StateCell::new(first);
    let moved = Packet { command: Command(2, 2), body: body_with(true, true, 3) };
    assert_eq!(table.handle(&mut cell, &moved), Delivery::Handled);
    assert_eq!(cell.current().dual_battery.left.level, 3);
    assert_eq!(table.handle(&mut cell, &update(false, false, 8)), Delivery::Unhandled);
    assert_eq!(cell.current().dual_battery.left.level, 3);
    assert_eq!(table.unhandled(), 1);
}

#[test]
fn add_state_update_registers_under_the_state_update_command() {
    let mut modules: ModuleCollection<A3959State, A3959PacketHandler> = ModuleCollection::new();
    assert!(!modules.packet_handlers.has_handler(command()));
    modules.add_state_update();
    assert!(modules.packet_handlers.has_handler(Command(1, 1)));
    let first = A3959State::from_state_update(&body_with(false, false, 1)).unwrap();
    let mut cell = StateCell::new(first);
    let handler = StateUpdatePacketHandler {};
    assert_eq!(handler.handle_packet(&mut cell, &update(true, false, 6)), Ok(()));
    assert_eq!(cell.current().dual_battery.left.level, 6);
    let mut short = update(true, false, 7);
    short.body.pop();
    assert_eq!(handler.handle_packet(&mut cell, &short), Err(DecodeError::Incomplete));
    assert_eq!(cell.current().dual_battery.left.level, 6);
}
