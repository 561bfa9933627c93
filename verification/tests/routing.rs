use stack_shield::address::{BoardPosition, Probe, Target, TestChannel};
use stack_shield::error::ErrorKind;
use stack_shield::expander::{locate, Bank, Direction, ExpanderBus, PinOp, PinState};
use stack_shield::routing::{
    channel_of_probe, channel_pin, target_pin, RoutingController, PRESENCE_PIN,
};
use stack_shield::signal::Level;

fn channels() -> Vec<TestChannel> {
    vec![
        TestChannel::Channel0,
        TestChannel::Channel1,
        TestChannel::Channel2,
        TestChannel::Channel3,
    ]
}

fn targets() -> Vec<Target> {
    vec![Target::Target0, Target::Target1, Target::Target2, Target::Target3]
}

fn controller(position: u8) -> RoutingController {
    RoutingController::new(BoardPosition::new(position).unwrap())
}

fn ready(position: u8) -> RoutingController {
    let mut c = controller(position);
    c.init_pins().unwrap();
    c.disconnect_all().unwrap();
    c.bus.take_journal();
    c
}

#[test]
fn board_position_range_and_address() {
    for p in 0..8u8 {
        let pos = BoardPosition::new(p).unwrap();
        assert_eq!(pos.index(), p);
        assert_eq!(pos.address(), 32 + p);
        assert_eq!(controller(p).address(), 32 + p);
    }
    assert_eq!(BoardPosition::new(8), Err(ErrorKind::OutOfRange));
    assert_eq!(BoardPosition::new(255), Err(ErrorKind::OutOfRange));
}

#[test]
fn channel_target_probe_from_numbers() {
    for v in 0..4u8 {
        assert_eq!(TestChannel::try_from_index(v).unwrap().index(), v);
        assert_eq!(Target::try_from_index(v).unwrap().index(), v);
        assert_eq!(Probe::try_from_index(v).unwrap().index(), v);
    }
    assert_eq!(TestChannel::try_from_index(4), Err(ErrorKind::OutOfRange));
    assert_eq!(Target::try_from_index(4), Err(ErrorKind::OutOfRange));
    assert_eq!(Probe::try_from_index(4), Err(ErrorKind::OutOfRange));
    assert_eq!(TestChannel::try_from_index(2), Ok(TestChannel::Channel2));
    assert_eq!(Target::try_from_index(3), Ok(Target::Target3));
}

#[test]
fn pin_assignment_is_fixed() {
    assert_eq!(channel_pin(TestChannel::Channel0), 0);
    assert_eq!(channel_pin(TestChannel::Channel3), 3);
    assert_eq!(target_pin(Target::Target0), 4);
    assert_eq!(target_pin(Target::Target3), 7);
    assert_eq!(PRESENCE_PIN, 8);
    assert_eq!(channel_of_probe(Probe::Probe0), TestChannel::Channel3);
    assert_eq!(channel_of_probe(Probe::Probe1), TestChannel::Channel2);
    assert_eq!(channel_of_probe(Probe::Probe2), TestChannel::Channel1);
    assert_eq!(channel_of_probe(Probe::Probe3), TestChannel::Channel0);
}

#[test]
fn power_on_pins_are_inputs() {
    let bus = ExpanderBus::new();
    for i in 0..16u8 {
        assert_eq!(
            bus.pin_state(i),
            Some(PinState { direction: Direction::Input, latch: Level::High, line: Level::Low })
        );
        assert_eq!(bus.read_pin(i), Ok(Level::Low));
    }
    assert_eq!(bus.pin_state(16), None);
    assert_eq!(bus.read_pin(16), Err(ErrorKind::OutOfRange));
    assert_eq!(bus.journal_len(), 0);
    assert!(bus.is_responding());
}

#[test]
fn init_then_disconnect_leaves_everything_open() {
    for p in 0..8u8 {
        let mut c = controller(p);
        assert_eq!(c.init_pins(), Ok(()));
        assert_eq!(c.disconnect_all(), Ok(()));
        for i in 0..8u8 {
            let s = c.bus.pin_state(i).unwrap();
            assert_eq!(s.direction, Direction::Output);
            assert_eq!(s.latch, Level::Low);
            assert!(!s.is_asserted());
            assert_eq!(c.bus.read_pin(i), Ok(Level::Low));
        }
        for i in 8..16u8 {
            assert_eq!(c.bus.pin_state(i).unwrap().direction, Direction::Input);
        }
        for ch in channels() {
            for t in targets() {
                assert!(!c.is_routed(ch, t));
            }
        }
        assert_eq!(c.position.index(), p);
    }
}

#[test]
fn init_journal_clears_latch_before_output() {
    let mut c = controller(0);
    c.init_pins().unwrap();
    let journal = c.bus.take_journal();
    assert_eq!(journal.len(), 24);
    assert_eq!(journal[0], PinOp::SetLow(0));
    assert_eq!(journal[1], PinOp::IntoOutput(0));
    assert_eq!(journal[14], PinOp::SetLow(7));
    assert_eq!(journal[15], PinOp::IntoOutput(7));
    assert_eq!(journal[16], PinOp::IntoInput(8));
    assert_eq!(journal[23], PinOp::IntoInput(15));
    assert_eq!(c.bus.journal_len(), 0);
}

#[test]
fn init_is_idempotent() {
    let mut c = controller(3);
    c.init_pins().unwrap();
    let first: Vec<Option<PinState>> = (0..16u8).map(|i| c.bus.pin_state(i)).collect();
    c.init_pins().unwrap();
    let second: Vec<Option<PinState>> = (0..16u8).map(|i| c.bus.pin_state(i)).collect();
    assert_eq!(first, second);
}

#[test]
fn disconnect_all_journal() {
    let mut c = ready(1);
    c.disconnect_all().unwrap();
    let expected: Vec<PinOp> = (0..8u8).map(PinOp::SetLow).collect();
    assert_eq!(c.bus.take_journal(), expected);
}

#[test]
fn connect_asserts_exactly_its_pair() {
    for ch in channels() {
        for t in targets() {
            let mut c = ready(2);
            let before: Vec<Option<PinState>> = (0..16u8).map(|i| c.bus.pin_state(i)).collect();
            assert_eq!(c.connect_test_channel_to_target(ch, t), Ok(()));
            assert!(c.is_routed(ch, t));
            let cp = channel_pin(ch);
            let tp = target_pin(t);
            for i in 0..16u8 {
                let s = c.bus.pin_state(i);
                if i == cp || i == tp {
                    assert!(s.unwrap().is_asserted());
                    assert_eq!(c.bus.read_pin(i), Ok(Level::High));
                } else {
                    assert_eq!(s, before[i as usize]);
                }
            }
            for ch2 in channels() {
                for t2 in targets() {
                    assert_eq!(c.is_routed(ch2, t2), ch2 == ch && t2 == t);
                }
            }
            assert_eq!(c.bus.take_journal(), vec![PinOp::SetHigh(cp), PinOp::SetHigh(tp)]);
        }
    }
}

#[test]
fn connect_does_not_clear_a_standing_route() {
    let mut c = ready(0);
    c.connect_test_channel_to_target(TestChannel::Channel0, Target::Target0).unwrap();
    c.connect_test_channel_to_target(TestChannel::Channel0, Target::Target1).unwrap();
    assert!(c.is_routed(TestChannel::Channel0, Target::Target0));
    assert!(c.is_routed(TestChannel::Channel0, Target::Target1));
    assert!(!c.is_routed(TestChannel::Channel1, Target::Target0));
}

#[test]
fn disconnect_channel_ends_its_routes() {
    let mut c = ready(0);
    c.connect_test_channel_to_target(TestChannel::Channel2, Target::Target1).unwrap();
    c.bus.take_journal();
    assert_eq!(c.disconnect(TestChannel::Channel2), Ok(()));
    assert!(!c.is_routed(TestChannel::Channel2, Target::Target1));
    assert_eq!(c.bus.take_journal(), vec![PinOp::SetLow(2)]);
    assert!(c.bus.pin_state(5).unwrap().is_asserted());
}

#[test]
fn probe_is_routed_over_its_channel() {
    let mut c = ready(0);
    assert_eq!(c.connect_probe_to_target(Probe::Probe0, Target::Target1), Ok(()));
    assert!(c.is_routed(TestChannel::Channel3, Target::Target1));
    assert!(!c.is_routed(TestChannel::Channel0, Target::Target1));
    assert_eq!(c.bus.take_journal(), vec![PinOp::SetHigh(3), PinOp::SetHigh(5)]);
}

#[test]
fn presence_follows_the_sense_pin_only() {
    let mut c = ready(4);
    assert_eq!(c.daughterboard_is_connected(), Ok(false));
    c.bus.drive_line(PRESENCE_PIN, Level::High);
    assert_eq!(c.daughterboard_is_connected(), Ok(true));
    c.connect_test_channel_to_target(TestChannel::Channel1, Target::Target2).unwrap();
    assert_eq!(c.daughterboard_is_connected(), Ok(true));
    c.disconnect_all().unwrap();
    assert_eq!(c.daughterboard_is_connected(), Ok(true));
    c.bus.drive_line(PRESENCE_PIN, Level::Low);
    assert_eq!(c.daughterboard_is_connected(), Ok(false));
    c.connect_test_channel_to_target(TestChannel::Channel1, Target::Target2).unwrap();
    assert_eq!(c.daughterboard_is_connected(), Ok(false));
}

#[test]
fn out_of_range_target_writes_no_pin() {
    let mut c = ready(0);
    c.bus.drive_line(PRESENCE_PIN, Level::High);
    let before: Vec<Option<PinState>> = (0..16u8).map(|i| c.bus.pin_state(i)).collect();
    assert_eq!(c.select_route(0, 4), Err(ErrorKind::OutOfRange));
    assert_eq!(c.select_route(4, 0), Err(ErrorKind::OutOfRange));
    assert_eq!(c.select_route(200, 200), Err(ErrorKind::OutOfRange));
    assert_eq!(c.bus.journal_len(), 0);
    let after: Vec<Option<PinState>> = (0..16u8).map(|i| c.bus.pin_state(i)).collect();
    assert_eq!(before, after);
}

#[test]
fn no_daughterboard_writes_no_pin() {
    let mut c = ready(0);
    assert_eq!(c.select_route(0, 0), Err(ErrorKind::NoDaughterboard));
    assert_eq!(c.select_route(0, 9), Err(ErrorKind::NoDaughterboard));
    assert_eq!(c.bus.journal_len(), 0);
    assert!(!c.is_routed(TestChannel::Channel0, Target::Target0));
}

#[test]
fn select_route_connects_by_numbers() {
    let mut c = ready(5);
    c.bus.drive_line(PRESENCE_PIN, Level::High);
    assert_eq!(c.select_route(3, 2), Ok(()));
    assert!(c.is_routed(TestChannel::Channel3, Target::Target2));
    assert_eq!(c.bus.take_journal(), vec![PinOp::SetHigh(3), PinOp::SetHigh(6)]);
}

#[test]
fn silent_chip_is_a_bus_error_and_nothing_changes() {
    let mut c = ready(0);
    c.bus.drive_line(PRESENCE_PIN, Level::High);
    c.bus.set_responding(false);
    assert_eq!(c.init_pins(), Err(ErrorKind::BusError));
    assert_eq!(c.disconnect_all(), Err(ErrorKind::BusError));
    assert_eq!(c.daughterboard_is_connected(), Err(ErrorKind::BusError));
    assert_eq!(
        c.connect_test_channel_to_target(TestChannel::Channel0, Target::Target0),
        Err(ErrorKind::BusError)
    );
    assert_eq!(c.connect_probe_to_target(Probe::Probe0, Target::Target0), Err(ErrorKind::BusError));
    assert_eq!(c.disconnect(TestChannel::Channel0), Err(ErrorKind::BusError));
    assert_eq!(c.select_route(0, 0), Err(ErrorKind::BusError));
    assert_eq!(c.bus.write_pin(0, Level::High), Err(ErrorKind::BusError));
    assert_eq!(c.bus.read_pin(0), Err(ErrorKind::BusError));
    assert_eq!(c.bus.journal_len(), 0);
    c.bus.set_responding(true);
    assert!(!c.is_routed(TestChannel::Channel0, Target::Target0));
}

#[test]
fn expander_pin_operations() {
    let mut bus = ExpanderBus::new();
    assert_eq!(bus.write_pin(16, Level::High), Err(ErrorKind::OutOfRange));
    assert_eq!(bus.configure_pin(16, Direction::Output), Err(ErrorKind::OutOfRange));
    assert_eq!(bus.issue(PinOp::SetLow(200)), Err(ErrorKind::OutOfRange));
    assert_eq!(bus.write_pin(2, Level::Low), Ok(()));
    assert_eq!(bus.read_pin(2), Ok(Level::Low));
    bus.drive_line(2, Level::High);
    assert_eq!(bus.read_pin(2), Ok(Level::High));
    assert_eq!(bus.configure_pin(2, Direction::Output), Ok(()));
    assert_eq!(bus.read_pin(2), Ok(Level::Low));
    assert_eq!(bus.write_pin(2, Level::High), Ok(()));
    assert_eq!(bus.read_pin(2), Ok(Level::High));
    assert_eq!(bus.configure_pin(2, Direction::Input), Ok(()));
    assert_eq!(bus.read_pin(2), Ok(Level::High));
    bus.drive_line(2, Level::Low);
    assert_eq!(bus.read_pin(2), Ok(Level::Low));
    bus.drive_line(16, Level::High);
    assert_eq!(
        bus.take_journal(),
        vec![
            PinOp::SetLow(2),
            PinOp::IntoOutput(2),
            PinOp::SetHigh(2),
            PinOp::IntoInput(2)
        ]
    );
    assert_eq!(PinOp::SetHigh(9).target_pin(), 9);
    let s = PinState { direction: Direction::Input, latch: Level::Low, line: Level::High };
    assert_eq!(s.read(), Level::High);
    assert_eq!(PinOp::IntoOutput(1).apply_to(s).read(), Level::Low);
}

#[test]
fn batch_write_sets_the_selected_latches() {
    let mut bus = ExpanderBus::new();
    for i in 0..16u8 {
        bus.configure_pin(i, Direction::Output).unwrap();
    }
    bus.take_journal();
    assert_eq!(bus.write_pins(0b0000_0000_0000_0111, 0b0000_0000_0000_0101), Ok(()));
    assert_eq!(bus.read_pin(0), Ok(Level::High));
    assert_eq!(bus.read_pin(1), Ok(Level::Low));
    assert_eq!(bus.read_pin(2), Ok(Level::High));
    assert_eq!(bus.read_pin(3), Ok(Level::High));
    assert_eq!(
        bus.take_journal(),
        vec![PinOp::SetHigh(0), PinOp::SetLow(1), PinOp::SetHigh(2)]
    );
    assert_eq!(bus.write_pins(0x8000, 0), Ok(()));
    assert_eq!(bus.read_pin(15), Ok(Level::Low));
    assert_eq!(bus.take_journal(), vec![PinOp::SetLow(15)]);
    assert_eq!(bus.write_pins(0, 0xffff), Ok(()));
    assert_eq!(bus.journal_len(), 0);
    bus.set_responding(false);
    assert_eq!(bus.write_pins(1, 0), Err(ErrorKind::BusError));
    assert_eq!(bus.write_pins(0, 0), Err(ErrorKind::BusError));
    bus.set_responding(true);
    assert_eq!(bus.read_pin(0), Ok(Level::High));
}

#[test]
fn pins_are_located_in_two_banks() {
    assert_eq!(locate(0), Some((Bank::Bank0, 0)));
    assert_eq!(locate(7), Some((Bank::Bank0, 7)));
    assert_eq!(locate(8), Some((Bank::Bank1, 0)));
    assert_eq!(locate(15), Some((Bank::Bank1, 7)));
    assert_eq!(locate(16), None);
    assert_eq!(locate(255), None);
}

#[test]
fn connections_lists_the_routes() {
    let mut c = ready(0);
    assert_eq!(c.connections(), vec![]);
    c.connect_test_channel_to_target(TestChannel::Channel2, Target::Target1).unwrap();
    assert_eq!(c.connections(), vec![(TestChannel::Channel2, Target::Target1)]);
    c.connect_test_channel_to_target(TestChannel::Channel0, Target::Target3).unwrap();
    assert_eq!(
        c.connections(),
        vec![
            (TestChannel::Channel0, Target::Target1),
            (TestChannel::Channel2, Target::Target1),
            (TestChannel::Channel0, Target::Target3),
            (TestChannel::Channel2, Target::Target3),
        ]
    );
    c.disconnect(TestChannel::Channel0).unwrap();
    assert_eq!(
        c.connections(),
        vec![
            (TestChannel::Channel2, Target::Target1),
            (TestChannel::Channel2, Target::Target3)
        ]
    );
    c.disconnect_all().unwrap();
    assert_eq!(c.connections(), vec![]);
}

#[test]
fn connect_on_pins_that_were_never_initialised_routes_nothing() {
    let mut c = controller(0);
    assert_eq!(c.connect_test_channel_to_target(TestChannel::Channel0, Target::Target0), Ok(()));
    assert!(!c.is_routed(TestChannel::Channel0, Target::Target0));
    assert_eq!(c.bus.pin_state(0).unwrap().latch, Level::High);
    assert_eq!(c.bus.pin_state(0).unwrap().direction, Direction::Input);
}
