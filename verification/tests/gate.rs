use maestro::daemon::ServiceEvent;
use maestro::gate::{Decoded, GateAction, GateMode, MidiGate, MAX_BUFFERED_BYTES, MAX_BUFFERED_EVENTS, MAX_ENTRY_BYTES};

/// Collects the start requests a gate asks for, the way the control loop's
/// channel would receive them.
struct Control {
    events: Vec<ServiceEvent>,
}

impl Control {
    fn new() -> Self {
        Control { events: Vec::new() }
    }

    fn see(&mut self, action: GateAction) {
        if action == (GateAction::Hold { wake: true }) {
            self.events.push(ServiceEvent::WakeEngine);
        }
    }

    fn try_recv(&mut self) -> Option<ServiceEvent> {
        if self.events.is_empty() {
            None
        } else {
            Some(self.events.remove(0))
        }
    }
}

fn gate() -> (MidiGate, Control) {
    (MidiGate::new(), Control::new())
}

fn idle_gate() -> (MidiGate, Control) {
    let (mut gate, rx) = gate();
    gate.demote(GateMode::Idle);
    (gate, rx)
}

#[test]
fn an_off_gate_discards_everything() {
    let (mut gate, mut rx) = gate();
    assert_eq!(gate.mode(), GateMode::Off);

    let a = gate.short(0, 0x90_40_7F);
    rx.see(a);
    let a = gate.long(1, &[0xF0, 0x7E, 0xF7]);
    rx.see(a);
    assert_eq!(a, GateAction::Discard);

    assert!(gate.drain_buffer().is_empty());
    assert!(!gate.wants_start());
    assert_eq!(rx.try_recv(), None);
}

#[test]
fn an_idle_gate_buffers_in_order_across_message_kinds() {
    let (mut gate, _rx) = idle_gate();

    gate.short(0, 0x90_40_7F);
    gate.long(1, &[0xF0, 0x43, 0x10, 0xF7]);
    gate.ump(&[0x2091_407F]);
    gate.short(0, 0x80_40_00);

    assert_eq!(
        gate.drain_buffer(),
        vec![
            Decoded::Short(0, 0x90_40_7F),
            Decoded::Long(1, vec![0xF0, 0x43, 0x10, 0xF7]),
            Decoded::Ump(vec![0x2091_407F]),
            Decoded::Short(0, 0x80_40_00),
        ]
    );
}

#[test]
fn long_payloads_survive_the_heap_path() {
    let (mut gate, _rx) = idle_gate();

    let sysex: Vec<u8> = (0..64u8).collect();
    let ump: Vec<u32> = (0..16u32).collect();
    gate.long(3, &sysex);
    gate.ump(&ump);

    assert_eq!(
        gate.drain_buffer(),
        vec![Decoded::Long(3, sysex), Decoded::Ump(ump)]
    );
}

#[test]
fn idle_asks_for_a_start_exactly_once_per_down_cycle() {
    let (mut gate, mut rx) = idle_gate();

    for note in 0..8u32 {
        let a = gate.short(0, 0x90_00_7F | (note << 8));
        rx.see(a);
    }

    assert_eq!(rx.try_recv(), Some(ServiceEvent::WakeEngine));
    assert_eq!(rx.try_recv(), None);
    assert!(gate.wants_start());
}

#[test]
fn starting_buffers_without_asking_for_a_start() {
    let (mut gate, mut rx) = gate();
    gate.demote(GateMode::Starting);

    let a = gate.short(0, 0x90_40_7F);
    rx.see(a);

    assert_eq!(rx.try_recv(), None);
    assert!(!gate.wants_start());
    assert_eq!(gate.drain_buffer(), vec![Decoded::Short(0, 0x90_40_7F)]);
}

#[test]
fn overflow_evicts_the_oldest_and_counts_the_loss() {
    let (mut gate, _rx) = idle_gate();

    let total = MAX_BUFFERED_EVENTS + 100;
    for n in 0..total as u32 {
        gate.short(0, n);
    }

    assert_eq!(gate.dropped(), 100);

    let drained = gate.drain_buffer();
    assert_eq!(drained.len(), MAX_BUFFERED_EVENTS);
    assert_eq!(drained.first(), Some(&Decoded::Short(0, 100)));
    assert_eq!(
        drained.last(),
        Some(&Decoded::Short(0, total as u32 - 1)),
        "the most recent event must always be kept"
    );
}

#[test]
fn the_byte_cap_bounds_a_flood_of_sysex() {
    let (mut gate, _rx) = idle_gate();

    let chunk = vec![0u8; 8192];
    for _ in 0..(MAX_BUFFERED_BYTES / chunk.len()) + 10 {
        gate.long(0, &chunk);
    }

    let drained = gate.drain_buffer();
    let held: usize = drained
        .iter()
        .map(|d| match d {
            Decoded::Long(_, data) => data.len(),
            _ => 0,
        })
        .sum();
    assert!(held <= MAX_BUFFERED_BYTES, "held {held} bytes");
    assert!(gate.dropped() > 0);
}

#[test]
fn an_oversized_entry_is_refused_without_clearing_the_buffer() {
    let (mut gate, _rx) = idle_gate();

    gate.short(0, 0x90_40_7F);
    gate.long(0, &vec![0u8; MAX_ENTRY_BYTES + 1]);

    assert_eq!(gate.dropped(), 1);
    assert_eq!(gate.drain_buffer(), vec![Decoded::Short(0, 0x90_40_7F)]);
}

#[test]
fn demoting_to_off_clears_the_buffer_but_idle_keeps_it() {
    let (mut gate, _rx) = idle_gate();
    gate.short(0, 0x90_40_7F);

    gate.demote(GateMode::Idle);
    assert_eq!(gate.drain_buffer().len(), 1);

    gate.short(0, 0x90_40_7F);
    gate.demote(GateMode::Off);
    assert!(gate.drain_buffer().is_empty());
    assert!(!gate.wants_start());
}

#[test]
fn the_state_cell_mirrors_the_mode_for_the_stats_publisher() {
    let (mut gate, _rx) = gate();

    assert_eq!(gate.state_code(), GateMode::Off.code());
    gate.demote(GateMode::Starting);
    assert_eq!(gate.state_code(), GateMode::Starting.code());
    gate.demote(GateMode::Idle);
    assert_eq!(gate.state_code(), GateMode::Idle.code());
}

#[test]
fn activity_is_reported_once_then_cleared() {
    let (mut gate, _rx) = gate();

    assert!(!gate.take_activity());
    gate.short(0, 0x90_40_7F);
    assert!(gate.take_activity());
    assert!(!gate.take_activity());
}

#[test]
fn promotion_replays_the_held_events_in_order_and_goes_live() {
    let (mut gate, _rx) = idle_gate();
    gate.short(0, 0x90_40_7F);
    gate.long(2, &[0xF0, 0x01, 0xF7]);

    let promotion = gate.promote();
    assert_eq!(
        promotion.replay,
        vec![Decoded::Short(0, 0x90_40_7F), Decoded::Long(2, vec![0xF0, 0x01, 0xF7])]
    );
    assert_eq!(promotion.dropped, 0);
    assert_eq!(gate.mode(), GateMode::Live);
    assert_eq!(gate.short(0, 0x80_40_00), GateAction::Forward);
    assert!(gate.drain_buffer().is_empty());
    assert!(gate.demote(GateMode::Idle));
    assert!(!gate.demote(GateMode::Idle));
}

#[test]
fn the_wire_codes_of_the_modes() {
    assert_eq!(GateMode::Off.code(), 0);
    assert_eq!(GateMode::Starting.code(), 1);
    assert_eq!(GateMode::Live.code(), 2);
    assert_eq!(GateMode::Idle.code(), 3);
}

#[test]
fn short_and_inline_sizes_hold_no_heap_bytes() {
    let (mut gate, _rx) = idle_gate();
    gate.long(0, &[0u8; 12]);
    gate.ump(&[1, 2, 3, 4]);
    assert_eq!(gate.held_bytes(), 0);
    gate.long(0, &[0u8; 13]);
    gate.ump(&[1, 2, 3, 4, 5]);
    assert_eq!(gate.held_bytes(), 13 + 20);
    assert_eq!(gate.held_count(), 4);
}
