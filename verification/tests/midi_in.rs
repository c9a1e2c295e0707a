use maestro::midi_in::{
    connect_key, dispatch_event, is_ump_packet, Connection, Routed, SeqEvent, Subscriptions,
};

fn shorts(ev: SeqEvent) -> Vec<u32> {
    match dispatch_event(ev) {
        Routed::Shorts(v) => v,
        Routed::Long(_) => panic!("expected short messages"),
    }
}

#[test]
fn channel_messages_are_packed() {
    assert_eq!(shorts(SeqEvent::NoteOn { channel: 2, note: 60, velocity: 100 }), vec![0x00643C92]);
    assert_eq!(shorts(SeqEvent::NoteOff { channel: 0, note: 60, velocity: 0 }), vec![0x00003C80]);
    assert_eq!(shorts(SeqEvent::KeyPressure { channel: 15, note: 1, velocity: 2 }), vec![0x000201AF]);
    // Channel bits above the low nibble and data bits above 7 are dropped.
    assert_eq!(shorts(SeqEvent::NoteOn { channel: 0x12, note: 0xFF, velocity: 0x80 }), vec![0x00007F92]);
    assert_eq!(shorts(SeqEvent::Controller { channel: 1, param: 7, value: 100 }), vec![0x006407B1]);
    assert_eq!(shorts(SeqEvent::ProgramChange { channel: 3, value: 5 }), vec![0x000005C3]);
    assert_eq!(shorts(SeqEvent::ChannelPressure { channel: 3, value: -1 }), vec![0x00007FD3]);
}

#[test]
fn pitch_bend_is_shifted_and_clamped() {
    // Centre.
    assert_eq!(shorts(SeqEvent::PitchBend { channel: 0, value: 0 }), vec![0x004000E0]);
    // Extremes.
    assert_eq!(shorts(SeqEvent::PitchBend { channel: 0, value: -8192 }), vec![0x000000E0]);
    assert_eq!(shorts(SeqEvent::PitchBend { channel: 0, value: 8191 }), vec![0x007F7FE0]);
    assert_eq!(shorts(SeqEvent::PitchBend { channel: 0, value: -100000 }), vec![0x000000E0]);
    assert_eq!(shorts(SeqEvent::PitchBend { channel: 0, value: 100000 }), vec![0x007F7FE0]);
}

#[test]
fn fourteen_bit_controllers_split_into_pairs() {
    // Volume (7) with its LSB pair (39).
    assert_eq!(
        shorts(SeqEvent::Control14 { channel: 0, param: 7, value: 0x3FFF }),
        vec![0x007F07B0, 0x007F27B0]
    );
    // Controllers past 31 have no LSB pair.
    assert_eq!(shorts(SeqEvent::Control14 { channel: 0, param: 40, value: 0x80 }), vec![0x000128B0]);
}

#[test]
fn parameters_become_four_controllers() {
    assert_eq!(
        shorts(SeqEvent::RegisteredParam { channel: 1, param: 0, value: 0x100 }),
        vec![0x000065B1, 0x000064B1, 0x000206B1, 0x000026B1]
    );
    assert_eq!(
        shorts(SeqEvent::NonRegisteredParam { channel: 0, param: 0x81, value: 5 }),
        vec![0x000163B0, 0x000162B0, 0x000006B0, 0x000526B0]
    );
}

#[test]
fn sysex_reset_and_others() {
    let data = vec![0xF0, 0x7E, 0x7F, 0x09, 0x01, 0xF7];
    assert_eq!(dispatch_event(SeqEvent::Sysex(data.clone())), Routed::Long(data));
    assert_eq!(shorts(SeqEvent::Reset), vec![0xFF]);
    assert!(shorts(SeqEvent::Other).is_empty());
}

#[test]
fn connection_follows_the_subscriptions() {
    let mut subs = Subscriptions::new();
    assert!(!subs.connected());
    assert_eq!(subs.subscribe((20, 0, 128, 0)), Connection::Connected);
    assert_eq!(subs.subscribe((20, 0, 128, 0)), Connection::Unchanged);
    assert_eq!(subs.subscribe((21, 0, 128, 1)), Connection::Unchanged);
    assert!(subs.connected());
    assert_eq!(subs.unsubscribe((20, 0, 128, 0)), Connection::Unchanged);
    assert_eq!(subs.unsubscribe((99, 0, 128, 0)), Connection::Unchanged);
    assert_eq!(subs.unsubscribe((21, 0, 128, 1)), Connection::Disconnected);
    assert!(!subs.connected());
}

#[test]
fn ump_legacy_fields() {
    assert!(is_ump_packet(0x20));
    assert!(is_ump_packet(0x25));
    assert!(!is_ump_packet(0x05));
    assert_eq!(connect_key(u32::from_le_bytes([20, 1, 128, 3])), (20, 1, 128, 3));
}
