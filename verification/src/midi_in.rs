//! Input side of the Linux sequencer backend: turning sequencer events into
//! MIDI 1.0 short messages, tracking port subscriptions so the daemon knows
//! whether any application is connected, and decoding the few legacy fields
//! that arrive on a UMP endpoint.

use vstd::arithmetic::div_mod::{lemma_fundamental_div_mod_converse, lemma_mod_breakdown};
use vstd::prelude::*;

verus! {

/// A sequencer event, reduced to the plain values that routing reads. Events
/// whose payload could not be read, and kinds that are not routed, are
/// `Other`.
#[derive(Debug, Clone, PartialEq)]
pub enum SeqEvent {
    NoteOn { channel: u8, note: u8, velocity: u8 },
    NoteOff { channel: u8, note: u8, velocity: u8 },
    KeyPressure { channel: u8, note: u8, velocity: u8 },
    Controller { channel: u8, param: u32, value: i32 },
    ProgramChange { channel: u8, value: i32 },
    ChannelPressure { channel: u8, value: i32 },
    PitchBend { channel: u8, value: i32 },
    Control14 { channel: u8, param: u32, value: i32 },
    RegisteredParam { channel: u8, param: u32, value: i32 },
    NonRegisteredParam { channel: u8, param: u32, value: i32 },
    Sysex(Vec<u8>),
    Reset,
    Other,
}

/// What one sequencer event becomes: short messages in order, or one
/// long (SysEx) message.
#[derive(Debug, Clone, PartialEq)]
pub enum Routed {
    Shorts(Vec<u32>),
    Long(Vec<u8>),
}

/// A packed MIDI 1.0 short message: the status byte, then the two data bytes
/// with their top bit cleared, least significant byte first.
pub open spec fn pack(status: int, d1: int, d2: int) -> u32 {
    (status + (d1 % 128) * 256 + (d2 % 128) * 65536) as u32
}

/// The status byte of a channel message.
pub open spec fn status(kind: int, channel: u8) -> int {
    kind + channel % 16
}

/// The pitch-bend value as MIDI carries it: the sequencer's -8192..8191
/// shifted to 0..16383, out-of-range values pinned to the ends.
pub open spec fn bend_value(value: i32) -> int {
    let v = value + 8192;
    if v < 0 {
        0
    } else if v > 16383 {
        16383
    } else {
        v
    }
}

/// The controller pairs that select a registered or non-registered parameter.
pub open spec fn param_select(registered: bool) -> (int, int) {
    if registered {
        (101, 100)
    } else {
        (99, 98)
    }
}

/// The four controller messages that set a (non-)registered parameter: the
/// parameter number's MSB and LSB, then the data entry MSB and LSB.
pub open spec fn param_messages(registered: bool, channel: u8, param: u32, value: i32) -> Seq<u32> {
    let s = status(0xB0, channel);
    let v = (value as u32) as int;
    let (msb_cc, lsb_cc) = param_select(registered);
    seq![
        pack(s, msb_cc, param as int / 128),
        pack(s, lsb_cc, param as int),
        pack(s, 6, v / 128),
        pack(s, 38, v),
    ]
}

/// The short messages an event is routed as.
pub open spec fn routed_shorts(ev: SeqEvent) -> Seq<u32> {
    match ev {
        SeqEvent::NoteOn { channel, note, velocity } => seq![
            pack(status(0x90, channel), note as int, velocity as int),
        ],
        SeqEvent::NoteOff { channel, note, velocity } => seq![
            pack(status(0x80, channel), note as int, velocity as int),
        ],
        SeqEvent::KeyPressure { channel, note, velocity } => seq![
            pack(status(0xA0, channel), note as int, velocity as int),
        ],
        SeqEvent::Controller { channel, param, value } => seq![
            pack(status(0xB0, channel), param as int, (value as u32) as int),
        ],
        SeqEvent::ProgramChange { channel, value } => seq![
            pack(status(0xC0, channel), (value as u32) as int, 0),
        ],
        SeqEvent::ChannelPressure { channel, value } => seq![
            pack(status(0xD0, channel), (value as u32) as int, 0),
        ],
        SeqEvent::PitchBend { channel, value } => seq![
            pack(status(0xE0, channel), bend_value(value), bend_value(value) / 128),
        ],
        SeqEvent::Control14 { channel, param, value } => {
            let v = (value as u32) as int;
            let msb = pack(status(0xB0, channel), param as int, v / 128);
            if param < 32 {
                seq![msb, pack(status(0xB0, channel), param + 32, v)]
            } else {
                seq![msb]
            }
        },
        SeqEvent::RegisteredParam { channel, param, value } => param_messages(
            true,
            channel,
            param,
            value,
        ),
        SeqEvent::NonRegisteredParam { channel, param, value } => param_messages(
            false,
            channel,
            param,
            value,
        ),
        SeqEvent::Reset => seq![0xFFu32],
        _ => Seq::empty(),
    }
}

/// The status byte of a packed short message (its lowest byte).
pub open spec fn msg_status(m: u32) -> int {
    m as int % 256
}

/// The first data byte of a packed short message: a controller's number.
pub open spec fn msg_data1(m: u32) -> int {
    (m as int / 256) % 256
}

/// The second data byte of a packed short message: a controller's value.
pub open spec fn msg_data2(m: u32) -> int {
    (m as int / 65536) % 256
}

proof fn lemma_unpack(st: int, d1: int, d2: int)
    requires
        0 <= st < 256,
        0 <= d1,
        0 <= d2,
    ensures
        msg_status(pack(st, d1, d2)) == st,
        msg_data1(pack(st, d1, d2)) == d1 % 128,
        msg_data2(pack(st, d1, d2)) == d2 % 128,
        (pack(st, d1, d2) as int) < 0x1000000,
{
    let a = d1 % 128;
    let b = d2 % 128;
    let x = st + a * 256 + b * 65536;
    assert(0 <= x < 0x1000000);
    assert(pack(st, d1, d2) as int == x);
    lemma_fundamental_div_mod_converse(x, 256, a + b * 256, st);
    lemma_fundamental_div_mod_converse(a + b * 256, 256, b, a);
    lemma_fundamental_div_mod_converse(x, 65536, b, st + a * 256);
    lemma_fundamental_div_mod_converse(b, 256, 0, b);
}

/// A (non-)registered parameter event becomes four controller messages on
/// its channel: controller 101 (99 for a non-registered one) and 100 (98)
/// select the parameter, their values reading back as its number modulo
/// 16384 (most significant seven bits first), then data entry controllers
/// 6 and 38 carry the value the same way.
pub proof fn law_parameter_selection(ev: SeqEvent)
    requires
        ev is RegisteredParam || ev is NonRegisteredParam,
    ensures
        routed_shorts(ev).len() == 4,
        match ev {
            SeqEvent::RegisteredParam { channel, param, value } => {
                let m = routed_shorts(ev);
                &&& forall|i: int| 0 <= i < 4 ==> msg_status(#[trigger] m[i]) == 0xB0 + channel % 16
                &&& msg_data1(m[0]) == 101 && msg_data1(m[1]) == 100
                &&& msg_data1(m[2]) == 6 && msg_data1(m[3]) == 38
                &&& msg_data2(m[0]) * 128 + msg_data2(m[1]) == param as int % 16384
                &&& msg_data2(m[2]) * 128 + msg_data2(m[3]) == (value as u32) as int % 16384
            },
            SeqEvent::NonRegisteredParam { channel, param, value } => {
                let m = routed_shorts(ev);
                &&& forall|i: int| 0 <= i < 4 ==> msg_status(#[trigger] m[i]) == 0xB0 + channel % 16
                &&& msg_data1(m[0]) == 99 && msg_data1(m[1]) == 98
                &&& msg_data1(m[2]) == 6 && msg_data1(m[3]) == 38
                &&& msg_data2(m[0]) * 128 + msg_data2(m[1]) == param as int % 16384
                &&& msg_data2(m[2]) * 128 + msg_data2(m[3]) == (value as u32) as int % 16384
            },
            _ => true,
        },
{
    let (registered, channel, param, value) = match ev {
        SeqEvent::RegisteredParam { channel, param, value } => (true, channel, param, value),
        SeqEvent::NonRegisteredParam { channel, param, value } => (false, channel, param, value),
        _ => (true, 0u8, 0u32, 0i32),
    };
    let st = status(0xB0, channel);
    let v = (value as u32) as int;
    let (msb_cc, lsb_cc) = param_select(registered);
    lemma_unpack(st, msb_cc, param as int / 128);
    lemma_unpack(st, lsb_cc, param as int);
    lemma_unpack(st, 6, v / 128);
    lemma_unpack(st, 38, v);
    lemma_mod_breakdown(param as int, 128, 128);
    lemma_mod_breakdown(v, 128, 128);
    let m = routed_shorts(ev);
    assert(m == param_messages(registered, channel, param, value));
    assert(forall|i: int| 0 <= i < 4 ==> msg_status(#[trigger] m[i]) == st);
}

/// An event the sequencer reports with a value that routing cannot shift
/// without overflow (a pitch bend past `i32::MAX - 8192`).
pub open spec fn routable(ev: SeqEvent) -> bool {
    match ev {
        SeqEvent::PitchBend { value, .. } => value <= i32::MAX - 8192,
        _ => true,
    }
}

proof fn lemma_pack(status: u32, d1: u32, d2: u32)
    requires
        status < 256,
    ensures
        status | ((d1 & 0x7F) << 8u32) | ((d2 & 0x7F) << 16u32) == pack(
            status as int,
            d1 as int,
            d2 as int,
        ),
{
    assert(status | ((d1 & 0x7F) << 8u32) | ((d2 & 0x7F) << 16u32) == status + (d1 % 128) * 256
        + (d2 % 128) * 65536) by (bit_vector)
        requires
            status < 256,
    ;
}

fn short(status: u32, d1: u32, d2: u32) -> (m: u32)
    requires
        status < 256,
    ensures
        m == pack(status as int, d1 as int, d2 as int),
{
    proof {
        lemma_pack(status, d1, d2);
    }
    status | ((d1 & 0x7F) << 8u32) | ((d2 & 0x7F) << 16u32)
}

fn channel_status(kind: u32, channel: u8) -> (s: u32)
    requires
        kind < 256,
        kind % 16 == 0,
    ensures
        s == status(kind as int, channel),
        s < 256,
{
    let ch = (channel & 0xF) as u32;
    assert(channel & 0xF == channel % 16) by (bit_vector);
    assert(kind | ch == kind + ch) by (bit_vector)
        requires
            kind % 16 == 0,
            ch < 16,
    ;
    kind | ch
}

/// Routes one sequencer event: channel messages become packed short messages
/// (a 14-bit controller becomes its MSB controller and, for controllers
/// 0..31, its LSB pair; a (non-)registered parameter becomes its four
/// selection and data-entry controllers), SysEx becomes one long message, a
/// reset becomes `0xFF`, anything else becomes nothing.
pub fn dispatch_event(ev: SeqEvent) -> (r: Routed)
    requires
        routable(ev),
    ensures
        match ev {
            SeqEvent::Sysex(data) => r == Routed::Long(data),
            _ => r matches Routed::Shorts(v) && v@ == routed_shorts(ev),
        },
{
    let mut out: Vec<u32> = Vec::new();
    match ev {
        SeqEvent::NoteOn { channel, note, velocity } => {
            out.push(short(channel_status(0x90, channel), note as u32, velocity as u32));
        },
        SeqEvent::NoteOff { channel, note, velocity } => {
            out.push(short(channel_status(0x80, channel), note as u32, velocity as u32));
        },
        SeqEvent::KeyPressure { channel, note, velocity } => {
            out.push(short(channel_status(0xA0, channel), note as u32, velocity as u32));
        },
        SeqEvent::Controller { channel, param, value } => {
            out.push(short(channel_status(0xB0, channel), param, value as u32));
        },
        SeqEvent::ProgramChange { channel, value } => {
            out.push(short(channel_status(0xC0, channel), value as u32, 0));
        },
        SeqEvent::ChannelPressure { channel, value } => {
            out.push(short(channel_status(0xD0, channel), value as u32, 0));
        },
        SeqEvent::PitchBend { channel, value } => {
            let shifted = value + 8192;
            let v: u32 = if shifted < 0 {
                0
            } else if shifted > 16383 {
                16383
            } else {
                shifted as u32
            };
            out.push(short(channel_status(0xE0, channel), v, v >> 7u32));
            assert(v >> 7u32 == v / 128) by (bit_vector);
        },
        SeqEvent::Control14 { channel, param, value } => {
            let s = channel_status(0xB0, channel);
            let v = value as u32;
            assert(v >> 7u32 == v / 128) by (bit_vector);
            out.push(short(s, param, v >> 7u32));
            if param < 32 {
                out.push(short(s, param + 32, v));
            }
        },
        SeqEvent::RegisteredParam { channel, param, value } => {
            let s = channel_status(0xB0, channel);
            let v = value as u32;
            assert(v >> 7u32 == v / 128) by (bit_vector);
            assert(param >> 7u32 == param / 128) by (bit_vector);
            out.push(short(s, 101, param >> 7u32));
            out.push(short(s, 100, param));
            out.push(short(s, 6, v >> 7u32));
            out.push(short(s, 38, v));
        },
        SeqEvent::NonRegisteredParam { channel, param, value } => {
            let s = channel_status(0xB0, channel);
            let v = value as u32;
            assert(v >> 7u32 == v / 128) by (bit_vector);
            assert(param >> 7u32 == param / 128) by (bit_vector);
            out.push(short(s, 99, param >> 7u32));
            out.push(short(s, 98, param));
            out.push(short(s, 6, v >> 7u32));
            out.push(short(s, 38, v));
        },
        SeqEvent::Sysex(data) => {
            return Routed::Long(data);
        },
        SeqEvent::Reset => {
            out.push(0xFF);
        },
        SeqEvent::Other => {},
    }
    proof {
        assert(out@ =~= routed_shorts(ev));
    }
    Routed::Shorts(out)
}

/// A subscription: the connecting (client, port) and the subscribed
/// (client, port).
pub type SubscriptionKey = (i32, i32, i32, i32);

/// The subscriptions currently open on the device's ports. The device counts
/// as connected exactly while at least one is open.
pub struct Subscriptions {
    active: Vec<SubscriptionKey>,
}

impl View for Subscriptions {
    type V = Set<SubscriptionKey>;

    closed spec fn view(&self) -> Set<SubscriptionKey> {
        self.active@.to_set()
    }
}

/// A change in whether any application is connected.
#[derive(Debug, Clone, Copy, PartialEq, Eq, Structural)]
pub enum Connection {
    /// The first subscription opened.
    Connected,
    /// The last subscription closed.
    Disconnected,
    /// Still connected, or still not.
    Unchanged,
}

/// What a change of the subscription set means for the connected flag.
pub open spec fn connection_change(before: Set<SubscriptionKey>, after: Set<SubscriptionKey>) -> Connection {
    if before.is_empty() && !after.is_empty() {
        Connection::Connected
    } else if !before.is_empty() && after.is_empty() {
        Connection::Disconnected
    } else {
        Connection::Unchanged
    }
}

fn key_eq(a: SubscriptionKey, b: SubscriptionKey) -> (r: bool)
    ensures
        r == (a == b),
{
    a.0 == b.0 && a.1 == b.1 && a.2 == b.2 && a.3 == b.3
}

impl Subscriptions {
    /// No key occurs twice.
    pub closed spec fn wf(&self) -> bool {
        self.active@.no_duplicates()
    }

    pub fn new() -> (s: Subscriptions)
        ensures
            s.wf(),
            s@ == Set::<SubscriptionKey>::empty(),
    {
        let s = Subscriptions { active: Vec::new() };
        proof {
            assert(s.active@.to_set() =~= Set::<SubscriptionKey>::empty());
        }
        s
    }

    fn position(&self, key: SubscriptionKey) -> (r: Option<usize>)
        ensures
            match r {
                Some(i) => i < self.active@.len() && self.active@[i as int] == key,
                None => !self.active@.contains(key),
            },
    {
        let mut i: usize = 0;
        while i < self.active.len()
            invariant
                0 <= i <= self.active@.len(),
                forall|j: int| 0 <= j < i ==> self.active@[j] != key,
            decreases self.active@.len() - i,
        {
            if key_eq(self.active[i], key) {
                return Some(i);
            }
            i = i + 1;
        }
        None
    }

    /// Whether any subscription is open.
    pub fn connected(&self) -> (c: bool)
        requires
            self.wf(),
        ensures
            c == !self@.is_empty(),
    {
        proof {
            if self.active@.len() > 0 {
                assert(self@.contains(self.active@[0]));
            } else {
                assert(self@ =~= Set::<SubscriptionKey>::empty());
            }
        }
        self.active.len() > 0
    }

    /// Records a subscription being opened, and says whether that connected
    /// the device.
    pub fn subscribe(&mut self, key: SubscriptionKey) -> (c: Connection)
        requires
            old(self).wf(),
        ensures
            final(self).wf(),
            final(self)@ == old(self)@.insert(key),
            c == connection_change(old(self)@, final(self)@),
    {
        let was_empty = self.active.len() == 0;
        proof {
            if !was_empty {
                assert(old(self)@.contains(old(self).active@[0]));
            } else {
                assert(old(self)@ =~= Set::<SubscriptionKey>::empty());
            }
        }
        match self.position(key) {
            Some(_) => {
                proof {
                    assert(old(self)@.insert(key) =~= old(self)@);
                }
                Connection::Unchanged
            },
            None => {
                self.active.push(key);
                proof {
                    let before = old(self).active@;
                    assert(self.active@ == before.push(key));
                    assert forall|k: SubscriptionKey| #[trigger]
                        self.active@.contains(k) <==> (before.contains(k) || k == key) by {
                        if self.active@.contains(k) {
                            let j = self.active@.index_of(k);
                            if j < before.len() {
                                assert(before[j] == k);
                            }
                        }
                        if before.contains(k) {
                            let j = before.index_of(k);
                            assert(self.active@[j] == k);
                        }
                        if k == key {
                            assert(self.active@[before.len() as int] == key);
                        }
                    }
                    assert(self.active@.to_set() =~= before.to_set().insert(key));
                    assert(self@.contains(key));
                }
                if was_empty {
                    Connection::Connected
                } else {
                    Connection::Unchanged
                }
            },
        }
    }

    /// Records a subscription being closed, and says whether that
    /// disconnected the device.
    pub fn unsubscribe(&mut self, key: SubscriptionKey) -> (c: Connection)
        requires
            old(self).wf(),
        ensures
            final(self).wf(),
            final(self)@ == old(self)@.remove(key),
            c == connection_change(old(self)@, final(self)@),
    {
        match self.position(key) {
            None => {
                proof {
                    assert(old(self)@.remove(key) =~= old(self)@);
                }
                Connection::Unchanged
            },
            Some(i) => {
                let ghost before = self.active@;
                self.active.remove(i);
                proof {
                    assert(self.active@ == before.remove(i as int));
                    assert forall|k: SubscriptionKey| #[trigger]
                        self.active@.contains(k) <==> (before.contains(k) && k != key) by {
                        if self.active@.contains(k) {
                            let j = self.active@.index_of(k);
                            if j < i {
                                assert(before[j] == k);
                            } else {
                                assert(before[j + 1] == k);
                            }
                            if k == key {
                                assert(before[i as int] == key);
                                if j < i {
                                    assert(false);
                                } else {
                                    assert(false);
                                }
                            }
                        }
                        if before.contains(k) && k != key {
                            let j = before.index_of(k);
                            if j < i {
                                assert(self.active@[j] == k);
                            } else {
                                assert(j != i);
                                assert(self.active@[j - 1] == k);
                            }
                        }
                    }
                    assert(self.active@.to_set() =~= before.to_set().remove(key));
                    assert(old(self)@.contains(key));
                }
                if self.active.len() == 0 {
                    proof {
                        assert(self@ =~= Set::<SubscriptionKey>::empty());
                    }
                    Connection::Disconnected
                } else {
                    proof {
                        assert(self@.contains(self.active@[0]));
                    }
                    Connection::Unchanged
                }
            },
        }
    }
}

/// Whether a UMP endpoint's event carries a UMP packet (rather than a legacy
/// sequencer event such as a subscription notice).
pub fn is_ump_packet(flags: u8) -> (r: bool)
    ensures
        r == ((flags / 32) % 2 == 1),
{
    assert((flags & 0x20u8 != 0) == ((flags / 32) % 2 == 1)) by (bit_vector);
    flags & 0x20u8 != 0
}

/// Sequencer event types of subscription notices.
pub const PORT_SUBSCRIBED: u8 = 66;
pub const PORT_UNSUBSCRIBED: u8 = 67;

/// The subscription a legacy notice on a UMP endpoint names: its payload
/// starts with the connecting client and port, then the subscribed client and
/// port, one byte each, in memory order of the first (little-endian) word.
pub fn connect_key(word: u32) -> (k: SubscriptionKey)
    ensures
        k.0 == word % 256,
        k.1 == (word / 256) % 256,
        k.2 == (word / 65536) % 256,
        k.3 == word / 16777216,
{
    let a = (word & 0xFF) as i32;
    let b = ((word >> 8u32) & 0xFF) as i32;
    let c = ((word >> 16u32) & 0xFF) as i32;
    let d = (word >> 24u32) as i32;
    assert(word & 0xFF == word % 256) by (bit_vector);
    assert((word >> 8u32) & 0xFF == (word / 256) % 256) by (bit_vector);
    assert((word >> 16u32) & 0xFF == (word / 65536) % 256) by (bit_vector);
    assert(word >> 24u32 == word / 16777216) by (bit_vector);
    (a, b, c, d)
}

} // verus!
