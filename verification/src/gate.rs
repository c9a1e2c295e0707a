//! The MIDI gate: what happens to an incoming MIDI event depending on whether
//! the realtime engine is live, starting, paused for inactivity, or off.
//!
//! While the engine is down for inactivity (`Idle`) or being built
//! (`Starting`) events are held in a bounded buffer and replayed, in order,
//! once the engine is promoted. When the buffer is full the oldest events are
//! evicted and counted, so the most recent event is always kept and a NoteOn
//! that survives always keeps its NoteOff. This module is the sequential core
//! of a MIDI gate; the lock and the lock-free fast path live with the caller.

use std::collections::VecDeque;
use vstd::prelude::*;
use vstd::slice::slice_to_vec;

verus! {

/// Most events held while the engine is down.
pub const MAX_BUFFERED_EVENTS: usize = 4096;

/// Most payload bytes held on the heap while the engine is down.
pub const MAX_BUFFERED_BYTES: usize = 1048576;

/// A single entry whose heap payload exceeds this is refused outright.
pub const MAX_ENTRY_BYTES: usize = 262144;

/// Capacity the buffer is shrunk back to after it was drained.
pub const BUFFER_IDLE_CAPACITY: usize = 256;

/// Long (SysEx) payloads up to this many bytes are stored inline.
pub const INLINE_BYTES: usize = 12;

/// UMP packets up to this many words (one UMP message) are stored inline.
pub const INLINE_WORDS: usize = 4;

#[derive(Debug, Clone, Copy, PartialEq, Eq, Structural)]
pub enum GateMode {
    Off,
    Idle,
    Starting,
    Live,
}

impl GateMode {
    /// The wire code published for the statistics frame.
    pub open spec fn wire_code(self) -> u32 {
        match self {
            GateMode::Off => 0,
            GateMode::Starting => 1,
            GateMode::Live => 2,
            GateMode::Idle => 3,
        }
    }

    pub fn code(self) -> (c: u32)
        ensures
            c == self.wire_code(),
    {
        match self {
            GateMode::Off => 0,
            GateMode::Starting => 1,
            GateMode::Live => 2,
            GateMode::Idle => 3,
        }
    }
}

/// What an event means, independent of how it is stored.
pub enum DecodedView {
    Short(u8, u32),
    Long(u8, Seq<u8>),
    Ump(Seq<u32>),
}

/// An event as handed back by a `MidiGate` (for replay or inspection).
#[derive(Debug, Clone, PartialEq, Eq)]
pub enum Decoded {
    Short(u8, u32),
    Long(u8, Vec<u8>),
    Ump(Vec<u32>),
}

impl View for Decoded {
    type V = DecodedView;

    open spec fn view(&self) -> DecodedView {
        match self {
            Decoded::Short(port, msg) => DecodedView::Short(*port, *msg),
            Decoded::Long(port, data) => DecodedView::Long(*port, data@),
            Decoded::Ump(words) => DecodedView::Ump(words@),
        }
    }
}

/// An incoming event: a packed short message, a long (SysEx) payload, or a
/// run of UMP words.
pub enum Msg<'a> {
    Short { port: u8, msg: u32 },
    Long { port: u8, data: &'a [u8] },
    Ump(&'a [u32]),
}

impl<'a> View for Msg<'a> {
    type V = DecodedView;

    open spec fn view(&self) -> DecodedView {
        match self {
            Msg::Short { port, msg } => DecodedView::Short(*port, *msg),
            Msg::Long { port, data } => DecodedView::Long(*port, data@),
            Msg::Ump(words) => DecodedView::Ump(words@),
        }
    }
}

impl<'a> Msg<'a> {
    /// Machine limit: the byte size of a UMP run must be representable.
    pub open spec fn representable(&self) -> bool {
        match self {
            Msg::Ump(words) => words@.len() * 4 <= usize::MAX,
            _ => true,
        }
    }
}

/// Heap bytes an event occupies once buffered: payloads that do not fit
/// inline are counted by their byte size.
pub open spec fn msg_heap(d: DecodedView) -> nat {
    match d {
        DecodedView::Short(_, _) => 0,
        DecodedView::Long(_, data) => if data.len() > INLINE_BYTES {
            data.len()
        } else {
            0
        },
        DecodedView::Ump(words) => if words.len() > INLINE_WORDS {
            4 * words.len()
        } else {
            0
        },
    }
}

/// Total heap bytes held by a sequence of buffered events.
pub open spec fn total_heap(s: Seq<DecodedView>) -> nat
    decreases s.len(),
{
    if s.len() == 0 {
        0
    } else {
        msg_heap(s[0]) + total_heap(s.drop_first())
    }
}

/// Whether one more event of `bytes` heap bytes fits behind `s`.
pub open spec fn fits(s: Seq<DecodedView>, bytes: nat) -> bool {
    s.len() < MAX_BUFFERED_EVENTS && total_heap(s) + bytes <= MAX_BUFFERED_BYTES
}

/// How many of the oldest events must go before an event of `bytes` heap
/// bytes fits (drop-oldest).
pub open spec fn evictions(s: Seq<DecodedView>, bytes: nat) -> nat
    decreases s.len(),
{
    if s.len() == 0 || fits(s, bytes) {
        0
    } else {
        1 + evictions(s.drop_first(), bytes)
    }
}

/// The buffer after an event arrives: refused when its own payload is over the
/// per-entry cap, otherwise the oldest events are evicted until it fits and it
/// is appended.
pub open spec fn buffer_after(s: Seq<DecodedView>, d: DecodedView) -> Seq<DecodedView> {
    if msg_heap(d) > MAX_ENTRY_BYTES {
        s
    } else {
        s.skip(evictions(s, msg_heap(d)) as int).push(d)
    }
}

/// How many events are lost when `d` arrives behind `s`.
pub open spec fn losses(s: Seq<DecodedView>, d: DecodedView) -> nat {
    if msg_heap(d) > MAX_ENTRY_BYTES {
        1
    } else {
        evictions(s, msg_heap(d))
    }
}

/// A buffered event, stored inline when small and on the heap otherwise.
pub enum GateEntry {
    Short { port: u8, msg: u32 },
    LongInline { port: u8, len: u8, bytes: [u8; 12] },
    LongHeap { port: u8, data: Vec<u8> },
    UmpInline { len: u8, buf: [u32; 4] },
    UmpHeap { words: Vec<u32> },
}

impl View for GateEntry {
    type V = DecodedView;

    open spec fn view(&self) -> DecodedView {
        match self {
            GateEntry::Short { port, msg } => DecodedView::Short(*port, *msg),
            GateEntry::LongInline { port, len, bytes } => DecodedView::Long(
                *port,
                bytes@.subrange(0, *len as int),
            ),
            GateEntry::LongHeap { port, data } => DecodedView::Long(*port, data@),
            GateEntry::UmpInline { len, buf } => DecodedView::Ump(
                buf@.subrange(0, *len as int),
            ),
            GateEntry::UmpHeap { words } => DecodedView::Ump(words@),
        }
    }
}

impl GateEntry {
    /// Inline entries hold no more than their inline capacity, heap entries
    /// hold more.
    pub open spec fn wf(&self) -> bool {
        match self {
            GateEntry::Short { .. } => true,
            GateEntry::LongInline { len, .. } => *len as nat <= INLINE_BYTES,
            GateEntry::LongHeap { data, .. } => data@.len() > INLINE_BYTES,
            GateEntry::UmpInline { len, .. } => *len as nat <= INLINE_WORDS,
            GateEntry::UmpHeap { words } => words@.len() > INLINE_WORDS && words@.len() * 4
                <= usize::MAX,
        }
    }

    pub fn from(msg: Msg<'_>) -> (e: GateEntry)
        requires
            msg.representable(),
        ensures
            e.wf(),
            e@ == msg@,
    {
        match msg {
            Msg::Short { port, msg } => GateEntry::Short { port, msg },
            Msg::Long { port, data } => {
                if data.len() <= INLINE_BYTES {
                    let mut bytes = [0u8;12];
                    let n = data.len();
                    let mut i: usize = 0;
                    while i < n
                        invariant
                            n == data@.len(),
                            n <= 12,
                            0 <= i <= n,
                            bytes@.len() == 12,
                            forall|j: int| 0 <= j < i ==> bytes@[j] == data@[j],
                        decreases n - i,
                    {
                        bytes[i] = data[i];
                        i = i + 1;
                    }
                    assert(bytes@.subrange(0, n as int) =~= data@);
                    GateEntry::LongInline { port, len: n as u8, bytes }
                } else {
                    GateEntry::LongHeap { port, data: slice_to_vec(data) }
                }
            },
            Msg::Ump(words) => {
                if words.len() <= INLINE_WORDS {
                    let mut buf = [0u32;4];
                    let n = words.len();
                    let mut i: usize = 0;
                    while i < n
                        invariant
                            n == words@.len(),
                            n <= 4,
                            0 <= i <= n,
                            buf@.len() == 4,
                            forall|j: int| 0 <= j < i ==> buf@[j] == words@[j],
                        decreases n - i,
                    {
                        buf[i] = words[i];
                        i = i + 1;
                    }
                    assert(buf@.subrange(0, n as int) =~= words@);
                    GateEntry::UmpInline { len: n as u8, buf }
                } else {
                    GateEntry::UmpHeap { words: slice_to_vec(words) }
                }
            },
        }
    }

    pub fn heap_bytes(&self) -> (n: usize)
        requires
            self.wf(),
        ensures
            n == msg_heap(self@),
    {
        match self {
            GateEntry::LongHeap { data, .. } => data.len(),
            GateEntry::UmpHeap { words } => words.len() * 4,
            _ => 0,
        }
    }

    /// The event this entry stands for, as owned data.
    pub fn decode(&self) -> (d: Decoded)
        requires
            self.wf(),
        ensures
            d@ == self@,
    {
        match self {
            GateEntry::Short { port, msg } => Decoded::Short(*port, *msg),
            GateEntry::LongInline { port, len, bytes } => {
                let n = *len as usize;
                let mut out: Vec<u8> = Vec::new();
                let mut i: usize = 0;
                while i < n
                    invariant
                        n <= 12,
                        bytes@.len() == 12,
                        0 <= i <= n,
                        out@ =~= bytes@.subrange(0, i as int),
                    decreases n - i,
                {
                    out.push(bytes[i]);
                    i = i + 1;
                }
                Decoded::Long(*port, out)
            },
            GateEntry::LongHeap { port, data } => Decoded::Long(*port, data.clone()),
            GateEntry::UmpInline { len, buf } => {
                let n = *len as usize;
                let mut out: Vec<u32> = Vec::new();
                let mut i: usize = 0;
                while i < n
                    invariant
                        n <= 4,
                        buf@.len() == 4,
                        0 <= i <= n,
                        out@ =~= buf@.subrange(0, i as int),
                    decreases n - i,
                {
                    out.push(buf[i]);
                    i = i + 1;
                }
                Decoded::Ump(out)
            },
            GateEntry::UmpHeap { words } => Decoded::Ump(words.clone()),
        }
    }
}


/// Appending to a buffer adds the new event's heap bytes to the total.
pub proof fn lemma_total_heap_push(s: Seq<DecodedView>, d: DecodedView)
    ensures
        total_heap(s.push(d)) == total_heap(s) + msg_heap(d),
    decreases s.len(),
{
    if s.len() == 0 {
        assert(s.push(d).drop_first() =~= Seq::<DecodedView>::empty());
        assert(total_heap(Seq::<DecodedView>::empty()) == 0);
        assert(s.push(d)[0] == d);
    } else {
        assert(s.push(d).drop_first() =~= s.drop_first().push(d));
        assert(s.push(d)[0] == s[0]);
        lemma_total_heap_push(s.drop_first(), d);
    }
}

/// Evicting the oldest events always makes room: what is left fits one more
/// event whose payload is within the per-entry cap.
pub proof fn lemma_evictions_make_room(s: Seq<DecodedView>, bytes: nat)
    requires
        bytes <= MAX_ENTRY_BYTES,
    ensures
        evictions(s, bytes) <= s.len(),
        fits(s.skip(evictions(s, bytes) as int), bytes),
    decreases s.len(),
{
    if s.len() == 0 {
        assert(s.skip(0) =~= s);
    } else if fits(s, bytes) {
        assert(s.skip(0) =~= s);
    } else {
        lemma_evictions_make_room(s.drop_first(), bytes);
        assert(s.skip(evictions(s, bytes) as int) =~= s.drop_first().skip(
            evictions(s.drop_first(), bytes) as int,
        ));
    }
}

/// What the caller must do with an event it was handed.
#[derive(Debug, Clone, Copy, PartialEq, Eq, Structural)]
pub enum GateAction {
    /// The engine is live: send the event to it now.
    Forward,
    /// Gate mode is off: the event is dropped without trace.
    Discard,
    /// The event was held for replay (or refused when over the per-entry
    /// cap); `wake` asks the control loop to start the engine.
    Hold { wake: bool },
}

/// What `promote` hands back: the held events, oldest first, to replay into
/// the new engine, and how many events were lost while it was down.
pub struct Promotion {
    pub replay: Vec<Decoded>,
    pub dropped: u64,
}

/// State of one MIDI gate.
pub struct MidiGate {
    mode: GateMode,
    buffer: VecDeque<GateEntry>,
    heap_bytes: usize,
    wake_sent: bool,
    dropped: u64,
    activity: bool,
}

/// Headroom the drop counter needs for one more event.
pub open spec fn counter_room(dropped: u64) -> bool {
    dropped + MAX_BUFFERED_EVENTS + 1 <= u64::MAX
}

impl MidiGate {
    /// The held events, oldest first.
    pub closed spec fn held(&self) -> Seq<DecodedView> {
        self.buffer@.map_values(|e: GateEntry| e@)
    }

    pub closed spec fn spec_mode(&self) -> GateMode {
        self.mode
    }

    pub closed spec fn spec_wake_sent(&self) -> bool {
        self.wake_sent
    }

    pub closed spec fn spec_dropped(&self) -> u64 {
        self.dropped
    }

    pub closed spec fn spec_activity(&self) -> bool {
        self.activity
    }

    /// Heap bytes held, as counted by `heap_bytes`.
    pub closed spec fn spec_heap_bytes(&self) -> nat {
        self.heap_bytes as nat
    }

    /// Invariant: entries are well formed, the caps hold, the byte
    /// account is exact, and an off or live gate holds nothing and has no
    /// pending start request.
    pub closed spec fn wf(&self) -> bool {
        &&& forall|i: int| 0 <= i < self.buffer@.len() ==> (#[trigger] self.buffer@[i]).wf()
        &&& self.buffer@.len() <= MAX_BUFFERED_EVENTS
        &&& self.heap_bytes as nat == total_heap(self.held())
        &&& self.heap_bytes <= MAX_BUFFERED_BYTES
        &&& (self.mode == GateMode::Off || self.mode == GateMode::Live) ==> (self.buffer@.len()
            == 0 && !self.wake_sent)
    }

    /// A fresh gate is off, empty and has seen no MIDI.
    pub fn new() -> (g: MidiGate)
        ensures
            g.wf(),
            g.spec_mode() == GateMode::Off,
            g.held() == Seq::<DecodedView>::empty(),
            g.spec_dropped() == 0,
            !g.spec_wake_sent(),
            !g.spec_activity(),
    {
        let g = MidiGate {
            mode: GateMode::Off,
            buffer: VecDeque::with_capacity(BUFFER_IDLE_CAPACITY),
            heap_bytes: 0,
            wake_sent: false,
            dropped: 0,
            activity: false,
        };
        assert(g.held() =~= Seq::<DecodedView>::empty());
        g
    }

    pub proof fn lemma_wf_facts(&self)
        requires
            self.wf(),
        ensures
            self.held().len() <= MAX_BUFFERED_EVENTS,
            self.spec_heap_bytes() == total_heap(self.held()),
            total_heap(self.held()) <= MAX_BUFFERED_BYTES,
            (self.spec_mode() == GateMode::Off || self.spec_mode() == GateMode::Live) ==> (
            self.held().len() == 0 && !self.spec_wake_sent()),
    {
    }

    /// Holds an entry, evicting the oldest ones until it fits; an entry over
    /// the per-entry cap is refused and counted instead.
    fn push(&mut self, entry: GateEntry)
        requires
            old(self).wf(),
            entry.wf(),
            counter_room(old(self).dropped),
        ensures
            final(self).held() == buffer_after(old(self).held(), entry@),
            final(self).dropped == old(self).dropped + losses(old(self).held(), entry@),
            final(self).mode == old(self).mode,
            final(self).wake_sent == old(self).wake_sent,
            final(self).activity == old(self).activity,
            forall|i: int|
                0 <= i < final(self).buffer@.len() ==> (#[trigger] final(self).buffer@[i]).wf(),
            final(self).buffer@.len() <= MAX_BUFFERED_EVENTS,
            final(self).heap_bytes as nat == total_heap(final(self).held()),
            final(self).heap_bytes <= MAX_BUFFERED_BYTES,
    {
        let bytes = entry.heap_bytes();
        if bytes > MAX_ENTRY_BYTES {
            self.dropped = self.dropped + 1;
            return;
        }
        let ghost s0 = self.held();
        let ghost b = bytes as nat;
        let ghost mut k: nat = 0;
        proof {
            lemma_evictions_make_room(s0, b);
            assert(s0.skip(0) =~= s0);
        }
        while self.buffer.len() >= MAX_BUFFERED_EVENTS || self.heap_bytes + bytes
            > MAX_BUFFERED_BYTES
            invariant
                bytes <= MAX_ENTRY_BYTES,
                b == bytes as nat,
                forall|i: int| 0 <= i < self.buffer@.len() ==> (#[trigger] self.buffer@[i]).wf(),
                self.buffer@.len() <= MAX_BUFFERED_EVENTS,
                self.heap_bytes as nat == total_heap(self.held()),
                self.heap_bytes <= MAX_BUFFERED_BYTES,
                k <= s0.len(),
                self.held() == s0.skip(k as int),
                evictions(s0, b) == k + evictions(self.held(), b),
                self.dropped == old(self).dropped + k,
                evictions(s0, b) <= s0.len(),
                s0.len() <= MAX_BUFFERED_EVENTS,
                counter_room(old(self).dropped),
                self.mode == old(self).mode,
                self.wake_sent == old(self).wake_sent,
                self.activity == old(self).activity,
            decreases self.buffer@.len(),
        {
            let ghost before = self.held();
            assert(self.buffer@.len() > 0) by {
                if self.buffer@.len() == 0 {
                    assert(self.held().len() == 0);
                }
            }
            assert(!fits(before, b));
            let old_entry = self.buffer.pop_front().unwrap();
            proof {
                assert(self.held() =~= before.drop_first());
                assert(before[0] == old_entry@);
                assert(before.drop_first() =~= s0.skip((k + 1) as int));
                k = k + 1;
            }
            let gone = old_entry.heap_bytes();
            self.heap_bytes = self.heap_bytes - gone;
            self.dropped = self.dropped + 1;
        }
        proof {
            assert(fits(self.held(), b));
            assert(k == evictions(s0, b));
            lemma_total_heap_push(self.held(), entry@);
        }
        self.heap_bytes = self.heap_bytes + bytes;
        let ghost mid = self.held();
        let ghost mid_buf = self.buffer@;
        self.buffer.push_back(entry);
        proof {
            assert(self.held() =~= mid.push(entry@));
            assert forall|i: int| 0 <= i < self.buffer@.len() implies (
            #[trigger] self.buffer@[i]).wf() by {
                if i < mid_buf.len() {
                    assert(self.buffer@[i] == mid_buf[i]);
                }
            }
        }
    }

    /// What delivering event `d` does: marks that MIDI arrived, keeps the
    /// mode; a live gate forwards and an off gate discards, both leaving the
    /// buffer alone; an idle gate holds the event and asks for a start the
    /// first time in each down cycle; a starting gate holds without asking.
    pub open spec fn delivered(
        before: MidiGate,
        after: MidiGate,
        d: DecodedView,
        action: GateAction,
    ) -> bool {
        let mode = before.spec_mode();
        &&& after.wf()
        &&& after.spec_activity()
        &&& after.spec_mode() == mode
        &&& mode == GateMode::Live ==> action == GateAction::Forward
        &&& mode == GateMode::Off ==> action == GateAction::Discard
        &&& mode == GateMode::Idle ==> action == (GateAction::Hold { wake: !before.spec_wake_sent() })
        &&& mode == GateMode::Starting ==> action == (GateAction::Hold { wake: false })
        &&& (mode == GateMode::Live || mode == GateMode::Off) ==> {
            &&& after.held() == before.held()
            &&& after.spec_dropped() == before.spec_dropped()
            &&& after.spec_wake_sent() == before.spec_wake_sent()
        }
        &&& (mode == GateMode::Idle || mode == GateMode::Starting) ==> {
            &&& after.held() == buffer_after(before.held(), d)
            &&& after.spec_dropped() == before.spec_dropped() + losses(before.held(), d)
            &&& after.spec_wake_sent() == (before.spec_wake_sent() || mode == GateMode::Idle)
        }
    }

    /// Hands this `MidiGate` an event from a MIDI producer and says what to do with
    /// it (see `delivered`).
    pub fn deliver(&mut self, msg: Msg<'_>) -> (action: GateAction)
        requires
            old(self).wf(),
            msg.representable(),
            counter_room(old(self).spec_dropped()),
        ensures
            Self::delivered(*old(self), *final(self), msg@, action),
    {
        self.activity = true;
        let mut wake = false;
        match self.mode {
            GateMode::Live => {
                return GateAction::Forward;
            },
            GateMode::Off => {
                return GateAction::Discard;
            },
            GateMode::Idle => {
                if !self.wake_sent {
                    self.wake_sent = true;
                    wake = true;
                }
            },
            GateMode::Starting => {},
        }
        let entry = GateEntry::from(msg);
        self.push(entry);
        GateAction::Hold { wake }
    }

    /// A packed short message for `port`.
    pub fn short(&mut self, port: u8, msg: u32) -> (action: GateAction)
        requires
            old(self).wf(),
            counter_room(old(self).spec_dropped()),
        ensures
            Self::delivered(*old(self), *final(self), DecodedView::Short(port, msg), action),
    {
        self.deliver(Msg::Short { port, msg })
    }

    /// A long (SysEx) payload for `port`.
    pub fn long(&mut self, port: u8, data: &[u8]) -> (action: GateAction)
        requires
            old(self).wf(),
            counter_room(old(self).spec_dropped()),
        ensures
            Self::delivered(*old(self), *final(self), DecodedView::Long(port, data@), action),
    {
        self.deliver(Msg::Long { port, data })
    }

    /// A run of UMP words.
    pub fn ump(&mut self, words: &[u32]) -> (action: GateAction)
        requires
            old(self).wf(),
            counter_room(old(self).spec_dropped()),
            words@.len() * 4 <= usize::MAX,
        ensures
            Self::delivered(*old(self), *final(self), DecodedView::Ump(words@), action),
    {
        self.deliver(Msg::Ump(words))
    }
    /// Empties the buffer and forgets any pending start request (the drop
    /// count stays).
    fn clear(&mut self)
        requires
            old(self).wf(),
        ensures
            final(self).buffer@.len() == 0,
            final(self).held() == Seq::<DecodedView>::empty(),
            final(self).heap_bytes == 0,
            !final(self).wake_sent,
            final(self).mode == old(self).mode,
            final(self).dropped == old(self).dropped,
            final(self).activity == old(self).activity,
    {
        self.buffer.clear();
        shrink_buffer(&mut self.buffer, BUFFER_IDLE_CAPACITY);
        self.heap_bytes = 0;
        self.wake_sent = false;
        assert(self.held() =~= Seq::<DecodedView>::empty());
    }

    /// Takes the engine out of service. `Off` means it is not coming back:
    /// held events are dropped and the start request forgotten. `Idle` and
    /// `Starting` keep what is held. Returns whether a live engine was
    /// unpublished, in which case the caller waits for producers to quiesce.
    pub fn demote(&mut self, mode: GateMode) -> (was_live: bool)
        requires
            old(self).wf(),
            mode != GateMode::Live,
        ensures
            final(self).wf(),
            was_live == (old(self).spec_mode() == GateMode::Live),
            final(self).spec_mode() == mode,
            final(self).spec_dropped() == old(self).spec_dropped(),
            final(self).spec_activity() == old(self).spec_activity(),
            mode == GateMode::Off ==> final(self).held() == Seq::<DecodedView>::empty()
                && !final(self).spec_wake_sent(),
            mode != GateMode::Off ==> final(self).held() == old(self).held()
                && final(self).spec_wake_sent() == old(self).spec_wake_sent(),
    {
        let was_live = self.mode == GateMode::Live;
        if mode == GateMode::Off {
            self.clear();
        }
        self.mode = mode;
        was_live
    }

    /// Brings a freshly built engine into service: hands back every held
    /// event, oldest first, for replay into it, together with the number of
    /// events lost while it was down, and goes live with an empty buffer.
    pub fn promote(&mut self) -> (p: Promotion)
        requires
            old(self).wf(),
        ensures
            final(self).wf(),
            p.replay@.map_values(|d: Decoded| d@) == old(self).held(),
            p.dropped == old(self).spec_dropped(),
            final(self).spec_mode() == GateMode::Live,
            final(self).held() == Seq::<DecodedView>::empty(),
            final(self).spec_dropped() == 0,
            !final(self).spec_wake_sent(),
            final(self).spec_activity() == old(self).spec_activity(),
    {
        let replay = self.take_all();
        let dropped = self.dropped;
        self.dropped = 0;
        self.wake_sent = false;
        self.mode = GateMode::Live;
        Promotion { replay, dropped }
    }

    /// Removes every held event, oldest first, leaving the buffer empty.
    fn take_all(&mut self) -> (out: Vec<Decoded>)
        requires
            old(self).wf(),
        ensures
            out@.map_values(|d: Decoded| d@) == old(self).held(),
            final(self).held() == Seq::<DecodedView>::empty(),
            final(self).buffer@.len() == 0,
            final(self).heap_bytes == 0,
            final(self).mode == old(self).mode,
            final(self).wake_sent == old(self).wake_sent,
            final(self).dropped == old(self).dropped,
            final(self).activity == old(self).activity,
    {
        let ghost all = self.held();
        let mut out: Vec<Decoded> = Vec::new();
        while self.buffer.len() > 0
            invariant
                forall|i: int| 0 <= i < self.buffer@.len() ==> (#[trigger] self.buffer@[i]).wf(),
                out@.len() + self.held().len() == all.len(),
                all == out@.map_values(|d: Decoded| d@) + self.held(),
                self.mode == old(self).mode,
                self.wake_sent == old(self).wake_sent,
                self.dropped == old(self).dropped,
                self.activity == old(self).activity,
            decreases self.buffer@.len(),
        {
            let ghost before = self.held();
            let ghost before_out = out@.map_values(|d: Decoded| d@);
            let entry = self.buffer.pop_front().unwrap();
            let d = entry.decode();
            out.push(d);
            proof {
                assert(self.held() =~= before.drop_first());
                assert(out@.map_values(|d: Decoded| d@) =~= before_out.push(entry@));
                assert(before[0] == entry@);
                assert(all =~= out@.map_values(|d: Decoded| d@) + self.held());
            }
        }
        shrink_buffer(&mut self.buffer, BUFFER_IDLE_CAPACITY);
        self.heap_bytes = 0;
        assert(self.held() =~= Seq::<DecodedView>::empty());
        assert(all =~= out@.map_values(|d: Decoded| d@));
        out
    }

    /// Hands back the held events without going live (inspection), leaving
    /// the buffer empty; mode, start request and drop count stay.
    pub fn drain_buffer(&mut self) -> (out: Vec<Decoded>)
        requires
            old(self).wf(),
        ensures
            final(self).wf(),
            out@.map_values(|d: Decoded| d@) == old(self).held(),
            final(self).held() == Seq::<DecodedView>::empty(),
            final(self).spec_mode() == old(self).spec_mode(),
            final(self).spec_wake_sent() == old(self).spec_wake_sent(),
            final(self).spec_dropped() == old(self).spec_dropped(),
            final(self).spec_activity() == old(self).spec_activity(),
    {
        self.take_all()
    }

    /// Whether MIDI arrived while the engine was paused, so the control loop
    /// should start it.
    pub fn wants_start(&self) -> (r: bool)
        ensures
            r == (self.spec_mode() == GateMode::Idle && self.spec_wake_sent()),
    {
        self.mode == GateMode::Idle && self.wake_sent
    }

    /// Returns and clears "MIDI arrived since the last call".
    pub fn take_activity(&mut self) -> (r: bool)
        requires
            old(self).wf(),
        ensures
            final(self).wf(),
            r == old(self).spec_activity(),
            !final(self).spec_activity(),
            final(self).spec_mode() == old(self).spec_mode(),
            final(self).held() == old(self).held(),
            final(self).spec_wake_sent() == old(self).spec_wake_sent(),
            final(self).spec_dropped() == old(self).spec_dropped(),
    {
        let r = self.activity;
        self.activity = false;
        r
    }

    /// The value mirrored into the statistics state cell.
    pub fn state_code(&self) -> (c: u32)
        ensures
            c == self.spec_mode().wire_code(),
    {
        self.mode.code()
    }

    pub fn mode(&self) -> (m: GateMode)
        ensures
            m == self.spec_mode(),
    {
        self.mode
    }

    /// Events lost since the engine was last promoted.
    pub fn dropped(&self) -> (n: u64)
        ensures
            n == self.spec_dropped(),
    {
        self.dropped
    }

    /// Heap bytes currently held.
    pub fn held_bytes(&self) -> (n: usize)
        ensures
            n == self.spec_heap_bytes(),
    {
        self.heap_bytes
    }

    /// Number of events currently held.
    pub fn held_count(&self) -> (n: usize)
        ensures
            n == self.held().len(),
    {
        self.buffer.len()
    }
}

/// `VecDeque::shrink_to`: gives back capacity above `min_capacity`; the
/// contents are unchanged.
#[verifier::external_body]
fn shrink_buffer(buffer: &mut VecDeque<GateEntry>, min_capacity: usize)
    ensures
        final(buffer)@ == old(buffer)@,
{
    buffer.shrink_to(min_capacity)
}

/// Drop-oldest keeps the newest: when an event within the per-entry cap
/// arrives, what remains is a suffix of what was held (order kept, only the
/// oldest evicted), followed by the new event; the result stays within both
/// caps, and exactly the evicted events are counted as lost. An event over the
/// per-entry cap is refused without touching what is held.
pub proof fn law_drop_oldest_keeps_newest(s: Seq<DecodedView>, d: DecodedView)
    ensures
        msg_heap(d) <= MAX_ENTRY_BYTES ==> {
            let k = losses(s, d);
            &&& k <= s.len()
            &&& buffer_after(s, d) == s.skip(k as int).push(d)
            &&& buffer_after(s, d).last() == d
            &&& buffer_after(s, d).len() <= MAX_BUFFERED_EVENTS
            &&& total_heap(buffer_after(s, d)) <= MAX_BUFFERED_BYTES
        },
        msg_heap(d) > MAX_ENTRY_BYTES ==> buffer_after(s, d) == s && losses(s, d) == 1,
{
    if msg_heap(d) <= MAX_ENTRY_BYTES {
        lemma_evictions_make_room(s, msg_heap(d));
        lemma_total_heap_push(s.skip(evictions(s, msg_heap(d)) as int), d);
    }
}

/// An idle gate asks for a start exactly once per down cycle: of two
/// consecutive deliveries, at most the first asks.
pub proof fn law_start_requested_once(
    g0: MidiGate,
    g1: MidiGate,
    g2: MidiGate,
    d1: DecodedView,
    d2: DecodedView,
    a1: GateAction,
    a2: GateAction,
)
    requires
        MidiGate::delivered(g0, g1, d1, a1),
        MidiGate::delivered(g1, g2, d2, a2),
    ensures
        a2 != (GateAction::Hold { wake: true }),
        g0.spec_mode() == GateMode::Idle ==> g1.spec_wake_sent() && g2.spec_wake_sent(),
{
}

/// An off gate discards everything: delivering to it leaves it holding
/// nothing and asking for nothing.
pub proof fn law_off_gate_discards(g0: MidiGate, g1: MidiGate, d: DecodedView, a: GateAction)
    requires
        g0.wf(),
        g0.spec_mode() == GateMode::Off,
        MidiGate::delivered(g0, g1, d, a),
    ensures
        a == GateAction::Discard,
        g1.held() == Seq::<DecodedView>::empty(),
        !g1.spec_wake_sent(),
        g1.spec_mode() == GateMode::Off,
{
    g0.lemma_wf_facts();
    assert(g0.held() =~= Seq::<DecodedView>::empty());
}

} // verus!
