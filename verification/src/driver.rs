//! Decisions of the WinMM MIDI output driver: which driver messages are
//! acknowledged, how a `modMessage` call is validated and what it does, the
//! reference count that keeps one engine alive while any output is open, and
//! the device capabilities the driver reports, device name included as
//! UTF-16.

use crate::daemon::{midi1_port_count, midi1_ports, ConfigDiff};
use crate::fmt::{decimal, push_decimal};
use vstd::arithmetic::div_mod::lemma_fundamental_div_mod_converse;
use vstd::prelude::*;

verus! {

// DriverProc messages (mmddk.h).
pub const DRV_LOAD: u32 = 0x0001;
pub const DRV_ENABLE: u32 = 0x0002;
pub const DRV_OPEN: u32 = 0x0003;
pub const DRV_CLOSE: u32 = 0x0004;
pub const DRV_DISABLE: u32 = 0x0005;
pub const DRV_FREE: u32 = 0x0006;
pub const DRV_QUERYCONFIGURE: u32 = 0x0008;
pub const DRV_INSTALL: u32 = 0x0009;
pub const DRV_REMOVE: u32 = 0x000A;

// Driver init/exit (mmddk.h).
pub const DRVM_INIT: u32 = 100;
pub const DRVM_EXIT: u32 = 101;

// MIDI output driver messages (mmddk.h).
pub const MODM_INIT: u32 = 100;
pub const MODM_GETNUMDEVS: u32 = 1;
pub const MODM_GETDEVCAPS: u32 = 2;
pub const MODM_OPEN: u32 = 3;
pub const MODM_CLOSE: u32 = 4;
pub const MODM_PREPARE: u32 = 5;
pub const MODM_UNPREPARE: u32 = 6;
pub const MODM_DATA: u32 = 7;
pub const MODM_LONGDATA: u32 = 8;
pub const MODM_RESET: u32 = 9;
pub const MODM_GETVOLUME: u32 = 10;
pub const MODM_SETVOLUME: u32 = 11;
pub const MODM_CACHEPATCHES: u32 = 12;
pub const MODM_CACHEDRUMPATCHES: u32 = 13;

// Result codes (mmsystem.h).
pub const MMSYSERR_NOERROR: u32 = 0;
pub const MMSYSERR_ERROR: u32 = 1;
pub const MMSYSERR_BADDEVICEID: u32 = 2;
pub const MMSYSERR_INVALHANDLE: u32 = 5;
pub const MMSYSERR_NOMEM: u32 = 7;
pub const MMSYSERR_NOTSUPPORTED: u32 = 8;
pub const MMSYSERR_INVALPARAM: u32 = 11;
pub const MIDIERR_UNPREPARED: u32 = 64;

// MIDIHDR flags and callback messages (mmsystem.h).
pub const MHDR_DONE: u32 = 0x1;
pub const MHDR_PREPARED: u32 = 0x2;
pub const MHDR_INQUEUE: u32 = 0x4;
pub const MOM_OPEN: u32 = 0x3C7;
pub const MOM_CLOSE: u32 = 0x3C8;
pub const MOM_DONE: u32 = 0x3C9;

/// Technology code of a software synthesizer.
pub const MOD_SWSYNTH: u16 = 7;

/// The open descriptor winmm hands to `MODM_OPEN`.
#[derive(Debug, Clone, Copy, PartialEq, Eq, Structural)]
pub struct MIDIOPENDESC {
    pub hMidi: usize,
    pub dwCallback: usize,
    pub dwInstance: usize,
    pub dnDevNode: usize,
    pub cIds: u32,
}

/// One open output: the port it plays on and what its callback needs. One
/// is created for each successful `MODM_OPEN` and freed by its `MODM_CLOSE`.
#[derive(Debug, Clone, Copy, PartialEq, Eq, Structural)]
pub struct OutClient {
    pub port: u8,
    pub callback: usize,
    pub instance: usize,
    pub hmidi: usize,
    pub flags: u32,
}

/// The `DriverCallback` flags packed in the high word of the open flags.
pub fn callback_flags(open_flags: u32) -> (f: u32)
    ensures
        f == open_flags / 65536,
{
    assert(open_flags >> 16u32 == open_flags / 65536) by (bit_vector);
    open_flags >> 16u32
}

/// The reply to a `DriverProc` message: `Some` for the messages the driver
/// answers itself, `None` for those handed to `DefDriverProc`.
pub open spec fn driver_proc_reply(msg: u32) -> Option<isize> {
    if msg == DRV_LOAD || msg == DRV_FREE || msg == DRV_OPEN || msg == DRV_CLOSE || msg
        == DRV_ENABLE || msg == DRV_DISABLE || msg == DRV_INSTALL || msg == DRV_REMOVE {
        Some(1)
    } else if msg == DRV_QUERYCONFIGURE {
        Some(0)
    } else {
        None
    }
}

pub fn driver_proc(msg: u32) -> (r: Option<isize>)
    ensures
        r == driver_proc_reply(msg),
{
    match msg {
        DRV_LOAD | DRV_FREE | DRV_OPEN | DRV_CLOSE | DRV_ENABLE | DRV_DISABLE | DRV_INSTALL
        | DRV_REMOVE => Some(1),
        DRV_QUERYCONFIGURE => Some(0),
        _ => None,
    }
}

/// What the driver does with one `modMessage` call.
#[derive(Debug, Clone, Copy, PartialEq, Eq, Structural)]
pub enum ModAction {
    /// Return this code and do nothing else.
    Reply(u32),
    /// Forward this short message on the client's port, then succeed.
    Short(u32),
    /// Forward the prepared buffer on the client's port, mark the header
    /// done, signal `MOM_DONE`, then succeed.
    Long,
    /// Copy the capabilities of the addressed device, then succeed.
    Caps,
    /// Open the addressed device (the engine may still refuse), signal
    /// `MOM_OPEN`, then succeed.
    Open,
    /// Free the client, release the engine, signal `MOM_CLOSE`, then succeed.
    Close,
    /// Forward a reset (`0xFF`) on the client's port, then succeed.
    Reset,
}

/// The action for a `modMessage` call. `user` is the client handle (zero
/// when none), `param1` the first parameter, `header_flags` the flags of the
/// buffer header `param1` points at (read only for `MODM_LONGDATA` with a
/// non-null header), and `num_devices` the number of output devices.
pub open spec fn mod_action(
    msg: u32,
    device: u32,
    user: usize,
    param1: usize,
    header_flags: u32,
    num_devices: u32,
) -> ModAction {
    if msg == MODM_DATA {
        if user == 0 {
            ModAction::Reply(MMSYSERR_INVALHANDLE)
        } else {
            ModAction::Short((param1 as u32))
        }
    } else if msg == MODM_LONGDATA {
        if user == 0 {
            ModAction::Reply(MMSYSERR_INVALHANDLE)
        } else if param1 == 0 {
            ModAction::Reply(MMSYSERR_INVALPARAM)
        } else if (header_flags / 2) % 2 == 0 {
            ModAction::Reply(MIDIERR_UNPREPARED)
        } else {
            ModAction::Long
        }
    } else if msg == MODM_INIT || msg == DRVM_EXIT {
        ModAction::Reply(MMSYSERR_NOERROR)
    } else if msg == MODM_GETNUMDEVS {
        ModAction::Reply(num_devices)
    } else if msg == MODM_GETDEVCAPS {
        if param1 == 0 {
            ModAction::Reply(MMSYSERR_INVALPARAM)
        } else if device >= num_devices {
            ModAction::Reply(MMSYSERR_BADDEVICEID)
        } else {
            ModAction::Caps
        }
    } else if msg == MODM_OPEN {
        if param1 == 0 || user == 0 {
            ModAction::Reply(MMSYSERR_INVALPARAM)
        } else if device >= num_devices {
            ModAction::Reply(MMSYSERR_BADDEVICEID)
        } else {
            ModAction::Open
        }
    } else if msg == MODM_CLOSE {
        if user == 0 {
            ModAction::Reply(MMSYSERR_INVALHANDLE)
        } else {
            ModAction::Close
        }
    } else if msg == MODM_RESET {
        if user == 0 {
            ModAction::Reply(MMSYSERR_INVALHANDLE)
        } else {
            ModAction::Reset
        }
    } else {
        ModAction::Reply(MMSYSERR_NOTSUPPORTED)
    }
}

/// Validates a `modMessage` call and picks what to do. Preparing and
/// unpreparing buffers, patch caching and volume are reported unsupported,
/// so winmm does the generic bookkeeping itself.
pub fn mod_message(
    msg: u32,
    device: u32,
    user: usize,
    param1: usize,
    header_flags: u32,
    num_devices: u32,
) -> (a: ModAction)
    ensures
        a == mod_action(msg, device, user, param1, header_flags, num_devices),
{
    match msg {
        MODM_DATA => {
            if user == 0 {
                ModAction::Reply(MMSYSERR_INVALHANDLE)
            } else {
                ModAction::Short(param1 as u32)
            }
        },
        MODM_LONGDATA => {
            if user == 0 {
                ModAction::Reply(MMSYSERR_INVALHANDLE)
            } else if param1 == 0 {
                ModAction::Reply(MMSYSERR_INVALPARAM)
            } else {
                assert((header_flags & MHDR_PREPARED == 0) == ((header_flags / 2) % 2 == 0))
                    by (bit_vector);
                if header_flags & MHDR_PREPARED == 0 {
                    ModAction::Reply(MIDIERR_UNPREPARED)
                } else {
                    ModAction::Long
                }
            }
        },
        MODM_INIT | DRVM_EXIT => ModAction::Reply(MMSYSERR_NOERROR),
        MODM_GETNUMDEVS => ModAction::Reply(num_devices),
        MODM_GETDEVCAPS => {
            if param1 == 0 {
                ModAction::Reply(MMSYSERR_INVALPARAM)
            } else if device >= num_devices {
                ModAction::Reply(MMSYSERR_BADDEVICEID)
            } else {
                ModAction::Caps
            }
        },
        MODM_OPEN => {
            if param1 == 0 || user == 0 {
                ModAction::Reply(MMSYSERR_INVALPARAM)
            } else if device >= num_devices {
                ModAction::Reply(MMSYSERR_BADDEVICEID)
            } else {
                ModAction::Open
            }
        },
        MODM_CLOSE => {
            if user == 0 {
                ModAction::Reply(MMSYSERR_INVALHANDLE)
            } else {
                ModAction::Close
            }
        },
        MODM_RESET => {
            if user == 0 {
                ModAction::Reply(MMSYSERR_INVALHANDLE)
            } else {
                ModAction::Reset
            }
        },
        _ => ModAction::Reply(MMSYSERR_NOTSUPPORTED),
    }
}

/// The header flags after a buffer has been played: done, no longer queued,
/// everything else as it was.
pub fn finish_header(flags: u32) -> (f: u32)
    ensures
        f % 2 == 1,
        (f / 2) % 2 == (flags / 2) % 2,
        (f / 4) % 2 == 0,
        f / 8 == flags / 8,
{
    let f = (flags | MHDR_DONE) & !MHDR_INQUEUE;
    assert(f % 2 == 1 && (f / 2) % 2 == (flags / 2) % 2 && (f / 4) % 2 == 0 && f / 8 == flags / 8)
        by (bit_vector)
        requires
            f == (flags | 1u32) & !4u32,
    ;
    f
}

/// The client an open creates for `device`.
pub fn open_client(device: u32, desc: &MIDIOPENDESC, flags: u32) -> (c: OutClient)
    ensures
        c.port == device as u8,
        c.callback == desc.dwCallback,
        c.instance == desc.dwInstance,
        c.hmidi == desc.hMidi,
        c.flags == flags,
{
    OutClient {
        port: device as u8,
        callback: desc.dwCallback,
        instance: desc.dwInstance,
        hmidi: desc.hMidi,
        flags,
    }
}

/// The number of output devices the driver exposes: one per configured
/// port, at least one and at most `MAX_MIDI1_PORTS`.
pub fn num_output_devices(num_ports: u8) -> (n: u32)
    ensures
        n == midi1_ports(num_ports) as u32,
        1 <= n <= 16,
{
    midi1_port_count(num_ports) as u32
}

/// How many outputs hold the engine. The engine starts when the first output
/// opens and stops when the last one closes.
pub struct EngineUsers {
    users: usize,
}

impl EngineUsers {
    pub closed spec fn count(&self) -> nat {
        self.users as nat
    }

    pub fn new() -> (u: EngineUsers)
        ensures
            u.count() == 0,
    {
        EngineUsers { users: 0 }
    }

    /// Whether an open must start the engine first.
    pub fn needs_start(&self) -> (b: bool)
        ensures
            b == (self.count() == 0),
    {
        self.users == 0
    }

    /// Records an open whose engine is running.
    pub fn retain(&mut self)
        requires
            old(self).count() < usize::MAX,
        ensures
            final(self).count() == old(self).count() + 1,
    {
        self.users = self.users + 1;
    }

    /// Records a close, and says whether it was the last, so the engine must
    /// stop. A close with no open output left changes nothing but still
    /// reports the engine idle.
    pub fn release(&mut self) -> (stop: bool)
        ensures
            final(self).count() == if old(self).count() == 0 {
                0
            } else {
                (old(self).count() - 1) as nat
            },
            stop == (final(self).count() == 0),
    {
        if self.users > 0 {
            self.users = self.users - 1;
        }
        self.users == 0
    }

    /// Whether a configuration change must restart a running engine.
    pub fn running(&self) -> (b: bool)
        ensures
            b == (self.count() > 0),
    {
        self.users > 0
    }
}

/// What the driver does when its configuration file changes.
#[derive(Debug, Clone, Copy, PartialEq, Eq, Structural)]
pub enum DriverReload {
    /// Rebuild the engine, if one is running, with the new settings.
    RestartEngine,
    /// Reload the SoundFonts into the running engine.
    ReloadSoundfonts,
    Nothing,
}

pub open spec fn driver_reload_for(engine: bool, soundfonts: bool) -> DriverReload {
    if engine {
        DriverReload::RestartEngine
    } else if soundfonts {
        DriverReload::ReloadSoundfonts
    } else {
        DriverReload::Nothing
    }
}

pub fn driver_reload(diff: &ConfigDiff) -> (r: DriverReload)
    ensures
        r == driver_reload_for(diff.engine, diff.soundfonts),
{
    if diff.engine {
        DriverReload::RestartEngine
    } else if diff.soundfonts {
        DriverReload::ReloadSoundfonts
    } else {
        DriverReload::Nothing
    }
}

/// The UTF-16 code units of one character.
pub open spec fn utf16_units(c: char) -> Seq<u16> {
    let v = c as int;
    if v < 0x10000 {
        seq![v as u16]
    } else {
        let w = v - 0x10000;
        seq![(0xD800 + w / 1024) as u16, (0xDC00 + w % 1024) as u16]
    }
}

/// The UTF-16 encoding of a string.
pub open spec fn utf16(s: Seq<char>) -> Seq<u16>
    decreases s.len(),
{
    if s.len() == 0 {
        Seq::empty()
    } else {
        utf16(s.drop_last()) + utf16_units(s.last())
    }
}

/// A fixed-size, zero-terminated UTF-16 name: the first 31 code units of the
/// encoding (a pair may be cut), then zeros.
pub open spec fn fixed_name(s: Seq<char>, buf: Seq<u16>) -> bool {
    let u = utf16(s);
    &&& buf.len() == 32
    &&& forall|i: int| 0 <= i < 32 ==> buf[i] == if i < 31 && i < u.len() {
        u[i]
    } else {
        0u16
    }
}

proof fn lemma_utf16_step(s: Seq<char>, i: int)
    requires
        0 <= i < s.len(),
    ensures
        utf16(s.subrange(0, i + 1)) == utf16(s.subrange(0, i)) + utf16_units(s[i]),
{
    assert(s.subrange(0, i + 1).drop_last() =~= s.subrange(0, i));
}

/// The encoding of a prefix is a prefix of the encoding.
proof fn lemma_utf16_prefix(s: Seq<char>, i: int, j: int)
    requires
        0 <= i <= s.len(),
        0 <= j < utf16(s.subrange(0, i)).len(),
    ensures
        j < utf16(s).len(),
        utf16(s.subrange(0, i))[j] == utf16(s)[j],
    decreases s.len(),
{
    if i == s.len() {
        assert(s.subrange(0, i) =~= s);
    } else {
        let t = s.drop_last();
        assert(s.subrange(0, i) =~= t.subrange(0, i));
        lemma_utf16_prefix(t, i, j);
    }
}

/// Encodes a device name for `MIDIOUTCAPSW::szPname`.
pub fn utf16_name(name: &str) -> (buf: [u16; 32])
    ensures
        fixed_name(name@, buf@),
{
    let mut buf = [0u16; 32];
    let n = name.unicode_len();
    let mut i: usize = 0;
    let mut k: usize = 0;
    while i < n && k < 31
        invariant
            n == name@.len(),
            0 <= i <= n,
            k <= 31,
            k as int == if utf16(name@.subrange(0, i as int)).len() < 31 {
                utf16(name@.subrange(0, i as int)).len() as int
            } else {
                31
            },
            buf@.len() == 32,
            forall|j: int| 0 <= j < k ==> buf@[j] == utf16(name@.subrange(0, i as int))[j],
            forall|j: int| k <= j < 32 ==> buf@[j] == 0u16,
        decreases n - i,
    {
        let c = name.get_char(i);
        let v = c as u32;
        proof {
            lemma_utf16_step(name@, i as int);
        }
        if v < 0x10000 {
            buf[k] = v as u16;
            k = k + 1;
        } else {
            let w = v - 0x10000;
            buf[k] = (0xD800 + w / 1024) as u16;
            k = k + 1;
            if k < 31 {
                buf[k] = (0xDC00 + w % 1024) as u16;
                k = k + 1;
            }
        }
        i = i + 1;
    }
    proof {
        let u = utf16(name@);
        if i == n {
            assert(name@.subrange(0, n as int) =~= name@);
        }
        assert forall|j: int| 0 <= j < 32 implies buf@[j] == if j < 31 && j < u.len() {
            u[j]
        } else {
            0u16
        } by {
            if j < k {
                lemma_utf16_prefix(name@, i as int, j);
            } else if j < 31 && j < u.len() {
                // Only reachable when the whole name was encoded.
                assert(i == n);
            }
        }
    }
    buf
}


/// The name of output port `index` (counted from zero) of a device: the
/// device name, `" - Port "`, and the port number counted from one.
pub open spec fn port_label(device_name: Seq<char>, index: nat) -> Seq<char> {
    device_name + " - Port "@ + decimal(index + 1)
}

pub fn port_name(device_name: &str, index: u32) -> (s: String)
    ensures
        s@ == port_label(device_name@, index as nat),
{
    let mut s = String::from_str(device_name);
    s.append(" - Port ");
    push_decimal(&mut s, index as u64 + 1);
    s
}

/// The capabilities reported for one output device.
#[derive(Debug, Clone, Copy)]
pub struct OutputCaps {
    pub driver_version: u16,
    pub name: [u16; 32],
    pub technology: u16,
    pub voices: u16,
    pub notes: u16,
    pub channel_mask: u16,
    pub support: u32,
}

/// The capabilities of output `device`, or `None` past the last device: a
/// software synthesizer with every channel, unlimited voices and notes,
/// named after its port.
pub fn output_caps(device: u32, num_devices: u32, device_name: &str) -> (c: Option<OutputCaps>)
    ensures
        device >= num_devices ==> c is None,
        device < num_devices ==> (c matches Some(caps) && {
            &&& caps.driver_version == 0x0100
            &&& fixed_name(port_label(device_name@, device as nat), caps.name@)
            &&& caps.technology == MOD_SWSYNTH
            &&& caps.voices == 0xFFFF
            &&& caps.notes == 0xFFFF
            &&& caps.channel_mask == 0xFFFF
            &&& caps.support == 0
        }),
{
    if device >= num_devices {
        return None;
    }
    let name = port_name(device_name, device);
    Some(
        OutputCaps {
            driver_version: 0x0100,
            name: utf16_name(name.as_str()),
            technology: MOD_SWSYNTH,
            voices: 0xFFFF,
            notes: 0xFFFF,
            channel_mask: 0xFFFF,
            support: 0,
        },
    )
}

/// The driver's file name as the registry lists it.
pub const DRIVER_NAME: &'static str = "maestrodrv.dll";

/// The system's own MIDI mapper entry, which a full table may give up.
pub const WDM_DRIVER_NAME: &'static str = "wdmaud.drv";

/// Registration check bits.
pub const CHECK_NO_REG_64: u32 = 1;
pub const CHECK_NO_REG_32: u32 = 2;
pub const CHECK_NO_DEVICE: u32 = 4;
pub const CHECK_NO_DLL_64: u32 = 8;
pub const CHECK_NO_DLL_32: u32 = 16;
pub const CHECK_FAILED: u32 = 255;

/// The registry value name of MIDI driver entry `index`: `midi`, then the
/// index as a digit from 1 on, zero-terminated.
pub fn entry_name(index: usize) -> (name: [u8; 6])
    requires
        index < 10,
    ensures
        name@ == if index == 0 {
            seq![109u8, 105, 100, 105, 0, 0]
        } else {
            seq![109u8, 105, 100, 105, (48 + index) as u8, 0]
        },
{
    let mut name: [u8; 6] = [109, 105, 100, 105, 0, 0];
    if index > 0 {
        name[4] = 48u8 + index as u8;
    }
    proof {
        assert(name@ =~= if index == 0 {
            seq![109u8, 105, 100, 105, 0, 0]
        } else {
            seq![109u8, 105, 100, 105, (48 + index) as u8, 0]
        });
    }
    name
}

/// Whether a driver entry holds this driver (any letter case).
pub open spec fn is_driver(e: Option<Seq<char>>) -> bool {
    e matches Some(v) && crate::text::eq_ignoring_ascii_case(v, DRIVER_NAME@)
}

/// Whether a driver entry is free: missing or empty.
pub open spec fn is_free(e: Option<Seq<char>>) -> bool {
    match e {
        None => true,
        Some(v) => v.len() == 0,
    }
}

/// Whether a driver entry other than the first holds the system mapper.
pub open spec fn is_mapper(e: Option<Seq<char>>, i: int) -> bool {
    i > 0 && (e matches Some(v) && crate::text::eq_ignoring_ascii_case(v, WDM_DRIVER_NAME@))
}

/// `i` is the first index of `entries` where `p` holds.
pub open spec fn first_where(entries: Seq<Option<Seq<char>>>, i: int, p: spec_fn(Option<Seq<char>>, int) -> bool) -> bool {
    0 <= i < entries.len() && p(entries[i], i) && forall|j: int| 0 <= j < i ==> !p(entries[j], j)
}

pub open spec fn entry_views(entries: Seq<Option<String>>) -> Seq<Option<Seq<char>>> {
    entries.map_values(|e: Option<String>| crate::engine_cfg::opt_str(e))
}

/// The entry the driver registers under, and whether it must be written:
/// an entry that already holds the driver as is; else the first free entry;
/// else the first entry after the first that holds the system mapper; else
/// none.
pub open spec fn picked_entry(entries: Seq<Option<Seq<char>>>, r: Option<(usize, bool)>) -> bool {
    let driver = |e: Option<Seq<char>>, i: int| is_driver(e);
    let free = |e: Option<Seq<char>>, i: int| is_free(e);
    let mapper = |e: Option<Seq<char>>, i: int| is_mapper(e, i);
    if exists|i: int| 0 <= i < entries.len() && is_driver(entries[i]) {
        r matches Some((i, w)) && !w && first_where(entries, i as int, driver)
    } else if exists|i: int| 0 <= i < entries.len() && is_free(entries[i]) {
        r matches Some((i, w)) && w && first_where(entries, i as int, free)
    } else if exists|i: int| 0 <= i < entries.len() && is_mapper(entries[i], i) {
        r matches Some((i, w)) && w && first_where(entries, i as int, mapper)
    } else {
        r is None
    }
}

fn entry_is(e: &Option<String>, name: &str) -> (b: bool)
    ensures
        b == (crate::engine_cfg::opt_str(*e) matches Some(v) && crate::text::eq_ignoring_ascii_case(
            v,
            name@,
        )),
{
    match e {
        Some(v) => crate::text::eq_ignore_ascii_case(v.as_str(), name),
        None => false,
    }
}

/// Picks the driver entry to register under from the current entries.
pub fn pick_entry(entries: &Vec<Option<String>>) -> (r: Option<(usize, bool)>)
    ensures
        picked_entry(entry_views(entries@), r),
{
    let ghost ev = entry_views(entries@);
    let ghost driver = |e: Option<Seq<char>>, i: int| is_driver(e);
    let ghost free_p = |e: Option<Seq<char>>, i: int| is_free(e);
    let ghost mapper = |e: Option<Seq<char>>, i: int| is_mapper(e, i);
    let mut free: Option<usize> = None;
    let mut wdm: Option<usize> = None;
    let mut i: usize = 0;
    while i < entries.len()
        invariant
            0 <= i <= entries@.len(),
            ev == entry_views(entries@),
            driver == (|e: Option<Seq<char>>, i: int| is_driver(e)),
            free_p == (|e: Option<Seq<char>>, i: int| is_free(e)),
            mapper == (|e: Option<Seq<char>>, i: int| is_mapper(e, i)),
            forall|j: int| 0 <= j < i ==> !is_driver(#[trigger] ev[j]),
            match free {
                Some(f) => first_where(ev, f as int, free_p) && f < i,
                None => forall|j: int| 0 <= j < i ==> !is_free(#[trigger] ev[j]),
            },
            free is None ==> match wdm {
                Some(w) => first_where(ev, w as int, mapper) && w < i,
                None => forall|j: int| 0 <= j < i ==> !is_mapper(#[trigger] ev[j], j),
            },
        decreases entries@.len() - i,
    {
        proof {
            assert(ev[i as int] == crate::engine_cfg::opt_str(entries@[i as int]));
        }
        if entry_is(&entries[i], DRIVER_NAME) {
            proof {
                assert(first_where(ev, i as int, driver));
            }
            return Some((i, false));
        }
        if free.is_none() {
            let empty = match &entries[i] {
                None => true,
                Some(v) => v.unicode_len() == 0,
            };
            if empty {
                free = Some(i);
                proof {
                    assert(first_where(ev, i as int, free_p));
                }
            } else if i > 0 && wdm.is_none() && entry_is(&entries[i], WDM_DRIVER_NAME) {
                wdm = Some(i);
                proof {
                    assert(first_where(ev, i as int, mapper));
                }
            }
        }
        i = i + 1;
    }
    proof {
        assert(!exists|j: int| 0 <= j < ev.len() && is_driver(ev[j]));
    }
    match free {
        Some(f) => Some((f, true)),
        None => match wdm {
            Some(w) => Some((w, true)),
            None => {
                proof {
                    assert(!exists|j: int| 0 <= j < ev.len() && is_free(ev[j]));
                    assert(!exists|j: int| 0 <= j < ev.len() && is_mapper(ev[j], j));
                }
                None
            },
        },
    }
}

/// The registration check's result from what it found: 255 when a registry
/// view or the device list could not be read; else a bit for each missing
/// piece (64-bit entry, 32-bit entry, device, 64-bit file, 32-bit file).
pub open spec fn check_result(
    reg64: Option<bool>,
    reg32: Option<bool>,
    device: Option<bool>,
    dll64: bool,
    dll32: bool,
) -> u32 {
    if reg64 is None || reg32 is None || device is None {
        CHECK_FAILED
    } else {
        ((if reg64 == Some(false) {
            1int
        } else {
            0
        }) + (if reg32 == Some(false) {
            2int
        } else {
            0
        }) + (if device == Some(false) {
            4int
        } else {
            0
        }) + (if !dll64 {
            8int
        } else {
            0
        }) + (if !dll32 {
            16int
        } else {
            0
        })) as u32
    }
}

/// Whether bit `b` (a power of two) is set in `s`.
pub open spec fn bit_set(s: u32, b: u32) -> bool {
    (s as int / b as int) % 2 == 1
}

/// The check reports exactly what is missing: when every lookup succeeded,
/// the result is below 32 and its bits 1, 2, 4, 8 and 16 are set exactly
/// when the 64-bit entry, the 32-bit entry, the device, the 64-bit file and
/// the 32-bit file are missing, so it is 0 exactly when everything is in
/// place; when a lookup failed it is 255, which no combination of missing
/// pieces gives.
pub proof fn law_check_reports_missing_pieces(
    reg64: Option<bool>,
    reg32: Option<bool>,
    device: Option<bool>,
    dll64: bool,
    dll32: bool,
)
    ensures
        (reg64 is None || reg32 is None || device is None) ==> check_result(
            reg64,
            reg32,
            device,
            dll64,
            dll32,
        ) == CHECK_FAILED,
        (reg64 is Some && reg32 is Some && device is Some) ==> {
            let s = check_result(reg64, reg32, device, dll64, dll32);
            &&& s < 32
            &&& bit_set(s, CHECK_NO_REG_64) == (reg64 == Some(false))
            &&& bit_set(s, CHECK_NO_REG_32) == (reg32 == Some(false))
            &&& bit_set(s, CHECK_NO_DEVICE) == (device == Some(false))
            &&& bit_set(s, CHECK_NO_DLL_64) == !dll64
            &&& bit_set(s, CHECK_NO_DLL_32) == !dll32
            &&& (s == 0) == (reg64 == Some(true) && reg32 == Some(true) && device == Some(true)
                && dll64 && dll32)
        },
{
    if reg64 is Some && reg32 is Some && device is Some {
        let a: int = if reg64 == Some(false) { 1 } else { 0 };
        let b: int = if reg32 == Some(false) { 1 } else { 0 };
        let c: int = if device == Some(false) { 1 } else { 0 };
        let d: int = if !dll64 { 1 } else { 0 };
        let e: int = if !dll32 { 1 } else { 0 };
        let s = a + 2 * b + 4 * c + 8 * d + 16 * e;
        assert(check_result(reg64, reg32, device, dll64, dll32) as int == s);
        lemma_fundamental_div_mod_converse(s, 1, s, 0);
        lemma_fundamental_div_mod_converse(s, 2, b + 2 * c + 4 * d + 8 * e, a);
        lemma_fundamental_div_mod_converse(s, 4, c + 2 * d + 4 * e, a + 2 * b);
        lemma_fundamental_div_mod_converse(s, 8, d + 2 * e, a + 2 * b + 4 * c);
        lemma_fundamental_div_mod_converse(s, 16, e, a + 2 * b + 4 * c + 8 * d);
        lemma_fundamental_div_mod_converse(b + 2 * c + 4 * d + 8 * e, 2, c + 2 * d + 4 * e, b);
        lemma_fundamental_div_mod_converse(c + 2 * d + 4 * e, 2, d + 2 * e, c);
        lemma_fundamental_div_mod_converse(d + 2 * e, 2, e, d);
        lemma_fundamental_div_mod_converse(e, 2, 0, e);
        let r = check_result(reg64, reg32, device, dll64, dll32);
        assert(r < 32);
        assert(bit_set(r, CHECK_NO_REG_64) == (a == 1));
        assert(bit_set(r, CHECK_NO_REG_32) == (b == 1));
        assert(bit_set(r, CHECK_NO_DEVICE) == (c == 1));
        assert(bit_set(r, CHECK_NO_DLL_64) == (d == 1));
        assert(bit_set(r, CHECK_NO_DLL_32) == (e == 1));
        assert((r == 0) == (a == 0 && b == 0 && c == 0 && d == 0 && e == 0));
        assert(reg64 matches Some(x) && (x == (a == 0)));
        assert(reg32 matches Some(x) && (x == (b == 0)));
        assert(device matches Some(x) && (x == (c == 0)));
    }
}

/// Composes the check result; each argument says whether that piece was
/// found, `None` when it could not be looked up.
pub fn check_status(
    reg64: Option<bool>,
    reg32: Option<bool>,
    device: Option<bool>,
    dll64: bool,
    dll32: bool,
) -> (status: u32)
    ensures
        status == check_result(reg64, reg32, device, dll64, dll32),
{
    let mut status: u32 = 0;
    match reg64 {
        None => {
            return CHECK_FAILED;
        },
        Some(found) => if !found {
            status = status + CHECK_NO_REG_64;
        },
    }
    match reg32 {
        None => {
            return CHECK_FAILED;
        },
        Some(found) => if !found {
            status = status + CHECK_NO_REG_32;
        },
    }
    match device {
        None => {
            return CHECK_FAILED;
        },
        Some(found) => if !found {
            status = status + CHECK_NO_DEVICE;
        },
    }
    if !dll64 {
        status = status + CHECK_NO_DLL_64;
    }
    if !dll32 {
        status = status + CHECK_NO_DLL_32;
    }
    status
}

} // verus!
