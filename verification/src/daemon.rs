//! The decisions of the MIDI daemon: what a configuration change requires,
//! how events arriving in a burst are coalesced, and when the realtime
//! engine is paused, restarted or the user reminded that it is running.

use crate::engine_cfg::{
    opt_event_processor_eq, opt_post_processor_eq, same_opt_event_processor,
    same_opt_post_processor, same_realtime, same_renderer, f32_eq, opt_str, AudioParameters,
    EventProcessorConfig,
    PostProcessorConfig, RealtimeConfig, RendererConfig,
};
use crate::system_cfg::{SystemCustomSettings, DEFAULT_SOUNDFONT_LIST_NAME};
use vstd::prelude::*;

verus! {

/// Groups of a MIDI 2.0 (UMP) endpoint; each is served as a port.
pub const UMP_GROUPS: u8 = 16;

/// Most MIDI 1.0 ports the virtual device offers.
pub const MAX_MIDI1_PORTS: u8 = 16;

/// Seconds of quiet before a user without an idle timeout is reminded that
/// Maestro is still running.
pub const IDLE_REMINDER_SECS: u64 = 1800;

/// Longest wait of the control loop while the engine is up.
pub const ACTIVITY_TICK_SECS: u64 = 5;

/// Wait of the control loop while the engine is down.
pub const IDLE_PARK_SECS: u64 = 3600;

/// Nanoseconds in a second.
pub const NANOS_PER_SECOND: u64 = 1000000000;

/// The daemon's configuration file.
#[derive(Debug, Clone)]
pub struct MaestroSystemConfig {
    pub sflist: String,
    pub audio_params: AudioParameters,
    pub realtime: RealtimeConfig,
    pub renderer: RendererConfig,
    pub event_processor: Option<EventProcessorConfig>,
    pub post_processor: Option<PostProcessorConfig>,
    pub custom: SystemCustomSettings,
}

impl MaestroSystemConfig {
    pub fn default() -> (c: MaestroSystemConfig)
        ensures
            c.sflist@ == DEFAULT_SOUNDFONT_LIST_NAME@,
            c.audio_params == AudioParameters::spec_default(),
            c.realtime == RealtimeConfig::spec_default(),
            c.renderer == RendererConfig::spec_default(),
            c.event_processor is None,
            c.post_processor == Some(PostProcessorConfig::spec_default()),
            c.custom.num_ports == 4,
            !c.custom.midi2_enabled,
            c.custom.idle_timeout_minutes == 10,
            c.custom.device_name@ == "Maestro"@,
    {
        MaestroSystemConfig {
            sflist: String::from_str(DEFAULT_SOUNDFONT_LIST_NAME),
            audio_params: AudioParameters::default(),
            realtime: RealtimeConfig::default(),
            renderer: RendererConfig::default(),
            event_processor: None,
            post_processor: Some(PostProcessorConfig::default()),
            custom: SystemCustomSettings::default(),
        }
    }
}

/// The MIDI 1.0 ports a configured count gives: at least one, at most
/// `MAX_MIDI1_PORTS`.
pub open spec fn midi1_ports(num_ports: u8) -> u8 {
    if num_ports < 1 {
        1
    } else if num_ports > MAX_MIDI1_PORTS {
        MAX_MIDI1_PORTS
    } else {
        num_ports
    }
}

pub fn midi1_port_count(num_ports: u8) -> (n: u8)
    ensures
        n == midi1_ports(num_ports),
        1 <= n <= MAX_MIDI1_PORTS,
{
    if num_ports < 1 {
        1
    } else if num_ports > MAX_MIDI1_PORTS {
        MAX_MIDI1_PORTS
    } else {
        num_ports
    }
}

/// Ports the realtime engine is built with: the sixteen UMP groups in MIDI
/// 2.0 mode, otherwise the configured port count, kept within 1 to 16.
pub open spec fn spec_engine_ports(config: MaestroSystemConfig) -> u8 {
    if config.custom.midi2_enabled {
        UMP_GROUPS
    } else {
        midi1_ports(config.custom.num_ports)
    }
}

pub fn engine_ports(config: &MaestroSystemConfig) -> (n: u8)
    ensures
        n == spec_engine_ports(*config),
        1 <= n <= 16,
{
    if config.custom.midi2_enabled {
        UMP_GROUPS
    } else {
        midi1_port_count(config.custom.num_ports)
    }
}

/// The MIDI devices the platform backend creates.
#[derive(Debug, Clone)]
pub struct DeviceSpec {
    pub device_name: String,
    pub num_ports: u8,
    pub midi2: bool,
}

impl DeviceSpec {
    pub fn from_config(config: &MaestroSystemConfig) -> (s: DeviceSpec)
        ensures
            s.device_name@ == config.custom.device_name@,
            s.num_ports == midi1_ports(config.custom.num_ports),
            s.midi2 == config.custom.midi2_enabled,
    {
        DeviceSpec {
            device_name: config.custom.device_name.clone(),
            num_ports: midi1_port_count(config.custom.num_ports),
            midi2: config.custom.midi2_enabled,
        }
    }
}

/// What a configuration change requires.
#[derive(Debug, Default, Clone, Copy, PartialEq, Eq, Structural)]
pub struct ConfigDiff {
    /// The realtime engine must be rebuilt.
    pub engine: bool,
    /// The MIDI devices must be recreated.
    pub devices: bool,
    /// The SoundFonts must be reloaded.
    pub soundfonts: bool,
    /// The idle timeout changed: the inactivity clock is re-armed.
    pub idle: bool,
}

impl ConfigDiff {
    pub fn any(&self) -> (r: bool)
        ensures
            r == (self.engine || self.devices || self.soundfonts || self.idle),
    {
        self.engine || self.devices || self.soundfonts || self.idle
    }
}

/// Whether the engine-building sections differ.
pub open spec fn engine_changed(old: MaestroSystemConfig, new: MaestroSystemConfig) -> bool {
    ||| spec_engine_ports(old) != spec_engine_ports(new)
    ||| old.audio_params != new.audio_params
    ||| !same_realtime(old.realtime, new.realtime)
    ||| !same_renderer(old.renderer, new.renderer)
    ||| !same_opt_event_processor(old.event_processor, new.event_processor)
    ||| !same_opt_post_processor(old.post_processor, new.post_processor)
}

/// Whether the MIDI devices must be recreated: the device name or the MIDI
/// 2.0 switch changed, or (in MIDI 1.0 mode) the port count did.
pub open spec fn devices_changed(old: MaestroSystemConfig, new: MaestroSystemConfig) -> bool {
    ||| old.custom.device_name@ != new.custom.device_name@
    ||| old.custom.midi2_enabled != new.custom.midi2_enabled
    ||| (!new.custom.midi2_enabled && old.custom.num_ports != new.custom.num_ports)
}

/// The diff between two configurations. Changing only the idle timeout never
/// touches the engine: it re-arms the clock instead of interrupting playback.
pub open spec fn spec_diff(old: MaestroSystemConfig, new: MaestroSystemConfig) -> ConfigDiff {
    ConfigDiff {
        engine: engine_changed(old, new),
        devices: devices_changed(old, new),
        soundfonts: old.sflist@ != new.sflist@,
        idle: old.custom.idle_timeout_minutes != new.custom.idle_timeout_minutes,
    }
}

pub fn diff_configs(old: &MaestroSystemConfig, new: &MaestroSystemConfig) -> (d: ConfigDiff)
    ensures
        d == spec_diff(*old, *new),
{
    let engine = engine_ports(old) != engine_ports(new) || old.audio_params != new.audio_params
        || !old.realtime.same_as(&new.realtime) || !old.renderer.same_as(&new.renderer)
        || !opt_event_processor_eq(&old.event_processor, &new.event_processor)
        || !opt_post_processor_eq(&old.post_processor, &new.post_processor);

    let devices = !crate::text::str_eq(
        old.custom.device_name.as_str(),
        new.custom.device_name.as_str(),
    ) || old.custom.midi2_enabled != new.custom.midi2_enabled || (!new.custom.midi2_enabled
        && old.custom.num_ports != new.custom.num_ports);

    let soundfonts = !crate::text::str_eq(old.sflist.as_str(), new.sflist.as_str());

    let idle = old.custom.idle_timeout_minutes != new.custom.idle_timeout_minutes;

    ConfigDiff { engine, devices, soundfonts, idle }
}

/// A configuration compared with itself (or an identical one) asks for
/// nothing.
pub proof fn law_same_config_no_diff(a: MaestroSystemConfig, b: MaestroSystemConfig)
    requires
        a.sflist@ == b.sflist@,
        a.audio_params == b.audio_params,
        same_realtime(a.realtime, b.realtime),
        same_renderer(a.renderer, b.renderer),
        same_opt_event_processor(a.event_processor, b.event_processor),
        same_opt_post_processor(a.post_processor, b.post_processor),
        a.custom.device_name@ == b.custom.device_name@,
        a.custom.num_ports == b.custom.num_ports,
        a.custom.midi2_enabled == b.custom.midi2_enabled,
        a.custom.idle_timeout_minutes == b.custom.idle_timeout_minutes,
    ensures
        !spec_diff(a, b).engine,
        !spec_diff(a, b).devices,
        !spec_diff(a, b).soundfonts,
        !spec_diff(a, b).idle,
{
}

/// The diff does not depend on which configuration is the old one.
pub proof fn law_diff_is_symmetric(a: MaestroSystemConfig, b: MaestroSystemConfig)
    ensures
        spec_diff(a, b) == spec_diff(b, a),
{
}

/// Changing any setting the engine is built from rebuilds the engine: the
/// audio parameters (sample rate or channels), any realtime setting, the
/// synthesizer or the renderer's thread or frame settings, turning a
/// processor on or off, or (in MIDI 1.0 mode) the number of ports within
/// its range. When none of them changes, the engine is left alone.
pub proof fn law_engine_settings_rebuild_engine(old: MaestroSystemConfig, new: MaestroSystemConfig)
    ensures
        old.audio_params != new.audio_params ==> spec_diff(old, new).engine,
        old.audio_params.sample_rate != new.audio_params.sample_rate ==> spec_diff(old, new).engine,
        old.audio_params.channels != new.audio_params.channels ==> spec_diff(old, new).engine,
        old.realtime.device_audio_params != new.realtime.device_audio_params ==> spec_diff(
            old,
            new,
        ).engine,
        old.realtime.precision_playback != new.realtime.precision_playback ==> spec_diff(
            old,
            new,
        ).engine,
        old.realtime.max_nps != new.realtime.max_nps ==> spec_diff(old, new).engine,
        old.realtime.buffer_size != new.realtime.buffer_size ==> spec_diff(old, new).engine,
        opt_str(old.realtime.audio_host) != opt_str(new.realtime.audio_host) ==> spec_diff(
            old,
            new,
        ).engine,
        opt_str(old.realtime.output_device) != opt_str(new.realtime.output_device) ==> spec_diff(
            old,
            new,
        ).engine,
        !f32_eq(old.realtime.render_buffer_ms_bits, new.realtime.render_buffer_ms_bits)
            ==> spec_diff(old, new).engine,
        old.renderer.port_threads != new.renderer.port_threads ==> spec_diff(old, new).engine,
        old.renderer.render_fps_bits is None != new.renderer.render_fps_bits is None ==> spec_diff(
            old,
            new,
        ).engine,
        (old.renderer.synth is FluidSynth) != (new.renderer.synth is FluidSynth) ==> spec_diff(
            old,
            new,
        ).engine,
        old.event_processor is None != new.event_processor is None ==> spec_diff(old, new).engine,
        old.post_processor is None != new.post_processor is None ==> spec_diff(old, new).engine,
        !old.custom.midi2_enabled && !new.custom.midi2_enabled && 1 <= old.custom.num_ports <= 16
            && 1 <= new.custom.num_ports <= 16 && old.custom.num_ports != new.custom.num_ports
            ==> spec_diff(old, new).engine,
        old.audio_params == new.audio_params && same_realtime(old.realtime, new.realtime)
            && same_renderer(old.renderer, new.renderer) && same_opt_event_processor(
            old.event_processor,
            new.event_processor,
        ) && same_opt_post_processor(old.post_processor, new.post_processor)
            && old.custom.midi2_enabled == new.custom.midi2_enabled && (old.custom.midi2_enabled
            || old.custom.num_ports == new.custom.num_ports) ==> !spec_diff(old, new).engine,
{
}

/// The MIDI devices are recreated when their name, the MIDI 2.0 switch or
/// (in MIDI 1.0 mode) the port count changes, and only then; the SoundFonts
/// are reloaded exactly when the list name changes, and the inactivity clock
/// re-armed exactly when the idle timeout changes.
pub proof fn law_devices_lists_and_timeout(old: MaestroSystemConfig, new: MaestroSystemConfig)
    ensures
        spec_diff(old, new).devices <==> (old.custom.device_name@ != new.custom.device_name@
            || old.custom.midi2_enabled != new.custom.midi2_enabled || (!new.custom.midi2_enabled
            && old.custom.num_ports != new.custom.num_ports)),
        spec_diff(old, new).soundfonts <==> old.sflist@ != new.sflist@,
        spec_diff(old, new).idle <==> old.custom.idle_timeout_minutes
            != new.custom.idle_timeout_minutes,
{
}

/// Events the daemon's control loop reacts to.
#[derive(Debug, Clone, Copy, PartialEq, Eq, Structural)]
pub enum ServiceEvent {
    ConfigChanged,
    SoundfontsChanged,
    WakeEngine,
    Shutdown,
}

/// One step of coalescing a burst of file-change events: a shutdown ends the
/// burst at once, a configuration change supersedes a SoundFont change (the
/// reload it triggers covers both), anything else leaves the result as is.
pub open spec fn spec_debounce_step(result: ServiceEvent, next: ServiceEvent) -> ServiceEvent {
    match next {
        ServiceEvent::Shutdown => ServiceEvent::Shutdown,
        ServiceEvent::ConfigChanged => if result == ServiceEvent::Shutdown {
            ServiceEvent::Shutdown
        } else {
            ServiceEvent::ConfigChanged
        },
        _ => result,
    }
}

pub fn debounce_step(result: ServiceEvent, next: ServiceEvent) -> (r: ServiceEvent)
    ensures
        r == spec_debounce_step(result, next),
{
    match next {
        ServiceEvent::Shutdown => ServiceEvent::Shutdown,
        ServiceEvent::ConfigChanged => if result == ServiceEvent::Shutdown {
            ServiceEvent::Shutdown
        } else {
            ServiceEvent::ConfigChanged
        },
        _ => result,
    }
}

/// The event a burst stands for: a shutdown anywhere in it wins, then a
/// configuration change, otherwise the event that opened the burst.
pub open spec fn burst_result(first: ServiceEvent, later: Seq<ServiceEvent>) -> ServiceEvent {
    if first == ServiceEvent::Shutdown || later.contains(ServiceEvent::Shutdown) {
        ServiceEvent::Shutdown
    } else if first == ServiceEvent::ConfigChanged || later.contains(ServiceEvent::ConfigChanged) {
        ServiceEvent::ConfigChanged
    } else {
        first
    }
}

/// Coalesces the events that arrived within the debounce window after
/// `first`.
pub fn debounce(first: ServiceEvent, later: &[ServiceEvent]) -> (r: ServiceEvent)
    ensures
        r == burst_result(first, later@),
{
    if first == ServiceEvent::Shutdown {
        return first;
    }
    let mut result = first;
    let mut i: usize = 0;
    while i < later.len()
        invariant
            0 <= i <= later@.len(),
            first != ServiceEvent::Shutdown,
            result == burst_result(first, later@.subrange(0, i as int)),
        decreases later@.len() - i,
    {
        let ghost seen = later@.subrange(0, i as int);
        let ghost seen_next = later@.subrange(0, i + 1);
        proof {
            assert(seen_next =~= seen.push(later@[i as int]));
            assert forall|e: ServiceEvent| seen_next.contains(e) <==> (seen.contains(e) || e
                == later@[i as int]) by {
                if seen_next.contains(e) {
                    let j = choose|j: int| 0 <= j < seen_next.len() && seen_next[j] == e;
                    if j < seen.len() {
                        assert(seen[j] == e);
                    }
                }
                if seen.contains(e) {
                    let j = choose|j: int| 0 <= j < seen.len() && seen[j] == e;
                    assert(seen_next[j] == e);
                }
                if e == later@[i as int] {
                    assert(seen_next[i as int] == e);
                }
            }
        }
        result = debounce_step(result, later[i]);
        i = i + 1;
    }
    assert(later@.subrange(0, later@.len() as int) =~= later@);
    result
}

/// What the control loop does about the engine on a tick.
#[derive(Debug, Clone, Copy, PartialEq, Eq, Structural)]
pub enum IdleAction {
    Nothing,
    /// No MIDI device is connected: unload the engine (paused) and notify.
    PauseNoDevices,
    /// MIDI arrived while paused: start the engine.
    Start,
    /// The idle timeout elapsed: unload the engine (paused) and notify.
    PauseInactive,
    /// No idle timeout and quiet for a long while: remind the user once.
    Remind,
}

/// The idle timeout in seconds, if one is configured.
pub open spec fn idle_timeout_secs(minutes: u32) -> Option<nat> {
    if minutes > 0 {
        Some((minutes * 60) as nat)
    } else {
        None
    }
}

/// The engine decision of one control-loop tick.
pub open spec fn spec_idle_action(
    devices_connected: bool,
    engine_running: bool,
    wants_start: bool,
    idle_minutes: u32,
    elapsed_nanos: nat,
    reminded: bool,
) -> IdleAction {
    if !devices_connected {
        if engine_running {
            IdleAction::PauseNoDevices
        } else {
            IdleAction::Nothing
        }
    } else if !engine_running {
        if wants_start {
            IdleAction::Start
        } else {
            IdleAction::Nothing
        }
    } else {
        match idle_timeout_secs(idle_minutes) {
            Some(t) => if elapsed_nanos >= t * NANOS_PER_SECOND {
                IdleAction::PauseInactive
            } else {
                IdleAction::Nothing
            },
            None => if !reminded && elapsed_nanos >= IDLE_REMINDER_SECS * NANOS_PER_SECOND {
                IdleAction::Remind
            } else {
                IdleAction::Nothing
            },
        }
    }
}

/// Decides what the control loop does about the engine, from whether devices
/// are connected, whether the engine runs, whether MIDI arrived while it was
/// paused, the idle timeout, the time since the last MIDI activity and
/// whether the user was already reminded.
pub fn idle_action(
    devices_connected: bool,
    engine_running: bool,
    wants_start: bool,
    idle_minutes: u32,
    elapsed_nanos: u128,
    reminded: bool,
) -> (a: IdleAction)
    ensures
        a == spec_idle_action(
            devices_connected,
            engine_running,
            wants_start,
            idle_minutes,
            elapsed_nanos as nat,
            reminded,
        ),
{
    if !devices_connected {
        if engine_running {
            return IdleAction::PauseNoDevices;
        }
        return IdleAction::Nothing;
    }
    if !engine_running {
        if wants_start {
            return IdleAction::Start;
        }
        return IdleAction::Nothing;
    }
    if idle_minutes > 0 {
        assert((idle_minutes as u128) * 60 * (NANOS_PER_SECOND as u128) <= u128::MAX)
            by (nonlinear_arith)
            requires
                idle_minutes <= u32::MAX,
                NANOS_PER_SECOND == 1000000000,
        ;
        let timeout = (idle_minutes as u128) * 60 * (NANOS_PER_SECOND as u128);
        if elapsed_nanos >= timeout {
            IdleAction::PauseInactive
        } else {
            IdleAction::Nothing
        }
    } else if !reminded && elapsed_nanos >= (IDLE_REMINDER_SECS as u128) * (
    NANOS_PER_SECOND as u128) {
        IdleAction::Remind
    } else {
        IdleAction::Nothing
    }
}

/// How long the control loop waits for the next event, in nanoseconds.
pub open spec fn spec_next_wait(engine_running: bool, idle_minutes: u32, elapsed_nanos: nat) -> nat {
    if !engine_running {
        (IDLE_PARK_SECS * NANOS_PER_SECOND) as nat
    } else {
        let deadline = match idle_timeout_secs(idle_minutes) {
            Some(t) => t,
            None => IDLE_REMINDER_SECS as nat,
        } * NANOS_PER_SECOND;
        let left = if elapsed_nanos >= deadline {
            0
        } else {
            (deadline - elapsed_nanos) as nat
        };
        if left < ACTIVITY_TICK_SECS * NANOS_PER_SECOND {
            left
        } else {
            (ACTIVITY_TICK_SECS * NANOS_PER_SECOND) as nat
        }
    }
}

/// The control loop's wait: parked for an hour while the engine is down,
/// otherwise until the idle deadline (or the reminder) but never more than
/// the activity tick.
pub fn next_wait(engine_running: bool, idle_minutes: u32, elapsed_nanos: u128) -> (w: u64)
    ensures
        w == spec_next_wait(engine_running, idle_minutes, elapsed_nanos as nat),
{
    if !engine_running {
        return IDLE_PARK_SECS * NANOS_PER_SECOND;
    }
    let deadline: u128 = if idle_minutes > 0 {
        assert((idle_minutes as u128) * 60 * (NANOS_PER_SECOND as u128) <= u128::MAX)
            by (nonlinear_arith)
            requires
                idle_minutes <= u32::MAX,
                NANOS_PER_SECOND == 1000000000,
        ;
        (idle_minutes as u128) * 60 * (NANOS_PER_SECOND as u128)
    } else {
        (IDLE_REMINDER_SECS as u128) * (NANOS_PER_SECOND as u128)
    };
    let left: u128 = if elapsed_nanos >= deadline {
        0
    } else {
        deadline - elapsed_nanos
    };
    let tick: u128 = (ACTIVITY_TICK_SECS as u128) * (NANOS_PER_SECOND as u128);
    if left < tick {
        left as u64
    } else {
        tick as u64
    }
}

/// What the engine does after a configuration change, beyond recreating the
/// devices.
#[derive(Debug, Clone, Copy, PartialEq, Eq, Structural)]
pub enum ReloadAction {
    Nothing,
    /// Rebuild the realtime engine.
    RestartEngine,
    /// Swap the SoundFonts of the running engine.
    ReloadSoundfonts,
    /// Re-arm the inactivity clock from now.
    RearmIdle,
}

/// The plan for a configuration change: devices are recreated when they
/// changed; an engine change rebuilds the engine (which reloads the
/// SoundFonts too), otherwise a SoundFont change reloads them, otherwise a
/// changed timeout re-arms the clock.
pub open spec fn spec_reload_plan(diff: ConfigDiff) -> (bool, ReloadAction) {
    if !(diff.engine || diff.devices || diff.soundfonts || diff.idle) {
        (false, ReloadAction::Nothing)
    } else {
        (
            diff.devices,
            if diff.engine {
                ReloadAction::RestartEngine
            } else if diff.soundfonts {
                ReloadAction::ReloadSoundfonts
            } else if diff.idle {
                ReloadAction::RearmIdle
            } else {
                ReloadAction::Nothing
            },
        )
    }
}

/// Returns whether to recreate the devices, and what to do to the engine.
pub fn reload_plan(diff: &ConfigDiff) -> (p: (bool, ReloadAction))
    ensures
        p == spec_reload_plan(*diff),
{
    if !diff.any() {
        return (false, ReloadAction::Nothing);
    }
    let action = if diff.engine {
        ReloadAction::RestartEngine
    } else if diff.soundfonts {
        ReloadAction::ReloadSoundfonts
    } else if diff.idle {
        ReloadAction::RearmIdle
    } else {
        ReloadAction::Nothing
    };
    (diff.devices, action)
}

/// The plan carries out everything the diff asks for: the devices are
/// recreated exactly when they changed, whatever else changed; a changed
/// engine is rebuilt (which loads the SoundFonts and arms the clock too);
/// otherwise changed SoundFonts are reloaded, otherwise a changed timeout
/// re-arms the clock, and a diff asking for nothing does nothing.
pub proof fn law_reload_plan_covers_diff(d: ConfigDiff)
    ensures
        spec_reload_plan(d).0 == d.devices,
        d.engine ==> spec_reload_plan(d).1 == ReloadAction::RestartEngine,
        !d.engine && d.soundfonts ==> spec_reload_plan(d).1 == ReloadAction::ReloadSoundfonts,
        !d.engine && !d.soundfonts && d.idle ==> spec_reload_plan(d).1 == ReloadAction::RearmIdle,
        !d.engine && !d.soundfonts && !d.idle ==> spec_reload_plan(d).1 == ReloadAction::Nothing,
{
}

/// Only the idle timeout changing never restarts anything: the plan is to
/// re-arm the clock, with the devices and the engine left alone.
pub proof fn law_idle_change_restarts_nothing(old: MaestroSystemConfig, new: MaestroSystemConfig)
    requires
        !spec_diff(old, new).engine,
        !spec_diff(old, new).devices,
        !spec_diff(old, new).soundfonts,
        old.custom.idle_timeout_minutes != new.custom.idle_timeout_minutes,
    ensures
        spec_reload_plan(spec_diff(old, new)) == (false, ReloadAction::RearmIdle),
{
}

/// The text of the "ready" notification once the engine is loaded.
pub fn ready_message(idle_minutes: u32) -> (s: &'static str)
    ensures
        s@ == if idle_minutes > 0 {
            "Maestro will start when activity is detected."@
        } else {
            "Maestro is loaded and running."@
        },
{
    if idle_minutes > 0 {
        "Maestro will start when activity is detected."
    } else {
        "Maestro is loaded and running."
    }
}

/// Whether the engine starts as soon as the configuration is applied (no
/// idle timeout) rather than waiting, paused, for the first MIDI event.
pub fn starts_on_apply(idle_minutes: u32) -> (r: bool)
    ensures
        r == (idle_minutes == 0),
{
    idle_minutes == 0
}

} // verus!
