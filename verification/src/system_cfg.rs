//! Configuration components, their on-disk names and wire codes, and the
//! settings shared between the daemon and the GUI.

use crate::text::str_eq;
use vstd::prelude::*;

verus! {

/// Name of the SoundFont list every installation starts with.
pub const DEFAULT_SOUNDFONT_LIST_NAME: &'static str = "Default";

/// Version stamped into every saved configuration file.
pub const CONFIG_SCHEMA_VERSION: u32 = 1;

#[derive(Debug, Clone, Copy, PartialEq, Eq, Structural)]
pub enum ConfigComponent {
    System,
    KDMAPI,
    Converter,
}

/// The file name (without extension) a component's configuration is kept
/// under.
pub open spec fn component_filename(c: ConfigComponent) -> Seq<char> {
    match c {
        ConfigComponent::System => "system"@,
        ConfigComponent::KDMAPI => "kdmapi"@,
        ConfigComponent::Converter => "converter"@,
    }
}

/// The component a configuration file name stands for.
pub open spec fn component_from_name(name: Seq<char>) -> Option<ConfigComponent> {
    if name == "system"@ {
        Some(ConfigComponent::System)
    } else if name == "kdmapi"@ {
        Some(ConfigComponent::KDMAPI)
    } else if name == "converter"@ {
        Some(ConfigComponent::Converter)
    } else {
        None
    }
}

/// The name shown to the user.
pub open spec fn component_display_name(c: ConfigComponent) -> Seq<char> {
    match c {
        ConfigComponent::System => "Virtual Device"@,
        ConfigComponent::KDMAPI => "KDMAPI"@,
        ConfigComponent::Converter => "Converter"@,
    }
}

/// The stable wire code of a component in the statistics frame.
pub open spec fn component_code(c: ConfigComponent) -> u32 {
    match c {
        ConfigComponent::System => 0,
        ConfigComponent::KDMAPI => 1,
        ConfigComponent::Converter => 2,
    }
}

/// The component a wire code stands for.
pub open spec fn component_from_code(code: u32) -> Option<ConfigComponent> {
    if code == 0 {
        Some(ConfigComponent::System)
    } else if code == 1 {
        Some(ConfigComponent::KDMAPI)
    } else if code == 2 {
        Some(ConfigComponent::Converter)
    } else {
        None
    }
}

impl ConfigComponent {
    pub fn to_filename(&self) -> (s: String)
        ensures
            s@ == component_filename(*self),
    {
        match self {
            ConfigComponent::System => String::from_str("system"),
            ConfigComponent::KDMAPI => String::from_str("kdmapi"),
            ConfigComponent::Converter => String::from_str("converter"),
        }
    }

    pub fn from_name(name: &str) -> (c: Option<ConfigComponent>)
        ensures
            c == component_from_name(name@),
    {
        if str_eq(name, "system") {
            Some(ConfigComponent::System)
        } else if str_eq(name, "kdmapi") {
            Some(ConfigComponent::KDMAPI)
        } else if str_eq(name, "converter") {
            Some(ConfigComponent::Converter)
        } else {
            None
        }
    }

    pub fn display_name(&self) -> (s: String)
        ensures
            s@ == component_display_name(*self),
    {
        match self {
            ConfigComponent::System => String::from_str("Virtual Device"),
            ConfigComponent::KDMAPI => String::from_str("KDMAPI"),
            ConfigComponent::Converter => String::from_str("Converter"),
        }
    }

    /// Stable wire encoding for the statistics frame, which has to say which
    /// component a publisher belongs to.
    pub fn code(&self) -> (n: u32)
        ensures
            n == component_code(*self),
    {
        match self {
            ConfigComponent::System => 0,
            ConfigComponent::KDMAPI => 1,
            ConfigComponent::Converter => 2,
        }
    }

    pub fn from_code(code: u32) -> (c: Option<ConfigComponent>)
        ensures
            c == component_from_code(code),
    {
        match code {
            0 => Some(ConfigComponent::System),
            1 => Some(ConfigComponent::KDMAPI),
            2 => Some(ConfigComponent::Converter),
            _ => None,
        }
    }
}

/// Every component's file name reads back as that component, and a name that
/// reads as a component is that component's file name.
pub proof fn law_component_name_roundtrip(c: ConfigComponent, name: Seq<char>)
    ensures
        component_from_name(component_filename(c)) == Some(c),
        component_from_name(name) == Some(c) ==> name == component_filename(c),
{
    reveal_strlit("system");
    reveal_strlit("kdmapi");
    reveal_strlit("converter");
    assert("kdmapi"@[0] != "system"@[0]);
    assert("converter"@[0] != "system"@[0]);
    assert("converter"@[0] != "kdmapi"@[0]);
}

/// Wire codes round-trip: every component decodes from its code, and a code
/// that decodes names the component it came from.
pub proof fn law_component_code_roundtrip(c: ConfigComponent, code: u32)
    ensures
        component_from_code(component_code(c)) == Some(c),
        component_from_code(code) == Some(c) ==> component_code(c) == code,
{
}

/// Settings shared by the GUI and the daemon for the virtual MIDI device.
#[derive(Debug, Clone, PartialEq)]
pub struct SystemCustomSettings {
    pub device_name: String,
    pub num_ports: u8,
    pub midi2_enabled: bool,
    pub idle_timeout_minutes: u32,
}

impl SystemCustomSettings {
    pub fn default() -> (s: SystemCustomSettings)
        ensures
            s.device_name@ == "Maestro"@,
            s.num_ports == 4,
            !s.midi2_enabled,
            s.idle_timeout_minutes == 10,
    {
        SystemCustomSettings {
            device_name: String::from_str("Maestro"),
            num_ports: 4,
            midi2_enabled: false,
            idle_timeout_minutes: 10,
        }
    }
}

/// Application-wide settings.
#[derive(Debug, Clone, PartialEq)]
pub struct MaestroGlobalConfig {
    pub sflist_search_paths: Vec<String>,
    pub default_soundfont_list: Option<String>,
    pub start_virtual_device_on_launch: bool,
    pub remember_last_tab: bool,
    pub last_tab: String,
}

impl MaestroGlobalConfig {
    pub fn default() -> (c: MaestroGlobalConfig)
        ensures
            c.sflist_search_paths@.len() == 0,
            c.default_soundfont_list matches Some(name) && name@ == DEFAULT_SOUNDFONT_LIST_NAME@,
            c.start_virtual_device_on_launch,
            !c.remember_last_tab,
            c.last_tab@ == Seq::<char>::empty(),
    {
        MaestroGlobalConfig {
            sflist_search_paths: Vec::new(),
            default_soundfont_list: Some(String::from_str(DEFAULT_SOUNDFONT_LIST_NAME)),
            start_virtual_device_on_launch: true,
            remember_last_tab: false,
            last_tab: String::new(),
        }
    }
}

} // verus!
