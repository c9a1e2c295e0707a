//! Decisions the main window takes around its own lifetime: the launch mode
//! from the command line, the tab it opens on, what a dropped file is, and
//! whether a newer release is on offer.

use crate::text::{eq_ignore_ascii_case, str_eq};
use crate::ui_conv::{tab_for_key, tab_from_key, Tab};
use vstd::prelude::*;

verus! {

pub const EDIT_LIST_ARG: &'static str = "edit-list";
pub const EDIT_CONFIG_ARG: &'static str = "edit-config";

/// How the window was launched.
#[derive(Debug, Clone, PartialEq)]
pub enum LaunchMode {
    /// Every SoundFont list and component configuration.
    Combined,
    /// One SoundFont list file.
    EditList(String),
    /// One component configuration file.
    EditConfig(String),
}

/// The launch mode for a command line: `edit-list <path>` or
/// `edit-config <path>` after the program name (anything may follow),
/// otherwise the combined window.
pub open spec fn launch_mode_is(args: Seq<Seq<char>>, m: LaunchMode) -> bool {
    if args.len() >= 3 && args[1] == EDIT_LIST_ARG@ {
        m matches LaunchMode::EditList(p) && p@ == args[2]
    } else if args.len() >= 3 && args[1] == EDIT_CONFIG_ARG@ {
        m matches LaunchMode::EditConfig(p) && p@ == args[2]
    } else {
        m == LaunchMode::Combined
    }
}

pub fn launch_mode(args: &Vec<String>) -> (m: LaunchMode)
    ensures
        launch_mode_is(crate::fmt::views(args@), m),
{
    if args.len() >= 3 {
        if str_eq(args[1].as_str(), EDIT_LIST_ARG) {
            return LaunchMode::EditList(args[2].clone());
        }
        if str_eq(args[1].as_str(), EDIT_CONFIG_ARG) {
            return LaunchMode::EditConfig(args[2].clone());
        }
    }
    LaunchMode::Combined
}

/// The tab the window opens on: the remembered one in the combined window
/// when remembering is on and the key names a tab, else the welcome page.
pub fn initial_tab(combined: bool, remember_last_tab: bool, last_tab: &str) -> (t: Tab)
    ensures
        t == if combined && remember_last_tab {
            match tab_for_key(last_tab@) {
                Some(t) => t,
                None => Tab::Welcome,
            }
        } else {
            Tab::Welcome
        },
{
    if combined && remember_last_tab {
        match tab_from_key(last_tab) {
            Some(t) => t,
            None => Tab::Welcome,
        }
    } else {
        Tab::Welcome
    }
}

/// What a file dropped on the window is.
#[derive(Debug, Clone, Copy, PartialEq, Eq, Structural)]
pub enum DropKind {
    /// Queued for conversion.
    Midi,
    /// Added to the selected sub-list.
    Soundfont,
    Ignored,
}

pub open spec fn is_one_of(ext: Seq<char>, names: Seq<Seq<char>>) -> bool {
    exists|i: int| 0 <= i < names.len() && crate::text::eq_ignoring_ascii_case(ext, names[i])
}

/// The kind of a dropped file by its extension, in any letter case: MIDI
/// files (`mid`, `midi`, `kar`, `rmi`) and SoundFonts (`sf2`, `sf3`,
/// `sfz`).
pub fn drop_kind(ext: &str) -> (k: DropKind)
    ensures
        k == if is_one_of(ext@, seq!["mid"@, "midi"@, "kar"@, "rmi"@]) {
            DropKind::Midi
        } else if is_one_of(ext@, seq!["sf2"@, "sf3"@, "sfz"@]) {
            DropKind::Soundfont
        } else {
            DropKind::Ignored
        },
{
    let midi = [eq_ignore_ascii_case(ext, "mid"), eq_ignore_ascii_case(ext, "midi"),
        eq_ignore_ascii_case(ext, "kar"), eq_ignore_ascii_case(ext, "rmi")];
    let font = [eq_ignore_ascii_case(ext, "sf2"), eq_ignore_ascii_case(ext, "sf3"),
        eq_ignore_ascii_case(ext, "sfz")];
    proof {
        let m = seq!["mid"@, "midi"@, "kar"@, "rmi"@];
        let f = seq!["sf2"@, "sf3"@, "sfz"@];
        assert(m[0] == "mid"@ && m[1] == "midi"@ && m[2] == "kar"@ && m[3] == "rmi"@);
        assert(f[0] == "sf2"@ && f[1] == "sf3"@ && f[2] == "sfz"@);
    }
    if midi[0] || midi[1] || midi[2] || midi[3] {
        DropKind::Midi
    } else if font[0] || font[1] || font[2] {
        DropKind::Soundfont
    } else {
        DropKind::Ignored
    }
}

/// The list a dropped MIDI file is queued with: the first list offered, or
/// the default list when none is.
pub fn queue_sflist(available: &Vec<String>) -> (s: String)
    ensures
        s@ == if available@.len() > 0 {
            available@[0]@
        } else {
            crate::system_cfg::DEFAULT_SOUNDFONT_LIST_NAME@
        },
{
    if available.len() > 0 {
        available[0].clone()
    } else {
        String::from_str(crate::system_cfg::DEFAULT_SOUNDFONT_LIST_NAME)
    }
}

/// A release tag without its leading `v`s.
pub open spec fn strip_v(tag: Seq<char>) -> Seq<char>
    decreases tag.len(),
{
    if tag.len() > 0 && tag[0] == 'v' {
        strip_v(tag.drop_first())
    } else {
        tag
    }
}

/// The version a newer release offers: the tag without its leading `v`s,
/// unless that is the running version.
pub fn newer_release(tag: &str, running: &str) -> (r: Option<String>)
    ensures
        match r {
            Some(v) => v@ == strip_v(tag@) && v@ != running@,
            None => strip_v(tag@) == running@,
        },
{
    let n = tag.unicode_len();
    let mut i: usize = 0;
    proof {
        assert(tag@.skip(0) =~= tag@);
    }
    while i < n && tag.get_char(i) == 'v'
        invariant
            n == tag@.len(),
            0 <= i <= n,
            strip_v(tag@) == strip_v(tag@.skip(i as int)),
        decreases n - i,
    {
        proof {
            assert(tag@.skip(i as int).drop_first() =~= tag@.skip(i as int + 1));
        }
        i = i + 1;
    }
    let rest = tag.substring_char(i, n);
    proof {
        assert(rest@ =~= tag@.skip(i as int));
    }
    if str_eq(rest, running) {
        None
    } else {
        Some(String::from_str(rest))
    }
}

} // verus!
