//! Which file-system changes the configuration watcher reports: the watched
//! configuration file itself, or a JSON file directly inside one of the
//! SoundFont list folders. Paths are compared the way `std::path::Path`
//! compares them.

use crate::daemon::ServiceEvent;
use vstd::prelude::*;

verus! {

/// What a watched change means.
#[derive(Debug, Clone, Copy, PartialEq, Eq, Structural)]
pub enum ConfigWatchEvent {
    ConfigChanged,
    SoundfontsChanged,
}

/// Whether two paths are equal as `std::path::Path` values (component-wise).
pub uninterp spec fn path_equal(a: Seq<char>, b: Seq<char>) -> bool;

/// The extension `std::path::Path::extension` gives a path, when it has one
/// that is valid text.
pub uninterp spec fn path_extension(p: Seq<char>) -> Option<Seq<char>>;

/// The folder `std::path::Path::parent` gives a path, when it has one.
pub uninterp spec fn path_parent(p: Seq<char>) -> Option<Seq<char>>;

/// The file name without its extension, as `std::path::Path::file_stem`
/// gives it, when it has one that is valid text.
pub uninterp spec fn path_stem(p: Seq<char>) -> Option<Seq<char>>;

/// Compares two paths with `Path`'s `==`, which compares their components,
/// so `a/b` and `a//b/` are equal.
#[verifier::external_body]
fn same_path(a: &str, b: &str) -> (r: bool)
    ensures
        r == path_equal(a@, b@),
{
    std::path::Path::new(a) == std::path::Path::new(b)
}

/// The extension of a path's file name (after its last dot), as
/// `Path::extension` gives it; `None` when there is none or it is not valid
/// text.
#[verifier::external_body]
pub(crate) fn extension_of(p: &str) -> (r: Option<String>)
    ensures
        match r {
            Some(e) => path_extension(p@) == Some(e@),
            None => path_extension(p@) is None,
        },
{
    std::path::Path::new(p).extension().and_then(|e| e.to_str()).map(|e| e.to_string())
}

/// The folder holding a path, as `Path::parent` gives it.
#[verifier::external_body]
pub(crate) fn parent_of(p: &str) -> (r: Option<String>)
    ensures
        match r {
            Some(d) => path_parent(p@) == Some(d@),
            None => path_parent(p@) is None,
        },
{
    std::path::Path::new(p).parent().and_then(|d| d.to_str()).map(|d| d.to_string())
}

/// The file name of a path without its extension, as `Path::file_stem`
/// gives it; `None` when there is none or it is not valid text.
#[verifier::external_body]
pub(crate) fn stem_of(p: &str) -> (r: Option<String>)
    ensures
        match r {
            Some(n) => path_stem(p@) == Some(n@),
            None => path_stem(p@) is None,
        },
{
    std::path::Path::new(p).file_stem().and_then(|n| n.to_str()).map(|n| n.to_string())
}

/// Whether some listed folder is `dir`.
pub open spec fn among(dirs: Seq<Seq<char>>, dir: Seq<char>) -> bool {
    exists|i: int| 0 <= i < dirs.len() && path_equal(dirs[i], dir)
}

/// What a changed path means: the configuration file changed, or a JSON file
/// in a SoundFont list folder did (any of them may be, or become, the active
/// list); anything else is not reported.
pub open spec fn classify_path(path: Seq<char>, config_file: Seq<char>, sflist_dirs: Seq<Seq<char>>) -> Option<ConfigWatchEvent> {
    if path_equal(path, config_file) {
        Some(ConfigWatchEvent::ConfigChanged)
    } else if path_extension(path) == Some("json"@) && match path_parent(path) {
        Some(dir) => among(sflist_dirs, dir),
        None => false,
    } {
        Some(ConfigWatchEvent::SoundfontsChanged)
    } else {
        None
    }
}

/// What a change means, from what the path comparisons found: whether the
/// path is the configuration file, its extension, and whether its folder is
/// one of the SoundFont list folders.
pub fn classify_from(is_config_file: bool, extension: Option<&str>, in_sflist_dir: bool) -> (r:
    Option<ConfigWatchEvent>)
    ensures
        r == if is_config_file {
            Some(ConfigWatchEvent::ConfigChanged)
        } else if extension matches Some(e) && e@ == "json"@ && in_sflist_dir {
            Some(ConfigWatchEvent::SoundfontsChanged)
        } else {
            None
        },
{
    if is_config_file {
        return Some(ConfigWatchEvent::ConfigChanged);
    }
    let is_json = match extension {
        Some(e) => crate::text::str_eq(e, "json"),
        None => false,
    };
    if is_json && in_sflist_dir {
        Some(ConfigWatchEvent::SoundfontsChanged)
    } else {
        None
    }
}

/// Whether the folder holding `path` is one of `dirs`.
fn parent_listed(path: &str, dirs: &Vec<String>) -> (b: bool)
    ensures
        b == match path_parent(path@) {
            Some(d) => among(crate::fmt::views(dirs@), d),
            None => false,
        },
{
    match parent_of(path) {
        None => false,
        Some(dir) => {
            let mut i: usize = 0;
            while i < dirs.len()
                invariant
                    0 <= i <= dirs@.len(),
                    path_parent(path@) == Some(dir@),
                    forall|j: int| 0 <= j < i ==> !path_equal(dirs@[j]@, dir@),
                decreases dirs@.len() - i,
            {
                if same_path(dirs[i].as_str(), dir.as_str()) {
                    proof {
                        let v = crate::fmt::views(dirs@);
                        assert(v[i as int] == dirs@[i as int]@);
                        assert(path_equal(v[i as int], dir@));
                    }
                    return true;
                }
                i = i + 1;
            }
            proof {
                let v = crate::fmt::views(dirs@);
                assert forall|j: int| 0 <= j < v.len() implies !path_equal(v[j], dir@) by {
                    assert(v[j] == dirs@[j]@);
                }
            }
            false
        },
    }
}

pub fn classify(path: &str, config_file: &str, sflist_dirs: &Vec<String>) -> (r: Option<
    ConfigWatchEvent,
>)
    ensures
        r == classify_path(path@, config_file@, crate::fmt::views(sflist_dirs@)),
{
    if same_path(path, config_file) {
        return classify_from(true, None, false);
    }
    let ext = extension_of(path);
    let is_json = match &ext {
        Some(e) => crate::text::str_eq(e.as_str(), "json"),
        None => false,
    };
    let in_dir = if is_json {
        parent_listed(path, sflist_dirs)
    } else {
        false
    };
    let e = match &ext {
        Some(e) => Some(e.as_str()),
        None => None,
    };
    classify_from(false, e, in_dir)
}

/// The service event a watched change is forwarded as.
pub fn service_event(e: ConfigWatchEvent) -> (s: ServiceEvent)
    ensures
        s == match e {
            ConfigWatchEvent::ConfigChanged => ServiceEvent::ConfigChanged,
            ConfigWatchEvent::SoundfontsChanged => ServiceEvent::SoundfontsChanged,
        },
{
    match e {
        ConfigWatchEvent::ConfigChanged => ServiceEvent::ConfigChanged,
        ConfigWatchEvent::SoundfontsChanged => ServiceEvent::SoundfontsChanged,
    }
}

} // verus!
