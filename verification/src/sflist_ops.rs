//! Creating, deleting and renaming SoundFont list files in the editor: which
//! names are allowed, what is refused with which message, and which list is
//! selected afterwards.

use crate::app_state::entry_at;
use crate::fmt::views;
use crate::system_cfg::DEFAULT_SOUNDFONT_LIST_NAME;
use crate::text::{position_of, str_eq};
use vstd::prelude::*;

verus! {

/// A list name is a plain file name: not empty, no path separators, not a
/// relative folder reference.
pub open spec fn valid_list_name(name: Seq<char>) -> bool {
    &&& name.len() > 0
    &&& !name.contains('/')
    &&& !name.contains('\\')
    &&& name != "."@
    &&& name != ".."@
}

fn has_separator(name: &str) -> (b: bool)
    ensures
        b == (name@.contains('/') || name@.contains('\\')),
{
    let n = name.unicode_len();
    let mut i: usize = 0;
    while i < n
        invariant
            n == name@.len(),
            0 <= i <= n,
            forall|j: int| 0 <= j < i ==> name@[j] != '/' && name@[j] != '\\',
        decreases n - i,
    {
        let c = name.get_char(i);
        if c == '/' || c == '\\' {
            return true;
        }
        i = i + 1;
    }
    false
}

pub fn is_valid_list_name(name: &str) -> (b: bool)
    ensures
        b == valid_list_name(name@),
{
    name.unicode_len() > 0 && !has_separator(name) && !str_eq(name, ".") && !str_eq(name, "..")
}

/// Whether some list is named `name`.
pub open spec fn named(names: Seq<Seq<char>>, name: Seq<char>) -> bool {
    names.contains(name)
}

fn exists_named(names: &Vec<String>, name: &str) -> (b: bool)
    ensures
        b == named(views(names@), name@),
{
    match position_of(names, name) {
        Some(i) => {
            proof {
                assert(views(names@)[i as int] == name@);
            }
            true
        },
        None => {
            proof {
                if views(names@).contains(name@) {
                    let j = views(names@).index_of(name@);
                    assert(names@[j]@ == name@);
                }
            }
            false
        },
    }
}

pub open spec fn invalid_name_message() -> Seq<char> {
    "Invalid SoundFont list name."@
}

pub open spec fn exists_message(name: Seq<char>) -> Seq<char> {
    "A SoundFont list named '"@ + name + "' already exists."@
}

/// Whether a new list may be created under `name` beside the lists
/// `names`: the name must be valid and unused.
pub fn create_check(name: &str, names: &Vec<String>) -> (r: Result<(), String>)
    ensures
        !valid_list_name(name@) ==> (r matches Err(m) && m@ == invalid_name_message()),
        valid_list_name(name@) && named(views(names@), name@) ==> (r matches Err(m) && m@
            == exists_message(name@)),
        valid_list_name(name@) && !named(views(names@), name@) ==> r is Ok,
{
    if !is_valid_list_name(name) {
        return Err(String::from_str("Invalid SoundFont list name."));
    }
    if exists_named(names, name) {
        let mut m = String::from_str("A SoundFont list named '");
        m.append(name);
        m.append("' already exists.");
        return Err(m);
    }
    Ok(())
}

/// The file a list named `name` is kept in, inside `dir`.
pub fn list_file_name(name: &str) -> (f: String)
    ensures
        f@ == name@ + ".json"@,
{
    let mut f = String::from_str(name);
    f.append(".json");
    f
}

/// What deleting list `idx` does.
#[derive(Debug, Clone, PartialEq)]
pub enum DeleteStep {
    /// No list is at that index: nothing.
    Nothing,
    /// The list is refused with this message.
    Refuse(String),
    /// Delete list `index`.
    Delete(usize),
}

pub fn delete_check(idx: i32, names: &Vec<String>) -> (r: DeleteStep)
    ensures
        match entry_at(idx, names.len()) {
            None => r == DeleteStep::Nothing,
            Some(i) => if names@[i as int]@ == DEFAULT_SOUNDFONT_LIST_NAME@ {
                r matches DeleteStep::Refuse(m) && m@
                    == "The Default SoundFont list cannot be deleted."@
            } else {
                r == DeleteStep::Delete(i)
            },
        },
{
    if idx < 0 || idx as usize >= names.len() {
        return DeleteStep::Nothing;
    }
    let i = idx as usize;
    if str_eq(names[i].as_str(), DEFAULT_SOUNDFONT_LIST_NAME) {
        DeleteStep::Refuse(String::from_str("The Default SoundFont list cannot be deleted."))
    } else {
        DeleteStep::Delete(i)
    }
}

/// The selection after list `removed` was deleted and `remaining` lists are
/// left: none when no list is left, a selection past the removed list moves
/// up one and stays within the list, no selection stays none.
pub open spec fn selection_after(selected: i32, removed: usize, remaining: usize) -> i32 {
    if remaining == 0 {
        -1i32
    } else if selected >= 0 {
        let shifted = if selected > removed {
            selected - 1
        } else {
            selected as int
        };
        (if shifted < remaining - 1 {
            shifted
        } else {
            remaining - 1
        }) as i32
    } else {
        selected
    }
}

pub fn selection_after_delete(selected: i32, removed: usize, remaining: usize) -> (s: i32)
    requires
        remaining < i32::MAX,
    ensures
        s == selection_after(selected, removed, remaining),
{
    if remaining == 0 {
        -1
    } else if selected >= 0 {
        let sel = selected as usize;
        let shifted = if sel > removed {
            sel - 1
        } else {
            sel
        };
        let last = remaining - 1;
        (if shifted < last {
            shifted
        } else {
            last
        }) as i32
    } else {
        selected
    }
}

/// After a deletion the selection is none exactly when no list is left,
/// and otherwise names a remaining list unless nothing was selected.
pub proof fn law_selection_stays_in_range(selected: i32, removed: usize, remaining: usize)
    requires
        remaining < i32::MAX,
    ensures
        remaining == 0 ==> selection_after(selected, removed, remaining) == -1,
        remaining > 0 && selected >= 0 ==> 0 <= selection_after(selected, removed, remaining)
            < remaining,
{
}

/// What renaming list `idx` to `new_name` does.
#[derive(Debug, Clone, PartialEq)]
pub enum RenameStep {
    /// Nothing to do: no list at that index, or the name is unchanged.
    Nothing,
    Refuse(String),
    /// Rename list `index`.
    Rename(usize),
}

pub fn rename_check(idx: i32, new_name: &str, names: &Vec<String>) -> (r: RenameStep)
    ensures
        match entry_at(idx, names.len()) {
            None => r == RenameStep::Nothing,
            Some(i) => if !valid_list_name(new_name@) {
                r matches RenameStep::Refuse(m) && m@ == invalid_name_message()
            } else if new_name@ == names@[i as int]@ {
                r == RenameStep::Nothing
            } else if named(views(names@), new_name@) {
                r matches RenameStep::Refuse(m) && m@ == exists_message(new_name@)
            } else {
                r == RenameStep::Rename(i)
            },
        },
{
    if idx < 0 || idx as usize >= names.len() {
        return RenameStep::Nothing;
    }
    let i = idx as usize;
    if !is_valid_list_name(new_name) {
        return RenameStep::Refuse(String::from_str("Invalid SoundFont list name."));
    }
    if str_eq(new_name, names[i].as_str()) {
        return RenameStep::Nothing;
    }
    if exists_named(names, new_name) {
        let mut m = String::from_str("A SoundFont list named '");
        m.append(new_name);
        m.append("' already exists.");
        return RenameStep::Refuse(m);
    }
    RenameStep::Rename(i)
}

/// The notice after references to a deleted list were switched to the
/// default list, given the summary text of what was switched.
pub fn deleted_notice(removed: &str, what: &str) -> (m: String)
    ensures
        m@ == "References to '"@ + removed@ + "' in "@ + what@ + " were switched to the '"@
            + DEFAULT_SOUNDFONT_LIST_NAME@ + "' list."@,
{
    let mut m = String::from_str("References to '");
    m.append(removed);
    m.append("' in ");
    m.append(what);
    m.append(" were switched to the '");
    m.append(DEFAULT_SOUNDFONT_LIST_NAME);
    m.append("' list.");
    m
}

/// The notice after references to a renamed list were updated.
pub fn renamed_notice(old_name: &str, what: &str, new_name: &str) -> (m: String)
    ensures
        m@ == "References to '"@ + old_name@ + "' in "@ + what@ + " were updated to '"@
            + new_name@ + "'."@,
{
    let mut m = String::from_str("References to '");
    m.append(old_name);
    m.append("' in ");
    m.append(what);
    m.append(" were updated to '");
    m.append(new_name);
    m.append("'.");
    m
}

} // verus!
