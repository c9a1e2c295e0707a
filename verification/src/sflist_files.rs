//! The SoundFont list files the editor offers: the `.json` files found in the
//! list folders, one per name, in name order, with the default list always
//! among them.

use crate::fmt::views;
use crate::system_cfg::DEFAULT_SOUNDFONT_LIST_NAME;
use crate::watch::{extension_of, path_extension, path_stem, stem_of};
use crate::text::{str_eq, str_le, text_le, lemma_text_le_total_ordering};
use vstd::prelude::*;
use vstd::relations::total_ordering;

verus! {

/// A list file found on disk: its name (the file stem) and its path.
pub open spec fn entry_view(e: (String, String)) -> (Seq<char>, Seq<char>) {
    (e.0@, e.1@)
}

pub open spec fn entry_views(s: Seq<(String, String)>) -> Seq<(Seq<char>, Seq<char>)> {
    s.map_values(|e: (String, String)| entry_view(e))
}

/// `k` is the first position in `found` with the name `name`.
pub open spec fn first_named(found: Seq<(Seq<char>, Seq<char>)>, k: int, name: Seq<char>) -> bool {
    &&& 0 <= k < found.len()
    &&& found[k].0 == name
    &&& forall|m: int| 0 <= m < k ==> #[trigger] found[m].0 != name
}

/// `out` holds one entry per name of `found`, in strictly increasing name
/// order, and each entry is the first one of `found` with its name (the
/// result of a stable sort by name followed by dropping repeated names).
pub open spec fn one_per_name(
    found: Seq<(Seq<char>, Seq<char>)>,
    out: Seq<(Seq<char>, Seq<char>)>,
) -> bool {
    &&& forall|i: int, j: int|
        0 <= i < j < out.len() ==> text_le(#[trigger] out[i].0, #[trigger] out[j].0) && out[i].0
            != out[j].0
    &&& forall|i: int| 0 <= i < out.len() ==> is_first_entry(found, #[trigger] out[i])
    &&& forall|k: int| 0 <= k < found.len() ==> has_name(out, #[trigger] found[k].0)
}

/// `e` is the first entry of `found` with its name.
pub open spec fn is_first_entry(found: Seq<(Seq<char>, Seq<char>)>, e: (Seq<char>, Seq<char>)) -> bool {
    exists|k: int| first_named(found, k, e.0) && #[trigger] found[k] == e
}

pub open spec fn has_name(s: Seq<(Seq<char>, Seq<char>)>, name: Seq<char>) -> bool {
    exists|i: int| 0 <= i < s.len() && #[trigger] s[i].0 == name
}

/// A file in a list folder is a list when its extension is `json`; the
/// list is named by the file name without the extension.
pub open spec fn list_entry(path: Seq<char>) -> Option<(Seq<char>, Seq<char>)> {
    if path_extension(path) == Some("json"@) {
        match path_stem(path) {
            Some(name) => Some((name, path)),
            None => None,
        }
    } else {
        None
    }
}

/// The lists among the files of the list folders, in the order found.
pub open spec fn list_entries(paths: Seq<Seq<char>>) -> Seq<(Seq<char>, Seq<char>)>
    decreases paths.len(),
{
    if paths.len() == 0 {
        Seq::empty()
    } else {
        let rest = list_entries(paths.drop_last());
        match list_entry(paths.last()) {
            Some(e) => rest.push(e),
            None => rest,
        }
    }
}

/// The lists among `paths` (the files of the list folders, in the order
/// they were read): each JSON file with its name.
pub fn list_files_found(paths: &Vec<String>) -> (out: Vec<(String, String)>)
    ensures
        entry_views(out@) == list_entries(views(paths@)),
{
    let mut out: Vec<(String, String)> = Vec::new();
    let mut i: usize = 0;
    proof {
        assert(views(paths@).subrange(0, 0) =~= Seq::<Seq<char>>::empty());
        assert(entry_views(out@) =~= Seq::<(Seq<char>, Seq<char>)>::empty());
    }
    while i < paths.len()
        invariant
            0 <= i <= paths@.len(),
            entry_views(out@) == list_entries(views(paths@).subrange(0, i as int)),
        decreases paths@.len() - i,
    {
        let ghost before = entry_views(out@);
        let path = paths[i].as_str();
        let ghost pre = views(paths@).subrange(0, i as int);
        let ghost post = views(paths@).subrange(0, i as int + 1);
        proof {
            assert(post.drop_last() =~= pre);
            assert(post.last() == path@);
        }
        let is_json = match extension_of(path) {
            Some(e) => crate::text::str_eq(e.as_str(), "json"),
            None => false,
        };
        if is_json {
            match stem_of(path) {
                Some(name) => {
                    out.push((name, paths[i].clone()));
                    proof {
                        assert(entry_views(out@) =~= before.push(list_entry(path@)->0));
                    }
                },
                None => {},
            }
        }
        i = i + 1;
    }
    proof {
        assert(views(paths@).subrange(0, i as int) =~= views(paths@));
    }
    out
}

/// Keeps one file per list name and makes sure the default list is offered:
/// `found` is what the list folders hold, in the order they were searched;
/// the result is sorted by name, keeps the first file of each name, and
/// starts with the default list at `default_path` where no file of that name
/// was found.
pub fn soundfont_list_files(found: &Vec<(String, String)>, default_path: &str) -> (out: Vec<(String, String)>)
    ensures
        has_name(entry_views(found@), DEFAULT_SOUNDFONT_LIST_NAME@) ==> one_per_name(
            entry_views(found@),
            entry_views(out@),
        ),
        !has_name(entry_views(found@), DEFAULT_SOUNDFONT_LIST_NAME@) ==> {
            &&& out@.len() > 0
            &&& entry_view(out@[0]) == (DEFAULT_SOUNDFONT_LIST_NAME@, default_path@)
            &&& one_per_name(entry_views(found@), entry_views(out@).drop_first())
        },
{
    let (lists, has_default) = one_file_per_name(found);
    let mut out = lists;
    if !has_default {
        let ghost before = entry_views(out@);
        out.insert(0, (String::from_str(DEFAULT_SOUNDFONT_LIST_NAME), String::from_str(default_path)));
        proof {
            assert(entry_views(out@).drop_first() =~= before);
        }
    }
    out
}

/// The found files, one per name in name order, and whether one of them is
/// the default list.
fn one_file_per_name(found: &Vec<(String, String)>) -> (r: (Vec<(String, String)>, bool))
    ensures
        one_per_name(entry_views(found@), entry_views(r.0@)),
        r.1 == has_name(entry_views(found@), DEFAULT_SOUNDFONT_LIST_NAME@),
{
    let ghost le = |a: Seq<char>, b: Seq<char>| text_le(a, b);
    proof {
        lemma_text_le_total_ordering();
    }
    let ghost all = entry_views(found@);
    let mut out: Vec<(String, String)> = Vec::new();
    let mut has_default = false;
    let mut i: usize = 0;
    while i < found.len()
        invariant
            0 <= i <= found@.len(),
            all == entry_views(found@),
            total_ordering(le),
            le == (|a: Seq<char>, b: Seq<char>| text_le(a, b)),
            one_per_name(all.subrange(0, i as int), entry_views(out@)),
            has_default == has_name(all.subrange(0, i as int), DEFAULT_SOUNDFONT_LIST_NAME@),
        decreases found@.len() - i,
    {
        let name = found[i].0.clone();
        let path = found[i].1.clone();
        let ghost e = all[i as int];
        assert(e == (name@, path@));
        let ghost pre = all.subrange(0, i as int);
        let ghost post = all.subrange(0, i as int + 1);
        assert(post =~= pre.push(e));
        let ghost before = entry_views(out@);
        // Skip the names ordered strictly before this one.
        let mut p: usize = 0;
        while p < out.len() && str_le(out[p].0.as_str(), name.as_str()) && !str_eq(
            out[p].0.as_str(),
            name.as_str(),
        )
            invariant
                0 <= p <= out@.len(),
                before == entry_views(out@),
                forall|q: int| 0 <= q < p ==> text_le(before[q].0, name@) && before[q].0 != name@,
            decreases out@.len() - p,
        {
            p = p + 1;
        }
        let present = p < out.len() && str_eq(out[p].0.as_str(), name.as_str());
        proof {
            if p < before.len() && !present {
                // The name at `p` is not below the new one.
                assert(le(before[p as int].0, name@) || le(name@, before[p as int].0));
            }
        }
        if present {
            proof {
                assert forall|i2: int| 0 <= i2 < before.len() implies is_first_entry(
                    post,
                    #[trigger] before[i2],
                ) by {
                    let k = choose|k: int| first_named(pre, k, before[i2].0) && pre[k] == before[i2];
                    assert(post[k] == pre[k]);
                }
                assert forall|k: int| 0 <= k < post.len() implies has_name(
                    before,
                    #[trigger] post[k].0,
                ) by {
                    if k < pre.len() {
                        assert(post[k] == pre[k]);
                        assert(has_name(before, pre[k].0));
                    } else {
                        assert(before[p as int].0 == post[k].0);
                    }
                }
                assert(has_name(post, DEFAULT_SOUNDFONT_LIST_NAME@) == has_name(
                    pre,
                    DEFAULT_SOUNDFONT_LIST_NAME@,
                )) by {
                    if has_name(post, DEFAULT_SOUNDFONT_LIST_NAME@) {
                        let w = choose|w: int|
                            0 <= w < post.len() && #[trigger] post[w].0
                                == DEFAULT_SOUNDFONT_LIST_NAME@;
                        if w == pre.len() {
                            // The repeated name was listed before this entry.
                            assert(is_first_entry(pre, before[p as int]));
                            let k2 = choose|k2: int|
                                first_named(pre, k2, before[p as int].0) && #[trigger] pre[k2]
                                    == before[p as int];
                            assert(pre[k2].0 == DEFAULT_SOUNDFONT_LIST_NAME@);
                        } else {
                            assert(pre[w] == post[w]);
                        }
                    }
                    if has_name(pre, DEFAULT_SOUNDFONT_LIST_NAME@) {
                        let w = choose|w: int|
                            0 <= w < pre.len() && #[trigger] pre[w].0
                                == DEFAULT_SOUNDFONT_LIST_NAME@;
                        assert(post[w] == pre[w]);
                    }
                }
            }
        } else {
            let is_default = str_eq(name.as_str(), DEFAULT_SOUNDFONT_LIST_NAME);
            out.insert(p, (name, path));
            proof {
                let after = entry_views(out@);
                assert(after =~= before.insert(p as int, e));
                // No entry listed so far carries this name.
                assert forall|m: int| 0 <= m < pre.len() implies #[trigger] pre[m].0 != e.0 by {
                    assert(has_name(before, pre[m].0));
                    let i2 = choose|i2: int| 0 <= i2 < before.len() && #[trigger] before[i2].0
                        == pre[m].0;
                    if i2 < p {
                    } else if i2 == p {
                    } else {
                        assert(le(before[p as int].0, before[i2].0));
                        assert(text_le(e.0, before[p as int].0));
                        if before[i2].0 == e.0 {
                            assert(le(e.0, before[p as int].0) && le(before[p as int].0, e.0));
                        }
                    }
                }
                assert(first_named(post, pre.len() as int, e.0));
                assert forall|x: int, y: int| 0 <= x < y < after.len() implies text_le(
                    #[trigger] after[x].0,
                    #[trigger] after[y].0,
                ) && after[x].0 != after[y].0 by {
                    if y < p {
                        assert(after[x] == before[x] && after[y] == before[y]);
                    } else if y == p {
                        assert(after[x] == before[x]);
                    } else {
                        assert(after[y] == before[y - 1]);
                        if x < p {
                            assert(after[x] == before[x]);
                            assert(le(before[x].0, e.0));
                            assert(le(e.0, before[p as int].0));
                            if y - 1 > p {
                                assert(le(before[p as int].0, before[y - 1].0));
                            }
                            assert(le(e.0, before[y - 1].0));
                            assert(le(before[x].0, before[y - 1].0));
                            if before[x].0 == before[y - 1].0 {
                                assert(le(e.0, before[x].0));
                            }
                        } else if x == p {
                            assert(after[x] == e);
                            if y - 1 > p {
                                assert(le(before[p as int].0, before[y - 1].0));
                            }
                            assert(le(e.0, before[y - 1].0));
                            if e.0 == before[y - 1].0 {
                                assert(is_first_entry(pre, before[y - 1]));
                                let k = choose|k: int|
                                    first_named(pre, k, before[y - 1].0) && #[trigger] pre[k]
                                        == before[y - 1];
                                assert(pre[k].0 != e.0);
                            }
                        } else {
                            assert(after[x] == before[x - 1]);
                        }
                    }
                }
                assert forall|i2: int| 0 <= i2 < after.len() implies is_first_entry(
                    post,
                    #[trigger] after[i2],
                ) by {
                    if i2 == p {
                        assert(post[pre.len() as int] == after[i2]);
                    } else {
                        let j = if i2 < p { i2 } else { i2 - 1 };
                        assert(after[i2] == before[j]);
                        assert(is_first_entry(pre, before[j]));
                        let k = choose|k: int| first_named(pre, k, before[j].0) && pre[k] == before[j];
                        assert(post[k] == pre[k]);
                    }
                }
                assert forall|k: int| 0 <= k < post.len() implies has_name(
                    after,
                    #[trigger] post[k].0,
                ) by {
                    if k < pre.len() {
                        assert(post[k] == pre[k]);
                        assert(has_name(before, pre[k].0));
                        let j = choose|j: int| 0 <= j < before.len() && #[trigger] before[j].0
                            == pre[k].0;
                        if j < p {
                            assert(after[j] == before[j]);
                        } else {
                            assert(after[j + 1] == before[j]);
                        }
                    } else {
                        assert(after[p as int].0 == post[k].0);
                    }
                }
                assert(is_default == (e.0 == DEFAULT_SOUNDFONT_LIST_NAME@));
                assert(has_name(post, DEFAULT_SOUNDFONT_LIST_NAME@) == (has_name(
                    pre,
                    DEFAULT_SOUNDFONT_LIST_NAME@,
                ) || is_default)) by {
                    if has_name(post, DEFAULT_SOUNDFONT_LIST_NAME@) {
                        let w = choose|w: int|
                            0 <= w < post.len() && #[trigger] post[w].0
                                == DEFAULT_SOUNDFONT_LIST_NAME@;
                        if w < pre.len() {
                            assert(pre[w] == post[w]);
                        }
                    }
                    if has_name(pre, DEFAULT_SOUNDFONT_LIST_NAME@) {
                        let w = choose|w: int|
                            0 <= w < pre.len() && #[trigger] pre[w].0
                                == DEFAULT_SOUNDFONT_LIST_NAME@;
                        assert(post[w] == pre[w]);
                    }
                    if is_default {
                        assert(post[pre.len() as int].0 == DEFAULT_SOUNDFONT_LIST_NAME@);
                    }
                }
            }
            if is_default {
                has_default = true;
            }
        }
        i = i + 1;
    }
    proof {
        assert(all.subrange(0, i as int) =~= all);
    }
    (out, has_default)
}

} // verus!
