//! The settings editor's cached state: SoundFont list files with their
//! sub-lists, the audio hosts and devices offered, and the conversion of
//! combo-box indices to entries.

use crate::fmt::views;
use crate::system_cfg::DEFAULT_SOUNDFONT_LIST_NAME;
use crate::text::{eq_ignore_ascii_case, eq_ignoring_ascii_case, position_of, sort_texts, text_le};
use vstd::prelude::*;
use vstd::relations::sorted_by;

verus! {

/// The entry a combo-box index selects in a list of `len` entries.
pub open spec fn entry_at(idx: i32, len: usize) -> Option<usize> {
    if 0 <= idx < len {
        Some(idx as usize)
    } else {
        None
    }
}

pub fn index_of(idx: i32, len: usize) -> (r: Option<usize>)
    ensures
        r == entry_at(idx, len),
{
    if idx >= 0 && (idx as usize) < len {
        Some(idx as usize)
    } else {
        None
    }
}

/// A SoundFont list file as the editor caches it.
#[derive(Debug, Clone)]
pub struct SoundfontFileCache {
    pub path: String,
    pub name: String,
    pub dirty: bool,
    /// Names of the list's sub-lists, in the order the file holds them.
    pub sublist_names: Vec<String>,
}

/// The sub-lists the editor offers: the names in text order, or the default
/// list's name alone when there are none.
pub open spec fn sublist_order(names: Seq<Seq<char>>) -> Seq<Seq<char>> {
    if names.len() == 0 {
        seq![DEFAULT_SOUNDFONT_LIST_NAME@]
    } else {
        names.sort_by(|a: Seq<char>, b: Seq<char>| text_le(a, b))
    }
}

impl SoundfontFileCache {
    /// The sub-lists are keyed by name: no name occurs twice.
    pub open spec fn wf(&self) -> bool {
        views(self.sublist_names@).no_duplicates()
    }

    /// The sub-list names in text order, each once (or the default list's name
    /// alone when there are none).
    pub fn sorted_sublists(&self) -> (r: Vec<String>)
        ensures
            views(r@) == sublist_order(views(self.sublist_names@)),
            sorted_by(views(r@), |a: Seq<char>, b: Seq<char>| text_le(a, b)),
            self.wf() ==> views(r@).no_duplicates(),
    {
        let mut sublists = sort_texts(&self.sublist_names);
        let ghost old_sorted = sublists;
        proof {
            if self.wf() {
                views(self.sublist_names@).lemma_multiset_has_no_duplicates();
                views(sublists@).lemma_multiset_has_no_duplicates_conv();
            }
        }
        if sublists.len() == 0 {
            sublists.insert(0, String::from_str(DEFAULT_SOUNDFONT_LIST_NAME));
            proof {
                assert(views(sublists@) =~= seq![DEFAULT_SOUNDFONT_LIST_NAME@]);
                assert(views(self.sublist_names@).len() == 0) by {
                    vstd::seq_lib::to_multiset_len(views(self.sublist_names@));
                    vstd::seq_lib::to_multiset_len(views(old_sorted@));
                }
            }
        } else {
            proof {
                assert(views(self.sublist_names@).len() != 0) by {
                    vstd::seq_lib::to_multiset_len(views(self.sublist_names@));
                    vstd::seq_lib::to_multiset_len(views(sublists@));
                }
            }
        }
        sublists
    }

    /// The sub-list at a combo-box index of `sorted_sublists`.
    pub fn sublist_name(&self, index: i32) -> (r: Option<String>)
        ensures
            match r {
                Some(s) => 0 <= index < sublist_order(views(self.sublist_names@)).len() && s@
                    == sublist_order(views(self.sublist_names@))[index as int],
                None => !(0 <= index < sublist_order(views(self.sublist_names@)).len()),
            },
    {
        let sublists = self.sorted_sublists();
        match index_of(index, sublists.len()) {
            Some(i) => Some(sublists[i].clone()),
            None => None,
        }
    }
}

/// The audio hosts and output devices the editor offers, with what the
/// selected device supports.
#[derive(Debug, Clone)]
pub struct AudioDeviceCache {
    pub host_ids: Vec<String>,
    pub host_labels: Vec<String>,
    pub device_ids: Vec<String>,
    pub device_labels: Vec<String>,
    pub sample_rates: Vec<u32>,
    pub buffer_range: Option<(u32, u32)>,
}

/// The combo-box index of an identifier in a list whose first entry is
/// "default": 0 for no identifier or one that is not listed, else one past
/// its first position.
pub open spec fn id_index(ids: Seq<Seq<char>>, id: Option<Seq<char>>) -> int {
    match id {
        None => 0,
        Some(k) => first_index(ids, k) + 1,
    }
}

/// `i` is the first position of `k` in `ids`.
pub open spec fn is_first_index(ids: Seq<Seq<char>>, k: Seq<char>, i: int) -> bool {
    0 <= i < ids.len() && ids[i] == k && forall|j: int| 0 <= j < i ==> ids[j] != k
}

/// The first position of `k` in `ids`, or -1 when it does not occur.
pub open spec fn first_index(ids: Seq<Seq<char>>, k: Seq<char>) -> int {
    if exists|i: int| is_first_index(ids, k, i) {
        choose|i: int| is_first_index(ids, k, i)
    } else {
        -1
    }
}

/// The identifier at a combo-box index of such a list: `None` for the
/// "default" entry and past the end.
pub open spec fn id_at(ids: Seq<Seq<char>>, index: i32) -> Option<Seq<char>> {
    if 1 <= index <= ids.len() {
        Some(ids[index - 1])
    } else {
        None
    }
}

proof fn lemma_first_index_exists(ids: Seq<Seq<char>>, k: Seq<char>)
    requires
        ids.contains(k),
    ensures
        exists|i: int| is_first_index(ids, k, i),
    decreases ids.len(),
{
    let pre = ids.drop_last();
    if pre.contains(k) {
        lemma_first_index_exists(pre, k);
        let i = choose|i: int| is_first_index(pre, k, i);
        assert forall|j: int| 0 <= j < i implies ids[j] != k by {
            assert(pre[j] == ids[j]);
        }
        assert(pre[i] == ids[i]);
        assert(is_first_index(ids, k, i));
    } else {
        let last = ids.len() - 1;
        assert forall|j: int| 0 <= j < last implies ids[j] != k by {
            assert(pre[j] == ids[j]);
        }
        let w = ids.index_of(k);
        assert(ids[last] == k) by {
            if w < last {
                assert(pre[w] == k);
            }
        }
        assert(is_first_index(ids, k, last));
    }
}

/// A listed identifier is selected by its own combo-box index, and the
/// "default" entry selects no identifier.
pub proof fn law_id_index_roundtrip(ids: Seq<Seq<char>>, k: Seq<char>)
    requires
        ids.contains(k),
        ids.len() < i32::MAX,
    ensures
        id_at(ids, id_index(ids, Some(k)) as i32) == Some(k),
        id_at(ids, 0) is None,
{
    lemma_first_index_exists(ids, k);
    let i = first_index(ids, k);
    assert(is_first_index(ids, k, i));
    assert((i + 1) as i32 == i + 1);
}

/// The view of an optional string slice.
pub open spec fn opt_view(id: Option<&str>) -> Option<Seq<char>> {
    match id {
        Some(s) => Some(s@),
        None => None,
    }
}

impl AudioDeviceCache {
    pub fn empty() -> (c: AudioDeviceCache)
        ensures
            c.host_ids@.len() == 0,
            c.host_labels@.len() == 0,
            c.device_ids@.len() == 0,
            c.device_labels@.len() == 0,
            c.sample_rates@.len() == 0,
            c.buffer_range is None,
    {
        AudioDeviceCache {
            host_ids: Vec::new(),
            host_labels: Vec::new(),
            device_ids: Vec::new(),
            device_labels: Vec::new(),
            sample_rates: Vec::new(),
            buffer_range: None,
        }
    }

    fn index_in(ids: &Vec<String>, id: Option<&str>) -> (i: i32)
        requires
            ids@.len() < i32::MAX,
        ensures
            i == id_index(views(ids@), opt_view(id)),
    {
        match id {
            None => 0,
            Some(k) => match position_of(ids, k) {
                Some(p) => {
                    proof {
                        let v = views(ids@);
                        assert forall|j: int| 0 <= j < p implies v[j] != k@ by {
                            assert(ids@[j]@ != k@);
                        }
                        assert(is_first_index(v, k@, p as int));
                        let c = choose|i: int| is_first_index(v, k@, i);
                        assert(is_first_index(v, k@, c));
                        if c < p {
                            assert(v[c] != k@);
                        } else if c > p {
                            assert(v[p as int] != k@);
                        }
                    }
                    p as i32 + 1
                },
                None => {
                    proof {
                        let v = views(ids@);
                        assert forall|j: int| 0 <= j < v.len() implies v[j] != k@ by {
                            assert(ids@[j]@ != k@);
                        }
                        assert(!exists|i: int| is_first_index(v, k@, i));
                    }
                    0
                },
            },
        }
    }

    fn id_in(ids: &Vec<String>, index: i32) -> (r: Option<String>)
        requires
            index > i32::MIN,
        ensures
            match r {
                Some(s) => id_at(views(ids@), index) == Some(s@),
                None => id_at(views(ids@), index) is None,
            },
    {
        let i = index - 1;
        if i >= 0 && (i as usize) < ids.len() {
            Some(ids[i as usize].clone())
        } else {
            None
        }
    }

    pub fn host_index(&self, id: Option<&str>) -> (i: i32)
        requires
            self.host_ids@.len() < i32::MAX,
        ensures
            i == id_index(views(self.host_ids@), opt_view(id)),
    {
        Self::index_in(&self.host_ids, id)
    }

    pub fn device_index(&self, id: Option<&str>) -> (i: i32)
        requires
            self.device_ids@.len() < i32::MAX,
        ensures
            i == id_index(views(self.device_ids@), opt_view(id)),
    {
        Self::index_in(&self.device_ids, id)
    }

    pub fn host_id(&self, index: i32) -> (r: Option<String>)
        requires
            index > i32::MIN,
        ensures
            match r {
                Some(s) => id_at(views(self.host_ids@), index) == Some(s@),
                None => id_at(views(self.host_ids@), index) is None,
            },
    {
        Self::id_in(&self.host_ids, index)
    }

    pub fn device_id(&self, index: i32) -> (r: Option<String>)
        requires
            index > i32::MIN,
        ensures
            match r {
                Some(s) => id_at(views(self.device_ids@), index) == Some(s@),
                None => id_at(views(self.device_ids@), index) is None,
            },
    {
        Self::id_in(&self.device_ids, index)
    }

    /// Whether the host fixes sample rate and buffer size itself (JACK, in
    /// any letter case).
    pub fn fixed_by_host(&self, host_id: Option<&str>) -> (b: bool)
        ensures
            b == match host_id {
                Some(id) => eq_ignoring_ascii_case(id@, "jack"@),
                None => false,
            },
    {
        match host_id {
            Some(id) => eq_ignore_ascii_case(id, "jack"),
            None => false,
        }
    }

    /// Replaces the offered hosts and devices with a fresh listing.
    pub fn refresh(
        &mut self,
        hosts: Vec<(String, String)>,
        devices: Vec<(String, String)>,
        caps: Option<(Vec<u32>, Option<(u32, u32)>)>,
    )
        ensures
            final(self).host_ids@.len() == hosts@.len(),
            final(self).host_labels@.len() == hosts@.len(),
            forall|i: int|
                0 <= i < hosts@.len() ==> final(self).host_ids@[i]@ == hosts@[i].0@
                    && final(self).host_labels@[i]@ == hosts@[i].1@,
            final(self).device_ids@.len() == devices@.len(),
            final(self).device_labels@.len() == devices@.len(),
            forall|i: int|
                0 <= i < devices@.len() ==> final(self).device_ids@[i]@ == devices@[i].0@
                    && final(self).device_labels@[i]@ == devices@[i].1@,
            match caps {
                Some((rates, range)) => final(self).sample_rates@ == rates@ && final(self).buffer_range
                    == range,
                None => final(self).sample_rates@.len() == 0 && final(self).buffer_range is None,
            },
    {
        let (host_ids, host_labels) = split_pairs(hosts);
        let (device_ids, device_labels) = split_pairs(devices);
        self.host_ids = host_ids;
        self.host_labels = host_labels;
        self.device_ids = device_ids;
        self.device_labels = device_labels;
        match caps {
            Some((rates, range)) => {
                self.sample_rates = rates;
                self.buffer_range = range;
            },
            None => {
                self.sample_rates = Vec::new();
                self.buffer_range = None;
            },
        }
    }
}

/// Splits (identifier, label) pairs into the two lists.
fn split_pairs(pairs: Vec<(String, String)>) -> (r: (Vec<String>, Vec<String>))
    ensures
        r.0@.len() == pairs@.len(),
        r.1@.len() == pairs@.len(),
        forall|i: int| 0 <= i < pairs@.len() ==> r.0@[i]@ == pairs@[i].0@ && r.1@[i]@ == pairs@[i].1@,
{
    let mut ids: Vec<String> = Vec::new();
    let mut labels: Vec<String> = Vec::new();
    let mut i: usize = 0;
    while i < pairs.len()
        invariant
            0 <= i <= pairs@.len(),
            ids@.len() == i,
            labels@.len() == i,
            forall|j: int| 0 <= j < i ==> ids@[j]@ == pairs@[j].0@ && labels@[j]@ == pairs@[j].1@,
        decreases pairs@.len() - i,
    {
        ids.push(pairs[i].0.clone());
        labels.push(pairs[i].1.clone());
        i = i + 1;
    }
    (ids, labels)
}

} // verus!
