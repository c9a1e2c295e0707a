//! Bookkeeping of the settings editor: repointing references when a
//! SoundFont list is renamed, which sections a component file is saved with,
//! how a loaded file's loose values are read, and which component files the
//! editor lists.

use crate::component::{profile_of, ComponentProfile};
use crate::fmt::{joined, push_decimal, decimal, views};
use crate::system_cfg::{component_from_name, ConfigComponent, DEFAULT_SOUNDFONT_LIST_NAME};
use crate::text::{str_eq, text_le};
use vstd::prelude::*;
use vstd::relations::sorted_by;

verus! {

/// What a rename touched.
#[derive(Debug, Clone)]
pub struct RepointSummary {
    /// Names of the component configurations whose list was rewritten.
    pub configs: Vec<String>,
    /// How many conversion queue entries were repointed.
    pub queue_entries: usize,
}

/// A component configuration's reference to a SoundFont list.
#[derive(Debug, Clone)]
pub struct SflistRef {
    pub name: String,
    pub has_sflist: bool,
    pub sflist: String,
}

/// The text of a summary: the configurations in brackets, then the queue
/// entries, joined with " and ", each part present only when non-empty.
pub open spec fn summary_text(configs: Seq<Seq<char>>, queue_entries: nat) -> Seq<char> {
    let parts = (if configs.len() > 0 {
        seq!["component config(s) ["@ + joined(configs, ", "@) + "]"@]
    } else {
        Seq::empty()
    }) + (if queue_entries > 0 {
        seq![decimal(queue_entries) + " render queue entrie(s)"@]
    } else {
        Seq::empty()
    });
    joined(parts, " and "@)
}

impl RepointSummary {
    pub fn is_empty(&self) -> (b: bool)
        ensures
            b == (self.configs@.len() == 0 && self.queue_entries == 0),
    {
        self.configs.len() == 0 && self.queue_entries == 0
    }

    /// "component config(s) [a, b] and N render queue entrie(s)".
    pub fn describe(&self) -> (s: String)
        ensures
            s@ == summary_text(views(self.configs@), self.queue_entries as nat),
    {
        let mut parts: Vec<String> = Vec::new();
        if self.configs.len() > 0 {
            let mut p = String::from_str("component config(s) [");
            let list = crate::fmt::join(&self.configs, ", ");
            p.append(list.as_str());
            p.append("]");
            parts.push(p);
        }
        if self.queue_entries > 0 {
            let mut p = String::new();
            push_decimal(&mut p, self.queue_entries as u64);
            p.append(" render queue entrie(s)");
            proof {
                assert(Seq::<char>::empty() + decimal(self.queue_entries as nat) =~= decimal(
                    self.queue_entries as nat,
                ));
            }
            parts.push(p);
        }
        let s = crate::fmt::join(&parts, " and ");
        proof {
            let expected = (if self.configs@.len() > 0 {
                seq!["component config(s) ["@ + joined(views(self.configs@), ", "@) + "]"@]
            } else {
                Seq::<Seq<char>>::empty()
            }) + (if self.queue_entries > 0 {
                seq![decimal(self.queue_entries as nat) + " render queue entrie(s)"@]
            } else {
                Seq::<Seq<char>>::empty()
            });
            assert(views(parts@) =~= expected);
        }
        s
    }
}

/// What to report after a rename: the summary's text, or nothing when the
/// rename touched nothing.
pub fn report_repointed(summary: &RepointSummary) -> (r: Option<String>)
    ensures
        match r {
            Some(s) => !(summary.configs@.len() == 0 && summary.queue_entries == 0) && s@
                == summary_text(views(summary.configs@), summary.queue_entries as nat),
            None => summary.configs@.len() == 0 && summary.queue_entries == 0,
        },
{
    if summary.is_empty() {
        None
    } else {
        Some(summary.describe())
    }
}

/// Whether a configuration follows a rename of `old`.
pub open spec fn follows(r: SflistRef, old: Seq<char>) -> bool {
    r.has_sflist && r.sflist@ == old
}

/// `after` is `before` repointed from `old` to `new` where it follows.
pub open spec fn repointed(before: SflistRef, after: SflistRef, old: Seq<char>, new: Seq<char>) -> bool {
    &&& after.name@ == before.name@
    &&& after.has_sflist == before.has_sflist
    &&& after.sflist@ == if follows(before, old) {
        new
    } else {
        before.sflist@
    }
}

/// The names of the configurations among `refs` that follow the rename, in
/// order.
pub open spec fn followers(refs: Seq<SflistRef>, old: Seq<char>) -> Seq<Seq<char>>
    decreases refs.len(),
{
    if refs.len() == 0 {
        Seq::empty()
    } else {
        let pre = followers(refs.drop_last(), old);
        if follows(refs.last(), old) {
            pre.push(refs.last().name@)
        } else {
            pre
        }
    }
}

/// How many of `entries` name `old`.
pub open spec fn count_named(entries: Seq<Seq<char>>, old: Seq<char>) -> nat
    decreases entries.len(),
{
    if entries.len() == 0 {
        0
    } else {
        count_named(entries.drop_last(), old) + if entries.last() == old {
            1nat
        } else {
            0
        }
    }
}

/// Repoints everything that referenced the SoundFont list `old` at `new`:
/// each configuration that has a list and names `old`, and each queue entry
/// that names `old`. Everything else is left as it was.
pub fn repoint_sflist_references(
    configs: &mut Vec<SflistRef>,
    queue: &mut Vec<String>,
    old_name: &str,
    new_name: &str,
) -> (summary: RepointSummary)
    ensures
        final(configs)@.len() == old(configs)@.len(),
        forall|i: int|
            0 <= i < final(configs)@.len() ==> #[trigger] repointed(
                old(configs)@[i],
                final(configs)@[i],
                old_name@,
                new_name@,
            ),
        final(queue)@.len() == old(queue)@.len(),
        forall|i: int|
            0 <= i < final(queue)@.len() ==> final(queue)@[i]@ == if old(queue)@[i]@ == old_name@ {
                new_name@
            } else {
                old(queue)@[i]@
            },
        views(summary.configs@) == followers(old(configs)@, old_name@),
        summary.queue_entries == count_named(views(old(queue)@), old_name@),
{
    let ghost configs0 = configs@;
    let ghost queue0 = queue@;
    let mut names: Vec<String> = Vec::new();
    let mut i: usize = 0;
    while i < configs.len()
        invariant
            0 <= i <= configs@.len(),
            configs@.len() == configs0.len(),
            forall|j: int|
                i <= j < configs@.len() ==> configs@[j] == configs0[j],
            forall|j: int|
                0 <= j < i ==> #[trigger] repointed(configs0[j], configs@[j], old_name@, new_name@),
            views(names@) == followers(configs0.subrange(0, i as int), old_name@),
        decreases configs@.len() - i,
    {
        proof {
            assert(configs0.subrange(0, i as int + 1).drop_last() =~= configs0.subrange(0, i as int));
        }
        if configs[i].has_sflist && str_eq(configs[i].sflist.as_str(), old_name) {
            let updated = SflistRef {
                name: configs[i].name.clone(),
                has_sflist: true,
                sflist: String::from_str(new_name),
            };
            let ghost before_names = names@;
            names.push(configs[i].name.clone());
            proof {
                assert(views(names@) =~= views(before_names).push(configs0[i as int].name@));
            }
            configs.set(i, updated);
        }
        i = i + 1;
    }
    proof {
        assert(configs0.subrange(0, configs0.len() as int) =~= configs0);
    }
    let mut count: usize = 0;
    let mut k: usize = 0;
    while k < queue.len()
        invariant
            0 <= k <= queue@.len(),
            queue@.len() == queue0.len(),
            count <= k,
            forall|j: int| k <= j < queue@.len() ==> queue@[j] == queue0[j],
            forall|j: int|
                0 <= j < k ==> queue@[j]@ == if queue0[j]@ == old_name@ {
                    new_name@
                } else {
                    queue0[j]@
                },
            count == count_named(views(queue0.subrange(0, k as int)), old_name@),
        decreases queue@.len() - k,
    {
        proof {
            assert(views(queue0.subrange(0, k as int + 1)).drop_last() =~= views(
                queue0.subrange(0, k as int),
            ));
        }
        if str_eq(queue[k].as_str(), old_name) {
            queue.set(k, String::from_str(new_name));
            count = count + 1;
        }
        k = k + 1;
    }
    proof {
        assert(queue0.subrange(0, queue0.len() as int) =~= queue0);
    }
    RepointSummary { configs: names, queue_entries: count }
}

/// A top-level key a component file is saved with.
#[derive(Debug, Clone, Copy, PartialEq, Eq, Structural)]
pub enum SaveKey {
    ConfigVersion,
    Enabled,
    Sflist,
    AudioParams,
    Realtime,
    Renderer,
    /// The event processor's settings, or `null` when it is off.
    EventProcessor { on: bool },
    /// The post processor's settings, or `null` when it is off.
    PostProcessor { on: bool },
    /// The component's own payload.
    Custom(ConfigComponent),
}

/// `k` alone when `present`, else nothing.
pub open spec fn opt_key(present: bool, k: SaveKey) -> Seq<SaveKey> {
    if present {
        seq![k]
    } else {
        Seq::empty()
    }
}

/// The keys a component file is saved with, in order: the schema version,
/// then each section the component has, then its own payload where it has
/// one (the converter and the virtual device).
pub open spec fn save_keys_for(p: ComponentProfile, event_on: bool, post_on: bool) -> Seq<SaveKey> {
    seq![SaveKey::ConfigVersion] + opt_key(p.has_enabled, SaveKey::Enabled) + opt_key(
        p.has_sflist,
        SaveKey::Sflist,
    ) + opt_key(p.has_audio_params, SaveKey::AudioParams) + opt_key(
        p.has_realtime,
        SaveKey::Realtime,
    ) + opt_key(p.has_renderer, SaveKey::Renderer) + opt_key(
        p.has_event_processor,
        SaveKey::EventProcessor { on: event_on },
    ) + opt_key(p.has_post_processor, SaveKey::PostProcessor { on: post_on }) + opt_key(
        p.kind == ConfigComponent::Converter || p.kind == ConfigComponent::System,
        SaveKey::Custom(p.kind),
    )
}

/// Keys of a few sections, none of them a component payload.
proof fn lemma_no_payload_in(p: ComponentProfile, event_on: bool, post_on: bool)
    ensures
        forall|i: int|
            0 <= i < save_keys_for(p, event_on, post_on).len() - 1 ==> !(#[trigger] save_keys_for(
                p,
                event_on,
                post_on,
            )[i] is Custom),
        !(p.kind == ConfigComponent::Converter || p.kind == ConfigComponent::System) ==> forall|
            i: int,
        |
            0 <= i < save_keys_for(p, event_on, post_on).len() ==> !(#[trigger] save_keys_for(
                p,
                event_on,
                post_on,
            )[i] is Custom),
        (p.kind == ConfigComponent::Converter || p.kind == ConfigComponent::System) ==> save_keys_for(
            p,
            event_on,
            post_on,
        ).last() == SaveKey::Custom(p.kind),
{
    let a = seq![SaveKey::ConfigVersion] + opt_key(p.has_enabled, SaveKey::Enabled);
    let b = a + opt_key(p.has_sflist, SaveKey::Sflist);
    let c = b + opt_key(p.has_audio_params, SaveKey::AudioParams);
    let d = c + opt_key(p.has_realtime, SaveKey::Realtime);
    let e = d + opt_key(p.has_renderer, SaveKey::Renderer);
    let f = e + opt_key(p.has_event_processor, SaveKey::EventProcessor { on: event_on });
    let g = f + opt_key(p.has_post_processor, SaveKey::PostProcessor { on: post_on });
    assert(forall|i: int| 0 <= i < a.len() ==> !(#[trigger] a[i] is Custom));
    assert(forall|i: int| 0 <= i < b.len() ==> !(#[trigger] b[i] is Custom));
    assert(forall|i: int| 0 <= i < c.len() ==> !(#[trigger] c[i] is Custom));
    assert(forall|i: int| 0 <= i < d.len() ==> !(#[trigger] d[i] is Custom));
    assert(forall|i: int| 0 <= i < e.len() ==> !(#[trigger] e[i] is Custom));
    assert(forall|i: int| 0 <= i < f.len() ==> !(#[trigger] f[i] is Custom));
    assert(forall|i: int| 0 <= i < g.len() ==> !(#[trigger] g[i] is Custom));
    let keys = save_keys_for(p, event_on, post_on);
    if p.kind == ConfigComponent::Converter || p.kind == ConfigComponent::System {
        assert(keys =~= g.push(SaveKey::Custom(p.kind)));
    } else {
        assert(keys =~= g);
    }
}

/// Every component that has its own payload saves it, as the last key: a
/// virtual-device file ends with its device settings and a converter file
/// with its converter settings; a KDMAPI file, which has none, saves no
/// payload.
pub proof fn law_own_payload_is_saved(p: ComponentProfile, event_on: bool, post_on: bool)
    ensures
        (p.kind == ConfigComponent::System || p.kind == ConfigComponent::Converter) ==> (
        save_keys_for(p, event_on, post_on).contains(SaveKey::Custom(p.kind)) && save_keys_for(
            p,
            event_on,
            post_on,
        ).last() == SaveKey::Custom(p.kind)),
        p.kind == ConfigComponent::KDMAPI ==> forall|i: int|
            0 <= i < save_keys_for(p, event_on, post_on).len() ==> !(#[trigger] save_keys_for(
                p,
                event_on,
                post_on,
            )[i] is Custom),
{
    lemma_no_payload_in(p, event_on, post_on);
    let keys = save_keys_for(p, event_on, post_on);
    if p.kind == ConfigComponent::System || p.kind == ConfigComponent::Converter {
        assert(keys.len() > 0);
        assert(keys[keys.len() - 1] == SaveKey::Custom(p.kind));
    }
}

/// The virtual device's file holds, in order: the schema version, its
/// SoundFont list, audio, realtime and renderer settings, both processors
/// and its device settings (it has no on/off switch).
pub proof fn law_system_file_keys(event_on: bool, post_on: bool)
    ensures
        save_keys_for(profile_of(ConfigComponent::System), event_on, post_on) == seq![
            SaveKey::ConfigVersion,
            SaveKey::Sflist,
            SaveKey::AudioParams,
            SaveKey::Realtime,
            SaveKey::Renderer,
            SaveKey::EventProcessor { on: event_on },
            SaveKey::PostProcessor { on: post_on },
            SaveKey::Custom(ConfigComponent::System),
        ],
{
    assert(save_keys_for(profile_of(ConfigComponent::System), event_on, post_on) =~= seq![
        SaveKey::ConfigVersion,
        SaveKey::Sflist,
        SaveKey::AudioParams,
        SaveKey::Realtime,
        SaveKey::Renderer,
        SaveKey::EventProcessor { on: event_on },
        SaveKey::PostProcessor { on: post_on },
        SaveKey::Custom(ConfigComponent::System),
    ]);
}

/// The converter's file holds, in order: the schema version, its audio and
/// renderer settings, both processors and its converter settings.
pub proof fn law_converter_file_keys(event_on: bool, post_on: bool)
    ensures
        save_keys_for(profile_of(ConfigComponent::Converter), event_on, post_on) == seq![
            SaveKey::ConfigVersion,
            SaveKey::AudioParams,
            SaveKey::Renderer,
            SaveKey::EventProcessor { on: event_on },
            SaveKey::PostProcessor { on: post_on },
            SaveKey::Custom(ConfigComponent::Converter),
        ],
{
    assert(save_keys_for(profile_of(ConfigComponent::Converter), event_on, post_on) =~= seq![
        SaveKey::ConfigVersion,
        SaveKey::AudioParams,
        SaveKey::Renderer,
        SaveKey::EventProcessor { on: event_on },
        SaveKey::PostProcessor { on: post_on },
        SaveKey::Custom(ConfigComponent::Converter),
    ]);
}

/// KDMAPI's file holds, in order: the schema version, its on/off switch,
/// SoundFont list, audio, realtime and renderer settings and both
/// processors.
pub proof fn law_kdmapi_file_keys(event_on: bool, post_on: bool)
    ensures
        save_keys_for(profile_of(ConfigComponent::KDMAPI), event_on, post_on) == seq![
            SaveKey::ConfigVersion,
            SaveKey::Enabled,
            SaveKey::Sflist,
            SaveKey::AudioParams,
            SaveKey::Realtime,
            SaveKey::Renderer,
            SaveKey::EventProcessor { on: event_on },
            SaveKey::PostProcessor { on: post_on },
        ],
{
    assert(save_keys_for(profile_of(ConfigComponent::KDMAPI), event_on, post_on) =~= seq![
        SaveKey::ConfigVersion,
        SaveKey::Enabled,
        SaveKey::Sflist,
        SaveKey::AudioParams,
        SaveKey::Realtime,
        SaveKey::Renderer,
        SaveKey::EventProcessor { on: event_on },
        SaveKey::PostProcessor { on: post_on },
    ]);
}

fn push_opt(keys: &mut Vec<SaveKey>, present: bool, k: SaveKey)
    ensures
        final(keys)@ == old(keys)@ + opt_key(present, k),
{
    if present {
        keys.push(k);
    }
    proof {
        assert(final(keys)@ =~= old(keys)@ + opt_key(present, k));
    }
}

pub fn save_keys(p: &ComponentProfile, event_on: bool, post_on: bool) -> (keys: Vec<SaveKey>)
    ensures
        keys@ == save_keys_for(*p, event_on, post_on),
{
    let mut keys: Vec<SaveKey> = Vec::new();
    keys.push(SaveKey::ConfigVersion);
    push_opt(&mut keys, p.has_enabled, SaveKey::Enabled);
    push_opt(&mut keys, p.has_sflist, SaveKey::Sflist);
    push_opt(&mut keys, p.has_audio_params, SaveKey::AudioParams);
    push_opt(&mut keys, p.has_realtime, SaveKey::Realtime);
    push_opt(&mut keys, p.has_renderer, SaveKey::Renderer);
    push_opt(&mut keys, p.has_event_processor, SaveKey::EventProcessor { on: event_on });
    push_opt(&mut keys, p.has_post_processor, SaveKey::PostProcessor { on: post_on });
    let custom = match p.kind {
        ConfigComponent::Converter | ConfigComponent::System => true,
        _ => false,
    };
    push_opt(&mut keys, custom, SaveKey::Custom(p.kind));
    proof {
        assert(seq![SaveKey::ConfigVersion] =~= Seq::<SaveKey>::empty().push(
            SaveKey::ConfigVersion,
        ));
    }
    keys
}

/// What a loaded file holds under a key whose value should be a boolean or
/// a string.
#[derive(Debug, Clone, PartialEq)]
pub enum Loose<T> {
    Missing,
    Present(T),
    /// Present, but of the wrong type.
    Invalid,
}

/// What a loaded file holds under a processor key.
#[derive(Debug, Clone, Copy, PartialEq, Eq, Structural)]
pub enum Section {
    Missing,
    Null,
    Value,
}

/// The loose values of a loaded component file, as the editor reads them.
#[derive(Debug, Clone)]
pub struct LoadedValues {
    pub enabled: bool,
    pub sflist: String,
    pub has_event_processor: bool,
    pub has_post_processor: bool,
    /// Something had to be replaced by its default.
    pub recovered: bool,
}

/// Reads a loaded file's loose values: a missing or invalid switch is on, a
/// missing or invalid list name is the default list, the event processor is
/// on only when the file carries one, the post processor is on unless the
/// file turns it off with `null`. An invalid value, an unreadable file
/// (`corrupt`) or a section that had to be replaced (`section_recovered`)
/// marks the load as recovered.
pub fn read_loaded(
    corrupt: bool,
    enabled: Loose<bool>,
    sflist: Loose<String>,
    event_processor: Section,
    post_processor: Section,
    section_recovered: bool,
) -> (v: LoadedValues)
    ensures
        v.enabled == match enabled {
            Loose::Present(b) => b,
            _ => true,
        },
        v.sflist@ == match sflist {
            Loose::Present(s) => s@,
            _ => DEFAULT_SOUNDFONT_LIST_NAME@,
        },
        v.has_event_processor == (event_processor == Section::Value),
        v.has_post_processor == (post_processor != Section::Null),
        v.recovered == (corrupt || enabled is Invalid || sflist is Invalid || section_recovered),
{
    let enabled_invalid = match enabled {
        Loose::Invalid => true,
        _ => false,
    };
    let sflist_invalid = match sflist {
        Loose::Invalid => true,
        _ => false,
    };
    let on = match enabled {
        Loose::Present(b) => b,
        _ => true,
    };
    let list = match sflist {
        Loose::Present(s) => s,
        _ => String::from_str(DEFAULT_SOUNDFONT_LIST_NAME),
    };
    LoadedValues {
        enabled: on,
        sflist: list,
        has_event_processor: event_processor == Section::Value,
        has_post_processor: post_processor != Section::Null,
        recovered: corrupt || enabled_invalid || sflist_invalid || section_recovered,
    }
}

/// What a component file's JSON text holds under the four loose keys, as
/// `serde_json::Value` reports it: for `enabled`, the key's presence and
/// `as_bool`; for `sflist`, its presence and `as_str`; for the two processor
/// keys, their presence and `is_null`.
pub struct JsonFieldsView {
    pub enabled: Option<Option<bool>>,
    pub sflist: Option<Option<Seq<char>>>,
    pub event_processor_null: Option<bool>,
    pub post_processor_null: Option<bool>,
}

#[derive(Debug, Clone)]
pub struct JsonFields {
    pub enabled: Option<Option<bool>>,
    pub sflist: Option<Option<String>>,
    pub event_processor_null: Option<bool>,
    pub post_processor_null: Option<bool>,
}

impl View for JsonFields {
    type V = JsonFieldsView;

    open spec fn view(&self) -> JsonFieldsView {
        JsonFieldsView {
            enabled: self.enabled,
            sflist: match self.sflist {
                Some(Some(s)) => Some(Some(s@)),
                Some(None) => Some(None),
                None => None,
            },
            event_processor_null: self.event_processor_null,
            post_processor_null: self.post_processor_null,
        }
    }
}

/// What `serde_json::from_str::<serde_json::Value>` makes of a text, read
/// at the four loose keys; `None` when the text is not JSON.
pub uninterp spec fn json_fields(text: Seq<char>) -> Option<JsonFieldsView>;

/// Parses `text` with `serde_json::from_str::<serde_json::Value>` and reads
/// the four loose keys with `Value::get` and `as_bool`, `as_str` or
/// `is_null`. The contract claims only that the result is a function of the
/// text, `None` exactly when the text does not parse.
#[verifier::external_body]
fn parse_fields(text: &str) -> (r: Option<JsonFields>)
    ensures
        match r {
            Some(f) => json_fields(text@) == Some(f@),
            None => json_fields(text@) is None,
        },
{
    let v: serde_json::Value = match serde_json::from_str(text) {
        Ok(v) => v,
        Err(_) => return None,
    };
    Some(JsonFields {
        enabled: v.get("enabled").map(serde_json::Value::as_bool),
        sflist: v.get("sflist").map(|x| x.as_str().map(str::to_owned)),
        event_processor_null: v.get("event_processor").map(serde_json::Value::is_null),
        post_processor_null: v.get("post_processor").map(serde_json::Value::is_null),
    })
}

/// A key read as a boolean: missing, a boolean, or of another type.
pub open spec fn loose_bool(o: Option<Option<bool>>) -> Loose<bool> {
    match o {
        None => Loose::Missing,
        Some(Some(b)) => Loose::Present(b),
        Some(None) => Loose::Invalid,
    }
}

/// A key read as text: missing, a string, or of another type.
pub open spec fn loose_text(o: Option<Option<Seq<char>>>) -> Loose<Seq<char>> {
    match o {
        None => Loose::Missing,
        Some(Some(s)) => Loose::Present(s),
        Some(None) => Loose::Invalid,
    }
}

/// A processor key: missing, `null`, or holding settings.
pub open spec fn section_of(is_null: Option<bool>) -> Section {
    match is_null {
        None => Section::Missing,
        Some(true) => Section::Null,
        Some(false) => Section::Value,
    }
}

/// The values of `LoadedValues`.
pub struct LoadedView {
    pub enabled: bool,
    pub sflist: Seq<char>,
    pub has_event_processor: bool,
    pub has_post_processor: bool,
    pub recovered: bool,
}

impl View for LoadedValues {
    type V = LoadedView;

    open spec fn view(&self) -> LoadedView {
        LoadedView {
            enabled: self.enabled,
            sflist: self.sflist@,
            has_event_processor: self.has_event_processor,
            has_post_processor: self.has_post_processor,
            recovered: self.recovered,
        }
    }
}

/// What the editor reads from a file's keys (`None`: a file with nothing
/// to read), as `read_loaded` states it.
pub open spec fn values_read(fields: Option<JsonFieldsView>, corrupt: bool, section_recovered: bool) -> LoadedView {
    let enabled = match fields {
        Some(f) => loose_bool(f.enabled),
        None => Loose::Missing,
    };
    let sflist = match fields {
        Some(f) => loose_text(f.sflist),
        None => Loose::Missing,
    };
    let event_processor = match fields {
        Some(f) => section_of(f.event_processor_null),
        None => Section::Missing,
    };
    let post_processor = match fields {
        Some(f) => section_of(f.post_processor_null),
        None => Section::Missing,
    };
    LoadedView {
        enabled: match enabled {
            Loose::Present(b) => b,
            _ => true,
        },
        sflist: match sflist {
            Loose::Present(s) => s,
            _ => DEFAULT_SOUNDFONT_LIST_NAME@,
        },
        has_event_processor: event_processor == Section::Value,
        has_post_processor: post_processor != Section::Null,
        recovered: corrupt || enabled is Invalid || sflist is Invalid || section_recovered,
    }
}

/// The loose values of a component file from its text: `None` when the file
/// is missing or unreadable, which reads as an empty file; text that is not
/// JSON reads as an empty file and marks the load as recovered.
/// `section_recovered` says whether a section had to be replaced by its
/// default.
pub fn load_values(text: Option<&str>, section_recovered: bool) -> (v: LoadedValues)
    ensures
        v@ == match text {
            None => values_read(None, false, section_recovered),
            Some(t) => match json_fields(t@) {
                None => values_read(None, true, section_recovered),
                Some(f) => values_read(Some(f), false, section_recovered),
            },
        },
{
    let (corrupt, fields) = match text {
        None => (false, None),
        Some(t) => match parse_fields(t) {
            None => (true, None),
            Some(f) => (false, Some(f)),
        },
    };
    match fields {
        None => read_loaded(
            corrupt,
            Loose::Missing,
            Loose::Missing,
            Section::Missing,
            Section::Missing,
            section_recovered,
        ),
        Some(f) => {
            let enabled = match f.enabled {
                None => Loose::Missing,
                Some(Some(b)) => Loose::Present(b),
                Some(None) => Loose::Invalid,
            };
            let sflist = match f.sflist {
                None => Loose::Missing,
                Some(Some(s)) => Loose::Present(s),
                Some(None) => Loose::Invalid,
            };
            let event_processor = match f.event_processor_null {
                None => Section::Missing,
                Some(true) => Section::Null,
                Some(false) => Section::Value,
            };
            let post_processor = match f.post_processor_null {
                None => Section::Missing,
                Some(true) => Section::Null,
                Some(false) => Section::Value,
            };
            read_loaded(corrupt, enabled, sflist, event_processor, post_processor, section_recovered)
        },
    }
}

/// A processor the file is saved with comes back as it was: a component
/// that has both processors is saved with both keys, each `null` when the
/// processor is off and holding its settings when it is on, and a file that
/// holds them so reads each processor back on exactly when it was on.
pub proof fn law_saved_processors_read_back(
    p: ComponentProfile,
    event_on: bool,
    post_on: bool,
    f: JsonFieldsView,
    section_recovered: bool,
)
    requires
        p.has_event_processor,
        p.has_post_processor,
        f.event_processor_null == Some(!event_on),
        f.post_processor_null == Some(!post_on),
    ensures
        save_keys_for(p, event_on, post_on).contains(SaveKey::EventProcessor { on: event_on }),
        save_keys_for(p, event_on, post_on).contains(SaveKey::PostProcessor { on: post_on }),
        values_read(Some(f), false, section_recovered).has_event_processor == event_on,
        values_read(Some(f), false, section_recovered).has_post_processor == post_on,
{
    let keys = save_keys_for(p, event_on, post_on);
    let head = seq![SaveKey::ConfigVersion] + opt_key(p.has_enabled, SaveKey::Enabled) + opt_key(
        p.has_sflist,
        SaveKey::Sflist,
    ) + opt_key(p.has_audio_params, SaveKey::AudioParams) + opt_key(
        p.has_realtime,
        SaveKey::Realtime,
    ) + opt_key(p.has_renderer, SaveKey::Renderer);
    let custom = opt_key(
        p.kind == ConfigComponent::Converter || p.kind == ConfigComponent::System,
        SaveKey::Custom(p.kind),
    );
    assert(keys == head + seq![SaveKey::EventProcessor { on: event_on }] + seq![
        SaveKey::PostProcessor { on: post_on },
    ] + custom);
    assert(keys[head.len() as int] == SaveKey::EventProcessor { on: event_on });
    assert(keys[head.len() as int + 1] == SaveKey::PostProcessor { on: post_on });
}

/// How many entries of `names` equal `n`.
pub open spec fn count_of(names: Seq<Seq<char>>, n: Seq<char>) -> nat {
    names.to_multiset().count(n)
}

/// The component files the editor lists, by name: each recognised name as
/// often as the folder holds it, a standard component the folder lacks once,
/// nothing else.
pub open spec fn listed_count(listed: Seq<Seq<char>>, n: Seq<char>) -> nat {
    if component_from_name(n) is Some {
        if count_of(listed, n) == 0 {
            1
        } else {
            count_of(listed, n)
        }
    } else {
        0
    }
}

fn count_in(listed: &Vec<String>, name: &str) -> (c: usize)
    ensures
        c == count_of(views(listed@), name@),
{
    let mut c: usize = 0;
    let mut i: usize = 0;
    proof {
        broadcast use vstd::multiset::group_multiset_axioms;
        let e = views(listed@.subrange(0, 0));
        assert(e =~= Seq::<Seq<char>>::empty());
        vstd::seq_lib::to_multiset_len(e);
    }
    while i < listed.len()
        invariant
            0 <= i <= listed@.len(),
            c <= i,
            c == count_of(views(listed@.subrange(0, i as int)), name@),
        decreases listed@.len() - i,
    {
        proof {
            let pre = views(listed@.subrange(0, i as int));
            let post = views(listed@.subrange(0, i as int + 1));
            assert(post =~= pre.push(listed@[i as int]@));
            broadcast use vstd::multiset::group_multiset_axioms;
            vstd::seq_lib::to_multiset_build(pre, listed@[i as int]@);
            if i == 0 {
                vstd::seq_lib::to_multiset_len(pre);
            }
        }
        if str_eq(listed[i].as_str(), name) {
            c = c + 1;
        }
        i = i + 1;
    }
    proof {
        assert(listed@.subrange(0, listed@.len() as int) =~= listed@);
    }
    c
}

/// The position of a standard component's name in text order.
pub open spec fn standard_rank(n: Seq<char>) -> int {
    if n == "converter"@ {
        0
    } else if n == "kdmapi"@ {
        1
    } else {
        2
    }
}

/// The names of listed component files.
pub open spec fn file_names(out: Seq<(String, ConfigComponent)>) -> Seq<Seq<char>> {
    out.map_values(|e: (String, ConfigComponent)| e.0@)
}

proof fn lemma_standard_order(a: Seq<char>, b: Seq<char>)
    requires
        component_from_name(a) is Some,
        component_from_name(b) is Some,
        standard_rank(a) <= standard_rank(b),
    ensures
        text_le(a, b),
{
    reveal_strlit("converter");
    reveal_strlit("kdmapi");
    reveal_strlit("system");
    crate::text::lemma_text_le_total_ordering();
    let le = |x: Seq<char>, y: Seq<char>| text_le(x, y);
    assert(le(a, a));
    if a != b {
        assert(a[0] != b[0]);
        assert(text_le(a, b) == ((a[0] as int) < (b[0] as int)));
    }
}

fn push_copies(
    out: &mut Vec<(String, ConfigComponent)>,
    name: &str,
    kind: ConfigComponent,
    copies: usize,
)
    requires
        component_from_name(name@) == Some(kind),
        forall|i: int|
            0 <= i < old(out)@.len() ==> standard_rank(old(out)@[i].0@) <= standard_rank(name@),
    ensures
        final(out)@.len() == old(out)@.len() + copies,
        forall|i: int| 0 <= i < old(out)@.len() ==> final(out)@[i] == old(out)@[i],
        forall|i: int| old(out)@.len() <= i < final(out)@.len() ==> final(out)@[i].0@ == name@
            && final(out)@[i].1 == kind,
        forall|n: Seq<char>|
            count_of(file_names(final(out)@), n) == count_of(file_names(old(out)@), n) + if n
                == name@ {
                copies as nat
            } else {
                0
            },
{
    broadcast use vstd::multiset::group_multiset_axioms;
    let ghost start = out@;
    let mut k: usize = 0;
    while k < copies
        invariant
            0 <= k <= copies,
            out@.len() == start.len() + k,
            forall|i: int| 0 <= i < start.len() ==> out@[i] == start[i],
            forall|i: int| start.len() <= i < out@.len() ==> out@[i].0@ == name@ && out@[i].1
                == kind,
            forall|n: Seq<char>|
                count_of(file_names(out@), n) == count_of(file_names(start), n) + if n == name@ {
                    k as nat
                } else {
                    0
                },
        decreases copies - k,
    {
        let ghost before = out@;
        out.push((String::from_str(name), kind));
        proof {
            assert(file_names(out@) =~= file_names(before).push(name@));
            vstd::seq_lib::to_multiset_build(file_names(before), name@);
            assert forall|n: Seq<char>| count_of(file_names(out@), n) == count_of(
                file_names(before),
                n,
            ) + if n == name@ {
                1nat
            } else {
                0
            } by {}
        }
        k = k + 1;
    }
}

/// The component files the editor lists, by name, in text order: every
/// recognised name the folder holds, and each standard component the folder
/// lacks.
pub fn get_component_files(listed: &Vec<String>) -> (out: Vec<(String, ConfigComponent)>)
    ensures
        forall|i: int| 0 <= i < out@.len() ==> component_from_name(out@[i].0@) == Some(out@[i].1),
        sorted_by(file_names(out@), |a: Seq<char>, b: Seq<char>| text_le(a, b)),
        forall|n: Seq<char>| count_of(file_names(out@), n) == listed_count(views(listed@), n),
{
    broadcast use vstd::multiset::group_multiset_axioms;
    proof {
        reveal_strlit("converter");
        reveal_strlit("kdmapi");
        reveal_strlit("system");
        assert("converter"@ != "kdmapi"@ && "kdmapi"@ != "system"@ && "converter"@ != "system"@)
            by {
            assert("converter"@[0] != "kdmapi"@[0]);
            assert("kdmapi"@[0] != "system"@[0]);
            assert("converter"@[0] != "system"@[0]);
        }
    }
    let mut out: Vec<(String, ConfigComponent)> = Vec::new();
    proof {
        assert(file_names(out@) =~= Seq::<Seq<char>>::empty());
        vstd::seq_lib::to_multiset_len(file_names(out@));
    }
    let c0 = count_in(listed, "converter");
    push_copies(&mut out, "converter", ConfigComponent::Converter, if c0 == 0 { 1 } else { c0 });
    let c1 = count_in(listed, "kdmapi");
    push_copies(&mut out, "kdmapi", ConfigComponent::KDMAPI, if c1 == 0 { 1 } else { c1 });
    let c2 = count_in(listed, "system");
    push_copies(&mut out, "system", ConfigComponent::System, if c2 == 0 { 1 } else { c2 });
    proof {
        let names = file_names(out@);
        assert forall|i: int| 0 <= i < out@.len() implies component_from_name(out@[i].0@) == Some(
            out@[i].1,
        ) by {}
        assert forall|i: int, j: int| 0 <= i < j < names.len() implies #[trigger] text_le(
            names[i],
            names[j],
        ) by {
            lemma_standard_order(names[i], names[j]);
        }
        assert forall|n: Seq<char>| count_of(file_names(out@), n) == listed_count(
            views(listed@),
            n,
        ) by {
            if n != "converter"@ && n != "kdmapi"@ && n != "system"@ {
                assert(component_from_name(n) is None);
            }
        }
    }
    out
}

} // verus!
