//! The converter's job list and run settings: the jobs shown while files
//! render, kept in job order, and the choices a run makes before rendering.

use crate::sysinfo::is_ws;
use crate::watch::path_parent;
use vstd::prelude::*;

verus! {

/// What a job is doing.
#[derive(Debug, Clone, Copy, PartialEq, Eq, Structural)]
pub enum RenderPhase {
    Scanning,
    Rendering,
}

/// How a queue entry fared in the current run.
#[derive(Debug, Clone, Copy, PartialEq, Eq, Structural)]
pub enum RenderStatus {
    Pending,
    Rendering,
    Done,
    Failed,
}

/// A file being converted. The progress is the bit pattern of the `f32`
/// fraction shown in the progress bar.
#[derive(Debug, Clone)]
pub struct RenderJob {
    pub id: u64,
    pub midi_path: String,
    pub phase: RenderPhase,
    pub progress_bits: u32,
    pub indeterminate: bool,
    pub stats: String,
}

impl RenderJob {
    /// A job that has started scanning its MIDI file.
    pub fn scanning(id: u64, midi_path: String) -> (j: RenderJob)
        ensures
            j.id == id,
            j.midi_path@ == midi_path@,
            j.phase == RenderPhase::Scanning,
            j.progress_bits == 0,
            j.indeterminate,
            j.stats@ == "Scanning MIDI\u{2026}"@,
    {
        RenderJob {
            id,
            midi_path,
            phase: RenderPhase::Scanning,
            progress_bits: 0,
            indeterminate: true,
            stats: String::from_str("Scanning MIDI\u{2026}"),
        }
    }
}

/// The jobs of a run, in job order.
pub struct JobRegistry {
    jobs: Vec<RenderJob>,
}

/// Job identifiers in order.
pub open spec fn ids(jobs: Seq<RenderJob>) -> Seq<u64> {
    jobs.map_values(|j: RenderJob| j.id)
}

pub open spec fn ordered(ids: Seq<u64>) -> bool {
    forall|a: int, b: int| 0 <= a < b < ids.len() ==> ids[a] <= ids[b]
}

/// `after` is `before` with `job` inserted at `p`, after every job with an
/// earlier identifier and before every other.
pub open spec fn inserted_at(before: Seq<RenderJob>, after: Seq<RenderJob>, job: RenderJob, p: int) -> bool {
    &&& 0 <= p <= before.len()
    &&& after == before.insert(p, job)
    &&& forall|q: int| 0 <= q < p ==> before[q].id < job.id
    &&& forall|q: int| p <= q < before.len() ==> before[q].id >= job.id
}

impl View for JobRegistry {
    type V = Seq<RenderJob>;

    closed spec fn view(&self) -> Seq<RenderJob> {
        self.jobs@
    }
}

impl JobRegistry {
    /// The jobs are in identifier order.
    pub closed spec fn wf(&self) -> bool {
        ordered(ids(self.jobs@))
    }

    pub fn new() -> (r: JobRegistry)
        ensures
            r.wf(),
            r@.len() == 0,
    {
        JobRegistry { jobs: Vec::new() }
    }

    pub fn len(&self) -> (n: usize)
        ensures
            n == self@.len(),
    {
        self.jobs.len()
    }

    pub fn get(&self, i: usize) -> (j: &RenderJob)
        requires
            i < self@.len(),
        ensures
            *j == self@[i as int],
    {
        &self.jobs[i]
    }

    /// Adds a job before every job with the same or a later identifier.
    pub fn push(&mut self, job: RenderJob)
        requires
            old(self).wf(),
        ensures
            final(self).wf(),
            exists|p: int| #[trigger] inserted_at(old(self)@, final(self)@, job, p),
    {
        let ghost start = self.jobs@;
        let mut p: usize = 0;
        while p < self.jobs.len() && self.jobs[p].id < job.id
            invariant
                self.jobs@ == start,
                start == old(self)@,
                0 <= p <= self.jobs@.len(),
                forall|q: int| 0 <= q < p ==> self.jobs@[q].id < job.id,
            decreases self.jobs@.len() - p,
        {
            p = p + 1;
        }
        let ghost before = self.jobs@;
        proof {
            assert forall|q: int| p <= q < before.len() implies before[q].id >= job.id by {
                let i = ids(before);
                assert(i[p as int] == before[p as int].id);
                assert(i[q] == before[q].id);
            }
        }
        let ghost g = job;
        self.jobs.insert(p, job);
        proof {
            assert(self.jobs@ == before.insert(p as int, g));
            assert(inserted_at(before, self.jobs@, g, p as int));
            assert(before == old(self)@);
            assert(self.jobs@ == self@);
            assert(inserted_at(old(self)@, self@, g, p as int));
            let after = ids(self.jobs@);
            assert forall|a: int, b: int| 0 <= a < b < after.len() implies after[a] <= after[b] by {
                let i0 = ids(before);
                if b < p {
                    assert(after[a] == i0[a] && after[b] == i0[b]);
                } else if b == p {
                    assert(after[a] == before[a].id);
                } else if a < p {
                    assert(after[b] == before[b - 1].id);
                    assert(after[a] == before[a].id);
                } else if a == p {
                    assert(after[b] == before[b - 1].id);
                } else {
                    assert(after[a] == i0[a - 1] && after[b] == i0[b - 1]);
                }
            }
        }
    }

    /// Replaces the text of the jobs with identifier `id`.
    pub fn set_stats(&mut self, id: u64, stats: &str)
        requires
            old(self).wf(),
        ensures
            final(self).wf(),
            final(self)@.len() == old(self)@.len(),
            forall|q: int|
                0 <= q < final(self)@.len() ==> {
                    let (a, b) = (old(self)@[q], #[trigger] final(self)@[q]);
                    &&& b.id == a.id
                    &&& b.midi_path@ == a.midi_path@
                    &&& b.phase == a.phase
                    &&& b.progress_bits == a.progress_bits
                    &&& b.indeterminate == a.indeterminate
                    &&& b.stats@ == if a.id == id {
                        stats@
                    } else {
                        a.stats@
                    }
                },
    {
        self.update(id, None, None, stats);
    }

    /// Moves the jobs with identifier `id` to rendering, at zero progress.
    pub fn start_rendering(&mut self, id: u64)
        requires
            old(self).wf(),
        ensures
            final(self).wf(),
            final(self)@.len() == old(self)@.len(),
            forall|q: int|
                0 <= q < final(self)@.len() ==> {
                    let (a, b) = (old(self)@[q], #[trigger] final(self)@[q]);
                    &&& b.id == a.id
                    &&& b.midi_path@ == a.midi_path@
                    &&& b.phase == if a.id == id {
                        RenderPhase::Rendering
                    } else {
                        a.phase
                    }
                    &&& b.progress_bits == if a.id == id {
                        0
                    } else {
                        a.progress_bits
                    }
                    &&& b.indeterminate == if a.id == id {
                        false
                    } else {
                        a.indeterminate
                    }
                    &&& b.stats@ == if a.id == id {
                        "Starting render\u{2026}"@
                    } else {
                        a.stats@
                    }
                },
    {
        self.update(id, Some(RenderPhase::Rendering), Some(0), "Starting render\u{2026}");
    }

    /// Records progress of the jobs with identifier `id`.
    pub fn set_progress(&mut self, id: u64, progress_bits: u32, stats: &str)
        requires
            old(self).wf(),
        ensures
            final(self).wf(),
            final(self)@.len() == old(self)@.len(),
            forall|q: int|
                0 <= q < final(self)@.len() ==> {
                    let (a, b) = (old(self)@[q], #[trigger] final(self)@[q]);
                    &&& b.id == a.id
                    &&& b.midi_path@ == a.midi_path@
                    &&& b.phase == a.phase
                    &&& b.progress_bits == if a.id == id {
                        progress_bits
                    } else {
                        a.progress_bits
                    }
                    &&& b.indeterminate == a.indeterminate
                    &&& b.stats@ == if a.id == id {
                        stats@
                    } else {
                        a.stats@
                    }
                },
    {
        let ghost before = self.jobs@;
        let mut i: usize = 0;
        while i < self.jobs.len()
            invariant
                self.jobs@.len() == before.len(),
                0 <= i <= before.len(),
                ordered(ids(before)),
                forall|q: int| i <= q < before.len() ==> self.jobs@[q] == before[q],
                forall|q: int|
                    0 <= q < i ==> {
                        let (a, b) = (before[q], #[trigger] self.jobs@[q]);
                        &&& b.id == a.id
                        &&& b.midi_path@ == a.midi_path@
                        &&& b.phase == a.phase
                        &&& b.progress_bits == if a.id == id {
                            progress_bits
                        } else {
                            a.progress_bits
                        }
                        &&& b.indeterminate == a.indeterminate
                        &&& b.stats@ == if a.id == id {
                            stats@
                        } else {
                            a.stats@
                        }
                    },
            decreases before.len() - i,
        {
            if self.jobs[i].id == id {
                let old_job = &self.jobs[i];
                let job = RenderJob {
                    id: old_job.id,
                    midi_path: old_job.midi_path.clone(),
                    phase: old_job.phase,
                    progress_bits,
                    indeterminate: old_job.indeterminate,
                    stats: String::from_str(stats),
                };
                self.jobs.set(i, job);
            }
            i = i + 1;
        }
        proof {
            assert(ids(self.jobs@) =~= ids(before));
        }
    }

    fn update(&mut self, id: u64, phase: Option<RenderPhase>, progress: Option<u32>, stats: &str)
        requires
            old(self).wf(),
            phase is Some <==> progress is Some,
        ensures
            final(self).wf(),
            final(self)@.len() == old(self)@.len(),
            forall|q: int|
                0 <= q < final(self)@.len() ==> {
                    let (a, b) = (old(self)@[q], #[trigger] final(self)@[q]);
                    &&& b.id == a.id
                    &&& b.midi_path@ == a.midi_path@
                    &&& b.phase == if a.id == id && phase is Some {
                        phase->0
                    } else {
                        a.phase
                    }
                    &&& b.progress_bits == if a.id == id && progress is Some {
                        progress->0
                    } else {
                        a.progress_bits
                    }
                    &&& b.indeterminate == if a.id == id && phase is Some {
                        false
                    } else {
                        a.indeterminate
                    }
                    &&& b.stats@ == if a.id == id {
                        stats@
                    } else {
                        a.stats@
                    }
                },
    {
        let ghost before = self.jobs@;
        let mut i: usize = 0;
        while i < self.jobs.len()
            invariant
                self.jobs@.len() == before.len(),
                0 <= i <= before.len(),
                ordered(ids(before)),
                phase is Some <==> progress is Some,
                forall|q: int| i <= q < before.len() ==> self.jobs@[q] == before[q],
                forall|q: int|
                    0 <= q < i ==> {
                        let (a, b) = (before[q], #[trigger] self.jobs@[q]);
                        &&& b.id == a.id
                        &&& b.midi_path@ == a.midi_path@
                        &&& b.phase == if a.id == id && phase is Some {
                            phase->0
                        } else {
                            a.phase
                        }
                        &&& b.progress_bits == if a.id == id && progress is Some {
                            progress->0
                        } else {
                            a.progress_bits
                        }
                        &&& b.indeterminate == if a.id == id && phase is Some {
                            false
                        } else {
                            a.indeterminate
                        }
                        &&& b.stats@ == if a.id == id {
                            stats@
                        } else {
                            a.stats@
                        }
                    },
            decreases before.len() - i,
        {
            if self.jobs[i].id == id {
                let old_job = &self.jobs[i];
                let job = RenderJob {
                    id: old_job.id,
                    midi_path: old_job.midi_path.clone(),
                    phase: match phase {
                        Some(p) => p,
                        None => old_job.phase,
                    },
                    progress_bits: match progress {
                        Some(p) => p,
                        None => old_job.progress_bits,
                    },
                    indeterminate: match phase {
                        Some(_) => false,
                        None => old_job.indeterminate,
                    },
                    stats: String::from_str(stats),
                };
                self.jobs.set(i, job);
            }
            i = i + 1;
        }
        proof {
            assert(ids(self.jobs@) =~= ids(before));
        }
    }

    /// Removes every job with identifier `id`, keeping the others in order.
    pub fn remove(&mut self, id: u64)
        requires
            old(self).wf(),
        ensures
            final(self).wf(),
            final(self)@ == old(self)@.filter(|j: RenderJob| j.id != id),
    {
        let ghost before = self.jobs@;
        let ghost keep = |j: RenderJob| j.id != id;
        let mut rest: Vec<RenderJob> = Vec::new();
        std::mem::swap(&mut rest, &mut self.jobs);
        let mut kept: Vec<RenderJob> = Vec::new();
        proof {
            reveal(Seq::filter);
            assert(before.subrange(0, 0).filter(keep) =~= kept@);
            assert(before.subrange(0, before.len() as int) =~= before);
        }
        while rest.len() > 0
            invariant
                0 <= rest@.len() <= before.len(),
                rest@ == before.subrange(before.len() - rest@.len(), before.len() as int),
                ordered(ids(before)),
                keep == (|j: RenderJob| j.id != id),
                kept@ == before.subrange(0, before.len() - rest@.len()).filter(keep),
                ordered(ids(kept@)),
                forall|a: int, q: int|
                    0 <= a < kept@.len() && before.len() - rest@.len() <= q < before.len()
                        ==> #[trigger] kept@[a].id <= #[trigger] before[q].id,
            decreases rest@.len(),
        {
            let ghost k = before.len() - rest@.len();
            let j = rest.remove(0);
            proof {
                reveal(Seq::filter);
                let pre = before.subrange(0, k);
                let cur = before.subrange(0, k + 1);
                assert(cur.drop_last() =~= pre);
                assert(cur.last() == j);
                assert(rest@ =~= before.subrange(k + 1, before.len() as int));
                assert(cur.filter(keep) == (if keep(j) {
                    pre.filter(keep).push(j)
                } else {
                    pre.filter(keep)
                }));
                assert(keep(j) == (j.id != id));
            }
            if j.id != id {
                let ghost kb = kept@;
                kept.push(j);
                proof {
                    assert forall|a: int, b: int| 0 <= a < b < ids(kept@).len() implies ids(
                        kept@,
                    )[a] <= ids(kept@)[b] by {
                        if b < kb.len() {
                            assert(ids(kb)[a] <= ids(kb)[b]);
                            assert(ids(kept@)[a] == kb[a].id && ids(kept@)[b] == kb[b].id);
                        } else {
                            assert(ids(kept@)[a] == kb[a].id);
                            assert(kb[a].id <= before[k].id);
                        }
                    }
                    assert forall|a: int, q: int|
                        0 <= a < kept@.len() && k + 1 <= q < before.len() implies #[trigger] kept@[a].id
                        <= #[trigger] before[q].id by {
                        if a < kb.len() {
                            assert(kb[a].id <= before[q].id);
                        } else {
                            assert(ids(before)[k] <= ids(before)[q]);
                        }
                    }
                }
            }
        }
        self.jobs = kept;
    }
}

/// How many workers a parallel run uses: the configured count capped by the
/// number of files, or the pool's own choice (`None`) when that is zero.
pub fn pool_threads(configured: usize, queue_len: usize) -> (t: Option<usize>)
    ensures
        t == if configured < queue_len {
            if configured > 0 {
                Some(configured)
            } else {
                None
            }
        } else if queue_len > 0 {
            Some(queue_len)
        } else {
            None::<usize>
        },
{
    let threads = if configured < queue_len {
        configured
    } else {
        queue_len
    };
    if threads > 0 {
        Some(threads)
    } else {
        None
    }
}

/// Whether a text is empty once surrounding whitespace is trimmed.
pub open spec fn blank(s: Seq<char>) -> bool {
    forall|i: int| 0 <= i < s.len() ==> is_ws(#[trigger] s[i])
}

fn is_blank(s: &str) -> (b: bool)
    ensures
        b == blank(s@),
{
    let n = s.unicode_len();
    let mut i: usize = 0;
    while i < n
        invariant
            n == s@.len(),
            0 <= i <= n,
            forall|j: int| 0 <= j < i ==> is_ws(#[trigger] s@[j]),
        decreases n - i,
    {
        if !crate::sysinfo::ws(s.get_char(i)) {
            return false;
        }
        i = i + 1;
    }
    true
}

/// Where a rendered file goes: the configured output folder, or, when that
/// is blank, the folder holding the MIDI file (`.` for a path without a
/// parent, such as the root).
pub fn output_dir(override_dir: &str, midi_path: &str) -> (d: String)
    ensures
        d@ == if blank(override_dir@) {
            match path_parent(midi_path@) {
                Some(p) => p,
                None => "."@,
            }
        } else {
            override_dir@
        },
{
    if is_blank(override_dir) {
        match crate::watch::parent_of(midi_path) {
            Some(p) => p,
            None => String::from_str("."),
        }
    } else {
        String::from_str(override_dir)
    }
}

/// How rendering one queue entry ended.
#[derive(Debug, Clone, Copy, PartialEq, Eq, Structural)]
pub enum RenderOutcome {
    /// The renderer could not be set up for the entry.
    SetupFailed,
    /// The render ran to the end.
    Finished,
    /// The render returned an error (a SoundFont failed to load, say).
    Failed,
    /// The render unwound: it was cancelled, or it panicked.
    Unwound,
}

/// The status the entry is shown with after its render, and whether the run
/// goes on to the next entry: a failure is shown and the run goes on; an
/// unwound render puts the entry back to pending and stops the run.
pub open spec fn outcome_result(o: RenderOutcome) -> (RenderStatus, bool) {
    match o {
        RenderOutcome::SetupFailed => (RenderStatus::Failed, true),
        RenderOutcome::Finished => (RenderStatus::Done, true),
        RenderOutcome::Failed => (RenderStatus::Failed, true),
        RenderOutcome::Unwound => (RenderStatus::Pending, false),
    }
}

pub fn outcome_status(o: RenderOutcome) -> (r: (RenderStatus, bool))
    ensures
        r == outcome_result(o),
{
    match o {
        RenderOutcome::SetupFailed => (RenderStatus::Failed, true),
        RenderOutcome::Finished => (RenderStatus::Done, true),
        RenderOutcome::Failed => (RenderStatus::Failed, true),
        RenderOutcome::Unwound => (RenderStatus::Pending, false),
    }
}

} // verus!
