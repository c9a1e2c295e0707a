//! Closing the main window: the prompts that stand between a close request
//! and the window going away (a running conversion, unsaved edits, the
//! background service still running), in that order, and their texts.

use crate::fmt::{decimal, joined, push_decimal, views};
use vstd::prelude::*;

verus! {

/// Which prompt, if any, is on screen.
#[derive(Debug, Clone, Copy, PartialEq, Eq, Structural)]
pub enum QuitStage {
    Idle,
    Render,
    Unsaved,
    Daemon,
}

pub open spec fn render_suffix() -> Seq<char> {
    ". Cancelling now leaves the output unfinished."@
}

/// The render prompt's text: how many files are still being converted, when
/// that is known yet.
pub open spec fn render_text(files: nat) -> Seq<char> {
    let what = if files == 0 {
        "A conversion is still in progress"@
    } else if files == 1 {
        "A file is still being converted"@
    } else {
        decimal(files) + " files are still being converted"@
    };
    what + render_suffix()
}

pub fn render_detail(files: usize) -> (s: String)
    ensures
        s@ == render_text(files as nat),
{
    let mut s = if files == 0 {
        String::from_str("A conversion is still in progress")
    } else if files == 1 {
        String::from_str("A file is still being converted")
    } else {
        let mut t = String::new();
        push_decimal(&mut t, files as u64);
        t.append(" files are still being converted");
        proof {
            assert(Seq::<char>::empty() + decimal(files as nat) =~= decimal(files as nat));
        }
        t
    };
    s.append(". Cancelling now leaves the output unfinished.");
    s
}

pub open spec fn bullet(label: Seq<char>) -> Seq<char> {
    "  \u{2022}  "@ + label
}

pub open spec fn unsaved_header() -> Seq<char> {
    "These have changes that were never written to disk:\n\n"@
}

/// The unsaved prompt's text: one bulleted line per pending edit.
pub open spec fn unsaved_text(labels: Seq<Seq<char>>) -> Seq<char> {
    unsaved_header() + joined(labels.map_values(|l: Seq<char>| bullet(l)), "\n"@)
}

pub fn unsaved_detail(labels: &Vec<String>) -> (s: String)
    ensures
        s@ == unsaved_text(views(labels@)),
{
    let mut lines: Vec<String> = Vec::new();
    let mut i: usize = 0;
    while i < labels.len()
        invariant
            0 <= i <= labels@.len(),
            lines@.len() == i,
            forall|j: int| 0 <= j < i ==> lines@[j]@ == bullet(labels@[j]@),
        decreases labels@.len() - i,
    {
        let mut line = String::from_str("  \u{2022}  ");
        line.append(labels[i].as_str());
        lines.push(line);
        i = i + 1;
    }
    let list = crate::fmt::join(&lines, "\n");
    proof {
        assert(views(lines@) =~= views(labels@).map_values(|l: Seq<char>| bullet(l)));
    }
    let mut s = String::from_str("These have changes that were never written to disk:\n\n");
    s.append(list.as_str());
    s
}

pub open spec fn daemon_text(memory: Seq<char>) -> Seq<char> {
    if memory.len() == 0 {
        "Maestro will keep running in the background after this window closes."@
    } else {
        "Maestro will keep running in the background after this window closes, holding "@ + memory
            + "."@
    }
}

/// The service prompt's text, naming the memory it holds when that is known.
pub fn daemon_detail(memory: &str) -> (s: String)
    ensures
        s@ == daemon_text(memory@),
{
    if memory.unicode_len() == 0 {
        String::from_str("Maestro will keep running in the background after this window closes.")
    } else {
        let mut s = String::from_str(
            "Maestro will keep running in the background after this window closes, holding ",
        );
        s.append(memory);
        s.append(".");
        s
    }
}

/// The next step of a close attempt.
#[derive(Debug, Clone, PartialEq)]
pub enum QuitStep {
    /// Show this prompt and keep the window open.
    Prompt(QuitStage, String),
    /// Nothing holds the window: close it.
    Close,
}

/// What a close attempt shows next: a running conversion first, then unsaved
/// edits (unless the user chose to discard them), then a running service;
/// with none of these the window closes.
pub open spec fn quit_step_is(
    step: QuitStep,
    is_rendering: bool,
    render_jobs: nat,
    discard_unsaved: bool,
    unsaved: Seq<Seq<char>>,
    daemon_running: bool,
    daemon_memory: Seq<char>,
) -> bool {
    if is_rendering {
        step matches QuitStep::Prompt(stage, detail) && stage == QuitStage::Render && detail@
            == render_text(render_jobs)
    } else if !discard_unsaved && unsaved.len() > 0 {
        step matches QuitStep::Prompt(stage, detail) && stage == QuitStage::Unsaved && detail@
            == unsaved_text(unsaved)
    } else if daemon_running {
        step matches QuitStep::Prompt(stage, detail) && stage == QuitStage::Daemon && detail@
            == daemon_text(daemon_memory)
    } else {
        step == QuitStep::Close
    }
}

pub fn advance(
    is_rendering: bool,
    render_jobs: usize,
    discard_unsaved: bool,
    unsaved: &Vec<String>,
    daemon_running: bool,
    daemon_memory: &str,
) -> (step: QuitStep)
    ensures
        quit_step_is(
            step,
            is_rendering,
            render_jobs as nat,
            discard_unsaved,
            views(unsaved@),
            daemon_running,
            daemon_memory@,
        ),
{
    if is_rendering {
        return QuitStep::Prompt(QuitStage::Render, render_detail(render_jobs));
    }
    if !discard_unsaved && unsaved.len() > 0 {
        return QuitStep::Prompt(QuitStage::Unsaved, unsaved_detail(unsaved));
    }
    if daemon_running {
        return QuitStep::Prompt(QuitStage::Daemon, daemon_detail(daemon_memory));
    }
    QuitStep::Close
}

/// What the window does with a close request, given the prompt on screen.
#[derive(Debug, Clone, Copy, PartialEq, Eq, Structural)]
pub enum CloseRequest {
    /// A conversion or unsaved prompt is up: keep the window open.
    Keep,
    /// The service prompt is up: let the window close.
    Allow,
    /// No prompt is up: take the next step of the close attempt.
    Advance,
}

pub fn intercept_close(stage: QuitStage) -> (r: CloseRequest)
    ensures
        r == match stage {
            QuitStage::Render | QuitStage::Unsaved => CloseRequest::Keep,
            QuitStage::Daemon => CloseRequest::Allow,
            QuitStage::Idle => CloseRequest::Advance,
        },
{
    match stage {
        QuitStage::Render | QuitStage::Unsaved => CloseRequest::Keep,
        QuitStage::Daemon => CloseRequest::Allow,
        QuitStage::Idle => CloseRequest::Advance,
    }
}

/// A close attempt never closes the window while a conversion runs, or
/// while edits are pending that the user did not choose to discard.
pub proof fn law_close_waits_for_work(
    step: QuitStep,
    is_rendering: bool,
    render_jobs: nat,
    discard_unsaved: bool,
    unsaved: Seq<Seq<char>>,
    daemon_running: bool,
    daemon_memory: Seq<char>,
)
    requires
        quit_step_is(
            step,
            is_rendering,
            render_jobs,
            discard_unsaved,
            unsaved,
            daemon_running,
            daemon_memory,
        ),
        is_rendering || (!discard_unsaved && unsaved.len() > 0),
    ensures
        step != QuitStep::Close,
{
}

} // verus!
