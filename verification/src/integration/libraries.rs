//! The synthesizer library rows: where each library was found, and what its
//! buttons open.

use crate::integration::item::IntegrationStatus;
use crate::text::str_eq;
use vstd::prelude::*;

verus! {

/// Where a library was loaded from.
#[derive(Debug, Clone, Copy, PartialEq, Eq, Structural)]
pub enum LibSource {
    User,
    Program,
    System,
}

/// What probing found for one library.
#[derive(Debug, Clone)]
pub struct LibraryStatus {
    pub name: String,
    pub filename: String,
    pub version: Option<String>,
    pub source: Option<LibSource>,
    pub error: Option<String>,
}

/// One library row.
#[derive(Debug, Clone)]
pub struct LibraryItem {
    pub name: String,
    pub filename: String,
    pub version: String,
    pub source: String,
    pub detail: String,
    pub status: IntegrationStatus,
}

/// What a library row's button asks for.
#[derive(Debug, Clone, Copy, PartialEq, Eq, Structural)]
pub enum LibraryAction {
    /// Show the user library folder.
    Reveal,
    /// Open the library vendor's site.
    Visit,
}

pub open spec fn vendor_url_of(name: Seq<char>) -> Seq<char> {
    if name == "FluidSynth"@ {
        "https://www.fluidsynth.org/"@
    } else {
        "https://www.un4seen.com/"@
    }
}

/// Where a library can be downloaded: FluidSynth's site for FluidSynth, the
/// BASS vendor's for everything else.
pub fn vendor_url(name: &str) -> (u: &'static str)
    ensures
        u@ == vendor_url_of(name@),
{
    if str_eq(name, "FluidSynth") {
        "https://www.fluidsynth.org/"
    } else {
        "https://www.un4seen.com/"
    }
}

pub open spec fn source_text(source: LibSource) -> Seq<char> {
    match source {
        LibSource::User => "user folder"@,
        LibSource::Program => "program folder"@,
        LibSource::System => "system path"@,
    }
}

pub fn source_label(source: LibSource) -> (s: &'static str)
    ensures
        s@ == source_text(source),
{
    match source {
        LibSource::User => "user folder",
        LibSource::Program => "program folder",
        LibSource::System => "system path",
    }
}

pub open spec fn opt_text(s: Option<String>) -> Seq<char> {
    match s {
        Some(t) => t@,
        None => Seq::empty(),
    }
}

fn text_or_empty(s: &Option<String>) -> (t: String)
    ensures
        t@ == opt_text(*s),
{
    match s {
        Some(t) => t.clone(),
        None => String::new(),
    }
}

/// The row of a library: a found library is good and names where it came
/// from; a missing one is marked missing with the reason it failed to load.
pub fn to_item(status: &LibraryStatus) -> (i: LibraryItem)
    ensures
        i.name@ == status.name@,
        i.filename@ == status.filename@,
        i.version@ == opt_text(status.version),
        i.source@ == match status.source {
            Some(s) => source_text(s),
            None => Seq::empty(),
        },
        i.detail@ == opt_text(status.error),
        i.status == if status.source is Some {
            IntegrationStatus::Good
        } else {
            IntegrationStatus::Missing
        },
{
    let source = match status.source {
        Some(s) => String::from_str(source_label(s)),
        None => String::new(),
    };
    LibraryItem {
        name: status.name.clone(),
        filename: status.filename.clone(),
        version: text_or_empty(&status.version),
        source,
        detail: text_or_empty(&status.error),
        status: if status.source.is_some() {
            IntegrationStatus::Good
        } else {
            IntegrationStatus::Missing
        },
    }
}

/// The rows of all probed libraries, in probing order.
pub fn probe(statuses: &Vec<LibraryStatus>) -> (items: Vec<LibraryItem>)
    ensures
        items@.len() == statuses@.len(),
        forall|i: int|
            0 <= i < items@.len() ==> items@[i].name@ == statuses@[i].name@ && items@[i].status
                == if statuses@[i].source is Some {
                IntegrationStatus::Good
            } else {
                IntegrationStatus::Missing
            },
{
    let mut items: Vec<LibraryItem> = Vec::new();
    let mut i: usize = 0;
    while i < statuses.len()
        invariant
            0 <= i <= statuses@.len(),
            items@.len() == i,
            forall|j: int|
                0 <= j < i ==> items@[j].name@ == statuses@[j].name@ && items@[j].status
                    == if statuses@[j].source is Some {
                    IntegrationStatus::Good
                } else {
                    IntegrationStatus::Missing
                },
        decreases statuses@.len() - i,
    {
        items.push(to_item(&statuses[i]));
        i = i + 1;
    }
    items
}

/// What a library button does.
#[derive(Debug, Clone, PartialEq)]
pub enum LibraryStep {
    /// Create and show the user library folder.
    RevealUserFolder,
    /// Open this address.
    Open(String),
}

/// The step for a button press on row `index` of the libraries probed now;
/// a row that is no longer listed is an error.
pub fn act(index: i32, action: LibraryAction, libraries: &Vec<LibraryStatus>) -> (r: Result<
    LibraryStep,
    String,
>)
    ensures
        action == LibraryAction::Reveal ==> r == Ok::<LibraryStep, String>(
            LibraryStep::RevealUserFolder,
        ),
        action == LibraryAction::Visit ==> match r {
            Ok(LibraryStep::Open(u)) => 0 <= index < libraries@.len() && u@ == vendor_url_of(
                libraries@[index as int].name@,
            ),
            Ok(LibraryStep::RevealUserFolder) => false,
            Err(m) => !(0 <= index < libraries@.len()) && m@ == "That library is no longer listed."@,
        },
{
    match action {
        LibraryAction::Reveal => Ok(LibraryStep::RevealUserFolder),
        LibraryAction::Visit => {
            if index >= 0 && (index as usize) < libraries.len() {
                let u = vendor_url(libraries[index as usize].name.as_str());
                Ok(LibraryStep::Open(String::from_str(u)))
            } else {
                Err(String::from_str("That library is no longer listed."))
            }
        },
    }
}

} // verus!
