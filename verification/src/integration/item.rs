//! One row of the System Integration page.

use vstd::prelude::*;

verus! {

/// How a row is marked.
#[derive(Debug, Clone, Copy, PartialEq, Eq, Structural)]
pub enum IntegrationStatus {
    Good,
    Warning,
    Missing,
    Unknown,
}

/// One row: what it is, its state in a word or two, a sentence of advice,
/// and its mark.
#[derive(Debug, Clone)]
pub struct IntegrationItem {
    pub name: String,
    pub detail: String,
    pub hint: String,
    pub status: IntegrationStatus,
}

/// The values of a row.
pub struct ItemView {
    pub name: Seq<char>,
    pub detail: Seq<char>,
    pub hint: Seq<char>,
    pub status: IntegrationStatus,
}

impl View for IntegrationItem {
    type V = ItemView;

    open spec fn view(&self) -> ItemView {
        ItemView { name: self.name@, detail: self.detail@, hint: self.hint@, status: self.status }
    }
}

pub open spec fn item_view(
    name: Seq<char>,
    detail: Seq<char>,
    hint: Seq<char>,
    status: IntegrationStatus,
) -> ItemView {
    ItemView { name, detail, hint, status }
}

pub fn item(name: &str, detail: &str, hint: String, status: IntegrationStatus) -> (i: IntegrationItem)
    ensures
        i@ == item_view(name@, detail@, hint@, status),
{
    IntegrationItem {
        name: String::from_str(name),
        detail: String::from_str(detail),
        hint,
        status,
    }
}

} // verus!
