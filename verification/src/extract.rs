//! Extraction of the maintenance flag from status-page markup.
//!
//! The page is parsed by the `select` crate behind one trusted wrapper;
//! what the wrapper hands back is named by `attr_values_in`, and the
//! verified scan over those attribute values decides the flag.

use vstd::prelude::*;
use crate::text::{contains_substring, has_substring};

verus! {

/// The attribute values (one `Option` per element, in document order) of
/// attribute `attr` on the elements of `html` that carry the class `class`.
pub uninterp spec fn attr_values_in(
    html: Seq<char>,
    class: Seq<char>,
    attr: Seq<char>,
) -> Seq<Option<Seq<char>>>;

/// Relies on `select`'s `Document::from`, `Document::find` with the `Class`
/// predicate, and `Node::attr`: parsing the markup and collecting one
/// attribute of the elements of one class is a function of the three texts
/// alone, here named `attr_values_in`.
#[verifier::external_body]
fn class_attr_values(html: &str, class: &str, attr: &str) -> (r: Vec<Option<String>>)
    ensures
        r.deep_view() == attr_values_in(html@, class@, attr@),
{
    let document = select::document::Document::from(html);
    let mut values: Vec<Option<String>> = Vec::new();
    for node in document.find(select::predicate::Class(class)) {
        values.push(node.attr(attr).map(|value| value.to_string()));
    }
    values
}

/// The class that marks a per-server status label on the page.
pub open spec fn status_label_class() -> Seq<char> {
    "ags-ServerStatus-content-serverStatuses-server-item-label"@
}

/// The attribute of a status label that carries its wording.
pub open spec fn label_attr() -> Seq<char> {
    "aria-label"@
}

/// The wording that announces maintenance of the watched server.
pub open spec fn maintenance_marker() -> Seq<char> {
    "Alexia server status is Maintenance"@
}

/// The status labels of the page: the `aria-label` values of its elements
/// of the status-label class.
pub open spec fn status_labels(html: Seq<char>) -> Seq<Option<Seq<char>>> {
    attr_values_in(html, status_label_class(), label_attr())
}

/// Whether one label (absent on some elements) announces maintenance.
pub open spec fn label_shows_maintenance(label: Option<Seq<char>>) -> bool {
    match label {
        Some(text) => has_substring(text, maintenance_marker()),
        None => false,
    }
}

/// Whether the page announces maintenance: some status label carries the
/// maintenance wording. A page with no status labels reads as live.
pub open spec fn page_shows_maintenance(html: Seq<char>) -> bool {
    exists|i: int|
        0 <= i < status_labels(html).len() && label_shows_maintenance(
            #[trigger] status_labels(html)[i],
        )
}

/// Scans the page markup for a status label announcing maintenance.
pub fn is_maintenance(html: &str) -> (r: bool)
    ensures
        r == page_shows_maintenance(html@),
{
    let labels = class_attr_values(
        html,
        "ags-ServerStatus-content-serverStatuses-server-item-label",
        "aria-label",
    );
    let mut i: usize = 0;
    while i < labels.len()
        invariant
            labels.deep_view() == status_labels(html@),
            0 <= i <= labels.len(),
            forall|i2: int|
                0 <= i2 < i ==> !label_shows_maintenance(#[trigger] status_labels(html@)[i2]),
        decreases labels.len() - i,
    {
        let found = match &labels[i] {
            Some(label) => contains_substring(label.as_str(), "Alexia server status is Maintenance"),
            None => false,
        };
        if found {
            proof {
                assert(status_labels(html@)[i as int] == labels.deep_view()[i as int]);
                assert(label_shows_maintenance(status_labels(html@)[i as int]));
            }
            return true;
        }
        proof {
            assert(status_labels(html@)[i as int] == labels.deep_view()[i as int]);
        }
        i += 1;
    }
    false
}

} // verus!
