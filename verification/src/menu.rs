//! The application menu: which of its items is the one that quits.

use crate::text::text_eq;
use vstd::prelude::*;
use vstd::string::StringExecFns;

verus! {

/// The text of an optional string.
pub open spec fn label_of(item: Option<String>) -> Option<Seq<char>> {
    match item {
        Some(text) => Some(text@),
        None => None,
    }
}

/// The label of the item that quits the application `app_name`.
pub open spec fn quit_label(app_name: Seq<char>) -> Seq<char> {
    "Quit "@ + app_name
}

/// Whether `place` is the place of the item that quits, among the items
/// with the labels `labels`, where an item that is not predefined has none:
/// the first item with the label of quitting, and where there is none, the
/// last predefined item.
pub open spec fn is_quit_place(
    labels: Seq<Option<String>>,
    app_name: Seq<char>,
    place: Option<int>,
) -> bool {
    let wanted = Some(quit_label(app_name));
    match place {
        Some(at) => {
            &&& 0 <= at < labels.len()
            &&& labels[at] is Some
            &&& if label_of(labels[at]) == wanted {
                forall|i: int| 0 <= i < at ==> label_of(#[trigger] labels[i]) != wanted
            } else {
                &&& forall|i: int|
                    0 <= i < labels.len() ==> label_of(#[trigger] labels[i]) != wanted
                &&& forall|i: int| at < i < labels.len() ==> (#[trigger] labels[i]) is None
            }
        },
        None => forall|i: int| 0 <= i < labels.len() ==> (#[trigger] labels[i]) is None,
    }
}

/// The label of the item that quits the application `app_name`.
pub fn quit_item_label(app_name: &str) -> (label: String)
    ensures
        label@ == quit_label(app_name@),
{
    let mut label = "Quit ".to_owned();
    label.append(app_name);
    label
}

/// The place of the item that quits, among the items with the labels
/// `labels`.
pub fn find_quit_item(labels: &Vec<Option<String>>, app_name: &str) -> (place: Option<usize>)
    ensures
        is_quit_place(
            labels@,
            app_name@,
            match place {
                Some(at) => Some(at as int),
                None => None,
            },
        ),
{
    let wanted = quit_item_label(app_name);
    let mut last: Option<usize> = None;
    let mut i: usize = 0;
    while i < labels.len()
        invariant
            i <= labels.len(),
            wanted@ == quit_label(app_name@),
            forall|k: int| 0 <= k < i ==> label_of(#[trigger] labels@[k]) != Some(wanted@),
            match last {
                Some(at) => at < i && labels@[at as int] is Some && forall|k: int|
                    at < k < i ==> (#[trigger] labels@[k]) is None,
                None => forall|k: int| 0 <= k < i ==> (#[trigger] labels@[k]) is None,
            },
        decreases labels.len() - i,
    {
        match &labels[i] {
            Some(text) => {
                if text_eq(text.as_str(), wanted.as_str()) {
                    return Some(i);
                }
                last = Some(i);
            },
            None => {},
        }
        i += 1;
    }
    last
}

} // verus!
