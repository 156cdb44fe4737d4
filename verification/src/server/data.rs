//! A name history as it is handed to the caller.

use crate::storage::data::entry_json;
use crate::storage::data::spec_entry_json;
use crate::utils::json::json_string;
use crate::utils::json::to_json_string;
use crate::utils::time::Timestamp;
use vstd::prelude::*;

verus! {

/// An account's names as they are handed to the caller, in the order in
/// which they were taken.
pub type NameHistory = Vec<NameHistoryElement>;

/// One entry of a name history as it is handed to the caller.
#[derive(Debug)]
pub struct NameHistoryElement {
    /// The name the account took.
    pub name: String,
    /// When the name became current, in milliseconds since the Unix epoch.
    /// The first known name of an account has none.
    pub changed_to_at: Option<u128>,
}

/// A `NameHistoryElement` with its name as a sequence of characters.
pub struct NameHistoryElementView {
    pub name: Seq<char>,
    pub changed_to_at: Option<u128>,
}

impl View for NameHistoryElement {
    type V = NameHistoryElementView;

    open spec fn view(&self) -> NameHistoryElementView {
        NameHistoryElementView { name: self.name@, changed_to_at: self.changed_to_at }
    }
}

impl NameHistoryElementView {
    /// The entry as a JSON object: the name, and, only where the entry has
    /// one, the time of change.
    pub open spec fn serialize(self) -> Seq<char> {
        spec_entry_json(json_string(self.name), self.changed_to_at)
    }
}

impl NameHistoryElement {
    /// The entry as a JSON object.
    pub fn serialize(&self) -> (json: String)
        ensures
            json@ == self@.serialize(),
    {
        let name = to_json_string(self.name.as_str());
        entry_json(name.as_str(), self.changed_to_at)
    }

    /// The first known name of an account, with no time of change.
    pub fn new(name: String) -> (element: Self)
        ensures
            element@ == (NameHistoryElementView { name: name@, changed_to_at: None }),
    {
        Self { name, changed_to_at: None }
    }

    /// A name that became current `changed_to_at` milliseconds after the
    /// epoch.
    pub fn new_full(name: String, changed_to_at: u128) -> (element: Self)
        ensures
            element@ == (NameHistoryElementView {
                name: name@,
                changed_to_at: Some(changed_to_at),
            }),
    {
        Self { name, changed_to_at: Some(changed_to_at) }
    }

    /// A name that becomes current at the time that the system clock
    /// shows.
    pub fn new_current(name: String) -> (element: Self)
        ensures
            element@.name == name@,
            element@.changed_to_at.is_some(),
    {
        let changed_to_at = Timestamp::now().as_millis();
        Self { name, changed_to_at: Some(changed_to_at) }
    }

    /// The entry of the store `element` as it is handed to the caller: the
    /// same name, and the time of change in milliseconds. Both are
    /// serialized alike.
    pub fn from_stored(element: crate::storage::data::NameHistoryElement) -> (shown: Self)
        ensures
            shown@.name == element@.name,
            shown@.changed_to_at == match element@.changed_to_at {
                Some(t) => Some(t.millis),
                None => None,
            },
            shown@.serialize() == element@.serialize(),
    {
        let changed_to_at = match element.changed_to_at {
            Some(t) => Some(t.as_millis()),
            None => None,
        };
        Self { name: element.name, changed_to_at }
    }
}

} // verus!
