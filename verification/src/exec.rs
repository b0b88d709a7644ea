//! Applying a command to the table.

use crate::query::{Query, QueryType, QueryView};
use crate::table::Table;
use vstd::prelude::*;
use vstd::string::*;

verus! {

/// A condition that keeps a command from taking full effect. None of them
/// ends the session.
#[derive(Debug, PartialEq, Eq, Structural, Clone, Copy)]
pub enum Warning {
    /// `INSERT` on a key that already has an entry. The entry is overwritten
    /// all the same.
    KeyExists,
    /// `INSERT` without a value.
    InsertNeedsValue,
    /// `UPDATE` without a value.
    UpdateNeedsValue,
    /// The key has no entry.
    NotFound,
}

/// What a command produced: the text to show, empty where the command took
/// no effect, and the warnings in the order in which they arose.
#[derive(Debug)]
pub struct Outcome {
    pub text: String,
    pub warnings: Vec<Warning>,
}

/// The table, the text and the warnings after a command, as plain data.
pub struct Effect {
    pub table: Map<Seq<char>, Seq<char>>,
    pub text: Seq<char>,
    pub warnings: Seq<Warning>,
}

/// The text shown after an insertion.
pub open spec fn inserted_text(key: Seq<char>, value: Seq<char>) -> Seq<char> {
    "SUCCESS: Inserted "@ + key + ":"@ + value + " into database"@
}

/// The text shown after an update.
pub open spec fn updated_text(key: Seq<char>, value: Seq<char>) -> Seq<char> {
    "SUCCESS: Updated "@ + key + " with "@ + value
}

/// The text shown after a deletion.
pub open spec fn deleted_text(key: Seq<char>) -> Seq<char> {
    "SUCCESS: Deleted "@ + key
}

/// What an `INSERT` does: it stores the value, over an earlier one if there
/// is one, which it warns of; without a value it changes nothing.
pub open spec fn insert_effect(
    key: Seq<char>,
    value: Option<Seq<char>>,
    table: Map<Seq<char>, Seq<char>>,
) -> Effect {
    let before: Seq<Warning> = if table.contains_key(key) {
        seq![Warning::KeyExists]
    } else {
        seq![]
    };
    match value {
        Some(v) => Effect {
            table: table.insert(key, v),
            text: inserted_text(key, v),
            warnings: before,
        },
        None => Effect { table, text: seq![], warnings: before.push(Warning::InsertNeedsValue) },
    }
}

/// What a `SELECT` does: it shows the stored value and changes nothing.
pub open spec fn select_effect(key: Seq<char>, table: Map<Seq<char>, Seq<char>>) -> Effect {
    if table.contains_key(key) {
        Effect { table, text: table[key], warnings: seq![] }
    } else {
        Effect { table, text: seq![], warnings: seq![Warning::NotFound] }
    }
}

/// What an `UPDATE` does: it replaces the value of a key that has an entry.
pub open spec fn update_effect(
    key: Seq<char>,
    value: Option<Seq<char>>,
    table: Map<Seq<char>, Seq<char>>,
) -> Effect {
    if !table.contains_key(key) {
        Effect { table, text: seq![], warnings: seq![Warning::NotFound] }
    } else {
        match value {
            Some(v) => Effect {
                table: table.insert(key, v),
                text: updated_text(key, v),
                warnings: seq![],
            },
            None => Effect { table, text: seq![], warnings: seq![Warning::UpdateNeedsValue] },
        }
    }
}

/// What a `DELETE` does: it removes the entry of a key that has one.
pub open spec fn delete_effect(key: Seq<char>, table: Map<Seq<char>, Seq<char>>) -> Effect {
    if table.contains_key(key) {
        Effect { table: table.remove(key), text: deleted_text(key), warnings: seq![] }
    } else {
        Effect { table, text: seq![], warnings: seq![Warning::NotFound] }
    }
}

/// What a command does to a table.
pub open spec fn effect(query: QueryView, table: Map<Seq<char>, Seq<char>>) -> Effect {
    match query.q_type {
        QueryType::Insert => insert_effect(query.key, query.value, table),
        QueryType::Select => select_effect(query.key, table),
        QueryType::Update => update_effect(query.key, query.value, table),
        QueryType::Delete => delete_effect(query.key, table),
    }
}

impl Warning {
    /// The text of this warning as a command on `key` shows it.
    pub open spec fn spec_message(self, key: Seq<char>) -> Seq<char> {
        match self {
            Warning::KeyExists => "Key "@ + key + " already exists. Use UPDATE query instead"@,
            Warning::InsertNeedsValue => "INSERT requires a value, but none was provided"@,
            Warning::UpdateNeedsValue => "UPDATE requres a value, but none was provided"@,
            Warning::NotFound => "No entry found for key = "@ + key,
        }
    }

    /// The text shown for this warning, raised by a command on `key`.
    pub fn message(&self, key: &str) -> (text: String)
        ensures
            text@ == self.spec_message(key@),
    {
        match self {
            Warning::KeyExists => {
                let mut text = "Key ".to_owned();
                text.append(key);
                text.append(" already exists. Use UPDATE query instead");
                text
            },
            Warning::InsertNeedsValue => "INSERT requires a value, but none was provided".to_owned(),
            Warning::UpdateNeedsValue => "UPDATE requres a value, but none was provided".to_owned(),
            Warning::NotFound => {
                let mut text = "No entry found for key = ".to_owned();
                text.append(key);
                text
            },
        }
    }
}

/// Applies one command to the table and reports what it did.
///
/// The table changes only where the command succeeds: an `INSERT` with a
/// value, an `UPDATE` with a value on a key that has an entry, a `DELETE` on
/// a key that has one.
pub fn process_query(query: &Query, store: &mut Table) -> (out: Outcome)
    ensures
        final(store)@ == effect(query@, old(store)@).table,
        out.text@ == effect(query@, old(store)@).text,
        out.warnings@ == effect(query@, old(store)@).warnings,
{
    let mut text = String::new();
    let mut warnings: Vec<Warning> = Vec::new();
    match query.q_type {
        QueryType::Insert => {
            if store.contains_key(query.key.as_str()) {
                warnings.push(Warning::KeyExists);
            }
            match &query.value {
                Some(value) => {
                    store.insert(query.key.clone(), value.clone());
                    text.append("SUCCESS: Inserted ");
                    text.append(query.key.as_str());
                    text.append(":");
                    text.append(value.as_str());
                    text.append(" into database");
                },
                None => {
                    warnings.push(Warning::InsertNeedsValue);
                },
            }
        },
        QueryType::Select => {
            match store.get(query.key.as_str()) {
                Some(value) => {
                    text = value.clone();
                },
                None => {
                    warnings.push(Warning::NotFound);
                },
            }
        },
        QueryType::Update => {
            if store.contains_key(query.key.as_str()) {
                match &query.value {
                    Some(value) => {
                        store.insert(query.key.clone(), value.clone());
                        text.append("SUCCESS: Updated ");
                        text.append(query.key.as_str());
                        text.append(" with ");
                        text.append(value.as_str());
                    },
                    None => {
                        warnings.push(Warning::UpdateNeedsValue);
                    },
                }
            } else {
                warnings.push(Warning::NotFound);
            }
        },
        QueryType::Delete => {
            if store.remove(query.key.as_str()) {
                text.append("SUCCESS: Deleted ");
                text.append(query.key.as_str());
            } else {
                warnings.push(Warning::NotFound);
            }
        },
    }
    Outcome { text, warnings }
}

/// The command `INSERT key value`.
pub open spec fn insert_of(key: Seq<char>, value: Seq<char>) -> QueryView {
    QueryView { q_type: QueryType::Insert, key, value: Some(value) }
}

/// The command `SELECT key`.
pub open spec fn select_of(key: Seq<char>) -> QueryView {
    QueryView { q_type: QueryType::Select, key, value: None }
}

/// The command `UPDATE key value`.
pub open spec fn update_of(key: Seq<char>, value: Seq<char>) -> QueryView {
    QueryView { q_type: QueryType::Update, key, value: Some(value) }
}

/// The command `DELETE key`.
pub open spec fn delete_of(key: Seq<char>) -> QueryView {
    QueryView { q_type: QueryType::Delete, key, value: None }
}

/// A `SELECT` shows what the last `INSERT` on its key stored, whatever the
/// table held before, and warns of nothing.
pub proof fn lemma_insert_then_select(
    table: Map<Seq<char>, Seq<char>>,
    key: Seq<char>,
    value: Seq<char>,
)
    ensures
        effect(insert_of(key, value), table).text == inserted_text(key, value),
        effect(select_of(key), effect(insert_of(key, value), table).table).text == value,
        effect(select_of(key), effect(insert_of(key, value), table).table).warnings
            == Seq::<Warning>::empty(),
{
}

/// An `UPDATE` on a key that an `INSERT` has stored succeeds, and a `SELECT`
/// then shows the new value.
pub proof fn lemma_update_then_select(
    table: Map<Seq<char>, Seq<char>>,
    key: Seq<char>,
    first: Seq<char>,
    second: Seq<char>,
)
    ensures
        ({
            let stored = effect(insert_of(key, first), table).table;
            let updated = effect(update_of(key, second), stored);
            &&& updated.text == updated_text(key, second)
            &&& updated.warnings == Seq::<Warning>::empty()
            &&& effect(select_of(key), updated.table).text == second
            &&& effect(select_of(key), updated.table).warnings == Seq::<Warning>::empty()
        }),
{
}

/// A `DELETE` on a key that an `INSERT` has stored succeeds, and a `SELECT`
/// then finds nothing: it shows no text and warns that the key has no entry.
pub proof fn lemma_delete_then_select(
    table: Map<Seq<char>, Seq<char>>,
    key: Seq<char>,
    value: Seq<char>,
)
    ensures
        ({
            let stored = effect(insert_of(key, value), table).table;
            let deleted = effect(delete_of(key), stored);
            &&& deleted.text == deleted_text(key)
            &&& deleted.warnings == Seq::<Warning>::empty()
            &&& effect(select_of(key), deleted.table).text == Seq::<char>::empty()
            &&& effect(select_of(key), deleted.table).warnings == seq![Warning::NotFound]
        }),
{
}

/// A second `DELETE` on the same key, on any table, finds no entry: it
/// warns, shows no text and leaves the table as the first one left it.
pub proof fn lemma_delete_twice(table: Map<Seq<char>, Seq<char>>, key: Seq<char>)
    ensures
        ({
            let once = effect(delete_of(key), table).table;
            let twice = effect(delete_of(key), once);
            &&& twice.table == once
            &&& twice.text == Seq::<char>::empty()
            &&& twice.warnings == seq![Warning::NotFound]
        }),
{
    assert(table.remove(key).remove(key) =~= table.remove(key));
}

/// On the empty table a `SELECT` finds nothing, whatever the key.
pub proof fn lemma_select_on_empty(key: Seq<char>)
    ensures
        ({
            let found = effect(select_of(key), Map::<Seq<char>, Seq<char>>::empty());
            &&& found.table == Map::<Seq<char>, Seq<char>>::empty()
            &&& found.text == Seq::<char>::empty()
            &&& found.warnings == seq![Warning::NotFound]
        }),
{
}

/// On a key that has an entry, an `INSERT` with a value leaves the table
/// that the `UPDATE` with the same value leaves.
pub proof fn lemma_insert_overwrites_like_update(
    table: Map<Seq<char>, Seq<char>>,
    key: Seq<char>,
    value: Seq<char>,
)
    requires
        table.contains_key(key),
    ensures
        effect(insert_of(key, value), table).table == effect(update_of(key, value), table).table,
        effect(insert_of(key, value), table).warnings == seq![Warning::KeyExists],
{
}

/// A command that shows no text has left the table as it was.
pub proof fn lemma_no_text_no_change(query: QueryView, table: Map<Seq<char>, Seq<char>>)
    requires
        effect(query, table).text.len() == 0,
    ensures
        effect(query, table).table == table,
{
    reveal_strlit("SUCCESS: Inserted ");
    reveal_strlit("SUCCESS: Updated ");
    reveal_strlit("SUCCESS: Deleted ");
}

/// A command only ever touches the entry of its own key.
pub proof fn lemma_other_keys_untouched(
    query: QueryView,
    table: Map<Seq<char>, Seq<char>>,
    other: Seq<char>,
)
    requires
        other != query.key,
    ensures
        effect(query, table).table.contains_key(other) == table.contains_key(other),
        table.contains_key(other) ==> effect(query, table).table[other] == table[other],
{
}

} // verus!
