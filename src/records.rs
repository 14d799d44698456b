use vstd::prelude::*;
use vstd::string::StringExecFns;

use crate::text::{decimal, render_decimal};

verus! {

/// One stored to-do entry: the key the storage engine assigned and its text.
pub struct ToDoItem {
    pub id: i64,
    pub item: String,
}

impl View for ToDoItem {
    type V = (i64, Seq<char>);

    open spec fn view(&self) -> (i64, Seq<char>) {
        (self.id, self.item@)
    }
}

/// Every stored entry, in the order the query produced them.
pub struct ToDoList {
    pub items: Vec<ToDoItem>,
}

impl View for ToDoList {
    type V = Seq<(i64, Seq<char>)>;

    open spec fn view(&self) -> Seq<(i64, Seq<char>)> {
        self.items@.map_values(|i: ToDoItem| i@)
    }
}

/// The reply to a write: a sentence on how many rows it touched.
pub struct StatusMessage {
    pub message: String,
}

impl View for StatusMessage {
    type V = Seq<char>;

    open spec fn view(&self) -> Seq<char> {
        self.message@
    }
}

/// Why a request could not be served.
#[derive(Clone, Copy, Debug, PartialEq, Eq, Structural)]
pub enum HandlerError {
    /// The database could not be opened.
    Connect,
    /// The statement could not be prepared.
    Prepare,
    /// The listing query could not be started.
    Fetch,
    /// A row could not be read or mapped to an entry.
    Collect,
    /// The insert did not run.
    Insert,
    /// The delete did not run.
    Delete,
}

/// The text sent to the client for each error.
pub open spec fn error_text(e: HandlerError) -> Seq<char> {
    match e {
        HandlerError::Connect => "Failed to connect to database"@,
        HandlerError::Prepare => "Failed to prepare a query"@,
        HandlerError::Fetch => "Failed to fetch ToDo Items"@,
        HandlerError::Collect => "Could not collect items"@,
        HandlerError::Insert => "Failed to insert ToDo Item"@,
        HandlerError::Delete => "Failed to delete ToDo Item"@,
    }
}

impl HandlerError {
    /// The text sent to the client for this error.
    pub fn message(&self) -> (r: String)
        ensures
            r@ == error_text(*self),
    {
        match self {
            HandlerError::Connect => String::from_str("Failed to connect to database"),
            HandlerError::Prepare => String::from_str("Failed to prepare a query"),
            HandlerError::Fetch => String::from_str("Failed to fetch ToDo Items"),
            HandlerError::Collect => String::from_str("Could not collect items"),
            HandlerError::Insert => String::from_str("Failed to insert ToDo Item"),
            HandlerError::Delete => String::from_str("Failed to delete ToDo Item"),
        }
    }
}

/// The status sentence after inserting `n` rows.
pub open spec fn inserted_text(n: nat) -> Seq<char> {
    decimal(n) + " rows inserted!"@
}

/// The status sentence after deleting `n` rows.
pub open spec fn deleted_text(n: nat) -> Seq<char> {
    decimal(n) + " rows deleted"@
}

impl StatusMessage {
    /// The status reported after an insert that added `n` rows.
    pub fn inserted(n: usize) -> (r: StatusMessage)
        ensures
            r@ == inserted_text(n as nat),
    {
        let s = render_decimal(n);
        StatusMessage { message: s.concat(" rows inserted!") }
    }

    /// The status reported after a delete that removed `n` rows.
    pub fn deleted(n: usize) -> (r: StatusMessage)
        ensures
            r@ == deleted_text(n as nat),
    {
        let s = render_decimal(n);
        StatusMessage { message: s.concat(" rows deleted") }
    }
}

/// The entry made of a row's two columns, where both could be read with the
/// expected types: the key as a 64-bit integer, the text as a string.
pub open spec fn row_entry(id: Option<i64>, item: Option<String>) -> Option<(i64, Seq<char>)> {
    match (id, item) {
        (Some(k), Some(t)) => Some((k, t@)),
        _ => None,
    }
}

impl ToDoItem {
    /// Maps one result row to an entry; `None` when a column was null or of
    /// an incompatible type.
    pub fn from_row(id: Option<i64>, item: Option<String>) -> (r: Option<ToDoItem>)
        ensures
            r matches Some(e) ==> row_entry(id, item) == Some(e@),
            r is None ==> row_entry(id, item) is None,
    {
        match (id, item) {
            (Some(k), Some(t)) => Some(ToDoItem { id: k, item: t }),
            _ => None,
        }
    }
}

} // verus!
