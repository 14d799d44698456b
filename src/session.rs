use vstd::prelude::*;
use vstd::string::StringExecFns;

use crate::records::{
    deleted_text, inserted_text, row_entry, HandlerError, StatusMessage, ToDoItem, ToDoList,
};

verus! {

/// What a request asks of the store.
pub enum Operation {
    /// List every entry.
    Fetch,
    /// Store a new entry with this text; the store picks its key.
    Insert(String),
    /// Remove the entry with this key.
    Delete(i64),
}

/// An operation as the contracts see it.
pub enum OperationModel {
    Fetch,
    Insert(Seq<char>),
    Delete(i64),
}

impl View for Operation {
    type V = OperationModel;

    open spec fn view(&self) -> OperationModel {
        match self {
            Operation::Fetch => OperationModel::Fetch,
            Operation::Insert(t) => OperationModel::Insert(t@),
            Operation::Delete(k) => OperationModel::Delete(*k),
        }
    }
}

/// How far a request has come.
#[derive(Clone, Copy, Debug, PartialEq, Eq, Structural)]
pub enum Phase {
    /// Waiting for the database to open.
    Connecting,
    /// Waiting for the statement to be prepared.
    Preparing,
    /// Waiting for the statement to start or to finish.
    Running,
    /// Receiving the rows of the listing query.
    Reading,
    /// The reply has been given.
    Done,
}

/// The outcome of the last action, as the caller observed it.
pub enum Event {
    Opened,
    OpenFailed,
    Prepared,
    PrepareFailed,
    /// The listing query started and rows can be read.
    QueryStarted,
    QueryFailed,
    /// A row arrived: its key column read as a 64-bit integer and its text
    /// column read as a string, each `None` where that read failed.
    Row(Option<i64>, Option<String>),
    /// The next row could not be read.
    RowFailed,
    /// No rows are left.
    RowsDone,
    /// The insert or delete ran and changed this many rows.
    Executed(usize),
    ExecuteFailed,
}

/// The value bound to the statement's single parameter.
pub enum Param {
    Text(String),
    Integer(i64),
}

/// A bound parameter as the contracts see it.
pub enum ParamModel {
    Text(Seq<char>),
    Integer(i64),
}

impl View for Param {
    type V = ParamModel;

    open spec fn view(&self) -> ParamModel {
        match self {
            Param::Text(t) => ParamModel::Text(t@),
            Param::Integer(k) => ParamModel::Integer(*k),
        }
    }
}

/// A successful reply.
pub enum Response {
    Items(ToDoList),
    Status(StatusMessage),
}

/// A successful reply as the contracts see it: entries, or a status sentence.
pub enum ResponseModel {
    Items(Seq<(i64, Seq<char>)>),
    Status(Seq<char>),
}

impl View for Response {
    type V = ResponseModel;

    open spec fn view(&self) -> ResponseModel {
        match self {
            Response::Items(l) => ResponseModel::Items(l@),
            Response::Status(m) => ResponseModel::Status(m@),
        }
    }
}

/// What the caller is to do next.
pub enum Action {
    /// Prepare this statement on the open connection.
    Prepare(String),
    /// Start the prepared listing query.
    Query,
    /// Read the next row of the listing query.
    NextRow,
    /// Run the prepared statement with this parameter.
    Execute(Param),
    /// Send this reply; the request is over.
    Reply(Result<Response, HandlerError>),
}

/// An action as the contracts see it.
pub enum ActionModel {
    Prepare(Seq<char>),
    Query,
    NextRow,
    Execute(ParamModel),
    Reply(Result<ResponseModel, HandlerError>),
}

impl View for Action {
    type V = ActionModel;

    open spec fn view(&self) -> ActionModel {
        match self {
            Action::Prepare(s) => ActionModel::Prepare(s@),
            Action::Query => ActionModel::Query,
            Action::NextRow => ActionModel::NextRow,
            Action::Execute(p) => ActionModel::Execute(p@),
            Action::Reply(Ok(r)) => ActionModel::Reply(Ok(r@)),
            Action::Reply(Err(e)) => ActionModel::Reply(Err(*e)),
        }
    }
}

/// One request on its way through the store.
pub struct Session {
    op: Operation,
    phase: Phase,
    items: Vec<ToDoItem>,
}

/// A request as the contracts see it.
pub struct SessionModel {
    pub op: OperationModel,
    pub phase: Phase,
    /// The entries read so far by a listing.
    pub items: Seq<(i64, Seq<char>)>,
}

impl View for Session {
    type V = SessionModel;

    closed spec fn view(&self) -> SessionModel {
        SessionModel {
            op: self.op@,
            phase: self.phase,
            items: self.items@.map_values(|i: ToDoItem| i@),
        }
    }
}

/// The SQL text each operation prepares; `$1` is its parameter.
pub open spec fn statement_text(op: OperationModel) -> Seq<char> {
    match op {
        OperationModel::Fetch => "select id, item from todo_list"@,
        OperationModel::Insert(_) => "insert into todo_list (id, item) values (null, $1)"@,
        OperationModel::Delete(_) => "delete from todo_list where id = $1;"@,
    }
}

/// The statement that creates the table, unless it exists already.
pub open spec fn schema_text() -> Seq<char> {
    "create table if not exists todo_list (id integer primary key, item varchar(64) not null);"@
}

/// The SQL that creates the table, unless it exists already.
pub fn schema_statement() -> (r: &'static str)
    ensures
        r@ == schema_text(),
{
    "create table if not exists todo_list (id integer primary key, item varchar(64) not null);"
}

/// A fresh request, before the database is opened.
pub open spec fn initial(op: OperationModel) -> SessionModel {
    SessionModel { op, phase: Phase::Connecting, items: Seq::empty() }
}

/// The state a session reaches from `s` through the events `evs`, taken in
/// order, and the actions it asked for on the way.
pub open spec fn run(s: SessionModel, evs: Seq<Event>) -> (SessionModel, Seq<ActionModel>)
    decreases evs.len(),
{
    if evs.len() == 0 {
        (s, Seq::empty())
    } else {
        let (t, acts) = run(s, evs.drop_last());
        let (u, a) = next(t, evs.last());
        (u, acts.push(a))
    }
}

/// Whether each event of `evs` is one the session can take at its point.
pub open spec fn accepted(s: SessionModel, evs: Seq<Event>) -> bool
    decreases evs.len(),
{
    evs.len() == 0 || (accepted(s, evs.drop_last()) && expects(run(s, evs.drop_last()).0, evs.last()))
}

/// The events a session in `s` can take next.
pub open spec fn expects(s: SessionModel, ev: Event) -> bool {
    match s.phase {
        Phase::Connecting => ev is Opened || ev is OpenFailed,
        Phase::Preparing => ev is Prepared || ev is PrepareFailed,
        Phase::Running => if s.op is Fetch {
            ev is QueryStarted || ev is QueryFailed
        } else {
            ev is Executed || ev is ExecuteFailed
        },
        Phase::Reading => ev is Row || ev is RowFailed || ev is RowsDone,
        Phase::Done => false,
    }
}

/// Ends the request with `reply`; nothing read so far is kept.
pub open spec fn finish(s: SessionModel, reply: Result<ResponseModel, HandlerError>) -> (SessionModel, ActionModel) {
    (SessionModel { phase: Phase::Done, items: Seq::empty(), ..s }, ActionModel::Reply(reply))
}

/// How a session in `s` answers `ev`: its next state and the action it asks for.
pub open spec fn next(s: SessionModel, ev: Event) -> (SessionModel, ActionModel) {
    match ev {
        Event::Opened => (
            SessionModel { phase: Phase::Preparing, ..s },
            ActionModel::Prepare(statement_text(s.op)),
        ),
        Event::OpenFailed => finish(s, Err(HandlerError::Connect)),
        Event::Prepared => (
            SessionModel { phase: Phase::Running, ..s },
            match s.op {
                OperationModel::Fetch => ActionModel::Query,
                OperationModel::Insert(t) => ActionModel::Execute(ParamModel::Text(t)),
                OperationModel::Delete(k) => ActionModel::Execute(ParamModel::Integer(k)),
            },
        ),
        Event::PrepareFailed => finish(s, Err(HandlerError::Prepare)),
        Event::QueryStarted => (
            SessionModel { phase: Phase::Reading, items: Seq::empty(), ..s },
            ActionModel::NextRow,
        ),
        Event::QueryFailed => finish(s, Err(HandlerError::Fetch)),
        Event::Row(id, item) => match row_entry(id, item) {
            Some(e) => (SessionModel { items: s.items.push(e), ..s }, ActionModel::NextRow),
            None => finish(s, Err(HandlerError::Collect)),
        },
        Event::RowFailed => finish(s, Err(HandlerError::Collect)),
        Event::RowsDone => finish(s, Ok(ResponseModel::Items(s.items))),
        Event::Executed(n) => finish(
            s,
            Ok(ResponseModel::Status(
                if s.op is Insert { inserted_text(n as nat) } else { deleted_text(n as nat) },
            )),
        ),
        Event::ExecuteFailed => finish(
            s,
            Err(if s.op is Insert { HandlerError::Insert } else { HandlerError::Delete }),
        ),
    }
}

fn statement_for(op: &Operation) -> (r: String)
    ensures
        r@ == statement_text(op@),
{
    match op {
        Operation::Fetch => String::from_str("select id, item from todo_list"),
        Operation::Insert(_) => String::from_str("insert into todo_list (id, item) values (null, $1)"),
        Operation::Delete(_) => String::from_str("delete from todo_list where id = $1;"),
    }
}

impl Session {
    /// Starts a request; the caller's first action is always to open the
    /// database.
    pub fn new(op: Operation) -> (r: Session)
        ensures
            r@ == initial(op@),
    {
        let r = Session { op, phase: Phase::Connecting, items: Vec::new() };
        proof {
            assert(r@.items =~= Seq::<(i64, Seq<char>)>::empty());
        }
        r
    }

    /// Where the request stands.
    pub fn phase(&self) -> (r: Phase)
        ensures
            r == self@.phase,
    {
        self.phase
    }

    /// Whether `ev` can come next; once the reply is given nothing can.
    pub fn accepts(&self, ev: &Event) -> (r: bool)
        ensures
            r == expects(self@, *ev),
    {
        match self.phase {
            Phase::Connecting => matches!(ev, Event::Opened | Event::OpenFailed),
            Phase::Preparing => matches!(ev, Event::Prepared | Event::PrepareFailed),
            Phase::Running => match self.op {
                Operation::Fetch => matches!(ev, Event::QueryStarted | Event::QueryFailed),
                _ => matches!(ev, Event::Executed(_) | Event::ExecuteFailed),
            },
            Phase::Reading => matches!(ev, Event::Row(_, _) | Event::RowFailed | Event::RowsDone),
            Phase::Done => false,
        }
    }

    fn reply(&mut self, reply: Result<Response, HandlerError>) -> (r: Action)
        ensures
            final(self)@ == (SessionModel { phase: Phase::Done, items: Seq::empty(), ..old(self)@ }),
            r == Action::Reply(reply),
    {
        self.phase = Phase::Done;
        self.items = Vec::new();
        proof {
            assert(self@.items =~= Seq::<(i64, Seq<char>)>::empty());
        }
        Action::Reply(reply)
    }

    /// Takes the outcome of the last action and says what to do next.
    pub fn step(&mut self, ev: Event) -> (r: Action)
        requires
            expects(old(self)@, ev),
        ensures
            (final(self)@, r@) == next(old(self)@, ev),
    {
        match ev {
            Event::Opened => {
                self.phase = Phase::Preparing;
                Action::Prepare(statement_for(&self.op))
            },
            Event::OpenFailed => self.reply(Err(HandlerError::Connect)),
            Event::Prepared => {
                self.phase = Phase::Running;
                match &self.op {
                    Operation::Fetch => Action::Query,
                    Operation::Insert(t) => Action::Execute(Param::Text(t.clone())),
                    Operation::Delete(k) => Action::Execute(Param::Integer(*k)),
                }
            },
            Event::PrepareFailed => self.reply(Err(HandlerError::Prepare)),
            Event::QueryStarted => {
                self.phase = Phase::Reading;
                self.items = Vec::new();
                proof {
                    assert(self@.items =~= Seq::<(i64, Seq<char>)>::empty());
                }
                Action::NextRow
            },
            Event::QueryFailed => self.reply(Err(HandlerError::Fetch)),
            Event::Row(id, item) => match ToDoItem::from_row(id, item) {
                Some(e) => {
                    self.items.push(e);
                    proof {
                        assert(self@.items =~= old(self)@.items.push(e@));
                    }
                    Action::NextRow
                },
                None => self.reply(Err(HandlerError::Collect)),
            },
            Event::RowFailed => self.reply(Err(HandlerError::Collect)),
            Event::RowsDone => {
                let mut items: Vec<ToDoItem> = Vec::new();
                core::mem::swap(&mut items, &mut self.items);
                self.reply(Ok(Response::Items(ToDoList { items })))
            },
            Event::Executed(n) => {
                let status = match self.op {
                    Operation::Insert(_) => StatusMessage::inserted(n),
                    _ => StatusMessage::deleted(n),
                };
                self.reply(Ok(Response::Status(status)))
            },
            Event::ExecuteFailed => {
                let e = match self.op {
                    Operation::Insert(_) => HandlerError::Insert,
                    _ => HandlerError::Delete,
                };
                self.reply(Err(e))
            },
        }
    }
}

} // verus!
