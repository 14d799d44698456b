use rusqlite::Connection;
use todo_service::records::{HandlerError, ToDoItem};
use todo_service::session::{schema_statement, Action, Event, Operation, Param, Response, Session};

fn store() -> Connection {
    let db = Connection::open_in_memory().unwrap();
    db.execute(schema_statement(), rusqlite::NO_PARAMS).unwrap();
    db
}

fn serve(db: &Connection, op: Operation) -> Result<Response, HandlerError> {
    let mut session = Session::new(op);
    let mut statement = None;
    let mut event = Event::Opened;
    loop {
        assert!(session.accepts(&event));
        event = match session.step(event) {
            Action::Prepare(sql) => match db.prepare(&sql) {
                Ok(s) => {
                    statement = Some(s);
                    Event::Prepared
                }
                Err(_) => Event::PrepareFailed,
            },
            Action::Query => {
                let st = statement.as_mut().unwrap();
                match st.query(rusqlite::NO_PARAMS) {
                    Err(_) => Event::QueryFailed,
                    Ok(mut rows) => {
                        let mut ev = Event::QueryStarted;
                        loop {
                            assert!(session.accepts(&ev));
                            ev = match session.step(ev) {
                                Action::NextRow => match rows.next() {
                                    Ok(Some(row)) => Event::Row(row.get(0).ok(), row.get(1).ok()),
                                    Ok(None) => Event::RowsDone,
                                    Err(_) => Event::RowFailed,
                                },
                                Action::Reply(r) => return r,
                                _ => panic!("unexpected action while reading rows"),
                            };
                        }
                    }
                }
            }
            Action::NextRow => panic!("no rows are being read"),
            Action::Execute(p) => {
                let st = statement.as_mut().unwrap();
                let done = match p {
                    Param::Text(t) => st.execute(&[&t]),
                    Param::Integer(k) => st.execute(&[&k]),
                };
                match done {
                    Ok(n) => Event::Executed(n),
                    Err(_) => Event::ExecuteFailed,
                }
            }
            Action::Reply(r) => return r,
        };
    }
}

fn list(db: &Connection) -> Vec<ToDoItem> {
    match serve(db, Operation::Fetch) {
        Ok(Response::Items(l)) => l.items,
        _ => panic!("listing failed"),
    }
}

fn status(r: Result<Response, HandlerError>) -> String {
    match r {
        Ok(Response::Status(m)) => m.message,
        _ => panic!("expected a status message"),
    }
}

#[test]
fn schema_creation_is_idempotent() {
    let db = Connection::open_in_memory().unwrap();
    db.execute(schema_statement(), rusqlite::NO_PARAMS).unwrap();
    db.execute("insert into todo_list (item) values ('kept')", rusqlite::NO_PARAMS).unwrap();
    db.execute(schema_statement(), rusqlite::NO_PARAMS).unwrap();
    let tables: i64 = db
        .query_row("select count(*) from sqlite_master where name = 'todo_list'", rusqlite::NO_PARAMS, |r| r.get(0))
        .unwrap();
    assert_eq!(tables, 1);
    assert_eq!(list(&db).len(), 1);
}

#[test]
fn created_item_is_listed() {
    let db = store();
    let msg = status(serve(&db, Operation::Insert("buy milk".to_string())));
    assert_eq!(msg, "1 rows inserted!");
    let items = list(&db);
    assert_eq!(items.len(), 1);
    assert_eq!(items[0].item, "buy milk");
    assert!(items[0].id > 0);
}

#[test]
fn deleted_item_is_gone() {
    let db = store();
    status(serve(&db, Operation::Insert("a".to_string())));
    status(serve(&db, Operation::Insert("b".to_string())));
    let id = list(&db)[0].id;
    assert_eq!(status(serve(&db, Operation::Delete(id))), "1 rows deleted");
    let items = list(&db);
    assert_eq!(items.len(), 1);
    assert!(items.iter().all(|i| i.id != id));
}

#[test]
fn deleting_missing_id_reports_zero_rows() {
    let db = store();
    assert_eq!(status(serve(&db, Operation::Delete(42))), "0 rows deleted");
}

#[test]
fn empty_table_lists_nothing() {
    let db = store();
    assert!(list(&db).is_empty());
}

#[test]
fn each_post_gets_its_own_id() {
    let db = store();
    for i in 0..5 {
        assert_eq!(status(serve(&db, Operation::Insert(format!("task {}", i)))), "1 rows inserted!");
    }
    let items = list(&db);
    assert_eq!(items.len(), 5);
    for (i, a) in items.iter().enumerate() {
        assert_eq!(a.item, format!("task {}", i));
        for b in &items[i + 1..] {
            assert_ne!(a.id, b.id);
        }
    }
}

#[test]
fn row_of_wrong_type_cancels_listing() {
    let db = store();
    status(serve(&db, Operation::Insert("fine".to_string())));
    db.execute("insert into todo_list (id, item) values (null, x'01')", rusqlite::NO_PARAMS).unwrap();
    assert!(matches!(serve(&db, Operation::Fetch), Err(HandlerError::Collect)));
}

#[test]
fn missing_table_fails_to_prepare() {
    let db = Connection::open_in_memory().unwrap();
    assert!(matches!(serve(&db, Operation::Fetch), Err(HandlerError::Prepare)));
    assert!(matches!(serve(&db, Operation::Insert("x".to_string())), Err(HandlerError::Prepare)));
    assert!(matches!(serve(&db, Operation::Delete(1)), Err(HandlerError::Prepare)));
}
