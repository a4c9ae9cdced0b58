use r2d2_sqlite::rusqlite::types::Value;
use r2d2_sqlite::rusqlite::{params_from_iter, Connection};
use sqlite_web_viewer::batch::{Batch, BatchError, Event, StatementErrorKind, StatementFailure, Step};
use sqlite_web_viewer::executor::{read_result, write_result};
use sqlite_web_viewer::{CellValue, QueryResult, QueryResults};

fn fail(kind: StatementErrorKind, e: r2d2_sqlite::rusqlite::Error) -> StatementFailure {
    StatementFailure { kind, message: e.to_string() }
}

fn run_one(conn: &Connection, sql: &str, params: &[&str]) -> Result<QueryResult, StatementFailure> {
    let mut stmt = conn.prepare(sql).map_err(|e| fail(StatementErrorKind::Preparation, e))?;
    let names: Vec<String> = stmt.column_names().into_iter().map(String::from).collect();
    if stmt.readonly() {
        let width = names.len();
        let mut rows = stmt
            .query(params_from_iter(params.iter()))
            .map_err(|e| fail(StatementErrorKind::ParameterBinding, e))?;
        let mut out = Vec::new();
        while let Some(row) = rows.next().map_err(|e| fail(StatementErrorKind::Execution, e))? {
            let mut cells = Vec::with_capacity(width);
            for c in 0..width {
                let v: Value = row.get(c).map_err(|e| fail(StatementErrorKind::Execution, e))?;
                cells.push(match v {
                    Value::Null => CellValue::Null,
                    Value::Integer(i) => CellValue::Integer(i),
                    Value::Real(f) => CellValue::Float(f.to_bits()),
                    Value::Text(s) => CellValue::String(s),
                    Value::Blob(b) => CellValue::Blob(b),
                });
            }
            out.push(cells);
        }
        Ok(read_result(names, out))
    } else {
        let n = stmt
            .execute(params_from_iter(params.iter()))
            .map_err(|e| fail(StatementErrorKind::Execution, e))?;
        Ok(write_result(names, n))
    }
}

fn run(conn: &Connection, txn: bool, stmts: &[(&str, &[&str])]) -> Result<QueryResults, BatchError> {
    let mut batch = Batch::new(txn, stmts.len());
    loop {
        let ev = match batch.next_step() {
            Step::Begin => Event::Begun(conn.execute_batch("BEGIN").map_err(|e| e.to_string())),
            Step::Run(i) => Event::Ran(run_one(conn, stmts[i].0, stmts[i].1)),
            Step::Commit => Event::Committed(conn.execute_batch("COMMIT").map_err(|e| e.to_string())),
            Step::Rollback => Event::RolledBack(conn.execute_batch("ROLLBACK").map_err(|e| e.to_string())),
            Step::Done => break,
        };
        batch.on_event(ev);
    }
    batch.finish(0)
}

fn store() -> Connection {
    let conn = Connection::open_in_memory().unwrap();
    conn.execute_batch("CREATE TABLE t (id INTEGER PRIMARY KEY, name TEXT)").unwrap();
    conn
}

fn count(conn: &Connection) -> i64 {
    conn.query_row("SELECT COUNT(*) FROM t", [], |r| r.get(0)).unwrap()
}

#[test]
fn select_constant_gives_one_row() {
    let conn = store();
    let r = run(&conn, false, &[("SELECT 1 AS x", &[])]).ok().unwrap();
    assert_eq!(r.results.len(), 1);
    let q = &r.results[0];
    assert_eq!(q.num_affected, 0);
    assert_eq!(q.columns.len(), 1);
    assert_eq!(q.columns[0].name, "x");
    assert_eq!(q.rows.len(), 1);
    assert!(matches!(q.rows[0].as_slice(), [CellValue::Integer(1)]));
}

#[test]
fn insert_then_count_in_one_transaction() {
    let conn = store();
    let r = run(
        &conn,
        true,
        &[("INSERT INTO t (name) VALUES (?1)", &["a"]), ("SELECT COUNT(*) AS n FROM t", &[])],
    )
    .ok()
    .unwrap();
    assert_eq!(r.results[0].num_affected, 1);
    assert!(r.results[0].rows.is_empty());
    assert!(matches!(r.results[1].rows[0].as_slice(), [CellValue::Integer(1)]));
    assert_eq!(count(&conn), 1);
}

#[test]
fn invalid_statement_rolls_back_transaction() {
    let conn = store();
    let r = run(&conn, true, &[("INSERT INTO t (name) VALUES ('a')", &[]), ("SELEKT nonsense", &[])]);
    assert!(matches!(r, Err(BatchError::Statement { index: 1, kind: StatementErrorKind::Preparation, .. })));
    assert_eq!(count(&conn), 0);
}

#[test]
fn invalid_statement_keeps_earlier_autocommit_writes() {
    let conn = store();
    let r = run(&conn, false, &[("INSERT INTO t (name) VALUES ('a')", &[]), ("SELEKT nonsense", &[])]);
    assert!(matches!(r, Err(BatchError::Statement { index: 1, .. })));
    assert_eq!(count(&conn), 1);
}

#[test]
fn read_returns_rows_in_engine_order() {
    let conn = store();
    conn.execute_batch("INSERT INTO t (name) VALUES ('b'), ('a'), (NULL)").unwrap();
    let r = run(&conn, false, &[("SELECT id, name FROM t ORDER BY id", &[])]).ok().unwrap();
    let q = &r.results[0];
    assert_eq!(q.num_affected, 0);
    assert_eq!(q.rows.len(), 3);
    assert!(matches!(&q.rows[0][1], CellValue::String(s) if s == "b"));
    assert!(matches!(&q.rows[2][1], CellValue::Null));
    assert_eq!(q.columns[1].mime_type.as_deref(), Some("text/plain"));
}

#[test]
fn update_reports_affected_rows() {
    let conn = store();
    conn.execute_batch("INSERT INTO t (name) VALUES ('a'), ('b'), ('c')").unwrap();
    let r = run(&conn, false, &[("UPDATE t SET name = ?1 WHERE id > 1", &["z"])]).ok().unwrap();
    assert_eq!(r.results[0].num_affected, 2);
    assert!(r.results[0].rows.is_empty());
}

#[test]
fn pragma_without_output_is_well_formed() {
    let conn = store();
    let r = run(&conn, false, &[("PRAGMA foreign_keys = ON", &[])]).ok().unwrap();
    assert!(r.results[0].rows.is_empty());
}
