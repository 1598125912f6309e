use pessoas::{listar_pessoas, Date, Pessoa, StoreError};
use rusqlite::Connection;

fn date(year: i32, month: u32, day: u32) -> Date {
    Date::from_ymd(year, month, day).expect("a day that exists")
}

fn ana() -> Pessoa {
    Pessoa::new("Ana".to_string(), date(1990, 5, 12), "ana@x.com".to_string())
        .expect("name and e-mail are not empty")
}

fn bia() -> Pessoa {
    Pessoa::new("Bia".to_string(), date(1985, 1, 31), "bia@x.com".to_string())
        .expect("name and e-mail are not empty")
}

fn open_store() -> Connection {
    let conn = Connection::open_in_memory().expect("an in-memory database");
    conn.execute(
        "CREATE TABLE pessoas (
            id INTEGER PRIMARY KEY AUTOINCREMENT,
            nome TEXT,
            data_nascimento TEXT,
            email TEXT
        )",
        (),
    )
    .expect("the table");
    conn
}

fn open_store_without_table() -> Connection {
    Connection::open_in_memory().expect("an in-memory database")
}

fn count_rows(conn: &Connection) -> i64 {
    conn.query_row("SELECT COUNT(*) FROM pessoas", (), |row| row.get(0)).expect("a count")
}

fn stored_date_text(conn: &Connection, id: i64) -> String {
    conn.query_row("SELECT data_nascimento FROM pessoas WHERE id=?", [id], |row| row.get(0))
        .expect("the row")
}

#[test]
fn save_gives_the_record_the_id_of_its_row() {
    let conn = open_store();
    let mut p = ana();
    assert_eq!(p.save(&conn), Ok(()));
    assert_eq!(p.id, Some(1));
    assert_eq!(p.id, Some(conn.last_insert_rowid()));
    let mut q = bia();
    assert_eq!(q.save(&conn), Ok(()));
    assert_eq!(q.id, Some(2));
    assert_eq!(q.id, Some(conn.last_insert_rowid()));
    assert_eq!(count_rows(&conn), 2);
}

#[test]
fn save_leaves_the_other_fields() {
    let conn = open_store();
    let mut p = ana();
    p.save(&conn).unwrap();
    assert_eq!(p.nome, "Ana");
    assert_eq!(p.data_nascimento, date(1990, 5, 12));
    assert_eq!(p.email, "ana@x.com");
}

#[test]
fn save_stores_the_date_as_iso_text() {
    let conn = open_store();
    let mut p = ana();
    p.save(&conn).unwrap();
    assert_eq!(stored_date_text(&conn, 1), "1990-05-12");
    let mut old = Pessoa::new("Augusto".to_string(), date(-62, 9, 23), "a@x.com".to_string())
        .unwrap();
    old.save(&conn).unwrap();
    assert_eq!(stored_date_text(&conn, 2), "-0062-09-23");
}

#[test]
fn save_of_a_saved_record_keeps_its_id_and_inserts_nothing() {
    let conn = open_store();
    let mut p = ana();
    p.save(&conn).unwrap();
    let mut q = bia();
    q.save(&conn).unwrap();
    assert_eq!(p.save(&conn), Ok(()));
    assert_eq!(p.id, Some(1));
    assert_eq!(count_rows(&conn), 2);
    assert_eq!(listar_pessoas(&conn).unwrap(), vec![p, q]);
}

#[test]
fn save_of_a_record_with_an_id_does_not_ask_the_store() {
    let conn = open_store_without_table();
    let mut p = ana();
    p.id = Some(5);
    assert_eq!(p.save(&conn), Ok(()));
    assert_eq!(p.id, Some(5));
}

#[test]
fn save_hands_the_database_error_on_and_leaves_the_record() {
    let conn = open_store_without_table();
    let mut p = ana();
    let res = p.save(&conn);
    assert!(matches!(res, Err(StoreError::Database(rusqlite::Error::SqliteFailure(_, _)))));
    assert_eq!(p, ana());
}

#[test]
fn save_takes_a_row_id_beyond_32_bits_whole() {
    let conn = open_store();
    conn.execute(
        "INSERT INTO pessoas (id, nome, data_nascimento, email)
            VALUES (2147483647, 'x', '2000-01-01', 'x')",
        (),
    )
    .unwrap();
    let mut p = ana();
    p.save(&conn).unwrap();
    assert_eq!(conn.last_insert_rowid(), 2147483648);
    assert_eq!(p.id, Some(2147483648));
    p.nome = "Ana Silva".to_string();
    p.atualizar(&conn).unwrap();
    let rows = listar_pessoas(&conn).unwrap();
    assert_eq!(rows.len(), 2);
    assert_eq!(rows[0].id, Some(2147483647));
    assert_eq!(rows[0].nome, "x");
    assert_eq!(rows[1], p);
    p.remover(&conn).unwrap();
    let rows = listar_pessoas(&conn).unwrap();
    assert_eq!(rows.len(), 1);
    assert_eq!(rows[0].id, Some(2147483647));
}

#[test]
fn save_takes_the_largest_row_id() {
    let conn = open_store();
    conn.execute(
        "INSERT INTO pessoas (id, nome, data_nascimento, email)
            VALUES (9223372036854775806, 'x', '2000-01-01', 'x')",
        (),
    )
    .unwrap();
    let mut p = ana();
    p.save(&conn).unwrap();
    assert_eq!(p.id, Some(i64::MAX));
    assert_eq!(listar_pessoas(&conn).unwrap()[1], p);
}

#[test]
fn atualizar_without_an_id_is_not_persisted() {
    let conn = open_store();
    let mut saved = bia();
    saved.save(&conn).unwrap();
    assert_eq!(ana().atualizar(&conn), Err(StoreError::NotPersisted));
    let rows = listar_pessoas(&conn).unwrap();
    assert_eq!(rows, vec![saved]);
}

#[test]
fn atualizar_without_an_id_does_not_ask_the_store() {
    let conn = open_store_without_table();
    assert_eq!(ana().atualizar(&conn), Err(StoreError::NotPersisted));
}

#[test]
fn remover_without_an_id_is_not_persisted() {
    let conn = open_store();
    let mut saved = bia();
    saved.save(&conn).unwrap();
    assert_eq!(ana().remover(&conn), Err(StoreError::NotPersisted));
    assert_eq!(count_rows(&conn), 1);
}

#[test]
fn remover_without_an_id_does_not_ask_the_store() {
    let conn = open_store_without_table();
    assert_eq!(ana().remover(&conn), Err(StoreError::NotPersisted));
}

#[test]
fn round_trip_of_one_record() {
    let conn = open_store();
    let mut p = Pessoa::new("Ana".to_string(), date(1990, 5, 12), "ana@x.com".to_string())
        .unwrap();
    p.save(&conn).unwrap();
    let rows = listar_pessoas(&conn).unwrap();
    assert_eq!(rows.len(), 1);
    assert_eq!(rows[0].id, p.id);
    assert_eq!(rows[0].nome, "Ana");
    assert_eq!(rows[0].data_nascimento, date(1990, 5, 12));
    assert_eq!(rows[0].data_nascimento.year(), 1990);
    assert_eq!(rows[0].data_nascimento.month(), 5);
    assert_eq!(rows[0].data_nascimento.day(), 12);
    assert_eq!(rows[0].email, "ana@x.com");
}

#[test]
fn atualizar_changes_the_row_under_the_same_id() {
    let conn = open_store();
    let mut p = ana();
    p.save(&conn).unwrap();
    let id = p.id;
    p.nome = "Ana Silva".to_string();
    assert_eq!(p.atualizar(&conn), Ok(()));
    assert_eq!(p.id, id);
    let rows = listar_pessoas(&conn).unwrap();
    assert_eq!(rows.len(), 1);
    assert_eq!(rows[0].id, id);
    assert_eq!(rows[0].nome, "Ana Silva");
    assert_eq!(rows[0].data_nascimento, date(1990, 5, 12));
    assert_eq!(rows[0].email, "ana@x.com");
}

#[test]
fn atualizar_overwrites_every_field() {
    let conn = open_store();
    let mut p = ana();
    p.save(&conn).unwrap();
    p.nome = "Ana Silva".to_string();
    p.data_nascimento = date(1991, 6, 13);
    p.email = "silva@x.com".to_string();
    p.atualizar(&conn).unwrap();
    assert_eq!(listar_pessoas(&conn).unwrap(), vec![p]);
}

#[test]
fn atualizar_touches_only_the_row_of_the_record() {
    let conn = open_store();
    let mut p = ana();
    let mut q = bia();
    p.save(&conn).unwrap();
    q.save(&conn).unwrap();
    q.email = "bia@y.com".to_string();
    q.atualizar(&conn).unwrap();
    assert_eq!(listar_pessoas(&conn).unwrap(), vec![p, q]);
}

#[test]
fn atualizar_of_a_row_that_is_gone_succeeds_and_changes_nothing() {
    let conn = open_store();
    let mut p = ana();
    p.save(&conn).unwrap();
    let mut missing = bia();
    missing.id = Some(99);
    assert_eq!(missing.atualizar(&conn), Ok(()));
    assert_eq!(listar_pessoas(&conn).unwrap(), vec![p]);
}

#[test]
fn atualizar_hands_the_database_error_on() {
    let conn = open_store_without_table();
    let mut p = ana();
    p.id = Some(1);
    let res = p.atualizar(&conn);
    assert!(matches!(res, Err(StoreError::Database(rusqlite::Error::SqliteFailure(_, _)))));
}

#[test]
fn remover_takes_the_row_out() {
    let conn = open_store();
    let mut p = ana();
    let mut q = bia();
    p.save(&conn).unwrap();
    q.save(&conn).unwrap();
    let id = p.id;
    assert_eq!(p.remover(&conn), Ok(()));
    let rows = listar_pessoas(&conn).unwrap();
    assert!(rows.iter().all(|row| row.id != id));
    assert_eq!(rows, vec![q]);
}

#[test]
fn remover_of_a_row_that_is_gone_succeeds() {
    let conn = open_store();
    let mut p = ana();
    p.id = Some(5);
    assert_eq!(p.remover(&conn), Ok(()));
    assert_eq!(count_rows(&conn), 0);
}

#[test]
fn remover_hands_the_database_error_on() {
    let conn = open_store_without_table();
    let mut p = ana();
    p.id = Some(1);
    let res = p.remover(&conn);
    assert!(matches!(res, Err(StoreError::Database(rusqlite::Error::SqliteFailure(_, _)))));
}

#[test]
fn listar_pessoas_of_an_empty_table_is_empty() {
    let conn = open_store();
    assert_eq!(listar_pessoas(&conn), Ok(Vec::new()));
}

#[test]
fn listar_pessoas_gives_every_row() {
    let conn = open_store();
    let mut p = ana();
    let mut q = bia();
    p.save(&conn).unwrap();
    q.save(&conn).unwrap();
    assert_eq!(listar_pessoas(&conn).unwrap(), vec![p, q]);
}

#[test]
fn listar_pessoas_takes_rows_with_empty_texts() {
    let conn = open_store();
    conn.execute(
        "INSERT INTO pessoas (nome, data_nascimento, email) VALUES ('', '2000-02-29', '')",
        (),
    )
    .unwrap();
    let rows = listar_pessoas(&conn).unwrap();
    assert_eq!(rows.len(), 1);
    assert_eq!(rows[0].id, Some(1));
    assert_eq!(rows[0].nome, "");
    assert_eq!(rows[0].data_nascimento, date(2000, 2, 29));
    assert_eq!(rows[0].email, "");
}

#[test]
fn listar_pessoas_fails_on_a_corrupt_date() {
    let conn = open_store();
    let mut p = ana();
    p.save(&conn).unwrap();
    conn.execute(
        "INSERT INTO pessoas (nome, data_nascimento, email) VALUES ('Bia', '31/01/1985', 'bia@x.com')",
        (),
    )
    .unwrap();
    assert_eq!(listar_pessoas(&conn), Err(StoreError::CorruptDate));
}

#[test]
fn listar_pessoas_fails_on_a_day_that_does_not_exist() {
    let conn = open_store();
    conn.execute(
        "INSERT INTO pessoas (nome, data_nascimento, email) VALUES ('Bia', '1985-02-30', 'bia@x.com')",
        (),
    )
    .unwrap();
    assert_eq!(listar_pessoas(&conn), Err(StoreError::CorruptDate));
}

#[test]
fn listar_pessoas_hands_the_database_error_on() {
    let conn = open_store_without_table();
    let res = listar_pessoas(&conn);
    assert!(matches!(res, Err(StoreError::Database(rusqlite::Error::SqliteFailure(_, _)))));
}

#[test]
fn listar_pessoas_fails_on_a_date_with_a_one_digit_month() {
    let conn = open_store();
    conn.execute(
        "INSERT INTO pessoas (id, nome, data_nascimento, email)
            VALUES (1, 'Ana', '1990-5-12', 'ana@x.com')",
        (),
    )
    .unwrap();
    assert_eq!(listar_pessoas(&conn), Err(StoreError::CorruptDate));
}

#[test]
fn listar_pessoas_fails_on_a_date_with_blanks() {
    let conn = open_store();
    conn.execute(
        "INSERT INTO pessoas (nome, data_nascimento, email) VALUES ('Ana', ' 1990-05-12', 'a')",
        (),
    )
    .unwrap();
    assert_eq!(listar_pessoas(&conn), Err(StoreError::CorruptDate));
}

#[test]
fn listar_pessoas_takes_ids_of_64_bits() {
    let conn = open_store();
    conn.execute(
        "INSERT INTO pessoas (id, nome, data_nascimento, email) VALUES
            (-9223372036854775808, 'low', '2000-01-01', 'l'),
            (2147483648, 'mid', '2000-01-02', 'm'),
            (9223372036854775807, 'high', '2000-01-03', 'h')",
        (),
    )
    .unwrap();
    let rows = listar_pessoas(&conn).unwrap();
    assert_eq!(rows.len(), 3);
    assert_eq!(rows[0].id, Some(i64::MIN));
    assert_eq!(rows[1].id, Some(2147483648));
    assert_eq!(rows[2].id, Some(i64::MAX));
    assert_eq!(rows[2].nome, "high");
}

#[test]
fn listar_pessoas_fails_on_a_column_that_cannot_be_read() {
    let conn = open_store();
    conn.execute(
        "INSERT INTO pessoas (nome, data_nascimento, email) VALUES (NULL, '2000-01-01', 'x')",
        (),
    )
    .unwrap();
    let res = listar_pessoas(&conn);
    assert!(matches!(
        res,
        Err(StoreError::Database(rusqlite::Error::InvalidColumnType(1, _, _)))
    ));
}

#[test]
fn listar_pessoas_fails_with_the_first_row_that_fails() {
    let conn = open_store();
    conn.execute(
        "INSERT INTO pessoas (id, nome, data_nascimento, email) VALUES
            (1, 'Ana', 'not a date', 'ana@x.com'),
            (2, NULL, '2000-01-01', 'x')",
        (),
    )
    .unwrap();
    assert_eq!(listar_pessoas(&conn), Err(StoreError::CorruptDate));
    conn.execute(
        "INSERT INTO pessoas (id, nome, data_nascimento, email) VALUES
            (-1, NULL, '2000-01-01', 'y')",
        (),
    )
    .unwrap();
    let res = listar_pessoas(&conn);
    assert!(matches!(
        res,
        Err(StoreError::Database(rusqlite::Error::InvalidColumnType(1, _, _)))
    ));
}

#[test]
fn texts_are_bound_not_spliced_into_the_sql() {
    let conn = open_store();
    let mut p = Pessoa::new(
        "Robert'); DROP TABLE pessoas;--".to_string(),
        date(2007, 10, 10),
        "a'b\"c?d".to_string(),
    )
    .unwrap();
    p.save(&conn).unwrap();
    assert_eq!(listar_pessoas(&conn).unwrap(), vec![p]);
}
