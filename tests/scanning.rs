use toml_vtab::cursor::{ColumnError, TomlCursor};
use toml_vtab::loader::Record;

fn records(n: usize) -> Vec<Record> {
    (0..n)
        .map(|i| Record { path: format!("f{}", i), value: format!("{{\"i\":{}}}", i) })
        .collect()
}

#[test]
fn n_records_end_after_n_steps() {
    for n in 0..5usize {
        let mut c = TomlCursor::new(records(n));
        let mut steps = 0usize;
        while !c.eof() {
            c.next();
            steps += 1;
        }
        assert_eq!(steps, n);
    }
}

#[test]
fn row_ids_run_from_one_without_gaps() {
    let mut c = TomlCursor::new(records(3));
    let mut ids = Vec::new();
    while !c.eof() {
        ids.push(c.rowid());
        c.next();
    }
    assert_eq!(ids, vec![1, 2, 3]);
    assert_eq!(ids.iter().sum::<i64>(), 6);
}

#[test]
fn columns_zero_and_one_only() {
    let c = TomlCursor::new(records(2));
    assert_eq!(c.column(0), Ok(Some("f0".to_string())));
    assert_eq!(c.column(1), Ok(Some("{\"i\":0}".to_string())));
    assert_eq!(c.column(2), Err(ColumnError::OutOfRange { index: 2 }));
    assert_eq!(c.column(-1), Err(ColumnError::OutOfRange { index: -1 }));
}

#[test]
fn reading_at_the_end_gives_null() {
    let mut c = TomlCursor::new(records(1));
    c.next();
    assert!(c.eof());
    assert_eq!(c.column(0), Ok(None));
    let e = TomlCursor::new(Vec::new());
    assert!(e.eof());
    assert_eq!(e.column(1), Ok(None));
}

#[test]
fn advancing_at_the_end_is_a_no_op() {
    let mut c = TomlCursor::new(records(2));
    c.next();
    c.next();
    assert!(c.eof());
    let id = c.rowid();
    c.next();
    assert!(c.eof());
    assert_eq!(c.rowid(), id);
}

#[test]
fn reset_returns_to_row_one() {
    let mut c = TomlCursor::new(records(3));
    c.next();
    c.next();
    c.next();
    assert!(c.eof());
    c.filter();
    assert!(!c.eof());
    assert_eq!(c.rowid(), 1);
    assert_eq!(c.column(0), Ok(Some("f0".to_string())));
}
