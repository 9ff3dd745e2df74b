use toml_vtab::cursor::TomlCursor;
use toml_vtab::loader::{LoadError, SourceFile};
use toml_vtab::table::{parse_arguments, parse_path, ConfigError, ScanPlan, TomlArguments, TomlTable, SCHEMA};

fn opt(k: &str, v: &str) -> (String, String) {
    (k.to_string(), v.to_string())
}

#[test]
fn missing_root_is_refused() {
    assert_eq!(parse_arguments(&Vec::new()), Err(ConfigError::MissingRoot));
}

#[test]
fn unknown_option_is_refused() {
    let options = vec![opt("root", "d"), opt("depth", "3")];
    assert_eq!(
        parse_arguments(&options),
        Err(ConfigError::UnknownOption { key: "depth".to_string() })
    );
}

#[test]
fn second_root_is_refused() {
    let options = vec![opt("root", "a"), opt("root", "b")];
    assert_eq!(parse_arguments(&options), Err(ConfigError::DuplicateRoot));
    assert_eq!(
        parse_arguments(&vec![opt("root", "a")]),
        Ok(TomlArguments { root: "a".to_string() })
    );
}

#[test]
fn nonexistent_root_is_invalid() {
    let args = parse_arguments(&vec![opt("root", "no/such/dir")]).unwrap();
    assert_eq!(
        TomlTable::connect(args, false),
        Err(ConfigError::InvalidRoot { value: "no/such/dir".to_string() })
    );
    assert_eq!(parse_path(&"x".to_string(), true), Ok("x".to_string()));
}

#[test]
fn declared_table_has_two_text_columns() {
    let args = parse_arguments(&vec![opt("root", "data")]).unwrap();
    let (schema, table) = TomlTable::connect(args, true).unwrap();
    assert_eq!(schema, SCHEMA);
    assert!(schema.contains("\"filename\" TEXT") && schema.contains("\"value\" TEXT"));
    assert!(schema.find("filename").unwrap() < schema.find("value").unwrap());
    assert_eq!(table.root, "data");
    assert_eq!(table.best_index(), ScanPlan { estimated_rows: 10000, idx_num: 1 });
}

#[test]
fn open_scans_every_file() {
    let table = TomlTable { root: "data".to_string() };
    let files = vec![
        SourceFile { path: "data/a".to_string(), bytes: b"name = \"x\"".to_vec() },
        SourceFile { path: "data/b".to_string(), bytes: b"name = \"y\"".to_vec() },
    ];
    let mut c: TomlCursor = table.open(&files).unwrap();
    let mut n = 0;
    while !c.eof() {
        n += 1;
        c.next();
    }
    assert_eq!(n, 2);
}

#[test]
fn open_fails_without_cursor_on_bad_syntax() {
    let table = TomlTable { root: "data".to_string() };
    let files = vec![
        SourceFile { path: "data/a".to_string(), bytes: b"name = \"x\"".to_vec() },
        SourceFile { path: "data/b".to_string(), bytes: b"= oops".to_vec() },
    ];
    assert!(matches!(table.open(&files), Err(LoadError::Parse { path, .. }) if path == "data/b"));
}

#[test]
fn open_rows_are_the_loaded_records() {
    let table = TomlTable { root: "data".to_string() };
    let files = vec![
        SourceFile { path: "data/a".to_string(), bytes: b"k = [1, 2]".to_vec() },
        SourceFile { path: "data/b".to_string(), bytes: b"k = true".to_vec() },
    ];
    let records = toml_vtab::loader::read_data(&files).unwrap();
    let mut c = table.open(&files).unwrap();
    for r in &records {
        assert!(!c.eof());
        assert_eq!(c.column(0), Ok(Some(r.path.clone())));
        assert_eq!(c.column(1), Ok(Some(r.value.clone())));
        c.next();
    }
    assert!(c.eof());
    assert_eq!(records[0].value, "{\"k\":[1,2]}");
}
