//! The table a host binds to: its configuration, its fixed schema, and the
//! scans it opens.

use crate::cursor::{opened, TomlCursor};
use crate::loader::{file_loads, first_failure, load_error_of, read_data, record_of, LoadError, SourceFile};
use vstd::prelude::*;

verus! {

/// The table's schema: two text columns, the file's path and its value.
pub const SCHEMA: &'static str = "CREATE TABLE x(\"filename\" TEXT, \"value\" TEXT)";

/// The one option a table takes: the directory to read.
pub const ROOT_KEY: &'static str = "root";

/// Why a table could not be declared.
#[derive(Debug, PartialEq, Eq)]
pub enum ConfigError {
    /// No `root` option was given.
    MissingRoot,
    /// The `root` option names no existing directory.
    InvalidRoot { value: String },
    /// The `root` option was given more than once.
    DuplicateRoot,
    /// An option other than `root` was given.
    UnknownOption { key: String },
}

/// The options of a table, once checked.
#[derive(Debug, PartialEq, Eq)]
pub struct TomlArguments {
    pub root: String,
}

/// Advice to the host's planner: every scan reads the whole directory.
#[derive(Debug, Clone, Copy, PartialEq, Eq, Structural)]
pub struct ScanPlan {
    pub estimated_rows: i64,
    pub idx_num: i32,
}

/// A table over the TOML files under one directory.
#[derive(Debug, PartialEq, Eq)]
pub struct TomlTable {
    pub root: String,
}

/// The key of the root option.
pub open spec fn is_root_key(key: Seq<char>) -> bool {
    key == ROOT_KEY@
}

/// Option `i` is the first whose key is not `root`.
pub open spec fn first_unknown(options: Seq<(String, String)>, i: int) -> bool {
    &&& 0 <= i < options.len()
    &&& !is_root_key(options[i].0@)
    &&& forall|j: int| 0 <= j < i ==> is_root_key(#[trigger] options[j].0@)
}

/// Every option given is a root option.
pub open spec fn all_root(options: Seq<(String, String)>) -> bool {
    forall|j: int| 0 <= j < options.len() ==> is_root_key(#[trigger] options[j].0@)
}

/// Checks the table's options, given as key-value pairs: exactly one `root`
/// is required and no other key is known.
pub fn parse_arguments(options: &Vec<(String, String)>) -> (r: Result<TomlArguments, ConfigError>)
    ensures
        forall|i: int|
            first_unknown(options@, i) ==> (r matches Err(ConfigError::UnknownOption { key })
                && key@ == options@[i].0@),
        all_root(options@) && options@.len() == 0 ==> r == Err::<TomlArguments, ConfigError>(
            ConfigError::MissingRoot,
        ),
        all_root(options@) && options@.len() == 1 ==> (r matches Ok(args) && args.root@
            == options@[0].1@),
        all_root(options@) && options@.len() > 1 ==> r == Err::<TomlArguments, ConfigError>(
            ConfigError::DuplicateRoot,
        ),
{
    let root_key = ROOT_KEY.to_owned();
    let mut root: Option<String> = None;
    let mut i: usize = 0;
    while i < options.len()
        invariant
            root_key@ == ROOT_KEY@,
            i <= options@.len(),
            forall|j: int| 0 <= j < i ==> is_root_key(#[trigger] options@[j].0@),
            i == 0 <==> root is None,
            root matches Some(v) ==> v@ == options@[0].1@,
        decreases options@.len() - i,
    {
        let option = &options[i];
        if !option.0.eq(&root_key) {
            assert(first_unknown(options@, i as int));
            return Err(ConfigError::UnknownOption { key: option.0.clone() });
        }
        if root.is_none() {
            root = Some(option.1.clone());
        }
        i = i + 1;
    }
    if options.len() > 1 {
        return Err(ConfigError::DuplicateRoot);
    }
    match root {
        Some(root) => Ok(TomlArguments { root }),
        None => Err(ConfigError::MissingRoot),
    }
}

/// Accepts `value` as the root where it names an existing directory.
pub fn parse_path(value: &String, is_dir: bool) -> (r: Result<String, ConfigError>)
    ensures
        is_dir ==> (r matches Ok(p) && p@ == value@),
        !is_dir ==> (r matches Err(ConfigError::InvalidRoot { value: v }) && v@ == value@),
{
    if is_dir {
        Ok(value.clone())
    } else {
        Err(ConfigError::InvalidRoot { value: value.clone() })
    }
}

impl TomlTable {
    /// Declares a table over the checked options; `root_is_dir` tells whether
    /// the root names an existing directory now. Gives the schema and the table.
    pub fn connect(arguments: TomlArguments, root_is_dir: bool) -> (r: Result<
        (String, TomlTable),
        ConfigError,
    >)
        ensures
            root_is_dir ==> (r matches Ok((schema, table)) && schema@ == SCHEMA@ && table.root@
                == arguments.root@),
            !root_is_dir ==> (r matches Err(ConfigError::InvalidRoot { value }) && value@
                == arguments.root@),
    {
        match parse_path(&arguments.root, root_is_dir) {
            Ok(root) => Ok((SCHEMA.to_owned(), TomlTable { root })),
            Err(e) => Err(e),
        }
    }

    /// Scans are always full and unindexed: a large constant row estimate.
    pub fn best_index(&self) -> (plan: ScanPlan)
        ensures
            plan == (ScanPlan { estimated_rows: 10000, idx_num: 1 }),
    {
        ScanPlan { estimated_rows: 10000, idx_num: 1 }
    }

    /// Opens a scan over the files read from under the root: loads them all,
    /// or fails on the first that does not load, with no cursor.
    pub fn open(&self, files: &Vec<SourceFile>) -> (r: Result<TomlCursor, LoadError>)
        requires
            files@.len() <= i64::MAX,
        ensures
            r is Ok <==> forall|i: int| 0 <= i < files@.len() ==> file_loads(#[trigger] files@[i]),
            r matches Ok(c) ==> c.wf() && c@ == opened(files@.len()) && c.rows().len()
                == files@.len() && forall|i: int|
                0 <= i < files@.len() ==> record_of(#[trigger] files@[i], c.rows()[i]),
            r matches Err(e) ==> exists|i: int|
                first_failure(files@, i) && load_error_of(#[trigger] files@[i], e),
    {
        match read_data(files) {
            Ok(records) => Ok(TomlCursor::new(records)),
            Err(e) => Err(e),
        }
    }
}

} // verus!
