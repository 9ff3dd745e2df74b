//! Forward-only iteration over the records of one scan.

use crate::loader::Record;
use vstd::prelude::*;

verus! {

/// The state of a cursor: how many records it holds, the 1-based row it is
/// on, and whether it has run past the last one.
pub struct CursorView {
    pub len: nat,
    pub row: int,
    pub eof: bool,
}

/// The state right after a scan opens: on row 1, or at the end at once when
/// there is no record.
pub open spec fn opened(len: nat) -> CursorView {
    if len == 0 {
        CursorView { len, row: 0, eof: true }
    } else {
        CursorView { len, row: 1, eof: false }
    }
}

/// One step forward: past the last row the cursor is at its end, and stays there.
pub open spec fn advanced(c: CursorView) -> CursorView {
    if c.row == c.len {
        CursorView { eof: true, ..c }
    } else {
        CursorView { row: c.row + 1, ..c }
    }
}

/// `k` steps forward.
pub open spec fn advanced_times(c: CursorView, k: nat) -> CursorView
    decreases k,
{
    if k == 0 {
        c
    } else {
        advanced(advanced_times(c, (k - 1) as nat))
    }
}

/// A scan over `len` records reaches its end on exactly the `len`-th step
/// forward and stays there; before that, the row identity after `k` steps is
/// `k + 1`, so the identities run 1, 2, 3, ... with no gap.
pub proof fn lemma_scan_rows(len: nat, k: nat)
    ensures
        advanced_times(opened(len), k).len == len,
        advanced_times(opened(len), k).eof <==> k >= len,
        k < len ==> advanced_times(opened(len), k).row == k + 1,
        k >= len ==> advanced_times(opened(len), k).row == len,
    decreases k,
{
    if k > 0 {
        lemma_scan_rows(len, (k - 1) as nat);
    }
}

/// A cursor is on a record: not at its end, and its row within the records.
pub open spec fn positioned(c: CursorView) -> bool {
    !c.eof && 1 <= c.row <= c.len
}

/// Column indexes other than 0 (the path) and 1 (the value) are refused.
#[derive(Debug, Clone, Copy, PartialEq, Eq, Structural)]
pub enum ColumnError {
    OutOfRange { index: i32 },
}

/// A scan over records that the cursor owns alone.
pub struct TomlCursor {
    records: Vec<Record>,
    /// The current 1-based row, which is also the row's identity.
    rowid: i64,
    eof: bool,
}

impl View for TomlCursor {
    type V = CursorView;

    closed spec fn view(&self) -> CursorView {
        CursorView { len: self.records@.len(), row: self.rowid as int, eof: self.eof }
    }
}

impl TomlCursor {
    /// The records, in scan order.
    pub closed spec fn rows(&self) -> Seq<Record> {
        self.records@
    }

    /// The row stays within the records; the cursor is on a row unless at its
    /// end, and at its end it rests on the last row.
    pub closed spec fn wf(&self) -> bool {
        &&& self.records@.len() <= i64::MAX
        &&& 0 <= self.rowid <= self.records@.len()
        &&& self.eof || 1 <= self.rowid
        &&& self.eof ==> self.rowid == self.records@.len()
    }

    /// The state's record count is the number of rows.
    pub proof fn lemma_len(&self)
        ensures
            self@.len == self.rows().len(),
    {
    }

    /// Opens a scan over `records`.
    pub fn new(records: Vec<Record>) -> (c: TomlCursor)
        requires
            records@.len() <= i64::MAX,
        ensures
            c.wf(),
            c@ == opened(records@.len()),
            c.rows() == records@,
    {
        let empty = records.len() == 0;
        TomlCursor { records, rowid: if empty { 0 } else { 1 }, eof: empty }
    }

    /// Starts the scan again from row 1 of the same records.
    pub fn filter(&mut self)
        requires
            old(self).wf(),
        ensures
            final(self).wf(),
            final(self)@ == opened(old(self)@.len),
            final(self).rows() == old(self).rows(),
    {
        let empty = self.records.len() == 0;
        self.rowid = if empty { 0 } else { 1 };
        self.eof = empty;
    }

    /// Moves to the next row, or to the end after the last one.
    pub fn next(&mut self)
        requires
            old(self).wf(),
        ensures
            final(self).wf(),
            final(self)@ == advanced(old(self)@),
            final(self).rows() == old(self).rows(),
    {
        if self.rowid as usize == self.records.len() {
            self.eof = true;
        } else {
            self.rowid = self.rowid + 1;
        }
    }

    /// Whether the scan has run past its last row.
    pub fn eof(&self) -> (r: bool)
        ensures
            r == self@.eof,
    {
        self.eof
    }

    /// Column 0 is the current record's path, column 1 its JSON text; `None`
    /// when the cursor is on no record.
    pub fn column(&self, index: i32) -> (r: Result<Option<String>, ColumnError>)
        requires
            self.wf(),
        ensures
            index != 0 && index != 1 ==> r == Err::<Option<String>, ColumnError>(
                ColumnError::OutOfRange { index },
            ),
            (index == 0 || index == 1) && !positioned(self@) ==> r matches Ok(None),
            index == 0 && positioned(self@) ==> (r matches Ok(Some(s)) && s@ == self.rows()[self@.row
                - 1].path@),
            index == 1 && positioned(self@) ==> (r matches Ok(Some(s)) && s@ == self.rows()[self@.row
                - 1].value@),
    {
        if index != 0 && index != 1 {
            return Err(ColumnError::OutOfRange { index });
        }
        if self.eof || self.rowid < 1 {
            return Ok(None);
        }
        let len: usize = self.records.len();
        let at: usize = (self.rowid - 1) as usize;
        assert(at < len);
        let record = &self.records[at];
        if index == 0 {
            Ok(Some(record.path.clone()))
        } else {
            Ok(Some(record.value.clone()))
        }
    }

    /// The current row's identity: its 1-based position.
    pub fn rowid(&self) -> (r: i64)
        ensures
            r == self@.row,
    {
        self.rowid
    }
}

} // verus!
