use vstd::prelude::*;

use crate::row::Row;

verus! {

/// A read-only sequence of rows, row `i` being line `i` of its source.
pub struct Document {
    rows: Vec<Row>,
    file_name: Option<String>,
}

impl Document {
    /// The rows, in order.
    pub closed spec fn rows(&self) -> Seq<Row> {
        self.rows@
    }

    /// The name of the file the rows came from, if any.
    pub closed spec fn source_name(&self) -> Option<String> {
        self.file_name
    }

    /// The number of rows.
    pub open spec fn line_count(&self) -> nat {
        self.rows().len()
    }

    /// The width in columns of row `y`, or 0 past the last row.
    pub open spec fn width_of(&self, y: int) -> nat {
        if 0 <= y < self.line_count() {
            self.rows()[y].display_length()
        } else {
            0
        }
    }

    /// A document with one row for each line, in order.
    pub fn from_lines(lines: &Vec<String>, file_name: Option<String>) -> (r: Document)
        ensures
            r.line_count() == lines@.len(),
            forall|i: int| 0 <= i < lines@.len() ==> #[trigger] r.rows()[i].text() == lines@[i]@,
            r.source_name() == file_name,
    {
        let mut rows: Vec<Row> = Vec::new();
        let mut i: usize = 0;
        while i < lines.len()
            invariant
                i <= lines@.len(),
                rows@.len() == i,
                forall|j: int| 0 <= j < i ==> #[trigger] rows@[j].text() == lines@[j]@,
            decreases lines@.len() - i,
        {
            rows.push(Row::from(lines[i].as_str()));
            i = i + 1;
        }
        Document { rows, file_name }
    }

    /// Row `index`, or nothing past the last row.
    pub fn row(&self, index: usize) -> (r: Option<&Row>)
        ensures
            index < self.line_count() ==> r == Some(&self.rows()[index as int]),
            index >= self.line_count() ==> r is None,
    {
        if index < self.rows.len() {
            Some(&self.rows[index])
        } else {
            None
        }
    }

    /// The name of the file the rows came from, if any.
    pub fn file_name(&self) -> (r: &Option<String>)
        ensures
            *r == self.source_name(),
    {
        &self.file_name
    }

    pub fn is_empty(&self) -> (r: bool)
        ensures
            r == (self.line_count() == 0),
    {
        self.rows.len() == 0
    }

    pub fn len(&self) -> (r: usize)
        ensures
            r == self.line_count(),
    {
        self.rows.len()
    }
}

impl Default for Document {
    /// An empty document with no file name.
    fn default() -> (r: Document)
        ensures
            r.line_count() == 0,
            r.source_name() is None,
    {
        Document { rows: Vec::new(), file_name: None }
    }
}

} // verus!
