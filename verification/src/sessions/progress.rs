//! The progress of a query: rows and bytes read so far.

use vstd::prelude::*;

verus! {

/// An amount of progress.
#[derive(Clone, Copy, Debug, PartialEq, Eq, Structural)]
pub struct ProgressValues {
    pub read_rows: usize,
    pub read_bytes: usize,
    pub total_rows_to_read: usize,
}

/// The counters of a query. They wrap around where they pass the greatest
/// number that they can hold.
#[derive(Debug, PartialEq, Eq)]
pub struct Progress {
    pub read_rows: usize,
    pub read_bytes: usize,
    pub total_rows_to_read: usize,
}

impl Progress {
    /// Counters at zero.
    pub fn create() -> (p: Progress)
        ensures
            p == (Progress { read_rows: 0, read_bytes: 0, total_rows_to_read: 0 }),
    {
        Progress { read_rows: 0, read_bytes: 0, total_rows_to_read: 0 }
    }

    /// Adds the rows and the bytes of `values` to the counters.
    pub fn incr(&mut self, values: &ProgressValues)
        ensures
            *final(self) == (Progress {
                read_rows: old(self).read_rows.wrapping_add(values.read_rows),
                read_bytes: old(self).read_bytes.wrapping_add(values.read_bytes),
                total_rows_to_read: old(self).total_rows_to_read,
            }),
    {
        self.read_rows = self.read_rows.wrapping_add(values.read_rows);
        self.read_bytes = self.read_bytes.wrapping_add(values.read_bytes);
    }

    /// What the counters hold.
    pub fn get_values(&self) -> (v: ProgressValues)
        ensures
            v == (ProgressValues {
                read_rows: self.read_rows,
                read_bytes: self.read_bytes,
                total_rows_to_read: self.total_rows_to_read,
            }),
    {
        ProgressValues {
            read_rows: self.read_rows,
            read_bytes: self.read_bytes,
            total_rows_to_read: self.total_rows_to_read,
        }
    }

    /// Sets the counters to zero.
    pub fn reset(&mut self)
        ensures
            *final(self) == (Progress { read_rows: 0, read_bytes: 0, total_rows_to_read: 0 }),
    {
        self.read_rows = 0;
        self.read_bytes = 0;
        self.total_rows_to_read = 0;
    }

    /// What the counters hold; they are at zero afterwards.
    pub fn get_and_reset(&mut self) -> (v: ProgressValues)
        ensures
            v == (ProgressValues {
                read_rows: old(self).read_rows,
                read_bytes: old(self).read_bytes,
                total_rows_to_read: old(self).total_rows_to_read,
            }),
            *final(self) == (Progress { read_rows: 0, read_bytes: 0, total_rows_to_read: 0 }),
    {
        let v = self.get_values();
        self.reset();
        v
    }

    /// Adds to the number of rows that the query is expected to read.
    pub fn add_total_rows_approx(&mut self, total_rows: usize)
        ensures
            *final(self) == (Progress {
                read_rows: old(self).read_rows,
                read_bytes: old(self).read_bytes,
                total_rows_to_read: old(self).total_rows_to_read.wrapping_add(total_rows),
            }),
    {
        self.total_rows_to_read = self.total_rows_to_read.wrapping_add(total_rows);
    }
}

} // verus!
