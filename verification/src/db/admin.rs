//! DB administration messages.

use vstd::prelude::*;

verus! {

/// A message type to get table rows.
///
/// This may have query parameters to limit or filter results (while it does not
/// for now).
#[derive(Debug)]
pub struct GetTableRows<T> {
    marker: core::marker::PhantomData<T>,
}

impl<T> GetTableRows<T> {
    /// Creates a new `GetTableRows`.
    pub fn new() -> Self {
        Self { marker: core::marker::PhantomData }
    }
}

/// A message type to upsert rows to DB table.
#[derive(Debug, Clone)]
pub struct UpsertTableRows<T> {
    rows: Vec<T>,
}

impl<T> View for UpsertTableRows<T> {
    type V = Seq<T>;

    closed spec fn view(&self) -> Seq<T> {
        self.rows@
    }
}

impl<T> UpsertTableRows<T> {
    /// Creates a new `UpsertTableRows`, with no rows.
    pub fn new() -> (msg: Self)
        ensures
            msg@ == Seq::<T>::empty(),
    {
        Self { rows: Vec::new() }
    }

    /// Creates a new `UpsertTableRows` from the given row.
    pub fn from_row(row: T) -> (msg: Self)
        ensures
            msg@ == seq![row],
    {
        let mut rows: Vec<T> = Vec::new();
        rows.push(row);
        proof {
            assert(rows@ =~= seq![row]);
        }
        Self { rows }
    }

    /// Creates a new `UpsertTableRows` from the given rows.
    pub fn from_rows(rows: Vec<T>) -> (msg: Self)
        ensures
            msg@ == rows@,
    {
        Self { rows }
    }

    /// Adds the given rows behind those that are there.
    pub fn extend(&mut self, rows: Vec<T>)
        ensures
            final(self)@ == old(self)@ + rows@,
    {
        let mut more = rows;
        self.rows.append(&mut more);
    }

    /// The number of rows to upsert: what is reported when every row went in.
    pub fn len(&self) -> (count: usize)
        ensures
            count == self@.len(),
    {
        self.rows.len()
    }

    /// Hands the rows out, in their order.
    pub fn into_rows(self) -> (rows: Vec<T>)
        ensures
            rows@ == self@,
    {
        self.rows
    }
}

impl<T> Default for UpsertTableRows<T> {
    fn default() -> (msg: Self)
        ensures
            msg@ == Seq::<T>::empty(),
    {
        Self { rows: Vec::new() }
    }
}

} // verus!
