use vstd::prelude::*;

verus! {

/// A two-field handle: the address of a live instance, then the id under
/// which its type's method table is registered. It owns nothing; whoever
/// holds it is responsible for destroying the instance once.
#[derive(Clone, Copy, Debug, PartialEq, Eq, Structural)]
pub struct ObjectHandle {
    data: usize,
    table: usize,
}

impl ObjectHandle {
    pub closed spec fn spec_data(self) -> usize {
        self.data
    }

    pub closed spec fn spec_table(self) -> usize {
        self.table
    }

    /// Pairs an instance address with a table id. Nothing checks that the
    /// instance has the layout the table records: that is the caller's duty.
    pub fn pair(data: usize, table: usize) -> (r: Self)
        ensures
            r.spec_data() == data,
            r.spec_table() == table,
    {
        ObjectHandle { data, table }
    }

    /// The instance address; it is never dereferenced here.
    pub fn data(&self) -> (r: usize)
        ensures
            r == self.spec_data(),
    {
        self.data
    }

    /// The id of the method table.
    pub fn table(&self) -> (r: usize)
        ensures
            r == self.spec_table(),
    {
        self.table
    }

    /// Whether the two handles denote the same object: both the address and
    /// the table must match, since one instance may be seen through several
    /// capability sets.
    pub fn same_object(&self, other: &Self) -> (r: bool)
        ensures
            r == (self.spec_data() == other.spec_data() && self.spec_table()
                == other.spec_table()),
            r == (*self == *other),
    {
        self.data == other.data && self.table == other.table
    }
}

/// Handles that agree on the instance address but not on the table are
/// distinct objects.
pub proof fn lemma_distinct_tables_distinct_objects(h1: ObjectHandle, h2: ObjectHandle)
    requires
        h1.spec_data() == h2.spec_data(),
        h1.spec_table() != h2.spec_table(),
    ensures
        h1 != h2,
{
}

} // verus!
