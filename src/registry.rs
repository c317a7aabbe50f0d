use vstd::prelude::*;

use crate::handle::ObjectHandle;
use crate::table::MethodTable;

verus! {

/// Why a handle could not be dispatched through.
#[derive(Clone, Copy, Debug, PartialEq, Eq, Structural)]
pub enum DispatchError {
    /// No table is registered under the handle's table id.
    UnknownTable { table: usize },
    /// The method index is not below the table's arity.
    IndexOutOfRange { index: usize, arity: usize },
}

/// The method tables of a process, each under the id it was registered with.
/// Tables are only ever added; none is changed or removed.
pub struct Registry<D, M> {
    tables: Vec<MethodTable<D, M>>,
}

impl<D, M> Registry<D, M> {
    pub closed spec fn spec_tables(&self) -> Seq<MethodTable<D, M>> {
        self.tables@
    }

    /// The table registered under `id`, if any.
    pub open spec fn spec_table(&self, id: usize) -> Option<MethodTable<D, M>> {
        if id < self.spec_tables().len() {
            Some(self.spec_tables()[id as int])
        } else {
            None
        }
    }

    /// The method that `handle` names in slot `index`, if there is one.
    pub open spec fn spec_slot(&self, handle: ObjectHandle, index: usize) -> Option<M> {
        match self.spec_table(handle.spec_table()) {
            Some(t) => if index < t.spec_methods().len() {
                Some(t.spec_methods()[index as int])
            } else {
                None
            },
            None => None,
        }
    }

    /// An empty registry.
    pub fn new() -> (r: Self)
        ensures
            r.spec_tables() == Seq::<MethodTable<D, M>>::empty(),
    {
        Registry { tables: Vec::new() }
    }

    /// The number of registered tables.
    pub fn len(&self) -> (r: usize)
        ensures
            r == self.spec_tables().len(),
    {
        self.tables.len()
    }

    /// Registers `table` and returns its id, the number of tables before it.
    pub fn register(&mut self, table: MethodTable<D, M>) -> (id: usize)
        ensures
            id == old(self).spec_tables().len(),
            final(self).spec_tables() == old(self).spec_tables().push(table),
    {
        let id = self.tables.len();
        self.tables.push(table);
        id
    }

    /// The table registered under `id`.
    pub fn table(&self, id: usize) -> (r: Option<&MethodTable<D, M>>)
        ensures
            match r {
                Some(t) => self.spec_table(id) == Some(*t),
                None => self.spec_table(id) is None,
            },
    {
        if id < self.tables.len() {
            Some(&self.tables[id])
        } else {
            None
        }
    }

    /// Invokes slot `index` of the handle's table with the handle's address as
    /// receiver and `args` forwarded. Fails, calling nothing, when the table
    /// id is unknown or the index is not below the table's arity.
    pub fn call<A, R>(&self, handle: ObjectHandle, index: usize, args: A) -> (r: Result<
        R,
        DispatchError,
    >) where M: Fn(usize, A) -> R
        requires
            self.spec_slot(handle, index) matches Some(m) ==> m.requires((handle.spec_data(), args)),
        ensures
            match r {
                Ok(v) => self.spec_slot(handle, index) matches Some(m) && m.ensures(
                    (handle.spec_data(), args),
                    v,
                ),
                Err(DispatchError::UnknownTable { table }) => {
                    &&& table == handle.spec_table()
                    &&& self.spec_table(table) is None
                },
                Err(DispatchError::IndexOutOfRange { index: i, arity }) => {
                    &&& i == index
                    &&& self.spec_table(handle.spec_table()) matches Some(t)
                    &&& arity == t.spec_methods().len()
                    &&& index >= arity
                },
            },
    {
        let table = handle.table();
        if table >= self.tables.len() {
            return Err(DispatchError::UnknownTable { table });
        }
        let t = &self.tables[table];
        let arity = t.arity();
        if index >= arity {
            return Err(DispatchError::IndexOutOfRange { index, arity });
        }
        let m = t.method(index);
        Ok(m(handle.data(), args))
    }

    /// Invokes every slot of the handle's table in order, each with the
    /// handle's address and `args`, and returns the results in slot order.
    /// Fails, calling nothing, when the table id is unknown.
    pub fn call_all<A: Copy, R>(&self, handle: ObjectHandle, args: A) -> (r: Result<
        Vec<R>,
        DispatchError,
    >) where M: Fn(usize, A) -> R
        requires
            match self.spec_table(handle.spec_table()) {
                Some(t) => forall|i: int|
                    0 <= i < t.spec_methods().len() ==> (#[trigger] t.spec_methods()[i]).requires(
                        (handle.spec_data(), args),
                    ),
                None => true,
            },
        ensures
            match r {
                Ok(v) => self.spec_table(handle.spec_table()) matches Some(t) && v@.len()
                    == t.spec_methods().len() && forall|i: int|
                    0 <= i < v@.len() ==> t.spec_methods()[i].ensures(
                        (handle.spec_data(), args),
                        #[trigger] v@[i],
                    ),
                Err(e) => {
                    &&& e == DispatchError::UnknownTable { table: handle.spec_table() }
                    &&& self.spec_table(handle.spec_table()) is None
                },
            },
    {
        let table = handle.table();
        if table >= self.tables.len() {
            return Err(DispatchError::UnknownTable { table });
        }
        let t = &self.tables[table];
        let data = handle.data();
        let ghost registered = self.spec_table(table)->Some_0;
        assert(registered == *t);
        let mut results: Vec<R> = Vec::new();
        let mut i: usize = 0;
        while i < t.arity()
            invariant
                self.spec_table(table) == Some(*t),
                table == handle.spec_table(),
                data == handle.spec_data(),
                i <= t.spec_methods().len(),
                results@.len() == i,
                forall|j: int|
                    0 <= j < t.spec_methods().len() ==> (#[trigger] t.spec_methods()[j]).requires(
                        (data, args),
                    ),
                forall|j: int|
                    0 <= j < i ==> t.spec_methods()[j].ensures((data, args), #[trigger] results@[j]),
            decreases t.spec_methods().len() - i,
        {
            let m = t.method(i);
            results.push(m(data, args));
            i = i + 1;
        }
        Ok(results)
    }

    /// Runs the destructor of the handle's table on the handle's address,
    /// once per call: a second call on the same handle runs it again, so the
    /// owner must keep track of handles it has destroyed. Fails, running
    /// nothing, when the table id is unknown.
    pub fn destroy(&self, handle: ObjectHandle) -> (r: Result<(), DispatchError>) where D: Fn(usize)
        requires
            self.spec_table(handle.spec_table()) matches Some(t) ==> t.spec_destructor().requires(
                (handle.spec_data(),),
            ),
        ensures
            match r {
                Ok(()) => self.spec_table(handle.spec_table()) matches Some(t)
                    && t.spec_destructor().ensures((handle.spec_data(),), ()),
                Err(e) => {
                    &&& e == DispatchError::UnknownTable { table: handle.spec_table() }
                    &&& self.spec_table(handle.spec_table()) is None
                },
            },
    {
        let table = handle.table();
        if table >= self.tables.len() {
            return Err(DispatchError::UnknownTable { table });
        }
        let destructor = self.tables[table].destructor();
        destructor(handle.data());
        Ok(())
    }
}

} // verus!
