use vstd::prelude::*;

verus! {

/// The ordered set of methods an interface guarantees; only its arity matters
/// for building a table.
#[derive(Clone, Copy, Debug, PartialEq, Eq, Structural)]
pub struct CapabilityDescriptor {
    arity: usize,
}

impl CapabilityDescriptor {
    pub closed spec fn spec_arity(self) -> nat {
        self.arity as nat
    }

    pub fn new(arity: usize) -> (r: Self)
        ensures
            r.spec_arity() == arity,
    {
        CapabilityDescriptor { arity }
    }

    pub fn arity(&self) -> (r: usize)
        ensures
            r == self.spec_arity(),
    {
        self.arity
    }
}

/// Why a method table could not be built.
#[derive(Clone, Copy, Debug, PartialEq, Eq, Structural)]
pub enum ConstructionError {
    /// The number of method entries differs from the descriptor's arity.
    ArityMismatch { expected: usize, found: usize },
    /// The entry at `index` is empty; it is the first such entry.
    NullMethod { index: usize },
}

/// Every entry of `entries` holds a method.
pub open spec fn all_present<M>(entries: Seq<Option<M>>) -> bool {
    forall|i: int| 0 <= i < entries.len() ==> (#[trigger] entries[i]) is Some
}

/// `index` is the first empty entry of `entries`.
pub open spec fn first_null<M>(entries: Seq<Option<M>>, index: int) -> bool {
    &&& 0 <= index < entries.len()
    &&& entries[index] is None
    &&& forall|j: int| 0 <= j < index ==> (#[trigger] entries[j]) is Some
}

/// `methods` is `entries` with every entry unwrapped, slot for slot.
pub open spec fn unwrapped<M>(entries: Seq<Option<M>>, methods: Seq<M>) -> bool {
    &&& methods.len() == entries.len()
    &&& forall|i: int| 0 <= i < entries.len() ==> #[trigger] entries[i] == Some(methods[i])
}

/// The method table of one concrete type: its destructor, the size and
/// alignment of its instances, and one method per slot of the capability set,
/// in the descriptor's order. Nothing changes a table once it is built.
pub struct MethodTable<D, M> {
    destructor: D,
    size: usize,
    align: usize,
    methods: Vec<M>,
}

impl<D, M> MethodTable<D, M> {
    pub closed spec fn spec_destructor(&self) -> D {
        self.destructor
    }

    pub closed spec fn spec_size(&self) -> nat {
        self.size as nat
    }

    pub closed spec fn spec_align(&self) -> nat {
        self.align as nat
    }

    pub closed spec fn spec_methods(&self) -> Seq<M> {
        self.methods@
    }

    /// Builds the table of a type that implements `descriptor`. Fails when the
    /// number of entries is not the descriptor's arity, or else when an entry
    /// is empty; the table is never truncated or padded.
    pub fn build(
        descriptor: &CapabilityDescriptor,
        destructor: D,
        size: usize,
        align: usize,
        methods: Vec<Option<M>>,
    ) -> (r: Result<Self, ConstructionError>)
        ensures
            r is Ok <==> methods@.len() == descriptor.spec_arity() && all_present(methods@),
            r matches Err(ConstructionError::ArityMismatch { .. }) <==> methods@.len()
                != descriptor.spec_arity(),
            match r {
                Ok(t) => {
                    &&& t.spec_destructor() == destructor
                    &&& t.spec_size() == size
                    &&& t.spec_align() == align
                    &&& unwrapped(methods@, t.spec_methods())
                },
                Err(ConstructionError::ArityMismatch { expected, found }) => {
                    &&& expected == descriptor.spec_arity()
                    &&& found == methods@.len()
                },
                Err(ConstructionError::NullMethod { index }) => first_null(methods@, index as int),
            },
    {
        let n = methods.len();
        if n != descriptor.arity() {
            return Err(ConstructionError::ArityMismatch { expected: descriptor.arity(), found: n });
        }
        let ghost entries = methods@;
        let mut rest = methods;
        let mut filled: Vec<M> = Vec::new();
        while rest.len() > 0
            invariant
                entries == methods@,
                entries.len() == n,
                n == descriptor.spec_arity(),
                filled@.len() + rest@.len() == n,
                rest@ == entries.subrange(filled@.len() as int, n as int),
                forall|j: int| 0 <= j < filled@.len() ==> #[trigger] entries[j] == Some(filled@[j]),
            decreases rest@.len(),
        {
            let ghost k = filled@.len() as int;
            let entry = rest.remove(0);
            assert(entry == entries[k]);
            match entry {
                Some(m) => filled.push(m),
                None => {
                    assert(!all_present(entries) && first_null(entries, k));
                    return Err(ConstructionError::NullMethod { index: filled.len() });
                },
            }
            assert(rest@ == entries.subrange(filled@.len() as int, n as int));
        }
        Ok(MethodTable { destructor, size, align, methods: filled })
    }

    /// The destructor of the table's type.
    pub fn destructor(&self) -> (r: &D)
        ensures
            *r == self.spec_destructor(),
    {
        &self.destructor
    }

    /// The size of an instance of the table's type.
    pub fn size(&self) -> (r: usize)
        ensures
            r == self.spec_size(),
    {
        self.size
    }

    /// The alignment of an instance of the table's type.
    pub fn align(&self) -> (r: usize)
        ensures
            r == self.spec_align(),
    {
        self.align
    }

    /// The number of method slots.
    pub fn arity(&self) -> (r: usize)
        ensures
            r == self.spec_methods().len(),
    {
        self.methods.len()
    }

    /// The method in slot `index`.
    pub fn method(&self, index: usize) -> (r: &M)
        requires
            index < self.spec_methods().len(),
        ensures
            *r == self.spec_methods()[index as int],
    {
        &self.methods[index]
    }
}

} // verus!
