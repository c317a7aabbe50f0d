//! Polymorphic dispatch built by hand: method tables, two-field object
//! handles, slot-indexed invocation and destruction.
mod callbacks;
mod handle;
mod registry;
mod table;

pub use callbacks::{Dispatcher, Event};
pub use handle::{lemma_distinct_tables_distinct_objects, ObjectHandle};
pub use registry::{DispatchError, Registry};
pub use table::{CapabilityDescriptor, ConstructionError, MethodTable};
