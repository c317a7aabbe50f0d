use vstd::prelude::*;

verus! {

/// What a dispatcher hands to its callbacks.
#[derive(Clone, Copy, Debug, PartialEq, Eq, Structural)]
pub enum Event {
    Fire(u32),
}

/// A list of callbacks, each under the index it was registered with. A
/// deregistered callback leaves an empty slot, so indices stay stable.
pub struct Dispatcher<F> {
    callbacks: Vec<Option<F>>,
}

impl<F> Dispatcher<F> {
    pub closed spec fn spec_callbacks(&self) -> Seq<Option<F>> {
        self.callbacks@
    }

    /// A dispatcher with no callbacks.
    pub fn new() -> (r: Self)
        ensures
            r.spec_callbacks() == Seq::<Option<F>>::empty(),
    {
        Dispatcher { callbacks: Vec::new() }
    }

    /// Adds `callback` in a new slot and returns that slot's index.
    pub fn register(&mut self, callback: F) -> (index: usize)
        ensures
            index == old(self).spec_callbacks().len(),
            final(self).spec_callbacks() == old(self).spec_callbacks().push(Some(callback)),
    {
        self.callbacks.push(Some(callback));
        self.callbacks.len() - 1
    }

    /// Empties the slot at `index`; the other slots keep their callbacks.
    pub fn deregister(&mut self, index: usize)
        requires
            index < old(self).spec_callbacks().len(),
        ensures
            final(self).spec_callbacks() == old(self).spec_callbacks().update(index as int, None),
    {
        self.callbacks.set(index, None);
    }

    /// Calls every registered callback with `event`, in slot order.
    pub fn dispatch(&mut self, event: &Event) where F: Fn(&Event)
        requires
            forall|i: int|
                0 <= i < old(self).spec_callbacks().len() ==> (#[trigger] old(
                    self,
                ).spec_callbacks()[i] matches Some(f) ==> f.requires((event,))),
        ensures
            final(self).spec_callbacks() == old(self).spec_callbacks(),
            forall|i: int|
                0 <= i < old(self).spec_callbacks().len() ==> (#[trigger] old(
                    self,
                ).spec_callbacks()[i] matches Some(f) ==> f.ensures((event,), ())),
    {
        let mut i: usize = 0;
        while i < self.callbacks.len()
            invariant
                self.spec_callbacks() == old(self).spec_callbacks(),
                forall|j: int|
                    0 <= j < self.spec_callbacks().len() ==> (#[trigger] self.spec_callbacks()[j] matches Some(
                        f,
                    ) ==> f.requires((event,))),
                forall|j: int|
                    0 <= j < i ==> (#[trigger] self.spec_callbacks()[j] matches Some(f) ==> f.ensures(
                        (event,),
                        (),
                    )),
            decreases self.spec_callbacks().len() - i,
        {
            if let Some(f) = &self.callbacks[i] {
                f(event);
            }
            i = i + 1;
        }
    }
}

} // verus!
