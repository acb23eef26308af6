use vstd::prelude::*;

verus! {

/// Tracks the result objects handed to the caller. Every operation
/// allocates exactly one response; the registry issues an opaque handle
/// for it and owns the response, together with all its attached data,
/// until the caller releases the handle. Releasing is exactly-once by
/// construction: the first release hands the response back and clears
/// the slot, and any further release of the same handle hands back
/// nothing.
pub struct ResponseRegistry<T> {
    pub slots: Vec<Option<T>>,
}

impl<T> ResponseRegistry<T> {
    /// The responses currently live, by handle.
    pub open spec fn live(self) -> Seq<Option<T>> {
        self.slots@
    }

    pub fn new() -> (registry: Self)
        ensures
            registry.live() =~= Seq::<Option<T>>::empty(),
    {
        ResponseRegistry { slots: Vec::new() }
    }

    /// Hands a response over: ownership of the response and of every
    /// buffer attached to it moves into a fresh slot, and the slot's
    /// handle names it until release.
    pub fn issue(&mut self, response: T) -> (handle: usize)
        ensures
            handle == old(self).live().len(),
            final(self).live() =~= old(self).live().push(Some(response)),
    {
        let handle = self.slots.len();
        self.slots.push(Some(response));
        handle
    }

    /// Releases the response a handle names, returning it exactly once.
    /// The slot is cleared, so releasing the same handle again returns
    /// nothing, and a handle never issued returns nothing.
    pub fn release(&mut self, handle: usize) -> (r: Option<T>)
        ensures
            handle >= old(self).live().len() ==> r is None
                && final(self).live() =~= old(self).live(),
            handle < old(self).live().len() ==> r == old(self).live()[handle as int]
                && final(self).live() =~= old(self).live().update(handle as int, None),
    {
        if handle >= self.slots.len() {
            return None;
        }
        let mut taken: Option<T> = None;
        self.slots.set_and_swap(handle, &mut taken);
        taken
    }
}

/// Exactly-once release law: after issuing a response, releasing its
/// handle hands back exactly the issued response and clears the slot;
/// releasing the same handle again changes nothing and hands back
/// nothing, so one release neither leaks the response nor frees it
/// twice.
pub proof fn lemma_release_exactly_once<T>(live: Seq<Option<T>>, response: T)
    ensures
        ({
            let handle = live.len() as int;
            let issued = live.push(Some(response));
            let once = issued.update(handle, None);
            &&& issued[handle] == Some(response)
            &&& once[handle] is None
            &&& once.update(handle, None) =~= once
        }),
{
}

} // verus!
