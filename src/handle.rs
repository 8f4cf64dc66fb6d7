use vstd::prelude::*;

use crate::error::AoaError;

verus! {

/// An exclusively owned token for a bound compute context. Every circuit
/// operation takes it by reference and refuses to run once it is released
/// or its context is lost.
pub struct Handle {
    id: u64,
    live: bool,
}

impl Handle {
    /// The identifier of the bound context.
    pub closed spec fn spec_id(&self) -> u64 {
        self.id
    }

    /// Whether the handle may still be used.
    pub closed spec fn spec_live(&self) -> bool {
        self.live
    }

    /// Binds a handle to the context that the device query returned, or fails
    /// with a device error carrying the query's failure text.
    pub fn acquire(context: Result<u64, String>) -> (r: Result<Handle, AoaError>)
        ensures
            context matches Ok(id) ==> (r matches Ok(h) && h.spec_live() && h.spec_id() == id),
            context matches Err(t) ==> r == Err::<Handle, AoaError>(AoaError::Device(t)),
    {
        match context {
            Ok(id) => Ok(Handle { id, live: true }),
            Err(t) => Err(AoaError::Device(t)),
        }
    }

    /// The identifier of the bound context.
    pub fn id(&self) -> (r: u64)
        ensures
            r == self.spec_id(),
    {
        self.id
    }

    /// Whether the handle may still be used.
    pub fn is_live(&self) -> (r: bool)
        ensures
            r == self.spec_live(),
    {
        self.live
    }

    /// Releases the handle: every later operation on it fails.
    pub fn release(&mut self)
        ensures
            !final(self).spec_live(),
            final(self).spec_id() == old(self).spec_id(),
    {
        self.live = false;
    }

    /// Succeeds exactly when the handle is live.
    pub fn check(&self) -> (r: Result<(), AoaError>)
        ensures
            r is Ok <==> self.spec_live(),
            r is Err ==> r == Err::<(), AoaError>(AoaError::InvalidHandle),
    {
        if self.live {
            Ok(())
        } else {
            Err(AoaError::InvalidHandle)
        }
    }
}

} // verus!
