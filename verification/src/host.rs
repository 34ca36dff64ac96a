//! What a host keeps in the store of an instantiated module.

use vstd::prelude::*;

verus! {

/// The data of one instantiation: the state of the system interface, and
/// the state of the capability that the module imports, if one is linked.
pub struct Context<W, T> {
    pub wasi: W,
    pub runtime_data: Option<T>,
}

impl<W, T> Context<W, T> {
    /// The data of an instantiation.
    pub fn new(wasi: W, runtime_data: Option<T>) -> (r: Context<W, T>)
        ensures
            r.wasi == wasi,
            r.runtime_data == runtime_data,
    {
        Context { wasi, runtime_data }
    }

    /// Whether a capability is linked.
    pub fn has_runtime_data(&self) -> (r: bool)
        ensures
            r == self.runtime_data is Some,
    {
        self.runtime_data.is_some()
    }

    /// The state of the system interface.
    pub fn wasi(&self) -> (r: &W)
        ensures
            *r == self.wasi,
    {
        &self.wasi
    }

    /// The state of the system interface, to work on.
    pub fn wasi_mut(&mut self) -> (r: &mut W)
        ensures
            *r == old(self).wasi,
            final(self).wasi == *final(r),
            final(self).runtime_data == old(self).runtime_data,
    {
        &mut self.wasi
    }

    /// The state of the capability. A host asks for it only where it has
    /// linked one.
    pub fn runtime_data(&self) -> (r: &T)
        requires
            self.runtime_data is Some,
        ensures
            Some(*r) == self.runtime_data,
    {
        self.runtime_data.as_ref().unwrap()
    }

    /// The state of the capability, to work on. A host asks for it only
    /// where it has linked one.
    pub fn runtime_data_mut(&mut self) -> (r: &mut T)
        requires
            old(self).runtime_data is Some,
        ensures
            Some(*r) == old(self).runtime_data,
            final(self).runtime_data == Some(*final(r)),
            final(self).wasi == old(self).wasi,
    {
        self.runtime_data.as_mut().unwrap()
    }

    /// Takes the state of the capability out, and leaves none.
    pub fn take_runtime_data(&mut self) -> (r: Option<T>)
        ensures
            r == old(self).runtime_data,
            final(self).runtime_data is None,
            final(self).wasi == old(self).wasi,
    {
        self.runtime_data.take()
    }
}

} // verus!
