use vstd::prelude::*;

use crate::error::{Error, STS_NULL_PTR};

verus! {

/// Constant methods of the native algorithm base class.
pub trait AlgorithmTraitConst {
    /// Address of the native object, for calls through the constant interface.
    fn as_raw_Algorithm(&self) -> (r: usize)
        ensures
            r != 0,
    ;
}

/// Mutable methods of the native algorithm base class.
pub trait AlgorithmTrait: AlgorithmTraitConst {
    /// Address of the native object, for calls through the mutable interface.
    fn as_raw_mut_Algorithm(&mut self) -> (r: usize)
        ensures
            r != 0,
    ;
}

/// Owning handle of a native algorithm object, seen through its base class.
pub struct Algorithm {
    ptr: usize,
}

impl Algorithm {
    #[verifier::type_invariant]
    spec fn non_null(self) -> bool {
        self.ptr != 0
    }

    /// Address of the native object this handle owns.
    pub closed spec fn addr(self) -> usize {
        self.ptr
    }

    /// Takes ownership of the native object at `ptr`. A null address is
    /// refused with `STS_NULL_PTR`, so no handle ever holds one.
    pub fn from_raw(ptr: usize) -> (r: Result<Algorithm, Error>)
        ensures
            ptr == 0 <==> r is Err,
            r matches Ok(h) ==> h.addr() == ptr,
            r matches Err(e) ==> e.code == STS_NULL_PTR,
    {
        if ptr == 0 {
            Err(Error::null_pointer())
        } else {
            Ok(Algorithm { ptr })
        }
    }

    /// The handle of a native object known to be non-null.
    pub(crate) fn from_non_null(ptr: usize) -> (r: Algorithm)
        requires
            ptr != 0,
        ensures
            r.addr() == ptr,
    {
        Algorithm { ptr }
    }

    /// Gives up the handle and returns the address of the native object, for
    /// the one destructor call that releases it.
    pub fn into_raw(self) -> (r: usize)
        ensures
            r == self.addr(),
            r != 0,
    {
        proof {
            use_type_invariant(&self);
        }
        self.ptr
    }
}

impl AlgorithmTraitConst for Algorithm {
    fn as_raw_Algorithm(&self) -> (r: usize)
        ensures
            r == self.addr(),
    {
        proof {
            use_type_invariant(self);
        }
        self.ptr
    }
}

impl AlgorithmTrait for Algorithm {
    fn as_raw_mut_Algorithm(&mut self) -> (r: usize)
        ensures
            r == old(self).addr(),
            *final(self) == *old(self),
    {
        proof {
            use_type_invariant(&*self);
        }
        self.ptr
    }
}

/// Raw arguments of a configuration call that hands one native object to
/// another: the address of the object configured and of the one it is given.
#[derive(Debug)]
pub struct AttachArgs {
    pub target: usize,
    pub attached: usize,
}

} // verus!
