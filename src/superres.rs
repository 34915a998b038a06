//! Video super-resolution: frame sources, dense optical flow estimators and
//! the super-resolution algorithms that combine them.
use vstd::prelude::*;

use crate::algorithm::{Algorithm, AlgorithmTrait, AlgorithmTraitConst, AttachArgs};
use crate::error::{Error, STS_BAD_ARG, STS_NULL_PTR};
use crate::marshal::{c_string_of, string_arg};

verus! {

/// Constant methods of a dense optical flow estimator.
pub trait Superres_DenseOpticalFlowExtTraitConst: AlgorithmTraitConst {
    /// Address of the native dense optical flow estimator, for calls through the constant interface.
    fn as_raw_Superres_DenseOpticalFlowExt(&self) -> (r: usize)
        ensures
            r != 0,
    ;
}

/// Mutable methods of a dense optical flow estimator.
pub trait Superres_DenseOpticalFlowExtTrait: AlgorithmTrait + Superres_DenseOpticalFlowExtTraitConst {
    /// Address of the native dense optical flow estimator, for calls through the mutable interface.
    fn as_raw_mut_Superres_DenseOpticalFlowExt(&mut self) -> (r: usize)
        ensures
            r != 0,
    ;
}

/// Owning handle of a native dense optical flow estimator, seen through its base class.
pub struct Superres_DenseOpticalFlowExt {
    ptr: usize,
}

impl Superres_DenseOpticalFlowExt {
    #[verifier::type_invariant]
    spec fn non_null(self) -> bool {
        self.ptr != 0
    }

    /// Address of the native estimator this handle owns.
    pub closed spec fn addr(self) -> usize {
        self.ptr
    }

    /// Takes ownership of the native estimator at `ptr`. A null address is
    /// refused with `STS_NULL_PTR`.
    pub fn from_raw(ptr: usize) -> (r: Result<Superres_DenseOpticalFlowExt, Error>)
        ensures
            ptr == 0 <==> r is Err,
            r matches Ok(h) ==> h.addr() == ptr,
            r matches Err(e) ==> e.code == STS_NULL_PTR,
    {
        if ptr == 0 {
            Err(Error::null_pointer())
        } else {
            Ok(Superres_DenseOpticalFlowExt { ptr })
        }
    }

    /// Gives up the handle and returns the address of the native estimator, for
    /// the one destructor call that releases it.
    pub fn into_raw(self) -> (r: usize)
        ensures
            r == self.addr(),
            r != 0,
    {
        proof {
            use_type_invariant(&self);
        }
        self.ptr
    }

    /// Views the estimator through the algorithm base class. The handle is
    /// consumed and the same native object is owned by the result.
    pub fn into_algorithm(self) -> (r: Algorithm)
        ensures
            r.addr() == self.addr(),
    {
        proof {
            use_type_invariant(&self);
        }
        Algorithm::from_non_null(self.ptr)
    }

    /// The handle of a native estimator known to be non-null.
    fn from_non_null(ptr: usize) -> (r: Superres_DenseOpticalFlowExt)
        requires
            ptr != 0,
        ensures
            r.addr() == ptr,
    {
        Superres_DenseOpticalFlowExt { ptr }
    }

    /// Casts the estimator down to a Brox optical flow estimator. `is_instance` is the native
    /// side's answer to whether the object is one. If it is not, the handle
    /// comes back unchanged; either way the native object is the same.
    pub fn try_into_brox_optical_flow(self, is_instance: bool) -> (r: Result<Superres_BroxOpticalFlow, Superres_DenseOpticalFlowExt>)
        ensures
            is_instance <==> r is Ok,
            r matches Ok(h) ==> h.addr() == self.addr(),
            r matches Err(h) ==> h == self,
    {
        proof {
            use_type_invariant(&self);
        }
        if is_instance {
            Ok(Superres_BroxOpticalFlow::from_non_null(self.ptr))
        } else {
            Err(self)
        }
    }

    /// Casts the estimator down to a dual TV-L1 optical flow estimator. `is_instance` is the native
    /// side's answer to whether the object is one. If it is not, the handle
    /// comes back unchanged; either way the native object is the same.
    pub fn try_into_dual_tvl1_optical_flow(self, is_instance: bool) -> (r: Result<Superres_DualTVL1OpticalFlow, Superres_DenseOpticalFlowExt>)
        ensures
            is_instance <==> r is Ok,
            r matches Ok(h) ==> h.addr() == self.addr(),
            r matches Err(h) ==> h == self,
    {
        proof {
            use_type_invariant(&self);
        }
        if is_instance {
            Ok(Superres_DualTVL1OpticalFlow::from_non_null(self.ptr))
        } else {
            Err(self)
        }
    }

    /// Casts the estimator down to a Farneback optical flow estimator. `is_instance` is the native
    /// side's answer to whether the object is one. If it is not, the handle
    /// comes back unchanged; either way the native object is the same.
    pub fn try_into_farneback_optical_flow(self, is_instance: bool) -> (r: Result<Superres_FarnebackOpticalFlow, Superres_DenseOpticalFlowExt>)
        ensures
            is_instance <==> r is Ok,
            r matches Ok(h) ==> h.addr() == self.addr(),
            r matches Err(h) ==> h == self,
    {
        proof {
            use_type_invariant(&self);
        }
        if is_instance {
            Ok(Superres_FarnebackOpticalFlow::from_non_null(self.ptr))
        } else {
            Err(self)
        }
    }

    /// Casts the estimator down to a pyramidal Lucas-Kanade optical flow estimator. `is_instance` is the native
    /// side's answer to whether the object is one. If it is not, the handle
    /// comes back unchanged; either way the native object is the same.
    pub fn try_into_pyr_lk_optical_flow(self, is_instance: bool) -> (r: Result<Superres_PyrLKOpticalFlow, Superres_DenseOpticalFlowExt>)
        ensures
            is_instance <==> r is Ok,
            r matches Ok(h) ==> h.addr() == self.addr(),
            r matches Err(h) ==> h == self,
    {
        proof {
            use_type_invariant(&self);
        }
        if is_instance {
            Ok(Superres_PyrLKOpticalFlow::from_non_null(self.ptr))
        } else {
            Err(self)
        }
    }
}

impl AlgorithmTraitConst for Superres_DenseOpticalFlowExt {
    fn as_raw_Algorithm(&self) -> (r: usize)
        ensures
            r == self.addr(),
    {
        proof {
            use_type_invariant(self);
        }
        self.ptr
    }
}

impl AlgorithmTrait for Superres_DenseOpticalFlowExt {
    fn as_raw_mut_Algorithm(&mut self) -> (r: usize)
        ensures
            r == old(self).addr(),
            *final(self) == *old(self),
    {
        proof {
            use_type_invariant(&*self);
        }
        self.ptr
    }
}

impl Superres_DenseOpticalFlowExtTraitConst for Superres_DenseOpticalFlowExt {
    fn as_raw_Superres_DenseOpticalFlowExt(&self) -> (r: usize)
        ensures
            r == self.addr(),
    {
        proof {
            use_type_invariant(self);
        }
        self.ptr
    }
}

impl Superres_DenseOpticalFlowExtTrait for Superres_DenseOpticalFlowExt {
    fn as_raw_mut_Superres_DenseOpticalFlowExt(&mut self) -> (r: usize)
        ensures
            r == old(self).addr(),
            *final(self) == *old(self),
    {
        proof {
            use_type_invariant(&*self);
        }
        self.ptr
    }
}

/// Constant methods of a Brox optical flow estimator.
pub trait Superres_BroxOpticalFlowTraitConst: Superres_DenseOpticalFlowExtTraitConst {
    /// Address of the native Brox optical flow estimator, for calls through the constant interface.
    fn as_raw_Superres_BroxOpticalFlow(&self) -> (r: usize)
        ensures
            r != 0,
    ;
}

/// Mutable methods of a Brox optical flow estimator.
pub trait Superres_BroxOpticalFlowTrait: Superres_DenseOpticalFlowExtTrait + Superres_BroxOpticalFlowTraitConst {
    /// Address of the native Brox optical flow estimator, for calls through the mutable interface.
    fn as_raw_mut_Superres_BroxOpticalFlow(&mut self) -> (r: usize)
        ensures
            r != 0,
    ;
}

/// Owning handle of a native Brox optical flow estimator.
pub struct Superres_BroxOpticalFlow {
    ptr: usize,
}

impl Superres_BroxOpticalFlow {
    #[verifier::type_invariant]
    spec fn non_null(self) -> bool {
        self.ptr != 0
    }

    /// Address of the native estimator this handle owns.
    pub closed spec fn addr(self) -> usize {
        self.ptr
    }

    /// Takes ownership of the native estimator at `ptr`. A null address is
    /// refused with `STS_NULL_PTR`.
    pub fn from_raw(ptr: usize) -> (r: Result<Superres_BroxOpticalFlow, Error>)
        ensures
            ptr == 0 <==> r is Err,
            r matches Ok(h) ==> h.addr() == ptr,
            r matches Err(e) ==> e.code == STS_NULL_PTR,
    {
        if ptr == 0 {
            Err(Error::null_pointer())
        } else {
            Ok(Superres_BroxOpticalFlow { ptr })
        }
    }

    /// Gives up the handle and returns the address of the native estimator, for
    /// the one destructor call that releases it.
    pub fn into_raw(self) -> (r: usize)
        ensures
            r == self.addr(),
            r != 0,
    {
        proof {
            use_type_invariant(&self);
        }
        self.ptr
    }

    /// The handle of a native estimator known to be non-null.
    fn from_non_null(ptr: usize) -> (r: Superres_BroxOpticalFlow)
        requires
            ptr != 0,
        ensures
            r.addr() == ptr,
    {
        Superres_BroxOpticalFlow { ptr }
    }

    /// Views the estimator through the dense optical flow base class. The
    /// handle is consumed and the same native object is owned by the result.
    pub fn into_dense_optical_flow_ext(self) -> (r: Superres_DenseOpticalFlowExt)
        ensures
            r.addr() == self.addr(),
    {
        proof {
            use_type_invariant(&self);
        }
        Superres_DenseOpticalFlowExt::from_non_null(self.ptr)
    }

    /// Views the estimator through the algorithm base class. The handle is
    /// consumed and the same native object is owned by the result.
    pub fn into_algorithm(self) -> (r: Algorithm)
        ensures
            r.addr() == self.addr(),
    {
        proof {
            use_type_invariant(&self);
        }
        Algorithm::from_non_null(self.ptr)
    }
}

impl AlgorithmTraitConst for Superres_BroxOpticalFlow {
    fn as_raw_Algorithm(&self) -> (r: usize)
        ensures
            r == self.addr(),
    {
        proof {
            use_type_invariant(self);
        }
        self.ptr
    }
}

impl AlgorithmTrait for Superres_BroxOpticalFlow {
    fn as_raw_mut_Algorithm(&mut self) -> (r: usize)
        ensures
            r == old(self).addr(),
            *final(self) == *old(self),
    {
        proof {
            use_type_invariant(&*self);
        }
        self.ptr
    }
}

impl Superres_DenseOpticalFlowExtTraitConst for Superres_BroxOpticalFlow {
    fn as_raw_Superres_DenseOpticalFlowExt(&self) -> (r: usize)
        ensures
            r == self.addr(),
    {
        proof {
            use_type_invariant(self);
        }
        self.ptr
    }
}

impl Superres_DenseOpticalFlowExtTrait for Superres_BroxOpticalFlow {
    fn as_raw_mut_Superres_DenseOpticalFlowExt(&mut self) -> (r: usize)
        ensures
            r == old(self).addr(),
            *final(self) == *old(self),
    {
        proof {
            use_type_invariant(&*self);
        }
        self.ptr
    }
}

impl Superres_BroxOpticalFlowTraitConst for Superres_BroxOpticalFlow {
    fn as_raw_Superres_BroxOpticalFlow(&self) -> (r: usize)
        ensures
            r == self.addr(),
    {
        proof {
            use_type_invariant(self);
        }
        self.ptr
    }
}

impl Superres_BroxOpticalFlowTrait for Superres_BroxOpticalFlow {
    fn as_raw_mut_Superres_BroxOpticalFlow(&mut self) -> (r: usize)
        ensures
            r == old(self).addr(),
            *final(self) == *old(self),
    {
        proof {
            use_type_invariant(&*self);
        }
        self.ptr
    }
}

/// Constant methods of a dual TV-L1 optical flow estimator.
pub trait Superres_DualTVL1OpticalFlowTraitConst: Superres_DenseOpticalFlowExtTraitConst {
    /// Address of the native dual TV-L1 optical flow estimator, for calls through the constant interface.
    fn as_raw_Superres_DualTVL1OpticalFlow(&self) -> (r: usize)
        ensures
            r != 0,
    ;
}

/// Mutable methods of a dual TV-L1 optical flow estimator.
pub trait Superres_DualTVL1OpticalFlowTrait: Superres_DenseOpticalFlowExtTrait + Superres_DualTVL1OpticalFlowTraitConst {
    /// Address of the native dual TV-L1 optical flow estimator, for calls through the mutable interface.
    fn as_raw_mut_Superres_DualTVL1OpticalFlow(&mut self) -> (r: usize)
        ensures
            r != 0,
    ;
}

/// Owning handle of a native dual TV-L1 optical flow estimator.
pub struct Superres_DualTVL1OpticalFlow {
    ptr: usize,
}

impl Superres_DualTVL1OpticalFlow {
    #[verifier::type_invariant]
    spec fn non_null(self) -> bool {
        self.ptr != 0
    }

    /// Address of the native estimator this handle owns.
    pub closed spec fn addr(self) -> usize {
        self.ptr
    }

    /// Takes ownership of the native estimator at `ptr`. A null address is
    /// refused with `STS_NULL_PTR`.
    pub fn from_raw(ptr: usize) -> (r: Result<Superres_DualTVL1OpticalFlow, Error>)
        ensures
            ptr == 0 <==> r is Err,
            r matches Ok(h) ==> h.addr() == ptr,
            r matches Err(e) ==> e.code == STS_NULL_PTR,
    {
        if ptr == 0 {
            Err(Error::null_pointer())
        } else {
            Ok(Superres_DualTVL1OpticalFlow { ptr })
        }
    }

    /// Gives up the handle and returns the address of the native estimator, for
    /// the one destructor call that releases it.
    pub fn into_raw(self) -> (r: usize)
        ensures
            r == self.addr(),
            r != 0,
    {
        proof {
            use_type_invariant(&self);
        }
        self.ptr
    }

    /// The handle of a native estimator known to be non-null.
    fn from_non_null(ptr: usize) -> (r: Superres_DualTVL1OpticalFlow)
        requires
            ptr != 0,
        ensures
            r.addr() == ptr,
    {
        Superres_DualTVL1OpticalFlow { ptr }
    }

    /// Views the estimator through the dense optical flow base class. The
    /// handle is consumed and the same native object is owned by the result.
    pub fn into_dense_optical_flow_ext(self) -> (r: Superres_DenseOpticalFlowExt)
        ensures
            r.addr() == self.addr(),
    {
        proof {
            use_type_invariant(&self);
        }
        Superres_DenseOpticalFlowExt::from_non_null(self.ptr)
    }

    /// Views the estimator through the algorithm base class. The handle is
    /// consumed and the same native object is owned by the result.
    pub fn into_algorithm(self) -> (r: Algorithm)
        ensures
            r.addr() == self.addr(),
    {
        proof {
            use_type_invariant(&self);
        }
        Algorithm::from_non_null(self.ptr)
    }
}

impl AlgorithmTraitConst for Superres_DualTVL1OpticalFlow {
    fn as_raw_Algorithm(&self) -> (r: usize)
        ensures
            r == self.addr(),
    {
        proof {
            use_type_invariant(self);
        }
        self.ptr
    }
}

impl AlgorithmTrait for Superres_DualTVL1OpticalFlow {
    fn as_raw_mut_Algorithm(&mut self) -> (r: usize)
        ensures
            r == old(self).addr(),
            *final(self) == *old(self),
    {
        proof {
            use_type_invariant(&*self);
        }
        self.ptr
    }
}

impl Superres_DenseOpticalFlowExtTraitConst for Superres_DualTVL1OpticalFlow {
    fn as_raw_Superres_DenseOpticalFlowExt(&self) -> (r: usize)
        ensures
            r == self.addr(),
    {
        proof {
            use_type_invariant(self);
        }
        self.ptr
    }
}

impl Superres_DenseOpticalFlowExtTrait for Superres_DualTVL1OpticalFlow {
    fn as_raw_mut_Superres_DenseOpticalFlowExt(&mut self) -> (r: usize)
        ensures
            r == old(self).addr(),
            *final(self) == *old(self),
    {
        proof {
            use_type_invariant(&*self);
        }
        self.ptr
    }
}

impl Superres_DualTVL1OpticalFlowTraitConst for Superres_DualTVL1OpticalFlow {
    fn as_raw_Superres_DualTVL1OpticalFlow(&self) -> (r: usize)
        ensures
            r == self.addr(),
    {
        proof {
            use_type_invariant(self);
        }
        self.ptr
    }
}

impl Superres_DualTVL1OpticalFlowTrait for Superres_DualTVL1OpticalFlow {
    fn as_raw_mut_Superres_DualTVL1OpticalFlow(&mut self) -> (r: usize)
        ensures
            r == old(self).addr(),
            *final(self) == *old(self),
    {
        proof {
            use_type_invariant(&*self);
        }
        self.ptr
    }
}

/// Constant methods of a Farneback optical flow estimator.
pub trait Superres_FarnebackOpticalFlowTraitConst: Superres_DenseOpticalFlowExtTraitConst {
    /// Address of the native Farneback optical flow estimator, for calls through the constant interface.
    fn as_raw_Superres_FarnebackOpticalFlow(&self) -> (r: usize)
        ensures
            r != 0,
    ;
}

/// Mutable methods of a Farneback optical flow estimator.
pub trait Superres_FarnebackOpticalFlowTrait: Superres_DenseOpticalFlowExtTrait + Superres_FarnebackOpticalFlowTraitConst {
    /// Address of the native Farneback optical flow estimator, for calls through the mutable interface.
    fn as_raw_mut_Superres_FarnebackOpticalFlow(&mut self) -> (r: usize)
        ensures
            r != 0,
    ;
}

/// Owning handle of a native Farneback optical flow estimator.
pub struct Superres_FarnebackOpticalFlow {
    ptr: usize,
}

impl Superres_FarnebackOpticalFlow {
    #[verifier::type_invariant]
    spec fn non_null(self) -> bool {
        self.ptr != 0
    }

    /// Address of the native estimator this handle owns.
    pub closed spec fn addr(self) -> usize {
        self.ptr
    }

    /// Takes ownership of the native estimator at `ptr`. A null address is
    /// refused with `STS_NULL_PTR`.
    pub fn from_raw(ptr: usize) -> (r: Result<Superres_FarnebackOpticalFlow, Error>)
        ensures
            ptr == 0 <==> r is Err,
            r matches Ok(h) ==> h.addr() == ptr,
            r matches Err(e) ==> e.code == STS_NULL_PTR,
    {
        if ptr == 0 {
            Err(Error::null_pointer())
        } else {
            Ok(Superres_FarnebackOpticalFlow { ptr })
        }
    }

    /// Gives up the handle and returns the address of the native estimator, for
    /// the one destructor call that releases it.
    pub fn into_raw(self) -> (r: usize)
        ensures
            r == self.addr(),
            r != 0,
    {
        proof {
            use_type_invariant(&self);
        }
        self.ptr
    }

    /// The handle of a native estimator known to be non-null.
    fn from_non_null(ptr: usize) -> (r: Superres_FarnebackOpticalFlow)
        requires
            ptr != 0,
        ensures
            r.addr() == ptr,
    {
        Superres_FarnebackOpticalFlow { ptr }
    }

    /// Views the estimator through the dense optical flow base class. The
    /// handle is consumed and the same native object is owned by the result.
    pub fn into_dense_optical_flow_ext(self) -> (r: Superres_DenseOpticalFlowExt)
        ensures
            r.addr() == self.addr(),
    {
        proof {
            use_type_invariant(&self);
        }
        Superres_DenseOpticalFlowExt::from_non_null(self.ptr)
    }

    /// Views the estimator through the algorithm base class. The handle is
    /// consumed and the same native object is owned by the result.
    pub fn into_algorithm(self) -> (r: Algorithm)
        ensures
            r.addr() == self.addr(),
    {
        proof {
            use_type_invariant(&self);
        }
        Algorithm::from_non_null(self.ptr)
    }
}

impl AlgorithmTraitConst for Superres_FarnebackOpticalFlow {
    fn as_raw_Algorithm(&self) -> (r: usize)
        ensures
            r == self.addr(),
    {
        proof {
            use_type_invariant(self);
        }
        self.ptr
    }
}

impl AlgorithmTrait for Superres_FarnebackOpticalFlow {
    fn as_raw_mut_Algorithm(&mut self) -> (r: usize)
        ensures
            r == old(self).addr(),
            *final(self) == *old(self),
    {
        proof {
            use_type_invariant(&*self);
        }
        self.ptr
    }
}

impl Superres_DenseOpticalFlowExtTraitConst for Superres_FarnebackOpticalFlow {
    fn as_raw_Superres_DenseOpticalFlowExt(&self) -> (r: usize)
        ensures
            r == self.addr(),
    {
        proof {
            use_type_invariant(self);
        }
        self.ptr
    }
}

impl Superres_DenseOpticalFlowExtTrait for Superres_FarnebackOpticalFlow {
    fn as_raw_mut_Superres_DenseOpticalFlowExt(&mut self) -> (r: usize)
        ensures
            r == old(self).addr(),
            *final(self) == *old(self),
    {
        proof {
            use_type_invariant(&*self);
        }
        self.ptr
    }
}

impl Superres_FarnebackOpticalFlowTraitConst for Superres_FarnebackOpticalFlow {
    fn as_raw_Superres_FarnebackOpticalFlow(&self) -> (r: usize)
        ensures
            r == self.addr(),
    {
        proof {
            use_type_invariant(self);
        }
        self.ptr
    }
}

impl Superres_FarnebackOpticalFlowTrait for Superres_FarnebackOpticalFlow {
    fn as_raw_mut_Superres_FarnebackOpticalFlow(&mut self) -> (r: usize)
        ensures
            r == old(self).addr(),
            *final(self) == *old(self),
    {
        proof {
            use_type_invariant(&*self);
        }
        self.ptr
    }
}

/// Constant methods of a pyramidal Lucas-Kanade optical flow estimator.
pub trait Superres_PyrLKOpticalFlowTraitConst: Superres_DenseOpticalFlowExtTraitConst {
    /// Address of the native pyramidal Lucas-Kanade optical flow estimator, for calls through the constant interface.
    fn as_raw_Superres_PyrLKOpticalFlow(&self) -> (r: usize)
        ensures
            r != 0,
    ;
}

/// Mutable methods of a pyramidal Lucas-Kanade optical flow estimator.
pub trait Superres_PyrLKOpticalFlowTrait: Superres_DenseOpticalFlowExtTrait + Superres_PyrLKOpticalFlowTraitConst {
    /// Address of the native pyramidal Lucas-Kanade optical flow estimator, for calls through the mutable interface.
    fn as_raw_mut_Superres_PyrLKOpticalFlow(&mut self) -> (r: usize)
        ensures
            r != 0,
    ;
}

/// Owning handle of a native pyramidal Lucas-Kanade optical flow estimator.
pub struct Superres_PyrLKOpticalFlow {
    ptr: usize,
}

impl Superres_PyrLKOpticalFlow {
    #[verifier::type_invariant]
    spec fn non_null(self) -> bool {
        self.ptr != 0
    }

    /// Address of the native estimator this handle owns.
    pub closed spec fn addr(self) -> usize {
        self.ptr
    }

    /// Takes ownership of the native estimator at `ptr`. A null address is
    /// refused with `STS_NULL_PTR`.
    pub fn from_raw(ptr: usize) -> (r: Result<Superres_PyrLKOpticalFlow, Error>)
        ensures
            ptr == 0 <==> r is Err,
            r matches Ok(h) ==> h.addr() == ptr,
            r matches Err(e) ==> e.code == STS_NULL_PTR,
    {
        if ptr == 0 {
            Err(Error::null_pointer())
        } else {
            Ok(Superres_PyrLKOpticalFlow { ptr })
        }
    }

    /// Gives up the handle and returns the address of the native estimator, for
    /// the one destructor call that releases it.
    pub fn into_raw(self) -> (r: usize)
        ensures
            r == self.addr(),
            r != 0,
    {
        proof {
            use_type_invariant(&self);
        }
        self.ptr
    }

    /// The handle of a native estimator known to be non-null.
    fn from_non_null(ptr: usize) -> (r: Superres_PyrLKOpticalFlow)
        requires
            ptr != 0,
        ensures
            r.addr() == ptr,
    {
        Superres_PyrLKOpticalFlow { ptr }
    }

    /// Views the estimator through the dense optical flow base class. The
    /// handle is consumed and the same native object is owned by the result.
    pub fn into_dense_optical_flow_ext(self) -> (r: Superres_DenseOpticalFlowExt)
        ensures
            r.addr() == self.addr(),
    {
        proof {
            use_type_invariant(&self);
        }
        Superres_DenseOpticalFlowExt::from_non_null(self.ptr)
    }

    /// Views the estimator through the algorithm base class. The handle is
    /// consumed and the same native object is owned by the result.
    pub fn into_algorithm(self) -> (r: Algorithm)
        ensures
            r.addr() == self.addr(),
    {
        proof {
            use_type_invariant(&self);
        }
        Algorithm::from_non_null(self.ptr)
    }
}

impl AlgorithmTraitConst for Superres_PyrLKOpticalFlow {
    fn as_raw_Algorithm(&self) -> (r: usize)
        ensures
            r == self.addr(),
    {
        proof {
            use_type_invariant(self);
        }
        self.ptr
    }
}

impl AlgorithmTrait for Superres_PyrLKOpticalFlow {
    fn as_raw_mut_Algorithm(&mut self) -> (r: usize)
        ensures
            r == old(self).addr(),
            *final(self) == *old(self),
    {
        proof {
            use_type_invariant(&*self);
        }
        self.ptr
    }
}

impl Superres_DenseOpticalFlowExtTraitConst for Superres_PyrLKOpticalFlow {
    fn as_raw_Superres_DenseOpticalFlowExt(&self) -> (r: usize)
        ensures
            r == self.addr(),
    {
        proof {
            use_type_invariant(self);
        }
        self.ptr
    }
}

impl Superres_DenseOpticalFlowExtTrait for Superres_PyrLKOpticalFlow {
    fn as_raw_mut_Superres_DenseOpticalFlowExt(&mut self) -> (r: usize)
        ensures
            r == old(self).addr(),
            *final(self) == *old(self),
    {
        proof {
            use_type_invariant(&*self);
        }
        self.ptr
    }
}

impl Superres_PyrLKOpticalFlowTraitConst for Superres_PyrLKOpticalFlow {
    fn as_raw_Superres_PyrLKOpticalFlow(&self) -> (r: usize)
        ensures
            r == self.addr(),
    {
        proof {
            use_type_invariant(self);
        }
        self.ptr
    }
}

impl Superres_PyrLKOpticalFlowTrait for Superres_PyrLKOpticalFlow {
    fn as_raw_mut_Superres_PyrLKOpticalFlow(&mut self) -> (r: usize)
        ensures
            r == old(self).addr(),
            *final(self) == *old(self),
    {
        proof {
            use_type_invariant(&*self);
        }
        self.ptr
    }
}

/// Which native factory makes a frame source, with its marshalled arguments.
#[derive(Debug)]
pub enum FrameSourceArgs {
    /// Frames from the camera with the given device id.
    Camera { device_id: i32 },
    /// A source that yields no frames.
    Empty,
    /// Frames decoded from a video file, named by a zero-terminated string.
    Video { file_name: Vec<u8> },
    /// Frames decoded on the GPU from a video file, named as for `Video`.
    VideoCuda { file_name: Vec<u8> },
}

/// Device id a camera source uses when none is given.
pub const DEFAULT_CAMERA_DEVICE_ID: i32 = 0;

impl FrameSourceArgs {
    /// A camera source on the given device.
    pub fn camera(device_id: i32) -> (r: FrameSourceArgs)
        ensures
            r == (FrameSourceArgs::Camera { device_id }),
    {
        FrameSourceArgs::Camera { device_id }
    }

    /// A camera source on the default device; the same as `camera(0)`.
    pub fn camera_def() -> (r: FrameSourceArgs)
        ensures
            r == (FrameSourceArgs::Camera { device_id: 0 }),
    {
        FrameSourceArgs::camera(DEFAULT_CAMERA_DEVICE_ID)
    }

    /// A source that yields no frames.
    pub fn empty() -> (r: FrameSourceArgs)
        ensures
            r is Empty,
    {
        FrameSourceArgs::Empty
    }

    /// A video file source. Fails with `STS_BAD_ARG` if the name holds a zero byte.
    pub fn video(file_name: &str) -> (r: Result<FrameSourceArgs, Error>)
        ensures
            c_string_of(file_name@) is None <==> r is Err,
            r matches Ok(a) ==> (a matches FrameSourceArgs::Video { file_name: f } && c_string_of(
                file_name@,
            ) == Some(f@)),
            r matches Err(e) ==> e.code == STS_BAD_ARG,
    {
        match string_arg(file_name) {
            Ok(f) => Ok(FrameSourceArgs::Video { file_name: f }),
            Err(e) => Err(e),
        }
    }

    /// A video file source decoded on the GPU. Fails with `STS_BAD_ARG` if the
    /// name holds a zero byte.
    pub fn video_cuda(file_name: &str) -> (r: Result<FrameSourceArgs, Error>)
        ensures
            c_string_of(file_name@) is None <==> r is Err,
            r matches Ok(a) ==> (a matches FrameSourceArgs::VideoCuda { file_name: f }
                && c_string_of(file_name@) == Some(f@)),
            r matches Err(e) ==> e.code == STS_BAD_ARG,
    {
        match string_arg(file_name) {
            Ok(f) => Ok(FrameSourceArgs::VideoCuda { file_name: f }),
            Err(e) => Err(e),
        }
    }
}

/// Constant methods of a frame source.
pub trait Superres_FrameSourceTraitConst {
    /// Address of the native frame source, for calls through the constant interface.
    fn as_raw_Superres_FrameSource(&self) -> (r: usize)
        ensures
            r != 0,
    ;
}

/// Mutable methods of a frame source.
pub trait Superres_FrameSourceTrait: Superres_FrameSourceTraitConst {
    /// Address of the native frame source, for calls through the mutable interface.
    fn as_raw_mut_Superres_FrameSource(&mut self) -> (r: usize)
        ensures
            r != 0,
    ;
}

/// Owning handle of a native source of video frames.
pub struct Superres_FrameSource {
    ptr: usize,
}

impl Superres_FrameSource {
    #[verifier::type_invariant]
    spec fn non_null(self) -> bool {
        self.ptr != 0
    }

    /// Address of the native frame source this handle owns.
    pub closed spec fn addr(self) -> usize {
        self.ptr
    }

    /// Takes ownership of the native frame source at `ptr`. A null address is
    /// refused with `STS_NULL_PTR`.
    pub fn from_raw(ptr: usize) -> (r: Result<Superres_FrameSource, Error>)
        ensures
            ptr == 0 <==> r is Err,
            r matches Ok(h) ==> h.addr() == ptr,
            r matches Err(e) ==> e.code == STS_NULL_PTR,
    {
        if ptr == 0 {
            Err(Error::null_pointer())
        } else {
            Ok(Superres_FrameSource { ptr })
        }
    }

    /// Gives up the handle and returns the address of the native frame source, for
    /// the one destructor call that releases it.
    pub fn into_raw(self) -> (r: usize)
        ensures
            r == self.addr(),
            r != 0,
    {
        proof {
            use_type_invariant(&self);
        }
        self.ptr
    }

    /// The handle of a native frame source known to be non-null.
    fn from_non_null(ptr: usize) -> (r: Superres_FrameSource)
        requires
            ptr != 0,
        ensures
            r.addr() == ptr,
    {
        Superres_FrameSource { ptr }
    }
}

impl Superres_FrameSourceTraitConst for Superres_FrameSource {
    fn as_raw_Superres_FrameSource(&self) -> (r: usize)
        ensures
            r == self.addr(),
    {
        proof {
            use_type_invariant(self);
        }
        self.ptr
    }
}

impl Superres_FrameSourceTrait for Superres_FrameSource {
    fn as_raw_mut_Superres_FrameSource(&mut self) -> (r: usize)
        ensures
            r == old(self).addr(),
            *final(self) == *old(self),
    {
        proof {
            use_type_invariant(&*self);
        }
        self.ptr
    }
}

/// Constant methods of a super-resolution algorithm.
pub trait Superres_SuperResolutionTraitConst: AlgorithmTraitConst + Superres_FrameSourceTraitConst {
    /// Address of the native super-resolution algorithm, for calls through the constant interface.
    fn as_raw_Superres_SuperResolution(&self) -> (r: usize)
        ensures
            r != 0,
    ;
}

/// Mutable methods of a super-resolution algorithm.
pub trait Superres_SuperResolutionTrait: AlgorithmTrait + Superres_FrameSourceTrait + Superres_SuperResolutionTraitConst {
    /// Address of the native super-resolution algorithm, for calls through the mutable interface.
    fn as_raw_mut_Superres_SuperResolution(&mut self) -> (r: usize)
        ensures
            r != 0,
    ;
}

/// Owning handle of a native super-resolution algorithm. Such an algorithm
/// is itself a frame source: it hands out the frames it has enhanced.
pub struct Superres_SuperResolution {
    ptr: usize,
}

impl Superres_SuperResolution {
    #[verifier::type_invariant]
    spec fn non_null(self) -> bool {
        self.ptr != 0
    }

    /// Address of the native algorithm this handle owns.
    pub closed spec fn addr(self) -> usize {
        self.ptr
    }

    /// Takes ownership of the native algorithm at `ptr`. A null address is
    /// refused with `STS_NULL_PTR`.
    pub fn from_raw(ptr: usize) -> (r: Result<Superres_SuperResolution, Error>)
        ensures
            ptr == 0 <==> r is Err,
            r matches Ok(h) ==> h.addr() == ptr,
            r matches Err(e) ==> e.code == STS_NULL_PTR,
    {
        if ptr == 0 {
            Err(Error::null_pointer())
        } else {
            Ok(Superres_SuperResolution { ptr })
        }
    }

    /// Gives up the handle and returns the address of the native algorithm, for
    /// the one destructor call that releases it.
    pub fn into_raw(self) -> (r: usize)
        ensures
            r == self.addr(),
            r != 0,
    {
        proof {
            use_type_invariant(&self);
        }
        self.ptr
    }

    /// Views the super-resolution algorithm through the algorithm base class. The handle is
    /// consumed and the same native object is owned by the result.
    pub fn into_algorithm(self) -> (r: Algorithm)
        ensures
            r.addr() == self.addr(),
    {
        proof {
            use_type_invariant(&self);
        }
        Algorithm::from_non_null(self.ptr)
    }

    /// Views the algorithm as the frame source it also is. The handle is
    /// consumed and the same native object is owned by the result.
    pub fn into_frame_source(self) -> (r: Superres_FrameSource)
        ensures
            r.addr() == self.addr(),
    {
        proof {
            use_type_invariant(&self);
        }
        Superres_FrameSource::from_non_null(self.ptr)
    }

    /// Arguments of the call that sets the algorithm's input frame source.
    /// A source that is not set is refused with `STS_NULL_PTR` and no native
    /// call is to be made. The source stays owned by the caller.
    pub fn set_input_args(&mut self, frame_source: Option<&Superres_FrameSource>) -> (r: Result<AttachArgs, Error>)
        ensures
            *final(self) == *old(self),
            frame_source is None <==> r is Err,
            r matches Err(e) ==> e.code == STS_NULL_PTR,
            r matches Ok(a) ==> a.target == old(self).addr() && a.target != 0
                && a.attached == frame_source.unwrap().addr() && a.attached != 0,
    {
        match frame_source {
            Some(source) => {
                let target = self.as_raw_mut_Superres_SuperResolution();
                let attached = source.as_raw_Superres_FrameSource();
                Ok(AttachArgs { target, attached })
            },
            None => Err(Error::null_pointer()),
        }
    }

    /// Arguments of the call that sets the dense optical flow estimator the
    /// algorithm uses. An estimator that is not set is refused with
    /// `STS_NULL_PTR` and no native call is to be made. The estimator stays
    /// owned by the caller.
    pub fn set_optical_flow_args(&mut self, val: Option<&Superres_DenseOpticalFlowExt>) -> (r: Result<AttachArgs, Error>)
        ensures
            *final(self) == *old(self),
            val is None <==> r is Err,
            r matches Err(e) ==> e.code == STS_NULL_PTR,
            r matches Ok(a) ==> a.target == old(self).addr() && a.target != 0
                && a.attached == val.unwrap().addr() && a.attached != 0,
    {
        match val {
            Some(flow) => {
                let target = self.as_raw_mut_Superres_SuperResolution();
                let attached = flow.as_raw_Superres_DenseOpticalFlowExt();
                Ok(AttachArgs { target, attached })
            },
            None => Err(Error::null_pointer()),
        }
    }
}

impl AlgorithmTraitConst for Superres_SuperResolution {
    fn as_raw_Algorithm(&self) -> (r: usize)
        ensures
            r == self.addr(),
    {
        proof {
            use_type_invariant(self);
        }
        self.ptr
    }
}

impl AlgorithmTrait for Superres_SuperResolution {
    fn as_raw_mut_Algorithm(&mut self) -> (r: usize)
        ensures
            r == old(self).addr(),
            *final(self) == *old(self),
    {
        proof {
            use_type_invariant(&*self);
        }
        self.ptr
    }
}

impl Superres_FrameSourceTraitConst for Superres_SuperResolution {
    fn as_raw_Superres_FrameSource(&self) -> (r: usize)
        ensures
            r == self.addr(),
    {
        proof {
            use_type_invariant(self);
        }
        self.ptr
    }
}

impl Superres_FrameSourceTrait for Superres_SuperResolution {
    fn as_raw_mut_Superres_FrameSource(&mut self) -> (r: usize)
        ensures
            r == old(self).addr(),
            *final(self) == *old(self),
    {
        proof {
            use_type_invariant(&*self);
        }
        self.ptr
    }
}

impl Superres_SuperResolutionTraitConst for Superres_SuperResolution {
    fn as_raw_Superres_SuperResolution(&self) -> (r: usize)
        ensures
            r == self.addr(),
    {
        proof {
            use_type_invariant(self);
        }
        self.ptr
    }
}

impl Superres_SuperResolutionTrait for Superres_SuperResolution {
    fn as_raw_mut_Superres_SuperResolution(&mut self) -> (r: usize)
        ensures
            r == old(self).addr(),
            *final(self) == *old(self),
    {
        proof {
            use_type_invariant(&*self);
        }
        self.ptr
    }
}

} // verus!
