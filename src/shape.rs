//! Shape distance and matching.
use vstd::prelude::*;

use crate::algorithm::{Algorithm, AlgorithmTrait, AlgorithmTraitConst, AttachArgs};
use crate::error::{Error, STS_NULL_PTR};

verus! {

/// Abstract base of shape transformation algorithms.
pub trait ShapeTransformer: AlgorithmTrait {
    /// Address of the native shape transformer.
    fn as_raw_ShapeTransformer(&self) -> (r: usize)
        ensures
            r != 0,
    ;
}

/// Abstract base of histogram cost algorithms.
pub trait HistogramCostExtractor: AlgorithmTrait {
    /// Address of the native histogram cost extractor.
    fn as_raw_HistogramCostExtractor(&self) -> (r: usize)
        ensures
            r != 0,
    ;
}

/// Abstract base of shape distance algorithms.
pub trait ShapeDistanceExtractor: AlgorithmTrait {
    /// Address of the native shape distance extractor.
    fn as_raw_ShapeDistanceExtractor(&self) -> (r: usize)
        ensures
            r != 0,
    ;
}

/// Affine transformation between shapes.
pub trait AffineTransformer: ShapeTransformer {
    /// Address of the native affine transformer.
    fn as_raw_AffineTransformer(&self) -> (r: usize)
        ensures
            r != 0,
    ;
}

/// Thin-plate spline transformation between shapes.
pub trait ThinPlateSplineShapeTransformer: ShapeTransformer {
    /// Address of the native thin-plate spline transformer.
    fn as_raw_ThinPlateSplineShapeTransformer(&self) -> (r: usize)
        ensures
            r != 0,
    ;
}

/// Cost extraction based on the Chi-squared distance.
pub trait ChiHistogramCostExtractor: HistogramCostExtractor {
    /// Address of the native Chi-squared cost extractor.
    fn as_raw_ChiHistogramCostExtractor(&self) -> (r: usize)
        ensures
            r != 0,
    ;
}

/// Cost extraction based on the Earth Mover's Distance.
pub trait EMDHistogramCostExtractor: HistogramCostExtractor {
    /// Address of the native EMD cost extractor.
    fn as_raw_EMDHistogramCostExtractor(&self) -> (r: usize)
        ensures
            r != 0,
    ;
}

/// Cost extraction based on the EMD-L1 distance.
pub trait EMDL1HistogramCostExtractor: HistogramCostExtractor {
    /// Address of the native EMD-L1 cost extractor.
    fn as_raw_EMDL1HistogramCostExtractor(&self) -> (r: usize)
        ensures
            r != 0,
    ;
}

/// Cost extraction based on a norm.
pub trait NormHistogramCostExtractor: HistogramCostExtractor {
    /// Address of the native norm cost extractor.
    fn as_raw_NormHistogramCostExtractor(&self) -> (r: usize)
        ensures
            r != 0,
    ;
}

/// Hausdorff distance between shapes given by contours.
pub trait HausdorffDistanceExtractor: ShapeDistanceExtractor {
    /// Address of the native Hausdorff distance extractor.
    fn as_raw_HausdorffDistanceExtractor(&self) -> (r: usize)
        ensures
            r != 0,
    ;
}

/// Shape context descriptor and matching.
pub trait ShapeContextDistanceExtractor: ShapeDistanceExtractor {
    /// Address of the native shape context distance extractor.
    fn as_raw_ShapeContextDistanceExtractor(&self) -> (r: usize)
        ensures
            r != 0,
    ;
}

/// Owning handle of a native shape transformer, seen through its base class.
pub struct PtrOfShapeTransformer {
    ptr: usize,
}

impl PtrOfShapeTransformer {
    #[verifier::type_invariant]
    spec fn non_null(self) -> bool {
        self.ptr != 0
    }

    /// Address of the native shape transformer this handle owns.
    pub closed spec fn addr(self) -> usize {
        self.ptr
    }

    /// Takes ownership of the native shape transformer at `ptr`. A null address is
    /// refused with `STS_NULL_PTR`.
    pub fn from_raw(ptr: usize) -> (r: Result<PtrOfShapeTransformer, Error>)
        ensures
            ptr == 0 <==> r is Err,
            r matches Ok(h) ==> h.addr() == ptr,
            r matches Err(e) ==> e.code == STS_NULL_PTR,
    {
        if ptr == 0 {
            Err(Error::null_pointer())
        } else {
            Ok(PtrOfShapeTransformer { ptr })
        }
    }

    /// Gives up the handle and returns the address of the native shape transformer, for
    /// the one destructor call that releases it.
    pub fn into_raw(self) -> (r: usize)
        ensures
            r == self.addr(),
            r != 0,
    {
        proof {
            use_type_invariant(&self);
        }
        self.ptr
    }

    /// The handle of a native shape transformer known to be non-null.
    fn from_non_null(ptr: usize) -> (r: PtrOfShapeTransformer)
        requires
            ptr != 0,
        ensures
            r.addr() == ptr,
    {
        PtrOfShapeTransformer { ptr }
    }

    /// Views the shape transformer through the algorithm base class. The handle is
    /// consumed and the same native object is owned by the result.
    pub fn into_algorithm(self) -> (r: Algorithm)
        ensures
            r.addr() == self.addr(),
    {
        proof {
            use_type_invariant(&self);
        }
        Algorithm::from_non_null(self.ptr)
    }
}

impl AlgorithmTraitConst for PtrOfShapeTransformer {
    fn as_raw_Algorithm(&self) -> (r: usize)
        ensures
            r == self.addr(),
    {
        proof {
            use_type_invariant(self);
        }
        self.ptr
    }
}

impl AlgorithmTrait for PtrOfShapeTransformer {
    fn as_raw_mut_Algorithm(&mut self) -> (r: usize)
        ensures
            r == old(self).addr(),
            *final(self) == *old(self),
    {
        proof {
            use_type_invariant(&*self);
        }
        self.ptr
    }
}

impl ShapeTransformer for PtrOfShapeTransformer {
    fn as_raw_ShapeTransformer(&self) -> (r: usize)
        ensures
            r == self.addr(),
    {
        proof {
            use_type_invariant(self);
        }
        self.ptr
    }
}

/// Owning handle of a native histogram cost extractor, seen through its base class.
pub struct PtrOfHistogramCostExtractor {
    ptr: usize,
}

impl PtrOfHistogramCostExtractor {
    #[verifier::type_invariant]
    spec fn non_null(self) -> bool {
        self.ptr != 0
    }

    /// Address of the native histogram cost extractor this handle owns.
    pub closed spec fn addr(self) -> usize {
        self.ptr
    }

    /// Takes ownership of the native histogram cost extractor at `ptr`. A null address is
    /// refused with `STS_NULL_PTR`.
    pub fn from_raw(ptr: usize) -> (r: Result<PtrOfHistogramCostExtractor, Error>)
        ensures
            ptr == 0 <==> r is Err,
            r matches Ok(h) ==> h.addr() == ptr,
            r matches Err(e) ==> e.code == STS_NULL_PTR,
    {
        if ptr == 0 {
            Err(Error::null_pointer())
        } else {
            Ok(PtrOfHistogramCostExtractor { ptr })
        }
    }

    /// Gives up the handle and returns the address of the native histogram cost extractor, for
    /// the one destructor call that releases it.
    pub fn into_raw(self) -> (r: usize)
        ensures
            r == self.addr(),
            r != 0,
    {
        proof {
            use_type_invariant(&self);
        }
        self.ptr
    }

    /// The handle of a native histogram cost extractor known to be non-null.
    fn from_non_null(ptr: usize) -> (r: PtrOfHistogramCostExtractor)
        requires
            ptr != 0,
        ensures
            r.addr() == ptr,
    {
        PtrOfHistogramCostExtractor { ptr }
    }

    /// Views the histogram cost extractor through the algorithm base class. The handle is
    /// consumed and the same native object is owned by the result.
    pub fn into_algorithm(self) -> (r: Algorithm)
        ensures
            r.addr() == self.addr(),
    {
        proof {
            use_type_invariant(&self);
        }
        Algorithm::from_non_null(self.ptr)
    }
}

impl AlgorithmTraitConst for PtrOfHistogramCostExtractor {
    fn as_raw_Algorithm(&self) -> (r: usize)
        ensures
            r == self.addr(),
    {
        proof {
            use_type_invariant(self);
        }
        self.ptr
    }
}

impl AlgorithmTrait for PtrOfHistogramCostExtractor {
    fn as_raw_mut_Algorithm(&mut self) -> (r: usize)
        ensures
            r == old(self).addr(),
            *final(self) == *old(self),
    {
        proof {
            use_type_invariant(&*self);
        }
        self.ptr
    }
}

impl HistogramCostExtractor for PtrOfHistogramCostExtractor {
    fn as_raw_HistogramCostExtractor(&self) -> (r: usize)
        ensures
            r == self.addr(),
    {
        proof {
            use_type_invariant(self);
        }
        self.ptr
    }
}

/// Owning handle of a native shape distance extractor, seen through its base class.
pub struct PtrOfShapeDistanceExtractor {
    ptr: usize,
}

impl PtrOfShapeDistanceExtractor {
    #[verifier::type_invariant]
    spec fn non_null(self) -> bool {
        self.ptr != 0
    }

    /// Address of the native shape distance extractor this handle owns.
    pub closed spec fn addr(self) -> usize {
        self.ptr
    }

    /// Takes ownership of the native shape distance extractor at `ptr`. A null address is
    /// refused with `STS_NULL_PTR`.
    pub fn from_raw(ptr: usize) -> (r: Result<PtrOfShapeDistanceExtractor, Error>)
        ensures
            ptr == 0 <==> r is Err,
            r matches Ok(h) ==> h.addr() == ptr,
            r matches Err(e) ==> e.code == STS_NULL_PTR,
    {
        if ptr == 0 {
            Err(Error::null_pointer())
        } else {
            Ok(PtrOfShapeDistanceExtractor { ptr })
        }
    }

    /// Gives up the handle and returns the address of the native shape distance extractor, for
    /// the one destructor call that releases it.
    pub fn into_raw(self) -> (r: usize)
        ensures
            r == self.addr(),
            r != 0,
    {
        proof {
            use_type_invariant(&self);
        }
        self.ptr
    }

    /// The handle of a native shape distance extractor known to be non-null.
    fn from_non_null(ptr: usize) -> (r: PtrOfShapeDistanceExtractor)
        requires
            ptr != 0,
        ensures
            r.addr() == ptr,
    {
        PtrOfShapeDistanceExtractor { ptr }
    }

    /// Views the shape distance extractor through the algorithm base class. The handle is
    /// consumed and the same native object is owned by the result.
    pub fn into_algorithm(self) -> (r: Algorithm)
        ensures
            r.addr() == self.addr(),
    {
        proof {
            use_type_invariant(&self);
        }
        Algorithm::from_non_null(self.ptr)
    }
}

impl AlgorithmTraitConst for PtrOfShapeDistanceExtractor {
    fn as_raw_Algorithm(&self) -> (r: usize)
        ensures
            r == self.addr(),
    {
        proof {
            use_type_invariant(self);
        }
        self.ptr
    }
}

impl AlgorithmTrait for PtrOfShapeDistanceExtractor {
    fn as_raw_mut_Algorithm(&mut self) -> (r: usize)
        ensures
            r == old(self).addr(),
            *final(self) == *old(self),
    {
        proof {
            use_type_invariant(&*self);
        }
        self.ptr
    }
}

impl ShapeDistanceExtractor for PtrOfShapeDistanceExtractor {
    fn as_raw_ShapeDistanceExtractor(&self) -> (r: usize)
        ensures
            r == self.addr(),
    {
        proof {
            use_type_invariant(self);
        }
        self.ptr
    }
}

/// Owning handle of a native affine transformer.
pub struct PtrOfAffineTransformer {
    ptr: usize,
}

impl PtrOfAffineTransformer {
    #[verifier::type_invariant]
    spec fn non_null(self) -> bool {
        self.ptr != 0
    }

    /// Address of the native affine transformer this handle owns.
    pub closed spec fn addr(self) -> usize {
        self.ptr
    }

    /// Takes ownership of the native affine transformer at `ptr`. A null address is
    /// refused with `STS_NULL_PTR`.
    pub fn from_raw(ptr: usize) -> (r: Result<PtrOfAffineTransformer, Error>)
        ensures
            ptr == 0 <==> r is Err,
            r matches Ok(h) ==> h.addr() == ptr,
            r matches Err(e) ==> e.code == STS_NULL_PTR,
    {
        if ptr == 0 {
            Err(Error::null_pointer())
        } else {
            Ok(PtrOfAffineTransformer { ptr })
        }
    }

    /// Gives up the handle and returns the address of the native affine transformer, for
    /// the one destructor call that releases it.
    pub fn into_raw(self) -> (r: usize)
        ensures
            r == self.addr(),
            r != 0,
    {
        proof {
            use_type_invariant(&self);
        }
        self.ptr
    }

    /// Views the affine transformer through its base class. The handle is consumed and
    /// the same native object is owned by the result.
    pub fn into_shape_transformer(self) -> (r: PtrOfShapeTransformer)
        ensures
            r.addr() == self.addr(),
    {
        proof {
            use_type_invariant(&self);
        }
        PtrOfShapeTransformer::from_non_null(self.ptr)
    }

    /// Views the affine transformer through the algorithm base class. The handle is
    /// consumed and the same native object is owned by the result.
    pub fn into_algorithm(self) -> (r: Algorithm)
        ensures
            r.addr() == self.addr(),
    {
        proof {
            use_type_invariant(&self);
        }
        Algorithm::from_non_null(self.ptr)
    }
}

impl AlgorithmTraitConst for PtrOfAffineTransformer {
    fn as_raw_Algorithm(&self) -> (r: usize)
        ensures
            r == self.addr(),
    {
        proof {
            use_type_invariant(self);
        }
        self.ptr
    }
}

impl AlgorithmTrait for PtrOfAffineTransformer {
    fn as_raw_mut_Algorithm(&mut self) -> (r: usize)
        ensures
            r == old(self).addr(),
            *final(self) == *old(self),
    {
        proof {
            use_type_invariant(&*self);
        }
        self.ptr
    }
}

impl ShapeTransformer for PtrOfAffineTransformer {
    fn as_raw_ShapeTransformer(&self) -> (r: usize)
        ensures
            r == self.addr(),
    {
        proof {
            use_type_invariant(self);
        }
        self.ptr
    }
}

impl AffineTransformer for PtrOfAffineTransformer {
    fn as_raw_AffineTransformer(&self) -> (r: usize)
        ensures
            r == self.addr(),
    {
        proof {
            use_type_invariant(self);
        }
        self.ptr
    }
}

/// Owning handle of a native thin-plate spline transformer.
pub struct PtrOfThinPlateSplineShapeTransformer {
    ptr: usize,
}

impl PtrOfThinPlateSplineShapeTransformer {
    #[verifier::type_invariant]
    spec fn non_null(self) -> bool {
        self.ptr != 0
    }

    /// Address of the native thin-plate spline transformer this handle owns.
    pub closed spec fn addr(self) -> usize {
        self.ptr
    }

    /// Takes ownership of the native thin-plate spline transformer at `ptr`. A null address is
    /// refused with `STS_NULL_PTR`.
    pub fn from_raw(ptr: usize) -> (r: Result<PtrOfThinPlateSplineShapeTransformer, Error>)
        ensures
            ptr == 0 <==> r is Err,
            r matches Ok(h) ==> h.addr() == ptr,
            r matches Err(e) ==> e.code == STS_NULL_PTR,
    {
        if ptr == 0 {
            Err(Error::null_pointer())
        } else {
            Ok(PtrOfThinPlateSplineShapeTransformer { ptr })
        }
    }

    /// Gives up the handle and returns the address of the native thin-plate spline transformer, for
    /// the one destructor call that releases it.
    pub fn into_raw(self) -> (r: usize)
        ensures
            r == self.addr(),
            r != 0,
    {
        proof {
            use_type_invariant(&self);
        }
        self.ptr
    }

    /// Views the thin-plate spline transformer through its base class. The handle is consumed and
    /// the same native object is owned by the result.
    pub fn into_shape_transformer(self) -> (r: PtrOfShapeTransformer)
        ensures
            r.addr() == self.addr(),
    {
        proof {
            use_type_invariant(&self);
        }
        PtrOfShapeTransformer::from_non_null(self.ptr)
    }

    /// Views the thin-plate spline transformer through the algorithm base class. The handle is
    /// consumed and the same native object is owned by the result.
    pub fn into_algorithm(self) -> (r: Algorithm)
        ensures
            r.addr() == self.addr(),
    {
        proof {
            use_type_invariant(&self);
        }
        Algorithm::from_non_null(self.ptr)
    }
}

impl AlgorithmTraitConst for PtrOfThinPlateSplineShapeTransformer {
    fn as_raw_Algorithm(&self) -> (r: usize)
        ensures
            r == self.addr(),
    {
        proof {
            use_type_invariant(self);
        }
        self.ptr
    }
}

impl AlgorithmTrait for PtrOfThinPlateSplineShapeTransformer {
    fn as_raw_mut_Algorithm(&mut self) -> (r: usize)
        ensures
            r == old(self).addr(),
            *final(self) == *old(self),
    {
        proof {
            use_type_invariant(&*self);
        }
        self.ptr
    }
}

impl ShapeTransformer for PtrOfThinPlateSplineShapeTransformer {
    fn as_raw_ShapeTransformer(&self) -> (r: usize)
        ensures
            r == self.addr(),
    {
        proof {
            use_type_invariant(self);
        }
        self.ptr
    }
}

impl ThinPlateSplineShapeTransformer for PtrOfThinPlateSplineShapeTransformer {
    fn as_raw_ThinPlateSplineShapeTransformer(&self) -> (r: usize)
        ensures
            r == self.addr(),
    {
        proof {
            use_type_invariant(self);
        }
        self.ptr
    }
}

/// Owning handle of a native Chi-squared cost extractor.
pub struct PtrOfChiHistogramCostExtractor {
    ptr: usize,
}

impl PtrOfChiHistogramCostExtractor {
    #[verifier::type_invariant]
    spec fn non_null(self) -> bool {
        self.ptr != 0
    }

    /// Address of the native Chi-squared cost extractor this handle owns.
    pub closed spec fn addr(self) -> usize {
        self.ptr
    }

    /// Takes ownership of the native Chi-squared cost extractor at `ptr`. A null address is
    /// refused with `STS_NULL_PTR`.
    pub fn from_raw(ptr: usize) -> (r: Result<PtrOfChiHistogramCostExtractor, Error>)
        ensures
            ptr == 0 <==> r is Err,
            r matches Ok(h) ==> h.addr() == ptr,
            r matches Err(e) ==> e.code == STS_NULL_PTR,
    {
        if ptr == 0 {
            Err(Error::null_pointer())
        } else {
            Ok(PtrOfChiHistogramCostExtractor { ptr })
        }
    }

    /// Gives up the handle and returns the address of the native Chi-squared cost extractor, for
    /// the one destructor call that releases it.
    pub fn into_raw(self) -> (r: usize)
        ensures
            r == self.addr(),
            r != 0,
    {
        proof {
            use_type_invariant(&self);
        }
        self.ptr
    }

    /// Views the Chi-squared cost extractor through its base class. The handle is consumed and
    /// the same native object is owned by the result.
    pub fn into_histogram_cost_extractor(self) -> (r: PtrOfHistogramCostExtractor)
        ensures
            r.addr() == self.addr(),
    {
        proof {
            use_type_invariant(&self);
        }
        PtrOfHistogramCostExtractor::from_non_null(self.ptr)
    }

    /// Views the Chi-squared cost extractor through the algorithm base class. The handle is
    /// consumed and the same native object is owned by the result.
    pub fn into_algorithm(self) -> (r: Algorithm)
        ensures
            r.addr() == self.addr(),
    {
        proof {
            use_type_invariant(&self);
        }
        Algorithm::from_non_null(self.ptr)
    }
}

impl AlgorithmTraitConst for PtrOfChiHistogramCostExtractor {
    fn as_raw_Algorithm(&self) -> (r: usize)
        ensures
            r == self.addr(),
    {
        proof {
            use_type_invariant(self);
        }
        self.ptr
    }
}

impl AlgorithmTrait for PtrOfChiHistogramCostExtractor {
    fn as_raw_mut_Algorithm(&mut self) -> (r: usize)
        ensures
            r == old(self).addr(),
            *final(self) == *old(self),
    {
        proof {
            use_type_invariant(&*self);
        }
        self.ptr
    }
}

impl HistogramCostExtractor for PtrOfChiHistogramCostExtractor {
    fn as_raw_HistogramCostExtractor(&self) -> (r: usize)
        ensures
            r == self.addr(),
    {
        proof {
            use_type_invariant(self);
        }
        self.ptr
    }
}

impl ChiHistogramCostExtractor for PtrOfChiHistogramCostExtractor {
    fn as_raw_ChiHistogramCostExtractor(&self) -> (r: usize)
        ensures
            r == self.addr(),
    {
        proof {
            use_type_invariant(self);
        }
        self.ptr
    }
}

/// Owning handle of a native EMD cost extractor.
pub struct PtrOfEMDHistogramCostExtractor {
    ptr: usize,
}

impl PtrOfEMDHistogramCostExtractor {
    #[verifier::type_invariant]
    spec fn non_null(self) -> bool {
        self.ptr != 0
    }

    /// Address of the native EMD cost extractor this handle owns.
    pub closed spec fn addr(self) -> usize {
        self.ptr
    }

    /// Takes ownership of the native EMD cost extractor at `ptr`. A null address is
    /// refused with `STS_NULL_PTR`.
    pub fn from_raw(ptr: usize) -> (r: Result<PtrOfEMDHistogramCostExtractor, Error>)
        ensures
            ptr == 0 <==> r is Err,
            r matches Ok(h) ==> h.addr() == ptr,
            r matches Err(e) ==> e.code == STS_NULL_PTR,
    {
        if ptr == 0 {
            Err(Error::null_pointer())
        } else {
            Ok(PtrOfEMDHistogramCostExtractor { ptr })
        }
    }

    /// Gives up the handle and returns the address of the native EMD cost extractor, for
    /// the one destructor call that releases it.
    pub fn into_raw(self) -> (r: usize)
        ensures
            r == self.addr(),
            r != 0,
    {
        proof {
            use_type_invariant(&self);
        }
        self.ptr
    }

    /// Views the EMD cost extractor through its base class. The handle is consumed and
    /// the same native object is owned by the result.
    pub fn into_histogram_cost_extractor(self) -> (r: PtrOfHistogramCostExtractor)
        ensures
            r.addr() == self.addr(),
    {
        proof {
            use_type_invariant(&self);
        }
        PtrOfHistogramCostExtractor::from_non_null(self.ptr)
    }

    /// Views the EMD cost extractor through the algorithm base class. The handle is
    /// consumed and the same native object is owned by the result.
    pub fn into_algorithm(self) -> (r: Algorithm)
        ensures
            r.addr() == self.addr(),
    {
        proof {
            use_type_invariant(&self);
        }
        Algorithm::from_non_null(self.ptr)
    }
}

impl AlgorithmTraitConst for PtrOfEMDHistogramCostExtractor {
    fn as_raw_Algorithm(&self) -> (r: usize)
        ensures
            r == self.addr(),
    {
        proof {
            use_type_invariant(self);
        }
        self.ptr
    }
}

impl AlgorithmTrait for PtrOfEMDHistogramCostExtractor {
    fn as_raw_mut_Algorithm(&mut self) -> (r: usize)
        ensures
            r == old(self).addr(),
            *final(self) == *old(self),
    {
        proof {
            use_type_invariant(&*self);
        }
        self.ptr
    }
}

impl HistogramCostExtractor for PtrOfEMDHistogramCostExtractor {
    fn as_raw_HistogramCostExtractor(&self) -> (r: usize)
        ensures
            r == self.addr(),
    {
        proof {
            use_type_invariant(self);
        }
        self.ptr
    }
}

impl EMDHistogramCostExtractor for PtrOfEMDHistogramCostExtractor {
    fn as_raw_EMDHistogramCostExtractor(&self) -> (r: usize)
        ensures
            r == self.addr(),
    {
        proof {
            use_type_invariant(self);
        }
        self.ptr
    }
}

/// Owning handle of a native EMD-L1 cost extractor.
pub struct PtrOfEMDL1HistogramCostExtractor {
    ptr: usize,
}

impl PtrOfEMDL1HistogramCostExtractor {
    #[verifier::type_invariant]
    spec fn non_null(self) -> bool {
        self.ptr != 0
    }

    /// Address of the native EMD-L1 cost extractor this handle owns.
    pub closed spec fn addr(self) -> usize {
        self.ptr
    }

    /// Takes ownership of the native EMD-L1 cost extractor at `ptr`. A null address is
    /// refused with `STS_NULL_PTR`.
    pub fn from_raw(ptr: usize) -> (r: Result<PtrOfEMDL1HistogramCostExtractor, Error>)
        ensures
            ptr == 0 <==> r is Err,
            r matches Ok(h) ==> h.addr() == ptr,
            r matches Err(e) ==> e.code == STS_NULL_PTR,
    {
        if ptr == 0 {
            Err(Error::null_pointer())
        } else {
            Ok(PtrOfEMDL1HistogramCostExtractor { ptr })
        }
    }

    /// Gives up the handle and returns the address of the native EMD-L1 cost extractor, for
    /// the one destructor call that releases it.
    pub fn into_raw(self) -> (r: usize)
        ensures
            r == self.addr(),
            r != 0,
    {
        proof {
            use_type_invariant(&self);
        }
        self.ptr
    }

    /// Views the EMD-L1 cost extractor through its base class. The handle is consumed and
    /// the same native object is owned by the result.
    pub fn into_histogram_cost_extractor(self) -> (r: PtrOfHistogramCostExtractor)
        ensures
            r.addr() == self.addr(),
    {
        proof {
            use_type_invariant(&self);
        }
        PtrOfHistogramCostExtractor::from_non_null(self.ptr)
    }

    /// Views the EMD-L1 cost extractor through the algorithm base class. The handle is
    /// consumed and the same native object is owned by the result.
    pub fn into_algorithm(self) -> (r: Algorithm)
        ensures
            r.addr() == self.addr(),
    {
        proof {
            use_type_invariant(&self);
        }
        Algorithm::from_non_null(self.ptr)
    }
}

impl AlgorithmTraitConst for PtrOfEMDL1HistogramCostExtractor {
    fn as_raw_Algorithm(&self) -> (r: usize)
        ensures
            r == self.addr(),
    {
        proof {
            use_type_invariant(self);
        }
        self.ptr
    }
}

impl AlgorithmTrait for PtrOfEMDL1HistogramCostExtractor {
    fn as_raw_mut_Algorithm(&mut self) -> (r: usize)
        ensures
            r == old(self).addr(),
            *final(self) == *old(self),
    {
        proof {
            use_type_invariant(&*self);
        }
        self.ptr
    }
}

impl HistogramCostExtractor for PtrOfEMDL1HistogramCostExtractor {
    fn as_raw_HistogramCostExtractor(&self) -> (r: usize)
        ensures
            r == self.addr(),
    {
        proof {
            use_type_invariant(self);
        }
        self.ptr
    }
}

impl EMDL1HistogramCostExtractor for PtrOfEMDL1HistogramCostExtractor {
    fn as_raw_EMDL1HistogramCostExtractor(&self) -> (r: usize)
        ensures
            r == self.addr(),
    {
        proof {
            use_type_invariant(self);
        }
        self.ptr
    }
}

/// Owning handle of a native norm cost extractor.
pub struct PtrOfNormHistogramCostExtractor {
    ptr: usize,
}

impl PtrOfNormHistogramCostExtractor {
    #[verifier::type_invariant]
    spec fn non_null(self) -> bool {
        self.ptr != 0
    }

    /// Address of the native norm cost extractor this handle owns.
    pub closed spec fn addr(self) -> usize {
        self.ptr
    }

    /// Takes ownership of the native norm cost extractor at `ptr`. A null address is
    /// refused with `STS_NULL_PTR`.
    pub fn from_raw(ptr: usize) -> (r: Result<PtrOfNormHistogramCostExtractor, Error>)
        ensures
            ptr == 0 <==> r is Err,
            r matches Ok(h) ==> h.addr() == ptr,
            r matches Err(e) ==> e.code == STS_NULL_PTR,
    {
        if ptr == 0 {
            Err(Error::null_pointer())
        } else {
            Ok(PtrOfNormHistogramCostExtractor { ptr })
        }
    }

    /// Gives up the handle and returns the address of the native norm cost extractor, for
    /// the one destructor call that releases it.
    pub fn into_raw(self) -> (r: usize)
        ensures
            r == self.addr(),
            r != 0,
    {
        proof {
            use_type_invariant(&self);
        }
        self.ptr
    }

    /// Views the norm cost extractor through its base class. The handle is consumed and
    /// the same native object is owned by the result.
    pub fn into_histogram_cost_extractor(self) -> (r: PtrOfHistogramCostExtractor)
        ensures
            r.addr() == self.addr(),
    {
        proof {
            use_type_invariant(&self);
        }
        PtrOfHistogramCostExtractor::from_non_null(self.ptr)
    }

    /// Views the norm cost extractor through the algorithm base class. The handle is
    /// consumed and the same native object is owned by the result.
    pub fn into_algorithm(self) -> (r: Algorithm)
        ensures
            r.addr() == self.addr(),
    {
        proof {
            use_type_invariant(&self);
        }
        Algorithm::from_non_null(self.ptr)
    }
}

impl AlgorithmTraitConst for PtrOfNormHistogramCostExtractor {
    fn as_raw_Algorithm(&self) -> (r: usize)
        ensures
            r == self.addr(),
    {
        proof {
            use_type_invariant(self);
        }
        self.ptr
    }
}

impl AlgorithmTrait for PtrOfNormHistogramCostExtractor {
    fn as_raw_mut_Algorithm(&mut self) -> (r: usize)
        ensures
            r == old(self).addr(),
            *final(self) == *old(self),
    {
        proof {
            use_type_invariant(&*self);
        }
        self.ptr
    }
}

impl HistogramCostExtractor for PtrOfNormHistogramCostExtractor {
    fn as_raw_HistogramCostExtractor(&self) -> (r: usize)
        ensures
            r == self.addr(),
    {
        proof {
            use_type_invariant(self);
        }
        self.ptr
    }
}

impl NormHistogramCostExtractor for PtrOfNormHistogramCostExtractor {
    fn as_raw_NormHistogramCostExtractor(&self) -> (r: usize)
        ensures
            r == self.addr(),
    {
        proof {
            use_type_invariant(self);
        }
        self.ptr
    }
}

/// Owning handle of a native Hausdorff distance extractor.
pub struct PtrOfHausdorffDistanceExtractor {
    ptr: usize,
}

impl PtrOfHausdorffDistanceExtractor {
    #[verifier::type_invariant]
    spec fn non_null(self) -> bool {
        self.ptr != 0
    }

    /// Address of the native Hausdorff distance extractor this handle owns.
    pub closed spec fn addr(self) -> usize {
        self.ptr
    }

    /// Takes ownership of the native Hausdorff distance extractor at `ptr`. A null address is
    /// refused with `STS_NULL_PTR`.
    pub fn from_raw(ptr: usize) -> (r: Result<PtrOfHausdorffDistanceExtractor, Error>)
        ensures
            ptr == 0 <==> r is Err,
            r matches Ok(h) ==> h.addr() == ptr,
            r matches Err(e) ==> e.code == STS_NULL_PTR,
    {
        if ptr == 0 {
            Err(Error::null_pointer())
        } else {
            Ok(PtrOfHausdorffDistanceExtractor { ptr })
        }
    }

    /// Gives up the handle and returns the address of the native Hausdorff distance extractor, for
    /// the one destructor call that releases it.
    pub fn into_raw(self) -> (r: usize)
        ensures
            r == self.addr(),
            r != 0,
    {
        proof {
            use_type_invariant(&self);
        }
        self.ptr
    }

    /// Views the Hausdorff distance extractor through its base class. The handle is consumed and
    /// the same native object is owned by the result.
    pub fn into_shape_distance_extractor(self) -> (r: PtrOfShapeDistanceExtractor)
        ensures
            r.addr() == self.addr(),
    {
        proof {
            use_type_invariant(&self);
        }
        PtrOfShapeDistanceExtractor::from_non_null(self.ptr)
    }

    /// Views the Hausdorff distance extractor through the algorithm base class. The handle is
    /// consumed and the same native object is owned by the result.
    pub fn into_algorithm(self) -> (r: Algorithm)
        ensures
            r.addr() == self.addr(),
    {
        proof {
            use_type_invariant(&self);
        }
        Algorithm::from_non_null(self.ptr)
    }
}

impl AlgorithmTraitConst for PtrOfHausdorffDistanceExtractor {
    fn as_raw_Algorithm(&self) -> (r: usize)
        ensures
            r == self.addr(),
    {
        proof {
            use_type_invariant(self);
        }
        self.ptr
    }
}

impl AlgorithmTrait for PtrOfHausdorffDistanceExtractor {
    fn as_raw_mut_Algorithm(&mut self) -> (r: usize)
        ensures
            r == old(self).addr(),
            *final(self) == *old(self),
    {
        proof {
            use_type_invariant(&*self);
        }
        self.ptr
    }
}

impl ShapeDistanceExtractor for PtrOfHausdorffDistanceExtractor {
    fn as_raw_ShapeDistanceExtractor(&self) -> (r: usize)
        ensures
            r == self.addr(),
    {
        proof {
            use_type_invariant(self);
        }
        self.ptr
    }
}

impl HausdorffDistanceExtractor for PtrOfHausdorffDistanceExtractor {
    fn as_raw_HausdorffDistanceExtractor(&self) -> (r: usize)
        ensures
            r == self.addr(),
    {
        proof {
            use_type_invariant(self);
        }
        self.ptr
    }
}

/// Owning handle of a native shape context distance extractor.
pub struct PtrOfShapeContextDistanceExtractor {
    ptr: usize,
}

impl PtrOfShapeContextDistanceExtractor {
    #[verifier::type_invariant]
    spec fn non_null(self) -> bool {
        self.ptr != 0
    }

    /// Address of the native shape context distance extractor this handle owns.
    pub closed spec fn addr(self) -> usize {
        self.ptr
    }

    /// Takes ownership of the native shape context distance extractor at `ptr`. A null address is
    /// refused with `STS_NULL_PTR`.
    pub fn from_raw(ptr: usize) -> (r: Result<PtrOfShapeContextDistanceExtractor, Error>)
        ensures
            ptr == 0 <==> r is Err,
            r matches Ok(h) ==> h.addr() == ptr,
            r matches Err(e) ==> e.code == STS_NULL_PTR,
    {
        if ptr == 0 {
            Err(Error::null_pointer())
        } else {
            Ok(PtrOfShapeContextDistanceExtractor { ptr })
        }
    }

    /// Gives up the handle and returns the address of the native shape context distance extractor, for
    /// the one destructor call that releases it.
    pub fn into_raw(self) -> (r: usize)
        ensures
            r == self.addr(),
            r != 0,
    {
        proof {
            use_type_invariant(&self);
        }
        self.ptr
    }

    /// Views the shape context distance extractor through its base class. The handle is consumed and
    /// the same native object is owned by the result.
    pub fn into_shape_distance_extractor(self) -> (r: PtrOfShapeDistanceExtractor)
        ensures
            r.addr() == self.addr(),
    {
        proof {
            use_type_invariant(&self);
        }
        PtrOfShapeDistanceExtractor::from_non_null(self.ptr)
    }

    /// Views the shape context distance extractor through the algorithm base class. The handle is
    /// consumed and the same native object is owned by the result.
    pub fn into_algorithm(self) -> (r: Algorithm)
        ensures
            r.addr() == self.addr(),
    {
        proof {
            use_type_invariant(&self);
        }
        Algorithm::from_non_null(self.ptr)
    }

    /// Arguments of the call that sets the algorithm building the descriptor
    /// cost matrix. A comparer that is not set is refused with `STS_NULL_PTR`
    /// and no native call is to be made.
    pub fn set_cost_extractor_args(&mut self, comparer: Option<&PtrOfHistogramCostExtractor>) -> (r:
        Result<AttachArgs, Error>)
        ensures
            *final(self) == *old(self),
            comparer is None <==> r is Err,
            r matches Err(e) ==> e.code == STS_NULL_PTR,
            r matches Ok(a) ==> a.target == old(self).addr() && a.target != 0
                && a.attached == comparer.unwrap().addr() && a.attached != 0,
    {
        match comparer {
            Some(c) => {
                let target = self.as_raw_ShapeContextDistanceExtractor();
                let attached = c.as_raw_HistogramCostExtractor();
                Ok(AttachArgs { target, attached })
            },
            None => Err(Error::null_pointer()),
        }
    }

    /// Arguments of the call that sets the algorithm aligning the shapes. A
    /// transformer that is not set is refused with `STS_NULL_PTR` and no native
    /// call is to be made.
    pub fn set_transform_algorithm_args(&mut self, transformer: Option<&PtrOfShapeTransformer>) -> (r:
        Result<AttachArgs, Error>)
        ensures
            *final(self) == *old(self),
            transformer is None <==> r is Err,
            r matches Err(e) ==> e.code == STS_NULL_PTR,
            r matches Ok(a) ==> a.target == old(self).addr() && a.target != 0
                && a.attached == transformer.unwrap().addr() && a.attached != 0,
    {
        match transformer {
            Some(t) => {
                let target = self.as_raw_ShapeContextDistanceExtractor();
                let attached = t.as_raw_ShapeTransformer();
                Ok(AttachArgs { target, attached })
            },
            None => Err(Error::null_pointer()),
        }
    }
}

impl AlgorithmTraitConst for PtrOfShapeContextDistanceExtractor {
    fn as_raw_Algorithm(&self) -> (r: usize)
        ensures
            r == self.addr(),
    {
        proof {
            use_type_invariant(self);
        }
        self.ptr
    }
}

impl AlgorithmTrait for PtrOfShapeContextDistanceExtractor {
    fn as_raw_mut_Algorithm(&mut self) -> (r: usize)
        ensures
            r == old(self).addr(),
            *final(self) == *old(self),
    {
        proof {
            use_type_invariant(&*self);
        }
        self.ptr
    }
}

impl ShapeDistanceExtractor for PtrOfShapeContextDistanceExtractor {
    fn as_raw_ShapeDistanceExtractor(&self) -> (r: usize)
        ensures
            r == self.addr(),
    {
        proof {
            use_type_invariant(self);
        }
        self.ptr
    }
}

impl ShapeContextDistanceExtractor for PtrOfShapeContextDistanceExtractor {
    fn as_raw_ShapeContextDistanceExtractor(&self) -> (r: usize)
        ensures
            r == self.addr(),
    {
        proof {
            use_type_invariant(self);
        }
        self.ptr
    }
}

} // verus!
