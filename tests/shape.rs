use opencv::algorithm::{Algorithm, AlgorithmTrait, AlgorithmTraitConst};
use opencv::error::STS_NULL_PTR;
use opencv::shape::{
    AffineTransformer, ChiHistogramCostExtractor, EMDHistogramCostExtractor,
    EMDL1HistogramCostExtractor, HausdorffDistanceExtractor, HistogramCostExtractor,
    NormHistogramCostExtractor, PtrOfAffineTransformer, PtrOfChiHistogramCostExtractor,
    PtrOfEMDHistogramCostExtractor, PtrOfEMDL1HistogramCostExtractor,
    PtrOfHausdorffDistanceExtractor, PtrOfHistogramCostExtractor, PtrOfNormHistogramCostExtractor,
    PtrOfShapeContextDistanceExtractor, PtrOfShapeDistanceExtractor, PtrOfShapeTransformer,
    PtrOfThinPlateSplineShapeTransformer, ShapeContextDistanceExtractor, ShapeDistanceExtractor,
    ShapeTransformer, ThinPlateSplineShapeTransformer,
};

#[test]
fn shape_handles_refuse_null() {
    assert_eq!(PtrOfAffineTransformer::from_raw(0).err().unwrap().code, STS_NULL_PTR);
    assert_eq!(PtrOfHistogramCostExtractor::from_raw(0).err().unwrap().code, STS_NULL_PTR);
    assert_eq!(PtrOfShapeTransformer::from_raw(0).err().unwrap().code, STS_NULL_PTR);
    assert_eq!(PtrOfShapeDistanceExtractor::from_raw(0).err().unwrap().code, STS_NULL_PTR);
    assert_eq!(PtrOfHausdorffDistanceExtractor::from_raw(0).err().unwrap().code, STS_NULL_PTR);
    assert_eq!(Algorithm::from_raw(0).err().unwrap().code, STS_NULL_PTR);
}

#[test]
fn transformers_keep_identity_through_bases() {
    let a = PtrOfAffineTransformer::from_raw(0xa).ok().unwrap();
    assert_eq!(a.as_raw_AffineTransformer(), 0xa);
    assert_eq!(a.as_raw_ShapeTransformer(), 0xa);
    let t = a.into_shape_transformer();
    assert_eq!(t.as_raw_ShapeTransformer(), 0xa);
    assert_eq!(t.into_algorithm().into_raw(), 0xa);
    let tps = PtrOfThinPlateSplineShapeTransformer::from_raw(0xb).ok().unwrap();
    assert_eq!(tps.as_raw_ThinPlateSplineShapeTransformer(), 0xb);
    assert_eq!(tps.into_shape_transformer().into_raw(), 0xb);
}

#[test]
fn cost_extractors_keep_identity_through_bases() {
    let mut c = PtrOfChiHistogramCostExtractor::from_raw(1).ok().unwrap();
    assert_eq!(c.as_raw_ChiHistogramCostExtractor(), 1);
    assert_eq!(c.as_raw_mut_Algorithm(), 1);
    assert_eq!(c.into_histogram_cost_extractor().as_raw_HistogramCostExtractor(), 1);
    let e = PtrOfEMDHistogramCostExtractor::from_raw(2).ok().unwrap();
    assert_eq!(e.as_raw_EMDHistogramCostExtractor(), 2);
    assert_eq!(e.into_algorithm().as_raw_Algorithm(), 2);
    let l = PtrOfEMDL1HistogramCostExtractor::from_raw(3).ok().unwrap();
    assert_eq!(l.as_raw_EMDL1HistogramCostExtractor(), 3);
    assert_eq!(l.into_histogram_cost_extractor().into_raw(), 3);
    let n = PtrOfNormHistogramCostExtractor::from_raw(4).ok().unwrap();
    assert_eq!(n.as_raw_NormHistogramCostExtractor(), 4);
    assert_eq!(n.as_raw_HistogramCostExtractor(), 4);
}

#[test]
fn distance_extractors_keep_identity_through_bases() {
    let h = PtrOfHausdorffDistanceExtractor::from_raw(0x5).ok().unwrap();
    assert_eq!(h.as_raw_HausdorffDistanceExtractor(), 0x5);
    assert_eq!(h.into_shape_distance_extractor().as_raw_ShapeDistanceExtractor(), 0x5);
    let s = PtrOfShapeContextDistanceExtractor::from_raw(0x6).ok().unwrap();
    assert_eq!(s.as_raw_ShapeContextDistanceExtractor(), 0x6);
    assert_eq!(s.into_algorithm().into_raw(), 0x6);
}

#[test]
fn shape_context_refuses_unset_comparer_and_transformer() {
    let mut s = PtrOfShapeContextDistanceExtractor::from_raw(0x6).ok().unwrap();
    assert_eq!(s.set_cost_extractor_args(None).unwrap_err().code, STS_NULL_PTR);
    assert_eq!(s.set_transform_algorithm_args(None).unwrap_err().code, STS_NULL_PTR);
    let c = PtrOfHistogramCostExtractor::from_raw(0x7).ok().unwrap();
    let a = s.set_cost_extractor_args(Some(&c)).unwrap();
    assert_eq!((a.target, a.attached), (0x6, 0x7));
    let t = PtrOfShapeTransformer::from_raw(0x8).ok().unwrap();
    let a = s.set_transform_algorithm_args(Some(&t)).unwrap();
    assert_eq!((a.target, a.attached), (0x6, 0x8));
}
