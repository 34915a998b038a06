use opencv::algorithm::{AlgorithmTrait, AlgorithmTraitConst};
use opencv::error::{STS_BAD_ARG, STS_NULL_PTR};
use opencv::superres::{
    FrameSourceArgs, Superres_BroxOpticalFlow, Superres_BroxOpticalFlowTrait,
    Superres_BroxOpticalFlowTraitConst, Superres_DenseOpticalFlowExt,
    Superres_DenseOpticalFlowExtTrait, Superres_DenseOpticalFlowExtTraitConst,
    Superres_DualTVL1OpticalFlow, Superres_FarnebackOpticalFlow, Superres_FrameSource,
    Superres_FrameSourceTrait, Superres_FrameSourceTraitConst, Superres_PyrLKOpticalFlow,
    Superres_PyrLKOpticalFlowTraitConst, Superres_SuperResolution,
    Superres_SuperResolutionTrait, Superres_SuperResolutionTraitConst,
};

#[test]
fn every_handle_refuses_null() {
    assert_eq!(Superres_BroxOpticalFlow::from_raw(0).err().unwrap().code, STS_NULL_PTR);
    assert_eq!(Superres_DenseOpticalFlowExt::from_raw(0).err().unwrap().code, STS_NULL_PTR);
    assert_eq!(Superres_DualTVL1OpticalFlow::from_raw(0).err().unwrap().code, STS_NULL_PTR);
    assert_eq!(Superres_FarnebackOpticalFlow::from_raw(0).err().unwrap().code, STS_NULL_PTR);
    assert_eq!(Superres_FrameSource::from_raw(0).err().unwrap().code, STS_NULL_PTR);
    assert_eq!(Superres_PyrLKOpticalFlow::from_raw(0).err().unwrap().code, STS_NULL_PTR);
    assert_eq!(Superres_SuperResolution::from_raw(0).err().unwrap().code, STS_NULL_PTR);
}

#[test]
fn construct_then_release_gives_same_address() {
    assert_eq!(Superres_BroxOpticalFlow::from_raw(0x10).ok().unwrap().into_raw(), 0x10);
    assert_eq!(Superres_DenseOpticalFlowExt::from_raw(0x20).ok().unwrap().into_raw(), 0x20);
    assert_eq!(Superres_DualTVL1OpticalFlow::from_raw(0x30).ok().unwrap().into_raw(), 0x30);
    assert_eq!(Superres_FarnebackOpticalFlow::from_raw(0x40).ok().unwrap().into_raw(), 0x40);
    assert_eq!(Superres_FrameSource::from_raw(0x50).ok().unwrap().into_raw(), 0x50);
    assert_eq!(Superres_PyrLKOpticalFlow::from_raw(0x60).ok().unwrap().into_raw(), 0x60);
    assert_eq!(Superres_SuperResolution::from_raw(0x70).ok().unwrap().into_raw(), 0x70);
}

#[test]
fn capabilities_expose_the_same_address() {
    let mut b = Superres_BroxOpticalFlow::from_raw(0xb0).ok().unwrap();
    assert_eq!(b.as_raw_Superres_BroxOpticalFlow(), 0xb0);
    assert_eq!(b.as_raw_mut_Superres_BroxOpticalFlow(), 0xb0);
    assert_eq!(b.as_raw_Superres_DenseOpticalFlowExt(), 0xb0);
    assert_eq!(b.as_raw_mut_Superres_DenseOpticalFlowExt(), 0xb0);
    assert_eq!(b.as_raw_Algorithm(), 0xb0);
    assert_eq!(b.as_raw_mut_Algorithm(), 0xb0);
    let mut s = Superres_SuperResolution::from_raw(0xc0).ok().unwrap();
    assert_eq!(s.as_raw_Superres_SuperResolution(), 0xc0);
    assert_eq!(s.as_raw_mut_Superres_SuperResolution(), 0xc0);
    assert_eq!(s.as_raw_Superres_FrameSource(), 0xc0);
    assert_eq!(s.as_raw_mut_Superres_FrameSource(), 0xc0);
}

#[test]
fn upcast_keeps_native_object() {
    let p = Superres_PyrLKOpticalFlow::from_raw(0x88).ok().unwrap();
    assert_eq!(p.as_raw_Superres_PyrLKOpticalFlow(), 0x88);
    let d = p.into_dense_optical_flow_ext();
    assert_eq!(d.as_raw_Superres_DenseOpticalFlowExt(), 0x88);
    let a = d.into_algorithm();
    assert_eq!(a.into_raw(), 0x88);
    let s = Superres_SuperResolution::from_raw(0x99).ok().unwrap();
    let f = s.into_frame_source();
    assert_eq!(f.as_raw_Superres_FrameSource(), 0x99);
}

#[test]
fn downcast_keeps_native_object() {
    let b = Superres_BroxOpticalFlow::from_raw(0x77).ok().unwrap();
    let d = b.into_dense_optical_flow_ext();
    let back = d.try_into_brox_optical_flow(true).ok().unwrap();
    assert_eq!(back.as_raw_Superres_BroxOpticalFlow(), 0x77);
}

#[test]
fn downcast_to_other_class_returns_handle() {
    let d = Superres_DenseOpticalFlowExt::from_raw(0x66).ok().unwrap();
    let same = d.try_into_farneback_optical_flow(false).err().unwrap();
    assert_eq!(same.as_raw_Superres_DenseOpticalFlowExt(), 0x66);
    let t = same.try_into_dual_tvl1_optical_flow(true).ok().unwrap();
    assert_eq!(t.into_raw(), 0x66);
}

#[test]
fn attaching_unset_optical_flow_fails() {
    let mut s = Superres_SuperResolution::from_raw(0x100).ok().unwrap();
    let e = s.set_optical_flow_args(None).unwrap_err();
    assert_eq!(e.code, STS_NULL_PTR);
    assert_eq!(s.as_raw_Superres_SuperResolution(), 0x100);
}

#[test]
fn attaching_optical_flow_passes_both_addresses() {
    let mut s = Superres_SuperResolution::from_raw(0x100).ok().unwrap();
    let f = Superres_FarnebackOpticalFlow::from_raw(0x200).ok().unwrap();
    let d = f.into_dense_optical_flow_ext();
    let a = s.set_optical_flow_args(Some(&d)).unwrap();
    assert_eq!(a.target, 0x100);
    assert_eq!(a.attached, 0x200);
}

#[test]
fn attaching_unset_input_fails() {
    let mut s = Superres_SuperResolution::from_raw(0x100).ok().unwrap();
    assert_eq!(s.set_input_args(None).unwrap_err().code, STS_NULL_PTR);
    let mut src = Superres_FrameSource::from_raw(0x300).ok().unwrap();
    let a = s.set_input_args(Some(&src)).unwrap();
    assert_eq!((a.target, a.attached), (0x100, 0x300));
    assert_eq!(src.as_raw_mut_Superres_FrameSource(), 0x300);
}

#[test]
fn camera_default_equals_device_zero() {
    match (FrameSourceArgs::camera_def(), FrameSourceArgs::camera(0)) {
        (FrameSourceArgs::Camera { device_id: a }, FrameSourceArgs::Camera { device_id: b }) => {
            assert_eq!(a, b);
            assert_eq!(a, 0);
        }
        _ => panic!("camera arguments expected"),
    }
    assert!(matches!(FrameSourceArgs::camera(3), FrameSourceArgs::Camera { device_id: 3 }));
    assert!(matches!(FrameSourceArgs::empty(), FrameSourceArgs::Empty));
}

#[test]
fn video_source_names_are_marshalled() {
    match FrameSourceArgs::video("in.avi").unwrap() {
        FrameSourceArgs::Video { file_name } => assert_eq!(file_name, b"in.avi\0".to_vec()),
        _ => panic!("video arguments expected"),
    }
    match FrameSourceArgs::video_cuda("x").unwrap() {
        FrameSourceArgs::VideoCuda { file_name } => assert_eq!(file_name, vec![b'x', 0]),
        _ => panic!("video arguments expected"),
    }
    assert_eq!(FrameSourceArgs::video("a\0").unwrap_err().code, STS_BAD_ARG);
    assert_eq!(FrameSourceArgs::video_cuda("\0").unwrap_err().code, STS_BAD_ARG);
}
