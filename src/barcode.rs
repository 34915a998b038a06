//! Barcode detection and decoding.
use vstd::prelude::*;

use crate::error::{Error, STS_BAD_ARG, STS_NULL_PTR};
use crate::marshal::{c_string_of, string_arg};

verus! {

/// Native code of `BarcodeType::EAN_13`.
pub const EAN_13: i32 = 2;

/// Native code of `BarcodeType::EAN_8`.
pub const EAN_8: i32 = 1;

/// Native code of `BarcodeType::NONE`.
pub const NONE: i32 = 0;

/// Native code of `BarcodeType::UPC_A`.
pub const UPC_A: i32 = 3;

/// Native code of `BarcodeType::UPC_E`.
pub const UPC_E: i32 = 4;

/// Native code of `BarcodeType::UPC_EAN_EXTENSION`.
pub const UPC_EAN_EXTENSION: i32 = 5;

/// Symbology of a decoded barcode.
#[allow(non_camel_case_types)]
#[derive(Copy, Clone, Debug, PartialEq, Eq, Structural)]
pub enum BarcodeType {
    NONE,
    EAN_8,
    EAN_13,
    UPC_A,
    UPC_E,
    UPC_EAN_EXTENSION,
}

/// The native integer code of a symbology.
pub open spec fn code_of(t: BarcodeType) -> i32 {
    match t {
        BarcodeType::NONE => NONE,
        BarcodeType::EAN_8 => EAN_8,
        BarcodeType::EAN_13 => EAN_13,
        BarcodeType::UPC_A => UPC_A,
        BarcodeType::UPC_E => UPC_E,
        BarcodeType::UPC_EAN_EXTENSION => UPC_EAN_EXTENSION,
    }
}

/// The symbology a native integer code stands for, if it stands for one.
pub open spec fn type_of_code(code: i32) -> Option<BarcodeType> {
    if code == NONE {
        Some(BarcodeType::NONE)
    } else if code == EAN_8 {
        Some(BarcodeType::EAN_8)
    } else if code == EAN_13 {
        Some(BarcodeType::EAN_13)
    } else if code == UPC_A {
        Some(BarcodeType::UPC_A)
    } else if code == UPC_E {
        Some(BarcodeType::UPC_E)
    } else if code == UPC_EAN_EXTENSION {
        Some(BarcodeType::UPC_EAN_EXTENSION)
    } else {
        None
    }
}

impl BarcodeType {
    /// The native integer code of this symbology.
    pub fn to_i32(self) -> (r: i32)
        ensures
            r == code_of(self),
    {
        match self {
            BarcodeType::NONE => NONE,
            BarcodeType::EAN_8 => EAN_8,
            BarcodeType::EAN_13 => EAN_13,
            BarcodeType::UPC_A => UPC_A,
            BarcodeType::UPC_E => UPC_E,
            BarcodeType::UPC_EAN_EXTENSION => UPC_EAN_EXTENSION,
        }
    }

    /// The symbology of a native integer code. A code that names none fails
    /// with `STS_BAD_ARG` rather than being mapped to some other symbology.
    pub fn try_from_i32(code: i32) -> (r: Result<BarcodeType, Error>)
        ensures
            type_of_code(code) is None <==> r is Err,
            r matches Ok(t) ==> type_of_code(code) == Some(t),
            r matches Err(e) ==> e.code == STS_BAD_ARG,
    {
        if code == NONE {
            Ok(BarcodeType::NONE)
        } else if code == EAN_8 {
            Ok(BarcodeType::EAN_8)
        } else if code == EAN_13 {
            Ok(BarcodeType::EAN_13)
        } else if code == UPC_A {
            Ok(BarcodeType::UPC_A)
        } else if code == UPC_E {
            Ok(BarcodeType::UPC_E)
        } else if code == UPC_EAN_EXTENSION {
            Ok(BarcodeType::UPC_EAN_EXTENSION)
        } else {
            Err(Error::bad_argument("value is not a barcode type code"))
        }
    }
}

/// Converting a native code to a symbology and back gives the code again, and
/// converting a symbology to its code and back gives the symbology again.
pub proof fn lemma_barcode_type_round_trip(code: i32, t: BarcodeType)
    ensures
        type_of_code(code) matches Some(u) ==> code_of(u) == code,
        type_of_code(code_of(t)) == Some(t),
{
}

/// Reads the symbology codes that a decoding call wrote, one per barcode.
/// Fails with `STS_BAD_ARG` if any code names no symbology.
pub fn barcode_types_from_codes(codes: &Vec<i32>) -> (r: Result<Vec<BarcodeType>, Error>)
    ensures
        (exists|i: int| 0 <= i < codes@.len() && type_of_code(#[trigger] codes@[i]) is None)
            <==> r is Err,
        r matches Ok(v) ==> v@.len() == codes@.len() && forall|i: int|
            0 <= i < codes@.len() ==> type_of_code(#[trigger] codes@[i]) == Some(v@[i]),
        r matches Err(e) ==> e.code == STS_BAD_ARG,
{
    let mut out: Vec<BarcodeType> = Vec::new();
    let mut i: usize = 0;
    while i < codes.len()
        invariant
            i <= codes@.len(),
            out@.len() == i,
            forall|j: int| 0 <= j < i ==> type_of_code(#[trigger] codes@[j]) == Some(out@[j]),
        decreases codes@.len() - i,
    {
        match BarcodeType::try_from_i32(codes[i]) {
            Ok(t) => {
                out.push(t);
            },
            Err(e) => {
                return Err(e);
            },
        }
        i = i + 1;
    }
    Ok(out)
}

/// Constant methods of a barcode detector.
pub trait BarcodeDetectorTraitConst {
    /// Address of the native detector, for calls through the constant interface.
    fn as_raw_BarcodeDetector(&self) -> (r: usize)
        ensures
            r != 0,
    ;
}

/// Mutable methods of a barcode detector.
pub trait BarcodeDetectorTrait: BarcodeDetectorTraitConst {
    /// Address of the native detector, for calls through the mutable interface.
    fn as_raw_mut_BarcodeDetector(&mut self) -> (r: usize)
        ensures
            r != 0,
    ;
}

/// Owning handle of a native barcode detector.
pub struct BarcodeDetector {
    ptr: usize,
}

impl BarcodeDetector {
    #[verifier::type_invariant]
    spec fn non_null(self) -> bool {
        self.ptr != 0
    }

    /// Address of the native detector this handle owns.
    pub closed spec fn addr(self) -> usize {
        self.ptr
    }

    /// Takes ownership of the native detector at `ptr`. A null address is
    /// refused with `STS_NULL_PTR`.
    pub fn from_raw(ptr: usize) -> (r: Result<BarcodeDetector, Error>)
        ensures
            ptr == 0 <==> r is Err,
            r matches Ok(h) ==> h.addr() == ptr,
            r matches Err(e) ==> e.code == STS_NULL_PTR,
    {
        if ptr == 0 {
            Err(Error::null_pointer())
        } else {
            Ok(BarcodeDetector { ptr })
        }
    }

    /// Gives up the handle and returns the detector's address, for the one
    /// destructor call that releases it.
    pub fn into_raw(self) -> (r: usize)
        ensures
            r == self.addr(),
            r != 0,
    {
        proof {
            use_type_invariant(&self);
        }
        self.ptr
    }
}

impl BarcodeDetectorTraitConst for BarcodeDetector {
    fn as_raw_BarcodeDetector(&self) -> (r: usize)
        ensures
            r == self.addr(),
    {
        proof {
            use_type_invariant(self);
        }
        self.ptr
    }
}

impl BarcodeDetectorTrait for BarcodeDetector {
    fn as_raw_mut_BarcodeDetector(&mut self) -> (r: usize)
        ensures
            r == old(self).addr(),
            *final(self) == *old(self),
    {
        proof {
            use_type_invariant(&*self);
        }
        self.ptr
    }
}

/// Marshalled arguments of the detector's constructor: the paths of the
/// super-resolution model's prototxt file and of its weights, each as the
/// bytes of a zero-terminated string.
#[derive(Debug)]
pub struct BarcodeDetectorArgs {
    pub prototxt_path: Vec<u8>,
    pub model_path: Vec<u8>,
}

impl BarcodeDetectorArgs {
    /// Marshals both paths; fails with `STS_BAD_ARG` if either holds a zero byte.
    pub fn new(prototxt_path: &str, model_path: &str) -> (r: Result<BarcodeDetectorArgs, Error>)
        ensures
            (c_string_of(prototxt_path@) is None || c_string_of(model_path@) is None) <==> r is Err,
            r matches Ok(a) ==> c_string_of(prototxt_path@) == Some(a.prototxt_path@)
                && c_string_of(model_path@) == Some(a.model_path@),
            r matches Err(e) ==> e.code == STS_BAD_ARG,
    {
        let prototxt = match string_arg(prototxt_path) {
            Ok(v) => v,
            Err(e) => {
                return Err(e);
            },
        };
        let model = match string_arg(model_path) {
            Ok(v) => v,
            Err(e) => {
                return Err(e);
            },
        };
        Ok(BarcodeDetectorArgs { prototxt_path: prototxt, model_path: model })
    }

    /// The constructor's arguments at their defaults: both paths empty, so that
    /// the detector runs without the super-resolution model. This is what
    /// `new("", "")` gives.
    pub fn new_def() -> (r: BarcodeDetectorArgs)
        ensures
            c_string_of(Seq::empty()) == Some(r.prototxt_path@),
            c_string_of(Seq::empty()) == Some(r.model_path@),
            r.prototxt_path@ == seq![0u8],
            r.model_path@ == seq![0u8],
    {
        proof {
            reveal_strlit("");
        }
        match BarcodeDetectorArgs::new("", "") {
            Ok(a) => a,
            Err(_) => {
                proof {
                    assert(c_string_of(Seq::<char>::empty()) == Some(seq![0u8]));
                }
                vstd::pervasive::unreached()
            },
        }
    }
}

} // verus!
