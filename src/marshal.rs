use vstd::prelude::*;

use vstd::utf8::encode_utf8;

use crate::error::Error;

verus! {

/// The bytes a string argument is handed to the native side as: its UTF-8
/// encoding followed by one terminating zero byte. A string that holds a zero
/// byte of its own has no such form.
pub open spec fn c_string_of(s: Seq<char>) -> Option<Seq<u8>> {
    let bytes = encode_utf8(s);
    if bytes.contains(0u8) {
        None
    } else {
        Some(bytes.push(0u8))
    }
}

/// Marshals a string argument for a native call: the UTF-8 bytes of `s` and a
/// terminating zero. Fails with `STS_BAD_ARG` when `s` holds a zero byte, since
/// the native side would read the string only up to it.
pub fn string_arg(s: &str) -> (r: Result<Vec<u8>, Error>)
    ensures
        c_string_of(s@) is None <==> r is Err,
        r matches Ok(v) ==> c_string_of(s@) == Some(v@),
        r matches Err(e) ==> e.code == crate::error::STS_BAD_ARG,
{
    let bytes = s.as_bytes();
    let n = bytes.len();
    let mut out: Vec<u8> = Vec::new();
    let mut i: usize = 0;
    while i < n
        invariant
            n == bytes@.len(),
            bytes@ == encode_utf8(s@),
            i <= n,
            out@ == bytes@.subrange(0, i as int),
            forall|j: int| 0 <= j < i ==> bytes@[j] != 0u8,
        decreases n - i,
    {
        let b = bytes[i];
        if b == 0u8 {
            assert(bytes@.contains(0u8)) by {
                assert(bytes@[i as int] == 0u8);
            }
            return Err(Error::bad_argument("string argument holds a zero byte"));
        }
        out.push(b);
        i = i + 1;
        assert(out@ == bytes@.subrange(0, i as int));
    }
    assert(out@ == bytes@);
    assert(!bytes@.contains(0u8));
    out.push(0u8);
    Ok(out)
}

} // verus!
