//! Small helpers over the ABI model.

use vstd::prelude::*;
use vstd::string::StrSliceExecFns;

use crate::libretro_abi::PixelFormat;

verus! {

/// Whether two string slices hold the same characters.
pub fn str_eq(a: &str, b: &str) -> (r: bool)
    ensures
        r == (a@ == b@),
{
    let n = a.unicode_len();
    if n != b.unicode_len() {
        return false;
    }
    let mut i: usize = 0;
    while i < n
        invariant
            i <= n,
            n == a@.len(),
            n == b@.len(),
            forall|j: int| 0 <= j < i ==> a@[j] == b@[j],
        decreases n - i,
    {
        if a.get_char(i) != b.get_char(i) {
            return false;
        }
        i = i + 1;
    }
    proof {
        assert(a@ =~= b@);
    }
    true
}

/// How many bytes one pixel occupies in each plugin pixel format.
pub open spec fn spec_bytes_per_pixel(pf: PixelFormat) -> u32 {
    match pf {
        PixelFormat::ARGB1555 => 2,
        PixelFormat::RGB565 => 2,
        PixelFormat::ARGB8888 => 4,
    }
}

/// How many bytes one pixel occupies in each plugin pixel format.
pub fn bytes_per_pixel_from_libretro(pf: PixelFormat) -> (r: u32)
    ensures
        r == spec_bytes_per_pixel(pf),
{
    match pf {
        PixelFormat::ARGB1555 => 2,
        PixelFormat::RGB565 => 2,
        PixelFormat::ARGB8888 => 4,
    }
}

} // verus!
