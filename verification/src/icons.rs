//! Pixel conversion of shell icons. Extracting the icon bitmap (SHGetFileInfoW,
//! GetDIBits) and making textures of it stay with the caller.
use vstd::prelude::*;

verus! {

/// Every 4-byte pixel of `px` has alpha (its 4th byte) 0.
pub open spec fn alpha_all_zero(px: Seq<u8>) -> bool {
    forall|k: int| 0 <= k && 4 * k + 4 <= px.len() ==> #[trigger] px[4 * k + 3] == 0
}

/// Icons without an alpha channel report all-zero alpha (their transparency
/// is then taken from the AND mask).
pub fn all_alpha_zero(pixels: &[u8]) -> (r: bool)
    ensures
        r == alpha_all_zero(pixels@),
{
    let n = pixels.len();
    let mut p: usize = 0;
    while n - p >= 4
        invariant
            n == pixels@.len(),
            p % 4 == 0,
            p <= n,
            forall|k: int| 0 <= k && 4 * k + 4 <= p ==> #[trigger] pixels@[4 * k + 3] == 0,
        decreases n - p,
    {
        if pixels[p + 3] != 0 {
            assert(pixels@[4 * (p / 4) as int + 3] != 0);
            return false;
        }
        p = p + 4;
    }
    true
}

/// The alpha of pixel `k` after conversion: from the AND mask when one is
/// given and covers the pixel (transparent where the mask bit is set), else
/// the bitmap's own.
pub open spec fn converted_alpha(bgra: Seq<u8>, mask: Option<Seq<u8>>, k: int) -> u8 {
    match mask {
        Some(m) => if 4 * k + 4 <= m.len() {
            if m[4 * k] == 0 { 255u8 } else { 0u8 }
        } else {
            bgra[4 * k + 3]
        },
        None => bgra[4 * k + 3],
    }
}

/// Converts BGRA pixels to RGBA in place, taking the alpha from `mask` when
/// given; bytes after the last whole pixel are left alone.
pub fn bgra_to_rgba(pixels: &mut Vec<u8>, mask: Option<&Vec<u8>>)
    ensures
        final(pixels)@.len() == old(pixels)@.len(),
        forall|k: int|
            0 <= k && 4 * k + 4 <= old(pixels)@.len() ==> {
                &&& #[trigger] final(pixels)@[4 * k] == old(pixels)@[4 * k + 2]
                &&& final(pixels)@[4 * k + 1] == old(pixels)@[4 * k + 1]
                &&& final(pixels)@[4 * k + 2] == old(pixels)@[4 * k]
                &&& final(pixels)@[4 * k + 3] == converted_alpha(
                    old(pixels)@,
                    match mask {
                        Some(m) => Some(m@),
                        None => None,
                    },
                    k,
                )
            },
        forall|j: int| 4 * (old(pixels)@.len() / 4) <= j < old(pixels)@.len() ==> #[trigger] final(pixels)@[j] == old(pixels)@[j],
{
    let ghost orig = pixels@;
    let ghost mv = match mask {
        Some(m) => Some(m@),
        None => None,
    };
    let n = pixels.len();
    let mut p: usize = 0;
    while n - p >= 4
        invariant
            n == pixels@.len(),
            n == orig.len(),
            mv == match mask {
                Some(m) => Some(m@),
                None => None,
            },
            p % 4 == 0,
            p <= n,
            forall|k: int|
                0 <= k && 4 * k + 4 <= p ==> {
                    &&& #[trigger] pixels@[4 * k] == orig[4 * k + 2]
                    &&& pixels@[4 * k + 1] == orig[4 * k + 1]
                    &&& pixels@[4 * k + 2] == orig[4 * k]
                    &&& pixels@[4 * k + 3] == converted_alpha(orig, mv, k)
                },
            forall|j: int| p <= j < n ==> #[trigger] pixels@[j] == orig[j],
        decreases n - p,
    {
        let ghost before = pixels@;
        assert(before[p as int] == orig[p as int] && before[p + 1] == orig[p + 1]);
        assert(before[p + 2] == orig[p + 2] && before[p + 3] == orig[p + 3]);
        let b = pixels[p];
        let r = pixels[p + 2];
        pixels.set(p, r);
        pixels.set(p + 2, b);
        let a = match mask {
            Some(m) => {
                if p + 4 <= m.len() {
                    if m[p] == 0 { 255u8 } else { 0u8 }
                } else {
                    pixels[p + 3]
                }
            },
            None => pixels[p + 3],
        };
        pixels.set(p + 3, a);
        proof {
            let k0 = p as int / 4;
            assert(4 * k0 == p);
            assert forall|k: int|
                0 <= k && 4 * k + 4 <= p + 4 implies {
                    &&& #[trigger] pixels@[4 * k] == orig[4 * k + 2]
                    &&& pixels@[4 * k + 1] == orig[4 * k + 1]
                    &&& pixels@[4 * k + 2] == orig[4 * k]
                    &&& pixels@[4 * k + 3] == converted_alpha(orig, mv, k)
                } by {
                if k < k0 {
                    assert(4 * k + 3 < p);
                    assert(before[4 * k] == orig[4 * k + 2]);
                } else {
                    assert(k == k0);
                    assert(pixels@[4 * k] == orig[4 * k + 2]);
                    assert(pixels@[4 * k + 1] == orig[4 * k + 1]);
                    assert(pixels@[4 * k + 2] == orig[4 * k]);
                    assert(pixels@[4 * k + 3] == a);
                    assert(a == converted_alpha(orig, mv, k));
                }
            }
        }
        p = p + 4;
    }
    proof {
        assert(p == 4 * (n as int / 4)) by (nonlinear_arith)
            requires
                p % 4 == 0,
                p <= n,
                p + 4 > n,
        ;
        assert forall|k: int|
            0 <= k && 4 * k + 4 <= n implies {
                &&& #[trigger] pixels@[4 * k] == orig[4 * k + 2]
                &&& pixels@[4 * k + 1] == orig[4 * k + 1]
                &&& pixels@[4 * k + 2] == orig[4 * k]
                &&& pixels@[4 * k + 3] == converted_alpha(orig, mv, k)
            } by {
            assert(4 * k + 4 <= p) by (nonlinear_arith)
                requires
                    p % 4 == 0,
                    p + 4 > n,
                    4 * k + 4 <= n,
                    0 <= k,
            ;
        }
    }
}

} // verus!
