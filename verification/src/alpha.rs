//! Alpha preprocessor: decide whether a decoded image's alpha channel is
//! effectively opaque (every pixel's alpha at least 254, an intentional
//! near-opaque tolerance) and, when it is, produce an alpha-stripped second
//! variant alongside the original.

use vstd::prelude::*;
use crate::model::{Image, ImageView};

verus! {

/// Every pixel of an RGBA byte buffer has alpha >= 254.
pub open spec fn all_opaque(data: Seq<u8>) -> bool {
    forall|i: int| 0 <= i && 4 * i + 3 < data.len() ==> #[trigger] data[4 * i + 3] >= 254
}

/// The RGB bytes of an RGBA byte buffer, alpha dropped.
pub open spec fn strip_alpha_bytes(data: Seq<u8>) -> Seq<u8> {
    Seq::new((data.len() / 4) * 3, |j: int| data[4 * (j / 3) + j % 3])
}

/// The alpha-stripped variant of an image: same dimensions, same RGB
/// channel bytes, no alpha channel.
pub open spec fn stripped_view(v: ImageView) -> ImageView {
    ImageView { has_alpha: false, data: strip_alpha_bytes(v.data), ..v }
}

/// Whether the preprocessor yields a second, alpha-stripped variant.
pub open spec fn yields_stripped_variant(v: ImageView) -> bool {
    v.has_alpha && all_opaque(v.data)
}

/// Check that every pixel's alpha is at least 254.
pub fn check_all_opaque(data: &Vec<u8>) -> (r: bool)
    ensures
        r == all_opaque(data@),
{
    let n = data.len() / 4;
    let mut i: usize = 0;
    while i < n
        invariant
            0 <= i <= n,
            n == data@.len() / 4,
            data@.len() <= usize::MAX,
            forall|k: int| 0 <= k < i ==> #[trigger] data@[4 * k + 3] >= 254,
        decreases n - i,
    {
        assert(4 * i + 3 < data@.len()) by {
            assert(4 * n <= data@.len());
        }
        if data[4 * i + 3] < 254 {
            assert(!all_opaque(data@));
            return false;
        }
        i += 1;
    }
    assert forall|k: int| 0 <= k && 4 * k + 3 < data@.len() implies #[trigger] data@[4 * k + 3] >= 254 by {
        assert(k < n);
    }
    true
}

/// Copy the RGB bytes out of an RGBA buffer, dropping each pixel's alpha.
pub fn strip_alpha(data: &Vec<u8>) -> (r: Vec<u8>)
    requires
        data@.len() % 4 == 0,
    ensures
        r@ == strip_alpha_bytes(data@),
{
    let n = data.len() / 4;
    let mut out: Vec<u8> = Vec::new();
    let mut i: usize = 0;
    while i < n
        invariant
            0 <= i <= n,
            n == data@.len() / 4,
            data@.len() % 4 == 0,
            data@.len() <= usize::MAX,
            out@.len() == 3 * i,
            forall|j: int| 0 <= j < 3 * i ==> #[trigger] out@[j] == data@[4 * (j / 3) + j % 3],
        decreases n - i,
    {
        assert(4 * i + 3 < data@.len()) by {
            assert(data@.len() == 4 * n);
        }
        out.push(data[4 * i]);
        out.push(data[4 * i + 1]);
        out.push(data[4 * i + 2]);
        assert forall|j: int| 0 <= j < 3 * (i + 1) implies #[trigger] out@[j] == data@[4 * (j / 3) + j % 3] by {
            if j >= 3 * i {
                assert(j / 3 == i && (j % 3 == 0 || j % 3 == 1 || j % 3 == 2));
            }
        }
        i += 1;
    }
    proof {
        assert(out@.len() == (data@.len() / 4) * 3) by {
            assert(data@.len() / 4 == n as int);
        }
        assert(out@ =~= strip_alpha_bytes(data@));
    }
    out
}

/// Preprocess a decoded image: an image without alpha, or with alpha that
/// is meaningful somewhere (some pixel's alpha below 254), passes through
/// alone; an image whose alpha channel is effectively opaque yields two
/// variants, the original first and the alpha-stripped one second.
pub fn preprocess(img: Image) -> (r: Vec<Image>)
    requires
        img.wf(),
    ensures
        forall|k: int| 0 <= k < r@.len() ==> (#[trigger] r@[k]).wf(),
        !yields_stripped_variant(img@) ==> r@.len() == 1 && r@[0]@ == img@,
        yields_stripped_variant(img@) ==> r@.len() == 2 && r@[0]@ == img@ && r@[1]@
            == stripped_view(img@),
{
    let mut r: Vec<Image> = Vec::new();
    if !img.has_alpha {
        r.push(img);
        return r;
    }
    if !check_all_opaque(&img.data) {
        r.push(img);
        return r;
    }
    proof {
        lemma_stripped_wf(img@);
    }
    let stripped = Image {
        width: img.width,
        height: img.height,
        has_alpha: false,
        data: strip_alpha(&img.data),
    };
    proof {
        assert(stripped@ =~= stripped_view(img@));
    }
    r.push(img);
    r.push(stripped);
    r
}

/// The alpha-stripped variant of a well-formed RGBA image is well-formed.
proof fn lemma_stripped_wf(v: ImageView)
    requires
        v.wf(),
        v.has_alpha,
    ensures
        stripped_view(v).wf(),
        v.data.len() % 4 == 0,
{
    let n = v.width * v.height;
    assert(v.data.len() == n * 4) by {
        assert(v.width * v.height * 4 == (v.width * v.height) * 4) by (nonlinear_arith);
    }
    assert((n * 4) as int % 4 == 0 && (n * 4) as int / 4 == n) by (nonlinear_arith);
    assert(strip_alpha_bytes(v.data).len() == n * 3);
    assert(v.width * v.height * 3 == n * 3) by (nonlinear_arith)
        requires
            n == v.width * v.height,
    ;
}

} // verus!
