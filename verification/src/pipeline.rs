//! The per-file transform: decode the input bytes, preprocess the alpha
//! channel, and for each resulting variant plan the target dimensions,
//! resample when they changed, and re-encode. The result is the ordered
//! sequence of candidate encodings that the caller offers to safe replace,
//! the alpha-preserving variant first.

use vstd::prelude::*;
use vstd::string::StringExecFns;
use crate::alpha::{preprocess, stripped_view, yields_stripped_variant};
use crate::codec::{
    decode_image, decodes_to_image, encode_image, png_decode_of, png_encode_of, resize_image,
    resize_of,
};
use crate::model::{Filter, Image, ImageView};
use crate::planner::{plan, plan_spec};

verus! {

/// Why processing one file failed.
#[derive(Debug)]
pub enum PipelineError {
    /// The input bytes could not be decoded.
    Decode(String),
    /// Re-encoding a variant failed.
    Encode(String),
    /// The planned dimensions describe a pixel buffer too large to hold.
    Oversize,
}

impl PipelineError {
    /// A human-readable cause.
    pub fn message(&self) -> (r: String)
        ensures
            self is Decode ==> r@ == self->Decode_0@,
            self is Encode ==> r@ == self->Encode_0@,
    {
        match self {
            PipelineError::Decode(s) => s.clone(),
            PipelineError::Encode(s) => s.clone(),
            PipelineError::Oversize => String::from_str("planned dimensions are too large"),
        }
    }
}

/// The dimensions planned for one variant.
pub open spec fn spec_planned(v: ImageView, max_w: Option<u32>, max_h: Option<u32>) -> (int, int) {
    plan_spec(v.width as int, v.height as int, max_w, max_h)
}

/// Whether every pixel buffer the resampler builds can be held in memory:
/// the `nw x nh` result and the `width x nh` intermediate buffer. Only
/// resampling to changed dimensions allocates; a decoded buffer exists
/// already.
pub open spec fn planned_fits(v: ImageView, max_w: Option<u32>, max_h: Option<u32>) -> bool {
    let (nw, nh) = spec_planned(v, max_w, max_h);
    (nw == v.width as int && nh == v.height as int) || (nw * nh <= usize::MAX as nat / 4
        && v.width * nh <= usize::MAX as nat / 4)
}

/// The image actually encoded for one variant: the variant itself when the
/// planned dimensions equal its own, otherwise the variant resampled to the
/// planned dimensions.
pub open spec fn planned_view(
    v: ImageView,
    max_w: Option<u32>,
    max_h: Option<u32>,
    filter: Filter,
) -> ImageView {
    let (nw, nh) = spec_planned(v, max_w, max_h);
    if nw == v.width as int && nh == v.height as int {
        v
    } else {
        ImageView {
            width: nw as nat,
            height: nh as nat,
            has_alpha: v.has_alpha,
            data: resize_of(v, nw as u32, nh as u32, filter),
        }
    }
}

/// Alpha safety: an image holding one pixel whose alpha is below 254
/// yields no alpha-stripped variant, and the image encoded for it keeps its
/// alpha channel, whatever bounds and kernel are chosen.
pub proof fn lemma_alpha_safety(
    v: ImageView,
    i: int,
    max_w: Option<u32>,
    max_h: Option<u32>,
    filter: Filter,
)
    requires
        v.has_alpha,
        0 <= i,
        4 * i + 3 < v.data.len(),
        v.data[4 * i + 3] < 254,
    ensures
        !yields_stripped_variant(v),
        planned_view(v, max_w, max_h, filter).has_alpha,
{
    assert(!crate::alpha::all_opaque(v.data));
}

/// Whether one variant's compress step succeeds: the planned buffers fit
/// in memory and the encoder accepts the planned image.
pub open spec fn candidate_ok(
    v: ImageView,
    max_w: Option<u32>,
    max_h: Option<u32>,
    filter: Filter,
) -> bool {
    &&& planned_fits(v, max_w, max_h)
    &&& png_encode_of(planned_view(v, max_w, max_h, filter)) is Some
}

/// The candidate encoding of one variant.
pub open spec fn candidate_bytes(
    v: ImageView,
    max_w: Option<u32>,
    max_h: Option<u32>,
    filter: Filter,
) -> Seq<u8> {
    png_encode_of(planned_view(v, max_w, max_h, filter))->Some_0
}

/// Whether the whole per-file transform succeeds: the bytes decode to an
/// image with at least one pixel and every variant's compress step
/// succeeds.
pub open spec fn pipeline_ok(
    bytes: Seq<u8>,
    max_w: Option<u32>,
    max_h: Option<u32>,
    filter: Filter,
) -> bool {
    let d = png_decode_of(bytes)->Some_0;
    &&& decodes_to_image(bytes)
    &&& candidate_ok(d, max_w, max_h, filter)
    &&& (yields_stripped_variant(d) ==> candidate_ok(stripped_view(d), max_w, max_h, filter))
}

/// Check that an `nw x nh` RGBA buffer fits in memory.
fn dims_fit(nw: u32, nh: u32) -> (r: bool)
    ensures
        r == ((nw as nat) * (nh as nat) <= usize::MAX as nat / 4),
{
    proof {
        crate::planner::lemma_u32_product_fits_u64(nw, nh);
    }
    (nw as u64) * (nh as u64) <= usize::MAX as u64 / 4
}

/// Plan, optionally resample, and encode one variant.
fn compress_variant(v: &Image, max_w: Option<u32>, max_h: Option<u32>, filter: Filter) -> (r:
    Result<Vec<u8>, PipelineError>)
    requires
        v.wf(),
    ensures
        r is Ok <==> candidate_ok(v@, max_w, max_h, filter),
        r is Ok ==> r->Ok_0@ == candidate_bytes(v@, max_w, max_h, filter),
        r is Err ==> !(r->Err_0 is Decode),
        (r is Err && r->Err_0 is Oversize) <==> !planned_fits(v@, max_w, max_h),
{
    let (nw, nh) = plan(v.width, v.height, max_w, max_h);
    if nw == v.width && nh == v.height {
        match encode_image(v) {
            Ok(b) => Ok(b),
            Err(s) => Err(PipelineError::Encode(s)),
        }
    } else {
        if !(dims_fit(nw, nh) && dims_fit(v.width, nh)) {
            return Err(PipelineError::Oversize);
        }
        let resized = resize_image(v, nw, nh, filter);
        match encode_image(&resized) {
            Ok(b) => Ok(b),
            Err(s) => Err(PipelineError::Encode(s)),
        }
    }
}

/// Transform one file's bytes into its candidate encodings: the decoded
/// image's alpha-preserving candidate first and, when the alpha channel is
/// effectively opaque, the alpha-stripped candidate second. The caller
/// offers the candidates to safe replace in this order. Variants are
/// processed in that order and the first failure is returned, so an error
/// on the stripped variant hides none of the error conditions stated
/// below.
pub fn compress_images(
    data: &Vec<u8>,
    max_width: Option<u32>,
    max_height: Option<u32>,
    filter: Filter,
) -> (r: Result<Vec<Vec<u8>>, PipelineError>)
    ensures
        r is Ok <==> pipeline_ok(data@, max_width, max_height, filter),
        (r is Err && r->Err_0 is Decode) <==> !decodes_to_image(data@),
        (r is Err && r->Err_0 is Oversize) <==> (decodes_to_image(data@) && ({
            let d = png_decode_of(data@)->Some_0;
            !planned_fits(d, max_width, max_height) || (candidate_ok(d, max_width, max_height,
                filter) && yields_stripped_variant(d) && !planned_fits(
                stripped_view(d),
                max_width,
                max_height,
            ))
        })),
        r is Ok ==> ({
            let d = png_decode_of(data@)->Some_0;
            &&& r->Ok_0.len() == (if yields_stripped_variant(d) {
                2int
            } else {
                1int
            })
            &&& r->Ok_0[0]@ == candidate_bytes(d, max_width, max_height, filter)
            &&& yields_stripped_variant(d) ==> r->Ok_0[1]@ == candidate_bytes(
                stripped_view(d),
                max_width,
                max_height,
                filter,
            )
        }),
{
    let img = match decode_image(data) {
        Ok(i) => i,
        Err(s) => {
            return Err(PipelineError::Decode(s));
        },
    };
    let mut variants = preprocess(img);
    let mut out: Vec<Vec<u8>> = Vec::new();
    if variants.len() == 1 {
        let v = variants.pop().unwrap();
        let c = match compress_variant(&v, max_width, max_height, filter) {
            Ok(c) => c,
            Err(e) => {
                return Err(e);
            },
        };
        out.push(c);
    } else {
        let stripped = variants.pop().unwrap();
        let orig = variants.pop().unwrap();
        let c0 = match compress_variant(&orig, max_width, max_height, filter) {
            Ok(c) => c,
            Err(e) => {
                return Err(e);
            },
        };
        out.push(c0);
        let c1 = match compress_variant(&stripped, max_width, max_height, filter) {
            Ok(c) => c,
            Err(e) => {
                return Err(e);
            },
        };
        out.push(c1);
    }
    Ok(out)
}

} // verus!
