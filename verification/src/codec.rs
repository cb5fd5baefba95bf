//! Codec boundary: decoding a PNG byte stream into the library's image
//! model, re-encoding an image with maximal lossless compression and the
//! adaptive filter strategy, and resampling to new dimensions.
//!
//! The pixel codec and the resampling kernels are external collaborators;
//! each call is made through a trusted wrapper whose result is given a name
//! (`png_decode_of`, `png_encode_of`, `resize_of`), since their exact output
//! is a deterministic function of the arguments but far too large to state.

use vstd::prelude::*;
use vstd::string::StringExecFns;
use crate::model::{Filter, Image, ImageView};

verus! {

/// What decoding a PNG byte stream yields: `None` when the bytes are not a
/// decodable image, otherwise the decoded dimensions, whether the color
/// mode carries alpha, and the interleaved RGBA (or RGB) bytes.
pub uninterp spec fn png_decode_of(bytes: Seq<u8>) -> Option<ImageView>;

/// What encoding an image as a PNG at maximal compression with the
/// adaptive filter strategy yields: `None` when the encoder rejects the
/// image, otherwise the encoded bytes. The outcome is deterministic in the
/// buffer and the dimensions.
pub uninterp spec fn png_encode_of(img: ImageView) -> Option<Seq<u8>>;

/// The interleaved channel bytes of `img` resampled to `nw x nh` with the
/// given kernel.
pub uninterp spec fn resize_of(img: ImageView, nw: u32, nh: u32, filter: Filter) -> Seq<u8>;

/// Whether the bytes decode to an image with at least one pixel; only such
/// an image enters the pipeline.
pub open spec fn decodes_to_image(bytes: Seq<u8>) -> bool {
    &&& png_decode_of(bytes) is Some
    &&& png_decode_of(bytes)->Some_0.width >= 1
    &&& png_decode_of(bytes)->Some_0.height >= 1
}

/// Relies on image::load_from_memory_with_format, pinned to the PNG
/// format (bytes of another image format fail instead of being converted),
/// and on DynamicImage::{width, height, color, to_rgba8, to_rgb8} to read
/// the result out: the converted buffer holds exactly width * height pixels
/// of 4 (with alpha) or 3 (without) bytes each. Decoding depends on the
/// bytes alone.
#[verifier::external_body]
fn decode_png_raw(bytes: &Vec<u8>) -> (r: Result<(u32, u32, bool, Vec<u8>), String>)
    ensures
        r is Ok <==> png_decode_of(bytes@) is Some,
        r is Ok ==> ({
            let v = png_decode_of(bytes@)->Some_0;
            &&& r->Ok_0.0 == v.width
            &&& r->Ok_0.1 == v.height
            &&& r->Ok_0.2 == v.has_alpha
            &&& r->Ok_0.3@ == v.data
            &&& v.data.len() == (v.width * v.height) * (if v.has_alpha {
                4nat
            } else {
                3nat
            })
        }),
{
    let img = image::load_from_memory_with_format(bytes.as_slice(), image::ImageFormat::Png)
        .map_err(|e| e.to_string())?;
    let (w, h) = (img.width(), img.height());
    if img.color().has_alpha() {
        Ok((w, h, true, img.to_rgba8().into_raw()))
    } else {
        Ok((w, h, false, img.to_rgb8().into_raw()))
    }
}

/// Relies on PngEncoder::new_with_quality with maximal compression and the
/// adaptive filter, and on ImageEncoder::write_image, which encodes the
/// buffer it is given; writing goes into memory, so both the outcome and
/// the output depend on the arguments alone.
#[verifier::external_body]
fn encode_png_raw(data: &Vec<u8>, width: u32, height: u32, alpha: bool) -> (r: Result<
    Vec<u8>,
    String,
>)
    requires
        data@.len() == (width as nat * height as nat) * (if alpha {
            4nat
        } else {
            3nat
        }),
    ensures
        r is Ok <==> png_encode_of(
            (ImageView {
                width: width as nat,
                height: height as nat,
                has_alpha: alpha,
                data: data@,
            }),
        ) is Some,
        r is Ok ==> r->Ok_0@ == png_encode_of(
            (ImageView {
                width: width as nat,
                height: height as nat,
                has_alpha: alpha,
                data: data@,
            }),
        )->Some_0,
{
    let mut out: Vec<u8> = Vec::new();
    let enc = image::codecs::png::PngEncoder::new_with_quality(
        &mut out,
        image::codecs::png::CompressionType::Best,
        image::codecs::png::FilterType::Adaptive,
    );
    let color = if alpha { image::ExtendedColorType::Rgba8 } else { image::ExtendedColorType::Rgb8 };
    image::ImageEncoder::write_image(enc, data.as_slice(), width, height, color)
        .map_err(|e| e.to_string())?;
    Ok(out)
}

/// Relies on image::imageops::resize over an RGBA buffer: the result is an
/// `nw x nh` buffer of the same pixel type, and depends on the arguments
/// alone. The resampler first builds a `width x nh` intermediate buffer,
/// so that product is bounded as well, keeping every internal length
/// computation within `usize`.
#[verifier::external_body]
fn resize_rgba_raw(data: &Vec<u8>, width: u32, height: u32, nw: u32, nh: u32, filter: Filter) -> (r:
    Vec<u8>)
    requires
        data@.len() == (width as nat * height as nat) * 4,
        1 <= width,
        1 <= height,
        1 <= nw,
        1 <= nh,
        (nw as nat) * (nh as nat) <= usize::MAX as nat / 4,
        (width as nat) * (nh as nat) <= usize::MAX as nat / 4,
    ensures
        r@ == resize_of(
            (ImageView {
                width: width as nat,
                height: height as nat,
                has_alpha: true,
                data: data@,
            }),
            nw,
            nh,
            filter,
        ),
        r@.len() == (nw as nat * nh as nat) * 4,
{
    let ft = match filter {
        Filter::Gaussian => image::imageops::FilterType::Gaussian,
        Filter::Lanczos => image::imageops::FilterType::Lanczos3,
        Filter::CatmullRom => image::imageops::FilterType::CatmullRom,
        Filter::NearestNeighbor => image::imageops::FilterType::Nearest,
        Filter::LinearTriangle => image::imageops::FilterType::Triangle,
    };
    let buf = image::RgbaImage::from_raw(width, height, data.clone()).unwrap();
    image::imageops::resize(&buf, nw, nh, ft).into_raw()
}

/// Relies on image::imageops::resize over an RGB buffer: the result is an
/// `nw x nh` buffer of the same pixel type, and depends on the arguments
/// alone. The resampler first builds a `width x nh` intermediate buffer,
/// so that product is bounded as well, keeping every internal length
/// computation within `usize`.
#[verifier::external_body]
fn resize_rgb_raw(data: &Vec<u8>, width: u32, height: u32, nw: u32, nh: u32, filter: Filter) -> (r:
    Vec<u8>)
    requires
        data@.len() == (width as nat * height as nat) * 3,
        1 <= width,
        1 <= height,
        1 <= nw,
        1 <= nh,
        (nw as nat) * (nh as nat) <= usize::MAX as nat / 4,
        (width as nat) * (nh as nat) <= usize::MAX as nat / 4,
    ensures
        r@ == resize_of(
            (ImageView {
                width: width as nat,
                height: height as nat,
                has_alpha: false,
                data: data@,
            }),
            nw,
            nh,
            filter,
        ),
        r@.len() == (nw as nat * nh as nat) * 3,
{
    let ft = match filter {
        Filter::Gaussian => image::imageops::FilterType::Gaussian,
        Filter::Lanczos => image::imageops::FilterType::Lanczos3,
        Filter::CatmullRom => image::imageops::FilterType::CatmullRom,
        Filter::NearestNeighbor => image::imageops::FilterType::Nearest,
        Filter::LinearTriangle => image::imageops::FilterType::Triangle,
    };
    let buf = image::RgbImage::from_raw(width, height, data.clone()).unwrap();
    image::imageops::resize(&buf, nw, nh, ft).into_raw()
}

/// Decode a PNG byte stream into the library's image model. Bytes that
/// decode to an image without a single pixel are rejected like bytes that
/// do not decode at all.
pub fn decode_image(bytes: &Vec<u8>) -> (r: Result<Image, String>)
    ensures
        r is Ok <==> decodes_to_image(bytes@),
        r is Ok ==> r->Ok_0@ == png_decode_of(bytes@)->Some_0 && r->Ok_0.wf(),
{
    let (width, height, has_alpha, data) = decode_png_raw(bytes)?;
    if width < 1 || height < 1 {
        return Err(String::from_str("decoded image has no pixels"));
    }
    let img = Image { width, height, has_alpha, data };
    proof {
        assert(img@ =~= png_decode_of(bytes@)->Some_0);
    }
    Ok(img)
}

/// Encode an image as a PNG byte stream at maximal lossless compression.
pub fn encode_image(img: &Image) -> (r: Result<Vec<u8>, String>)
    requires
        img.wf(),
    ensures
        r is Ok <==> png_encode_of(img@) is Some,
        r is Ok ==> r->Ok_0@ == png_encode_of(img@)->Some_0,
{
    let r = encode_png_raw(&img.data, img.width, img.height, img.has_alpha)?;
    proof {
        assert((ImageView {
            width: img.width as nat,
            height: img.height as nat,
            has_alpha: img.has_alpha,
            data: img.data@,
        }) =~= img@);
    }
    Ok(r)
}

/// Resample an image to `nw x nh` with the given kernel; the color mode is
/// kept.
pub fn resize_image(img: &Image, nw: u32, nh: u32, filter: Filter) -> (r: Image)
    requires
        img.wf(),
        1 <= nw,
        1 <= nh,
        (nw as nat) * (nh as nat) <= usize::MAX as nat / 4,
        img@.width * (nh as nat) <= usize::MAX as nat / 4,
    ensures
        r.wf(),
        r@ == (ImageView {
            width: nw as nat,
            height: nh as nat,
            has_alpha: img@.has_alpha,
            data: resize_of(img@, nw, nh, filter),
        }),
{
    let data = if img.has_alpha {
        resize_rgba_raw(&img.data, img.width, img.height, nw, nh, filter)
    } else {
        resize_rgb_raw(&img.data, img.width, img.height, nw, nh, filter)
    };
    proof {
        assert((ImageView {
            width: img.width as nat,
            height: img.height as nat,
            has_alpha: img.has_alpha,
            data: img.data@,
        }) =~= img@);
    }
    let r = Image { width: nw, height: nh, has_alpha: img.has_alpha, data };
    proof {
        assert(r@ =~= (ImageView {
            width: nw as nat,
            height: nh as nat,
            has_alpha: img@.has_alpha,
            data: resize_of(img@, nw, nh, filter),
        }));
    }
    r
}

} // verus!
