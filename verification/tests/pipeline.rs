use pngshrink::{
    compress_images, decode_image, encode_image, Filter, Image, PipelineError,
};

fn gradient_rgba(w: u32, h: u32) -> Vec<u8> {
    let mut data = Vec::new();
    for y in 0..h {
        for x in 0..w {
            data.push((x % 256) as u8);
            data.push((y % 256) as u8);
            data.push(((x + y) % 256) as u8);
            data.push(255u8);
        }
    }
    data
}

/// Pseudo-random pixel noise: barely compressible, so the encoded size
/// tracks the pixel count.
fn noise_rgba(w: u32, h: u32) -> Vec<u8> {
    let mut state: u32 = 0x1234_5678;
    let mut data = Vec::new();
    for _ in 0..(w as usize * h as usize) {
        for _ in 0..3 {
            state = state.wrapping_mul(1_664_525).wrapping_add(1_013_904_223);
            data.push((state >> 24) as u8);
        }
        data.push(255u8);
    }
    data
}

fn gradient_rgb(w: u32, h: u32) -> Vec<u8> {
    let mut data = Vec::new();
    for y in 0..h {
        for x in 0..w {
            data.push((x % 256) as u8);
            data.push((y % 256) as u8);
            data.push(((x + y) % 256) as u8);
        }
    }
    data
}

#[test]
fn default_filter_is_gaussian() {
    assert_eq!(Filter::default(), Filter::Gaussian);
}

#[test]
fn encode_decode_round_trip() {
    let img = Image { width: 10, height: 7, has_alpha: true, data: gradient_rgba(10, 7) };
    let bytes = encode_image(&img).unwrap();
    assert_ne!(bytes, img.data);
    let back = decode_image(&bytes).unwrap();
    assert_eq!(back.width, 10);
    assert_eq!(back.height, 7);
    assert!(back.has_alpha);
    assert_eq!(back.data, img.data);
}

#[test]
fn garbage_bytes_fail_to_decode() {
    let garbage = vec![0u8, 1, 2, 3, 4, 5, 6, 7];
    assert!(decode_image(&garbage).is_err());
    match compress_images(&garbage, None, None, Filter::Gaussian) {
        Err(PipelineError::Decode(_)) => {}
        other => panic!("expected a decode error, got {:?}", other.is_ok()),
    }
}

#[test]
fn huge_planned_dimensions_are_rejected() {
    let img = Image { width: 1, height: 1, has_alpha: false, data: vec![1u8, 2, 3] };
    let bytes = encode_image(&img).unwrap();
    match compress_images(&bytes, None, Some(u32::MAX), Filter::Gaussian) {
        Err(PipelineError::Oversize) => {}
        other => panic!("expected an oversize error, got {:?}", other.is_ok()),
    }
}

#[test]
fn oversize_error_has_a_fixed_message() {
    let msg = PipelineError::Oversize.message();
    assert_eq!(msg, "planned dimensions are too large");
}

#[test]
fn opaque_rgba_downscale_yields_stripped_smaller_variant() {
    // a 1000x500 fully opaque RGBA image bounded to width 500: both the
    // alpha-preserving and the alpha-stripped candidate come out at
    // 500x250, and the stripped one is the smallest, smaller than the
    // original file
    let img = Image { width: 1000, height: 500, has_alpha: true, data: noise_rgba(1000, 500) };
    let original = encode_image(&img).unwrap();
    let candidates = compress_images(&original, Some(500), None, Filter::Gaussian).unwrap();
    assert_eq!(candidates.len(), 2);

    let with_alpha = decode_image(&candidates[0]).unwrap();
    assert_eq!((with_alpha.width, with_alpha.height), (500, 250));
    assert!(with_alpha.has_alpha);

    let stripped = decode_image(&candidates[1]).unwrap();
    assert_eq!((stripped.width, stripped.height), (500, 250));
    assert!(!stripped.has_alpha);
    assert_eq!(stripped.data.len(), 500 * 250 * 3);

    assert!(candidates[1].len() < original.len());
    assert!(candidates[1].len() <= candidates[0].len());
}

#[test]
fn translucent_image_keeps_its_alpha_channel() {
    // one pixel at alpha 200: only the alpha-preserving candidate exists
    let mut data = gradient_rgba(8, 8);
    data[3] = 200;
    let img = Image { width: 8, height: 8, has_alpha: true, data };
    let bytes = encode_image(&img).unwrap();
    let candidates = compress_images(&bytes, None, None, Filter::Gaussian).unwrap();
    assert_eq!(candidates.len(), 1);
    let back = decode_image(&candidates[0]).unwrap();
    assert!(back.has_alpha);
}

#[test]
fn second_run_is_a_fixed_point() {
    // an image already encoded by this pipeline at its target dimensions
    // re-encodes to exactly the same bytes: a second run reduces nothing
    let img = Image { width: 40, height: 30, has_alpha: false, data: gradient_rgb(40, 30) };
    let bytes = encode_image(&img).unwrap();
    let first = compress_images(&bytes, None, None, Filter::Gaussian).unwrap();
    assert_eq!(first.len(), 1);
    let second = compress_images(&first[0], None, None, Filter::Gaussian).unwrap();
    assert_eq!(second.len(), 1);
    assert_eq!(second[0], first[0]);
}

#[test]
fn unchanged_dimensions_skip_resampling() {
    // bounds the image already fits: the candidate decodes back to the
    // identical pixel buffer, so no kernel touched the pixels
    let img = Image { width: 6, height: 4, has_alpha: false, data: gradient_rgb(6, 4) };
    let bytes = encode_image(&img).unwrap();
    let candidates =
        compress_images(&bytes, Some(100), Some(100), Filter::Gaussian).unwrap();
    assert_eq!(candidates.len(), 1);
    let back = decode_image(&candidates[0]).unwrap();
    assert_eq!(back.data, img.data);
}

#[test]
fn nearest_neighbor_downscale_of_uniform_image() {
    // a uniform color survives any resampling kernel; the buffer really is
    // resized to the planned 1x1
    let img = Image { width: 2, height: 2, has_alpha: false, data: vec![200u8; 2 * 2 * 3] };
    let bytes = encode_image(&img).unwrap();
    let candidates =
        compress_images(&bytes, Some(1), Some(1), Filter::NearestNeighbor).unwrap();
    let back = decode_image(&candidates[0]).unwrap();
    assert_eq!((back.width, back.height), (1, 1));
    assert_eq!(back.data, vec![200u8, 200, 200]);
}
