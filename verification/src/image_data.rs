//! Bringing decoded images to a layer's uniform cell size. Every texture in
//! a layer must be exactly one cell; images whose dimensions differ are
//! resampled, never silently stretched at draw time.

use vstd::prelude::*;
use vstd::string::StringExecFns;

use crate::atlas::CellImage;
use crate::error::EffectError;
use crate::extent::Extent2D;
use crate::text::decimal_string;

verus! {

/// What resampling an RGBA image to new dimensions yields: a function of the
/// source pixels and the two extents alone.
pub uninterp spec fn resized_rgba(
    pixels: Seq<u8>,
    width: int,
    height: int,
    new_width: int,
    new_height: int,
) -> Seq<u8>;

/// Relies on image::imageops::resize with the Lanczos3 filter to resample an
/// RGBA8 buffer to the requested dimensions, and on image::ImageBuffer's
/// documented layout: exactly width * height pixels of four bytes each. The
/// result depends on nothing but the source pixels and the two extents.
#[verifier::external_body]
fn resize_rgba(pixels: &Vec<u8>, width: u32, height: u32, new_width: u32, new_height: u32) -> (r:
    Vec<u8>)
    requires
        width > 0,
        height > 0,
        new_width > 0,
        new_height > 0,
        pixels@.len() == 4 * (width as int) * (height as int),
    ensures
        r@.len() == 4 * (new_width as int) * (new_height as int),
        r@ == resized_rgba(pixels@, width as int, height as int, new_width as int, new_height as int),
{
    let img: image::ImageBuffer<image::Rgba<u8>, Vec<u8>> = image::ImageBuffer::from_raw(
        width,
        height,
        pixels.clone(),
    ).unwrap();
    let out = image::imageops::resize(
        &img,
        new_width,
        new_height,
        image::imageops::FilterType::Lanczos3,
    );
    out.into_raw()
}

/// The pixels an image contributes to the atlas: its own when it is already
/// exactly one cell, the resampled ones otherwise.
pub open spec fn conformed_pixels(src: CellImage, cell: Extent2D) -> Seq<u8> {
    if src.conformed(cell) {
        src.pixels@
    } else {
        resized_rgba(
            src.pixels@,
            src.width as int,
            src.height as int,
            cell.width as int,
            cell.height as int,
        )
    }
}

/// Brings every image to exactly `cell_size`: an image already of that size
/// passes through untouched, any other is resampled. Fails — naming the
/// offending position — exactly when some image's buffer does not hold the
/// pixels its own dimensions declare, or has no pixels at all.
pub fn conform_images(images: Vec<CellImage>, cell_size: Extent2D) -> (r: Result<
    Vec<CellImage>,
    EffectError,
>)
    requires
        cell_size.width > 0,
        cell_size.height > 0,
    ensures
        r is Ok <==> (forall|i: int|
            0 <= i < images@.len() ==> (#[trigger] images@[i]).wf()),
        r matches Ok(out) ==> {
            &&& out@.len() == images@.len()
            &&& forall|i: int|
                0 <= i < out@.len() ==> (#[trigger] out@[i]).conformed(cell_size)
            &&& forall|i: int| 0 <= i < out@.len() ==> (#[trigger] out@[i]).id@ == images@[i].id@
            &&& forall|i: int| 0 <= i < out@.len() ==> (#[trigger] out@[i]).path@ == images@[i].path@
            &&& forall|i: int|
                0 <= i < out@.len() ==> (#[trigger] out@[i]).pixels@ == conformed_pixels(
                    images@[i],
                    cell_size,
                )
        },
{
    let n = images.len();
    let mut out: Vec<CellImage> = Vec::new();
    let mut i: usize = 0;
    while i < n
        invariant
            i <= n,
            n == images@.len(),
            cell_size.width > 0,
            cell_size.height > 0,
            out@.len() == i,
            forall|t: int| 0 <= t < i ==> (#[trigger] images@[t]).wf(),
            forall|t: int| 0 <= t < i ==> (#[trigger] out@[t]).conformed(cell_size),
            forall|t: int| 0 <= t < i ==> (#[trigger] out@[t]).id@ == images@[t].id@,
            forall|t: int| 0 <= t < i ==> (#[trigger] out@[t]).path@ == images@[t].path@,
            forall|t: int|
                0 <= t < i ==> (#[trigger] out@[t]).pixels@ == conformed_pixels(
                    images@[t],
                    cell_size,
                ),
        decreases n - i,
    {
        let img = &images[i];
        proof {
            assert((4 * (img.width as int)) * (img.height as int)
                < 0x1_0000_0000_0000_0000_0000_0000_0000_0000) by (nonlinear_arith)
                requires
                    0 <= img.width as int,
                    (img.width as int) < 0x1_0000_0000,
                    0 <= img.height as int,
                    (img.height as int) < 0x1_0000_0000,
            ;
        }
        let len_ok: bool = (img.pixels.len() as u128) == 4u128 * (img.width as u128) * (
        img.height as u128);
        if img.width == 0 || img.height == 0 || !len_ok {
            let mut msg = "Texture pixel data does not match its dimensions at index ".to_owned();
            msg.append(decimal_string(i as u64).as_str());
            return Err(EffectError { msg });
        }
        let pixels: Vec<u8>;
        if img.width == cell_size.width && img.height == cell_size.height {
            pixels = img.pixels.clone();
            proof {
                assert(images@[i as int].conformed(cell_size));
            }
        } else {
            pixels = resize_rgba(
                &img.pixels,
                img.width,
                img.height,
                cell_size.width,
                cell_size.height,
            );
            proof {
                assert(!images@[i as int].conformed(cell_size));
            }
        }
        let cell = CellImage {
            id: img.id.duplicate(),
            path: img.path.clone(),
            pixels,
            width: cell_size.width,
            height: cell_size.height,
        };
        out.push(cell);
        i += 1;
    }
    Ok(out)
}

} // verus!
