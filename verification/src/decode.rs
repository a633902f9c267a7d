//! Trusted boundary to the external JPEG XL decoder.
//!
//! Everything in this module is a declaration Verus believes without proof:
//! type declarations for the decoder's opaque values, named results for what
//! its calls return, contracts for the methods the session logic calls, and
//! thin wrappers whose bodies only make the outside call and convert its
//! result.  Each item names the `jxl_oxide` function it relies on.
//!
//! The names below assert that each result is a function of the named
//! arguments alone: decoding a JPEG XL stream is deterministic, and the
//! accessors read fields of the value they are called on.

use vstd::prelude::*;

use crate::PixelFormat;

verus! {

#[verifier::external_type_specification]
#[verifier::external_body]
pub struct ExJxlImage(jxl_oxide::JxlImage);

#[verifier::external_type_specification]
#[verifier::external_body]
pub struct ExRender(jxl_oxide::Render);

#[verifier::external_type_specification]
#[verifier::external_body]
pub struct ExFrameBuffer(jxl_oxide::FrameBuffer);

/// Whether the decoder accepts the bytes as a decodable JPEG XL image.
pub uninterp spec fn jxl_opens(bytes: Seq<u8>) -> bool;

/// The display text of the error the decoder reports for bytes it rejects.
pub uninterp spec fn open_err_of(bytes: Seq<u8>) -> Seq<u8>;

/// The header width of an opened image, with orientation applied.
pub uninterp spec fn img_width_of(img: jxl_oxide::JxlImage) -> u32;

/// The header height of an opened image, with orientation applied.
pub uninterp spec fn img_height_of(img: jxl_oxide::JxlImage) -> u32;

/// The channel layout an opened image renders with.
pub uninterp spec fn img_pixfmt_of(img: jxl_oxide::JxlImage) -> PixelFormat;

/// How many keyframes an opened image has loaded.
pub uninterp spec fn img_keyframes_of(img: jxl_oxide::JxlImage) -> usize;

/// Whether rendering the keyframe at this index of this image succeeds.
pub uninterp spec fn render_ok_of(img: jxl_oxide::JxlImage, index: usize) -> bool;

/// The display text of the error a failed render reports.
pub uninterp spec fn render_err_of(img: jxl_oxide::JxlImage, index: usize) -> Seq<u8>;

/// The width of the frame a successful render produces.
pub uninterp spec fn frame_width_of(img: jxl_oxide::JxlImage, index: usize) -> nat;

/// The height of the frame a successful render produces.
pub uninterp spec fn frame_height_of(img: jxl_oxide::JxlImage, index: usize) -> nat;

/// The channel count of the frame a successful render produces.
pub uninterp spec fn frame_channels_of(img: jxl_oxide::JxlImage, index: usize) -> nat;

/// The samples of the frame a successful render produces, each as its raw
/// single-precision bit pattern, in the frame's interleaved order.
pub uninterp spec fn frame_samples_of(img: jxl_oxide::JxlImage, index: usize) -> Seq<u32>;

/// The width of the frame a render holds.
pub uninterp spec fn render_width_of(render: jxl_oxide::Render) -> nat;

/// The height of the frame a render holds.
pub uninterp spec fn render_height_of(render: jxl_oxide::Render) -> nat;

/// The channel count of the frame a render holds.
pub uninterp spec fn render_channels_of(render: jxl_oxide::Render) -> nat;

/// The samples of the frame a render holds, as bit patterns in interleaved
/// order.
pub uninterp spec fn render_samples_of(render: jxl_oxide::Render) -> Seq<u32>;

/// The width a frame buffer was created with.
pub uninterp spec fn fb_width_of(fb: jxl_oxide::FrameBuffer) -> nat;

/// The height a frame buffer was created with.
pub uninterp spec fn fb_height_of(fb: jxl_oxide::FrameBuffer) -> nat;

/// The channel count a frame buffer was created with.
pub uninterp spec fn fb_channels_of(fb: jxl_oxide::FrameBuffer) -> nat;

/// The samples a frame buffer holds, each as its raw single-precision bit
/// pattern, in the buffer's interleaved order.
pub uninterp spec fn fb_samples_of(fb: jxl_oxide::FrameBuffer) -> Seq<u32>;

/// Relies on jxl_oxide::JxlImage::width: the image width from the header,
/// with orientation applied — a pure accessor of the image value.
pub assume_specification[ jxl_oxide::JxlImage::width ](img: &jxl_oxide::JxlImage) -> (r: u32)
    ensures
        r == img_width_of(*img),
;

/// Relies on jxl_oxide::JxlImage::height: the image height from the header,
/// with orientation applied — a pure accessor of the image value.
pub assume_specification[ jxl_oxide::JxlImage::height ](img: &jxl_oxide::JxlImage) -> (r: u32)
    ensures
        r == img_height_of(*img),
;

/// Relies on jxl_oxide::JxlImage::num_loaded_keyframes: how many keyframes
/// the decoder loaded from the input bytes — the length of an internal list.
pub assume_specification[ jxl_oxide::JxlImage::num_loaded_keyframes ](
    img: &jxl_oxide::JxlImage,
) -> (r: usize)
    ensures
        r == img_keyframes_of(*img),
;

/// Relies on jxl_oxide::Render::image_all_channels: the interleaved frame
/// buffer of a rendered frame, built deterministically from the render.  Its
/// documentation states that the buffer holds exactly
/// `width * height * channels` samples.
pub assume_specification[ jxl_oxide::Render::image_all_channels ](
    render: &jxl_oxide::Render,
) -> (fb: jxl_oxide::FrameBuffer)
    ensures
        fb_width_of(fb) == render_width_of(*render),
        fb_height_of(fb) == render_height_of(*render),
        fb_channels_of(fb) == render_channels_of(*render),
        fb_samples_of(fb) == render_samples_of(*render),
        fb_samples_of(fb).len() == fb_width_of(fb) * fb_height_of(fb) * fb_channels_of(fb),
;

/// Relies on jxl_oxide::FrameBuffer::width.
pub assume_specification[ jxl_oxide::FrameBuffer::width ](fb: &jxl_oxide::FrameBuffer) -> (r:
    usize)
    ensures
        r == fb_width_of(*fb),
;

/// Relies on jxl_oxide::FrameBuffer::height.
pub assume_specification[ jxl_oxide::FrameBuffer::height ](fb: &jxl_oxide::FrameBuffer) -> (r:
    usize)
    ensures
        r == fb_height_of(*fb),
;

/// Relies on jxl_oxide::FrameBuffer::channels.
pub assume_specification[ jxl_oxide::FrameBuffer::channels ](fb: &jxl_oxide::FrameBuffer) -> (r:
    usize)
    ensures
        r == fb_channels_of(*fb),
;

/// Relies on jxl_oxide::JxlImageBuilder::read: parses the given bytes as a
/// JPEG XL image (decoding on a rayon thread pool, as an opaque
/// configuration) and returns the decoder, or the error's display text.
/// Whether the bytes decode, and which error they provoke, depend on the
/// bytes alone.
#[verifier::external_body]
pub(crate) fn open_image(bytes: &[u8]) -> (r: Result<jxl_oxide::JxlImage, Vec<u8>>)
    ensures
        r is Ok <==> jxl_opens(bytes@),
        r matches Err(e) ==> e@ == open_err_of(bytes@),
{
    let builder = jxl_oxide::JxlImage::builder().pool(jxl_oxide::JxlThreadPool::rayon(None));
    match builder.read(bytes) {
        Ok(image) => Ok(image),
        Err(e) => Err(e.to_string().into_bytes()),
    }
}

/// Relies on jxl_oxide::JxlImage::pixel_format: the channel layout of
/// rendered frames, a pure function of the image value, mirrored variant by
/// variant.
#[verifier::external_body]
pub(crate) fn pixel_format_of(img: &jxl_oxide::JxlImage) -> (r: PixelFormat)
    ensures
        r == img_pixfmt_of(*img),
{
    match img.pixel_format() {
        jxl_oxide::PixelFormat::Gray => PixelFormat::Gray,
        jxl_oxide::PixelFormat::Graya => PixelFormat::Graya,
        jxl_oxide::PixelFormat::Rgb => PixelFormat::Rgb,
        jxl_oxide::PixelFormat::Rgba => PixelFormat::Rgba,
        jxl_oxide::PixelFormat::Cmyk => PixelFormat::Cmyk,
        jxl_oxide::PixelFormat::Cmyka => PixelFormat::Cmyka,
    }
}

/// Relies on jxl_oxide::JxlImage::render_frame: renders the keyframe at the
/// given index deterministically, or returns the decoder's error text.  Its
/// source reports an out-of-range index as an error, never a panic.
#[verifier::external_body]
pub(crate) fn render_keyframe(img: &jxl_oxide::JxlImage, index: usize) -> (r: Result<
    jxl_oxide::Render,
    Vec<u8>,
>)
    ensures
        r is Ok <==> render_ok_of(*img, index),
        r matches Err(e) ==> e@ == render_err_of(*img, index),
        r matches Ok(render) ==> render_width_of(render) == frame_width_of(*img, index)
            && render_height_of(render) == frame_height_of(*img, index)
            && render_channels_of(render) == frame_channels_of(*img, index)
            && render_samples_of(render) == frame_samples_of(*img, index),
{
    match img.render_frame(index) {
        Ok(render) => Ok(render),
        Err(e) => Err(e.to_string().into_bytes()),
    }
}

/// Relies on jxl_oxide::FrameBuffer::buf: hands out the frame's samples, each
/// converted to its raw bit pattern.
#[verifier::external_body]
pub(crate) fn fb_sample_bits(fb: &jxl_oxide::FrameBuffer) -> (r: Vec<u32>)
    ensures
        r@ == fb_samples_of(*fb),
{
    fb.buf().iter().map(|sample| sample.to_bits()).collect()
}

} // verus!
