//! Verified core of a handle-based boundary around a JPEG XL decoder.
//!
//! A caller with no memory-managed runtime drives the decoder through plain
//! values: it opens a session from encoded bytes, queries dimensions and the
//! pixel-format tag, renders frames into 8-bit byte buffers, and recovers
//! error text after any failure through a per-thread error channel.  Decoding
//! itself is delegated to the `jxl_oxide` crate behind a small set of trusted
//! declarations; everything around those calls is verified.

use vstd::prelude::*;

pub mod decode;
pub mod errors;
pub mod marshal;
pub mod quantize;

pub use errors::ErrorSlot;
pub use errors::last_error_length;
pub use errors::last_error_message;
pub use errors::take_last_error;
pub use errors::update_last_error;
pub use marshal::Array;
pub use marshal::free_array;
pub use marshal::marshal_frame;

verus! {

use crate::decode::fb_sample_bits;
use crate::decode::frame_channels_of;
use crate::decode::frame_height_of;
use crate::decode::frame_samples_of;
use crate::decode::frame_width_of;
use crate::decode::img_height_of;
use crate::decode::img_keyframes_of;
use crate::decode::img_pixfmt_of;
use crate::decode::img_width_of;
use crate::decode::jxl_opens;
use crate::decode::open_err_of;
use crate::decode::open_image;
use crate::decode::pixel_format_of;
use crate::decode::render_err_of;
use crate::decode::render_keyframe;
use crate::decode::render_ok_of;
use crate::quantize::quantize_spec;

/// Channel layout of the frames a session renders.
#[derive(Clone, Copy, Debug, PartialEq, Eq, Structural)]
pub enum PixelFormat {
    Gray,
    Graya,
    Rgb,
    Rgba,
    Cmyk,
    Cmyka,
}

/// One opened image: the external decoder bound to the input bytes, the
/// header facts the caller may query, and how many frames were rendered so
/// far.
pub struct JxlOxide {
    pub image: jxl_oxide::JxlImage,
    pub width: u32,
    pub height: u32,
    pub pixfmt: PixelFormat,
    pub frames: usize,
    pub rendered: usize,
}

impl JxlOxide {
    /// The header facts recorded at open time match the opened image.
    pub open spec fn wf(&self) -> bool {
        self.width == img_width_of(self.image) && self.height == img_height_of(self.image)
            && self.pixfmt == img_pixfmt_of(self.image) && self.frames == img_keyframes_of(
            self.image,
        )
    }
}

/// Parses the bytes as a JPEG XL image and collects the header facts the
/// accessors serve, or returns the decoder's error text.
fn read_jxl(bytes: &[u8]) -> (r: Result<JxlOxide, Vec<u8>>)
    ensures
        r is Ok <==> jxl_opens(bytes@),
        r matches Ok(s) ==> s.wf() && s.rendered == 0,
        r matches Err(e) ==> e@ == open_err_of(bytes@),
{
    match open_image(bytes) {
        Err(e) => Err(e),
        Ok(image) => {
            let width = image.width();
            let height = image.height();
            let pixfmt = pixel_format_of(&image);
            let frames = image.num_loaded_keyframes();
            Ok(JxlOxide { image, width, height, pixfmt, frames, rendered: 0 })
        },
    }
}

/// Opens a decode session on the encoded bytes.
///
/// Succeeds exactly when the decoder accepts the bytes.  On success the
/// error channel is untouched and a fresh session is returned whose header
/// facts are the opened image's and which has rendered no frames.  On
/// failure the decoder's error text is stored in `slot` and `None` — the
/// foreign caller's null — is returned.
pub fn new(data: &[u8], slot: &mut ErrorSlot) -> (r: Option<JxlOxide>)
    ensures
        r is Some <==> jxl_opens(data@),
        r matches Some(s) ==> s.wf() && s.rendered == 0 && final(slot)@ == old(slot)@,
        r is None ==> final(slot)@ == Some(open_err_of(data@)),
{
    match read_jxl(data) {
        Ok(decoded) => Some(decoded),
        Err(e) => {
            update_last_error(slot, e);
            None
        },
    }
}

/// The image width recorded at open time.
pub fn width(session: &JxlOxide) -> (r: u32)
    ensures
        r == session.width,
{
    session.width
}

/// The image height recorded at open time.
pub fn height(session: &JxlOxide) -> (r: u32)
    ensures
        r == session.height,
{
    session.height
}

/// The null-terminated ASCII tag for a pixel format, or `None` for the
/// CMYK-with-alpha layout, which has no defined tag.
pub open spec fn colorspace_tag_spec(fmt: PixelFormat) -> Option<Seq<u8>> {
    match fmt {
        PixelFormat::Gray => Some(seq![76u8, 0u8]),  // "L\0"
        PixelFormat::Graya => Some(seq![76u8, 65u8, 0u8]),  // "LA\0"
        PixelFormat::Rgb => Some(seq![82u8, 71u8, 66u8, 0u8]),  // "RGB\0"
        PixelFormat::Rgba => Some(seq![82u8, 71u8, 66u8, 65u8, 0u8]),  // "RGBA\0"
        PixelFormat::Cmyk => Some(seq![67u8, 77u8, 89u8, 75u8, 0u8]),  // "CMYK\0"
        PixelFormat::Cmyka => None,
    }
}

/// The null-terminated tag bytes for one pixel format; `None` marks a format
/// that is not yet supported, not a decode error.
pub fn colorspace_tag(fmt: PixelFormat) -> (r: Option<Vec<u8>>)
    ensures
        match r {
            Some(v) => colorspace_tag_spec(fmt) == Some(v@),
            None => colorspace_tag_spec(fmt) is None,
        },
{
    match fmt {
        PixelFormat::Gray => {
            let mut v: Vec<u8> = Vec::new();
            v.push(76);
            v.push(0);
            proof {
                assert(v@ =~= seq![76u8, 0u8]);
            }
            Some(v)
        },
        PixelFormat::Graya => {
            let mut v: Vec<u8> = Vec::new();
            v.push(76);
            v.push(65);
            v.push(0);
            proof {
                assert(v@ =~= seq![76u8, 65u8, 0u8]);
            }
            Some(v)
        },
        PixelFormat::Rgb => {
            let mut v: Vec<u8> = Vec::new();
            v.push(82);
            v.push(71);
            v.push(66);
            v.push(0);
            proof {
                assert(v@ =~= seq![82u8, 71u8, 66u8, 0u8]);
            }
            Some(v)
        },
        PixelFormat::Rgba => {
            let mut v: Vec<u8> = Vec::new();
            v.push(82);
            v.push(71);
            v.push(66);
            v.push(65);
            v.push(0);
            proof {
                assert(v@ =~= seq![82u8, 71u8, 66u8, 65u8, 0u8]);
            }
            Some(v)
        },
        PixelFormat::Cmyk => {
            let mut v: Vec<u8> = Vec::new();
            v.push(67);
            v.push(77);
            v.push(89);
            v.push(75);
            v.push(0);
            proof {
                assert(v@ =~= seq![67u8, 77u8, 89u8, 75u8, 0u8]);
            }
            Some(v)
        },
        PixelFormat::Cmyka => None,
    }
}

/// The session's pixel-format tag, as [`colorspace_tag`] for the format
/// recorded at open time.
pub fn colorspace(session: &JxlOxide) -> (r: Option<Vec<u8>>)
    ensures
        match r {
            Some(v) => colorspace_tag_spec(session.pixfmt) == Some(v@),
            None => colorspace_tag_spec(session.pixfmt) is None,
        },
{
    colorspace_tag(session.pixfmt)
}

/// The message stored when a render is requested after every frame the
/// decoder loaded has been rendered.
pub open spec fn exhausted_message() -> Seq<u8> {
    seq![110u8, 111u8, 32u8, 109u8, 111u8, 114u8, 101u8, 32u8, 102u8, 114u8, 97u8, 109u8, 101u8, 115u8]  // "no more frames"
}

fn exhausted_message_bytes() -> (v: Vec<u8>)
    ensures
        v@ == exhausted_message(),
{
    let mut v: Vec<u8> = Vec::new();
    v.push(110);
    v.push(111);
    v.push(32);
    v.push(109);
    v.push(111);
    v.push(114);
    v.push(101);
    v.push(32);
    v.push(102);
    v.push(114);
    v.push(97);
    v.push(109);
    v.push(101);
    v.push(115);
    proof {
        assert(v@ =~= exhausted_message());
    }
    v
}

/// Renders the session's next frame into a marshaled byte buffer.
///
/// When every loaded frame has already been rendered, stores the exhausted
/// message and returns `None` without advancing the session.  Otherwise the
/// outcome is the decoder's: on a failed render its error text is stored
/// verbatim and `None` is returned, again without advancing; on a
/// successful render the count advances by one, the error channel is
/// untouched, and the buffer holds exactly one quantized byte per sample of
/// the rendered frame — `width * height * channels` of them.
pub fn image(session: &mut JxlOxide, slot: &mut ErrorSlot) -> (r: Option<Array>)
    ensures
        final(session).image == old(session).image,
        final(session).width == old(session).width,
        final(session).height == old(session).height,
        final(session).pixfmt == old(session).pixfmt,
        final(session).frames == old(session).frames,
        old(session).wf() ==> final(session).wf(),
        r is None ==> final(session).rendered == old(session).rendered && final(slot)@ is Some,
        old(session).rendered >= old(session).frames ==> r is None && final(slot)@ == Some(
            exhausted_message(),
        ),
        old(session).rendered < old(session).frames ==> (r is Some <==> render_ok_of(
            old(session).image,
            old(session).rendered,
        )),
        old(session).rendered < old(session).frames && !render_ok_of(
            old(session).image,
            old(session).rendered,
        ) ==> final(slot)@ == Some(render_err_of(old(session).image, old(session).rendered)),
        r matches Some(arr) ==> arr.wf() && final(session).rendered == old(session).rendered + 1
            && final(slot)@ == old(slot)@ && arr.data@.len() == frame_samples_of(
            old(session).image,
            old(session).rendered,
        ).len() && arr.data@.len() == frame_width_of(old(session).image, old(session).rendered)
            * frame_height_of(old(session).image, old(session).rendered) * frame_channels_of(
            old(session).image,
            old(session).rendered,
        ) && (forall|i: int|
            0 <= i < arr.data@.len() ==> arr.data@[i] == quantize_spec(
                frame_samples_of(old(session).image, old(session).rendered)[i],
            )),
{
    if session.rendered >= session.frames {
        update_last_error(slot, exhausted_message_bytes());
        return None;
    }
    match render_keyframe(&session.image, session.rendered) {
        Err(e) => {
            update_last_error(slot, e);
            None
        },
        Ok(render) => {
            let fb = render.image_all_channels();
            let frame_width = fb.width();
            let frame_height = fb.height();
            let frame_channels = fb.channels();
            let samples = fb_sample_bits(&fb);
            let arr = marshal_frame(frame_width, frame_height, frame_channels, &samples);
            session.rendered = session.rendered + 1;
            Some(arr)
        },
    }
}

/// Releases a decode session.  `None` stands for the foreign caller's null
/// pointer and is a no-op; a present session is dropped, releasing the
/// decoder exactly once.
pub fn free_jxl_oxide(session: Option<JxlOxide>) {
    match session {
        None => (),
        Some(_session) => (),
    }
}

} // verus!
