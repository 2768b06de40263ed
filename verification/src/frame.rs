use crate::result_code::CaptureError;
use crate::video_format::PixelEncoding;
use dcv_color_primitives::{convert_image, ColorSpace, ErrorKind, ImageFormat, PixelFormat};
use nokhwa::pixel_format::RgbFormat;
use nokhwa::utils::{FrameFormat, Resolution};
use nokhwa::Buffer;
use vstd::prelude::*;

verus! {

/// One captured frame as the device delivered it: its resolution, the
/// encoding of its bytes, and the bytes.
#[derive(Clone, Debug, PartialEq, Eq, Hash)]
pub struct Frame {
    pub width: u32,
    pub height: u32,
    pub format: PixelEncoding,
    pub data: Vec<u8>,
}

/// The two ways from a native frame to RGB.
#[derive(Clone, Copy, Debug, PartialEq, Eq, Structural)]
pub enum Route {
    /// The dedicated converter for planar 4:2:0 frames.
    FastPath,
    /// The general decoder, for every other encoding.
    Generic,
}

/// What the dedicated converter reports when it refuses a frame.
#[derive(Clone, Copy, Debug, PartialEq, Eq, Structural)]
pub enum ConverterFault {
    InvalidValue,
    InvalidOperation,
    NotEnoughData,
}

/// Why a frame was not converted.
#[derive(Clone, Debug, PartialEq, Eq)]
pub enum DecodeFailure {
    /// The output does not have three bytes for each pixel of the frame.
    OutputSizeMismatch,
    /// The frame's bytes or resolution are outside what the decoder for its
    /// encoding can take.
    InputUnfit,
    /// The dedicated converter refused the frame.
    FastPath(ConverterFault),
    /// The general decoder refused the frame, with its reason.
    Generic(String),
    /// The frame is MJPEG and no image could be made of it.
    JpegUndecodable,
    /// The frame is MJPEG and the image made of it has another size than the
    /// output.
    JpegSizeMismatch,
}

/// Bytes of a frame of that resolution as interleaved 8-bit RGB, rows packed.
pub open spec fn rgb_size(width: u32, height: u32) -> int {
    width * height * 3
}

/// The way a frame of that encoding takes: the dedicated converter for NV12,
/// the general decoder for all others.
pub open spec fn route_for(format: PixelEncoding) -> Route {
    if format == PixelEncoding::NV12 {
        Route::FastPath
    } else {
        Route::Generic
    }
}

/// The frame is within what the general decoder can take for its encoding
/// without overrunning its own arithmetic or buffers.
pub open spec fn input_fits(
    format: PixelEncoding,
    width: u32,
    height: u32,
    data_len: int,
    out_len: int,
) -> bool {
    match format {
        PixelEncoding::RAWRGB => data_len == out_len,
        PixelEncoding::GRAY => data_len * 3 <= usize::MAX,
        PixelEncoding::RAWBGR => width * height * 3 <= u32::MAX,
        _ => true,
    }
}

/// On a frame that fits, the general decoder accepts exactly these sizes.
/// It says nothing of MJPEG and NV12, which do not reach it.
pub open spec fn decoder_accepts(
    format: PixelEncoding,
    width: u32,
    height: u32,
    data_len: int,
    out_len: int,
) -> bool {
    match format {
        PixelEncoding::RAWRGB => true,
        PixelEncoding::GRAY => out_len == data_len * 3,
        PixelEncoding::RAWBGR => width % 2 == 0 && height % 2 == 0 && data_len == width * height
            * 3 && out_len == width * height * 3,
        PixelEncoding::YUYV => data_len % 4 == 0 && out_len == (data_len / 4) * 6,
        _ => true,
    }
}

/// The value nearest to `x` that a byte can hold.
pub open spec fn clamp_byte(x: int) -> u8 {
    if x < 0 {
        0u8
    } else if x > 255 {
        255u8
    } else {
        x as u8
    }
}

/// Channel `c` (0 red, 1 green, 2 blue) of the pixel with luma `y` and chroma
/// `u`, `v`, in the fixed-point arithmetic of the general decoder.
pub open spec fn yuv_channel(c: int, y: u8, u: u8, v: u8) -> u8 {
    let luma = (y - 16) * 298;
    let d = u - 128;
    let e = v - 128;
    if c == 0 {
        clamp_byte((luma + 409 * e + 128) / 256)
    } else if c == 1 {
        clamp_byte((luma - 100 * d - 208 * e + 128) / 256)
    } else {
        clamp_byte((luma + 516 * d + 128) / 256)
    }
}

/// What the decoded bytes are: raw RGB is copied, a gray value is written
/// three times, BGR has the first and third byte of each pixel exchanged, and
/// each four bytes of YUYV give two pixels that share their chroma.
pub open spec fn decoded_pixels(format: PixelEncoding, data: Seq<u8>, rgb: Seq<u8>) -> bool {
    match format {
        PixelEncoding::RAWRGB => rgb == data,
        PixelEncoding::GRAY => forall|i: int| 0 <= i < rgb.len() ==> #[trigger] rgb[i] == data[i / 3],
        PixelEncoding::RAWBGR => forall|i: int|
            0 <= i < rgb.len() ==> #[trigger] rgb[i] == data[(i / 3) * 3 + 2 - i % 3],
        PixelEncoding::YUYV => forall|i: int|
            0 <= i < rgb.len() ==> #[trigger] rgb[i] == yuv_channel(
                i % 3,
                data[4 * (i / 6) + 2 * ((i / 3) % 2)],
                data[4 * (i / 6) + 1],
                data[4 * (i / 6) + 3],
            ),
        _ => true,
    }
}

/// Why the dedicated converter refuses an NV12 frame of that resolution with
/// `data_len` bytes, where it has a routine for the conversion: it wants an
/// even width and height, and the luma plane followed by the chroma plane of
/// half its height.
pub open spec fn converter_verdict(width: u32, height: u32, data_len: int) -> Option<
    ConverterFault,
> {
    if width % 2 != 0 || height % 2 != 0 {
        Some(ConverterFault::InvalidValue)
    } else if width != 0 && height != 0 && data_len < width * height + width * (height / 2) {
        Some(ConverterFault::NotEnoughData)
    } else {
        None
    }
}

/// Calls `dcv_color_primitives::convert_image` on an NV12 frame held in one
/// plane, with BT.601 as the source colour space and packed RGB in one plane
/// as the destination, both with default strides. Claimed: the output keeps
/// its length; a frame is converted only where `converter_verdict` gives no
/// fault; an odd width or height is always refused as an invalid value; a
/// refusal is the fault that `converter_verdict` gives, or an invalid
/// operation where the converter has no routine for the machine it runs on;
/// and a refusal leaves the output as it was. Which bytes a converted image
/// holds is not stated: the converter chooses its routine by the processor.
#[verifier::external_body]
fn convert_nv12_with_dcv(width: u32, height: u32, data: &Vec<u8>, output: &mut Vec<u8>) -> (r:
    Result<(), ConverterFault>)
    requires
        old(output)@.len() == rgb_size(width, height),
    ensures
        final(output)@.len() == old(output)@.len(),
        match r {
            Ok(_) => converter_verdict(width, height, data@.len() as int) is None,
            Err(fault) => final(output)@ == old(output)@ && (fault
                == ConverterFault::InvalidOperation || converter_verdict(
                width,
                height,
                data@.len() as int,
            ) == Some(fault)),
        },
        converter_verdict(width, height, data@.len() as int) == Some(ConverterFault::InvalidValue)
            ==> r is Err && r->Err_0 == ConverterFault::InvalidValue,
{
    let src = ImageFormat { pixel_format: PixelFormat::Nv12, color_space: ColorSpace::Bt601, num_planes: 1 };
    let dst = ImageFormat { pixel_format: PixelFormat::Rgb, color_space: ColorSpace::Rgb, num_planes: 1 };
    let planes = &mut [output.as_mut_slice()];
    match convert_image(width, height, &src, None, &[data.as_slice()], &dst, None, planes) {
        Ok(()) => Ok(()),
        Err(ErrorKind::InvalidValue) => Err(ConverterFault::InvalidValue),
        Err(ErrorKind::InvalidOperation) => Err(ConverterFault::InvalidOperation),
        Err(ErrorKind::NotEnoughData) => Err(ConverterFault::NotEnoughData),
    }
}

/// Calls `nokhwa::Buffer::decode_image_to_buffer` with `RgbFormat` on a
/// buffer made of the frame's resolution, encoding and bytes. Claimed: the
/// output keeps its length; the call succeeds on exactly the sizes that
/// `decoder_accepts` gives; and after a success the output holds what
/// `decoded_pixels` says. A failure comes back as the decoder's own message.
/// Kept away from the call are NV12 frames, frames that do not fit, on which
/// the decoder overruns, and MJPEG frames, on which its JPEG decoder unwinds
/// where the stream is malformed.
#[verifier::external_body]
fn decode_with_nokhwa(
    width: u32,
    height: u32,
    format: PixelEncoding,
    data: &Vec<u8>,
    output: &mut Vec<u8>,
) -> (r: Result<(), String>)
    requires
        format != PixelEncoding::NV12,
        format != PixelEncoding::MJPEG,
        input_fits(format, width, height, data@.len() as int, old(output)@.len() as int),
    ensures
        final(output)@.len() == old(output)@.len(),
        r is Ok <==> decoder_accepts(
            format,
            width,
            height,
            data@.len() as int,
            old(output)@.len() as int,
        ),
        r is Ok ==> decoded_pixels(format, data@, final(output)@),
{
    let fcc = match format {
        PixelEncoding::MJPEG => FrameFormat::MJPEG,
        PixelEncoding::YUYV => FrameFormat::YUYV,
        PixelEncoding::NV12 => FrameFormat::NV12,
        PixelEncoding::GRAY => FrameFormat::GRAY,
        PixelEncoding::RAWRGB => FrameFormat::RAWRGB,
        PixelEncoding::RAWBGR => FrameFormat::RAWBGR,
    };
    let frame = Buffer::new(Resolution::new(width, height), data.as_slice(), fcc);
    frame.decode_image_to_buffer::<RgbFormat>(output.as_mut_slice()).map_err(|e| e.to_string())
}

/// The number of bytes of RGB output for that resolution, where a buffer of
/// that size can exist.
pub fn rgb_len(width: u32, height: u32) -> (r: Option<usize>)
    ensures
        r == if rgb_size(width, height) <= usize::MAX {
            Some(rgb_size(width, height) as usize)
        } else {
            None::<usize>
        },
{
    match (width as usize).checked_mul(height as usize) {
        None => {
            assert(width * height * 3 >= width * height) by (nonlinear_arith);
            None
        },
        Some(pixels) => pixels.checked_mul(3),
    }
}

/// The way a frame of that encoding takes.
pub fn route_of(format: PixelEncoding) -> (r: Route)
    ensures
        r == route_for(format),
{
    match format {
        PixelEncoding::NV12 => Route::FastPath,
        _ => Route::Generic,
    }
}

/// Whether the frame is within what the general decoder can take.
pub fn fits_decoder(frame: &Frame, out_len: usize) -> (b: bool)
    ensures
        b == input_fits(frame.format, frame.width, frame.height, frame.data@.len() as int, out_len as int),
{
    match frame.format {
        PixelEncoding::RAWRGB => frame.data.len() == out_len,
        PixelEncoding::GRAY => frame.data.len() <= usize::MAX / 3,
        PixelEncoding::RAWBGR => {
            match frame.width.checked_mul(frame.height) {
                None => {
                    assert(frame.width * frame.height * 3 >= frame.width * frame.height)
                        by (nonlinear_arith);
                    false
                },
                Some(pixels) => pixels <= u32::MAX / 3,
            }
        },
        _ => true,
    }
}

/// What `convert_to_rgb` owes for a frame and an output that held `before`:
/// `after` is what the output holds then, `r` what is returned. `jpeg` is the
/// image that was made of an MJPEG frame, if one could be made.
pub open spec fn conversion_outcome(
    frame: Frame,
    jpeg: Option<Seq<u8>>,
    before: Seq<u8>,
    after: Seq<u8>,
    r: Result<(), DecodeFailure>,
) -> bool {
    let fits = input_fits(frame.format, frame.width, frame.height, frame.data@.len() as int, before.len() as int);
    let accepted = decoder_accepts(frame.format, frame.width, frame.height, frame.data@.len() as int, before.len() as int);
    if before.len() != rgb_size(frame.width, frame.height) {
        r == Err::<(), DecodeFailure>(DecodeFailure::OutputSizeMismatch) && after == before
    } else if route_for(frame.format) == Route::FastPath {
        let verdict = converter_verdict(frame.width, frame.height, frame.data@.len() as int);
        &&& r is Ok ==> verdict is None
        &&& r is Err ==> {
            &&& after == before
            &&& r->Err_0 is FastPath
            &&& r->Err_0->FastPath_0 == ConverterFault::InvalidOperation || verdict == Some(
                r->Err_0->FastPath_0,
            )
        }
        &&& verdict == Some(ConverterFault::InvalidValue) ==> r == Err::<(), DecodeFailure>(
            DecodeFailure::FastPath(ConverterFault::InvalidValue),
        )
    } else if frame.format == PixelEncoding::MJPEG {
        match jpeg {
            None => r == Err::<(), DecodeFailure>(DecodeFailure::JpegUndecodable) && after == before,
            Some(image) => if image.len() == before.len() {
                r is Ok && after == image
            } else {
                r == Err::<(), DecodeFailure>(DecodeFailure::JpegSizeMismatch) && after == before
            },
        }
    } else if !fits {
        r == Err::<(), DecodeFailure>(DecodeFailure::InputUnfit) && after == before
    } else {
        &&& r is Ok || r->Err_0 is Generic
        &&& r is Ok <==> accepted
        &&& r is Ok ==> decoded_pixels(frame.format, frame.data@, after)
    }
}

/// The view of an image that may be missing.
pub open spec fn image_view(jpeg: Option<&Vec<u8>>) -> Option<Seq<u8>> {
    match jpeg {
        Some(image) => Some(image@),
        None => None,
    }
}

/// Writes `image` over `output`, which has the same length.
pub fn copy_image(image: &Vec<u8>, output: &mut Vec<u8>)
    requires
        image@.len() == old(output)@.len(),
    ensures
        final(output)@ == image@,
{
    let n: usize = image.len();
    let mut i: usize = 0;
    while i < n
        invariant
            i <= n,
            n == image@.len(),
            output@.len() == n,
            forall|k: int| 0 <= k < i ==> output@[k] == image@[k],
        decreases n - i,
    {
        output.set(i, image[i]);
        i += 1;
    }
    assert(output@ =~= image@);
}

/// Converts one native frame to interleaved RGB in `output`, which must have
/// exactly three bytes for each pixel. An NV12 frame goes to the dedicated
/// converter and nowhere else; every other frame takes the general way. Of an
/// MJPEG frame the general way takes the image that the JPEG decoder made,
/// handed in as `jpeg`, since that decoder has to be run where its unwinding
/// can be caught; `jpeg` is not read for other frames.
pub fn convert_to_rgb(frame: &Frame, jpeg: Option<&Vec<u8>>, output: &mut Vec<u8>) -> (r: Result<
    (),
    DecodeFailure,
>)
    ensures
        final(output)@.len() == old(output)@.len(),
        conversion_outcome(*frame, image_view(jpeg), old(output)@, final(output)@, r),
{
    let expected = rgb_len(frame.width, frame.height);
    if expected != Some(output.len()) {
        return Err(DecodeFailure::OutputSizeMismatch);
    }
    match route_of(frame.format) {
        Route::FastPath => {
            match convert_nv12_with_dcv(frame.width, frame.height, &frame.data, output) {
                Ok(()) => Ok(()),
                Err(fault) => Err(DecodeFailure::FastPath(fault)),
            }
        },
        Route::Generic => {
            if frame.format == PixelEncoding::MJPEG {
                return match jpeg {
                    None => Err(DecodeFailure::JpegUndecodable),
                    Some(image) => {
                        if image.len() == output.len() {
                            copy_image(image, output);
                            Ok(())
                        } else {
                            Err(DecodeFailure::JpegSizeMismatch)
                        }
                    },
                };
            }
            if !fits_decoder(frame, output.len()) {
                return Err(DecodeFailure::InputUnfit);
            }
            match decode_with_nokhwa(frame.width, frame.height, frame.format, &frame.data, output) {
                Ok(()) => Ok(()),
                Err(reason) => Err(DecodeFailure::Generic(reason)),
            }
        },
    }
}

/// The frame is one that converts into an output of the frame's own size;
/// an NV12 frame where the dedicated converter has a routine for the machine.
pub open spec fn conversion_succeeds(frame: Frame, jpeg: Option<Seq<u8>>) -> bool {
    let size = rgb_size(frame.width, frame.height);
    if route_for(frame.format) == Route::FastPath {
        converter_verdict(frame.width, frame.height, frame.data@.len() as int) is None
    } else if frame.format == PixelEncoding::MJPEG {
        jpeg is Some && jpeg->0.len() == size
    } else {
        input_fits(frame.format, frame.width, frame.height, frame.data@.len() as int, size)
            && decoder_accepts(frame.format, frame.width, frame.height, frame.data@.len() as int, size)
    }
}

/// What `grab_frame` owes for the latest frame of a session and a caller's
/// buffer of `available_bytes` bytes.
pub open spec fn grab_outcome(
    frame: Frame,
    jpeg: Option<Seq<u8>>,
    buffer_is_null: bool,
    available_bytes: usize,
    r: Result<Vec<u8>, CaptureError>,
) -> bool {
    let size = rgb_size(frame.width, frame.height);
    if available_bytes < size {
        r == Err::<Vec<u8>, CaptureError>(CaptureError::BufferTooSmall)
    } else if buffer_is_null {
        r == Err::<Vec<u8>, CaptureError>(CaptureError::BufferNull)
    } else {
        match r {
            Ok(rgb) => {
                &&& conversion_succeeds(frame, jpeg)
                &&& rgb@.len() == size
                &&& route_for(frame.format) == Route::Generic && frame.format
                    != PixelEncoding::MJPEG ==> decoded_pixels(frame.format, frame.data@, rgb@)
                &&& frame.format == PixelEncoding::MJPEG ==> jpeg == Some(rgb@)
            },
            Err(e) => {
                &&& e == CaptureError::DecodingFrameFailed
                &&& route_for(frame.format) == Route::Generic ==> !conversion_succeeds(frame, jpeg)
            },
        }
    }
}

/// Converts the latest frame of a session for a caller whose buffer has
/// `available_bytes` bytes. A buffer that is too small is refused before
/// anything is converted, a missing buffer after that; the bytes handed back
/// on success are exactly the RGB image, three bytes for each pixel. `jpeg`
/// is as for `convert_to_rgb`.
pub fn grab_frame(
    frame: &Frame,
    jpeg: Option<&Vec<u8>>,
    buffer_is_null: bool,
    available_bytes: usize,
) -> (r: Result<Vec<u8>, CaptureError>)
    ensures
        grab_outcome(*frame, image_view(jpeg), buffer_is_null, available_bytes, r),
{
    let size: usize = match rgb_len(frame.width, frame.height) {
        Some(n) => n,
        None => { return Err(CaptureError::BufferTooSmall); },
    };
    if available_bytes < size {
        return Err(CaptureError::BufferTooSmall);
    }
    if buffer_is_null {
        return Err(CaptureError::BufferNull);
    }
    let mut rgb: Vec<u8> = vec![0u8; size];
    match convert_to_rgb(frame, jpeg, &mut rgb) {
        Ok(()) => Ok(rgb),
        Err(_) => Err(CaptureError::DecodingFrameFailed),
    }
}

} // verus!
