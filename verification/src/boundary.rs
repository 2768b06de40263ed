use crate::frame::{grab_frame, grab_outcome, image_view, Frame};
use crate::registry::{Registry, StartRequest};
use crate::resolver::is_best_match;
use crate::result_code::{
    CaptureError, ERROR_OPENING_DEVICE, ERROR_READING_CAMERA_SESSION, ERROR_READING_FRAME,
    ERROR_SESSION_ALREADY_STARTED, ERROR_SESSION_NOT_STARTED, ERROR_STATE_NOT_INITIALIZED,
    ERROR_DEVICE_NOT_FOUND, ERROR_UNKNOWN, RESULT_NO, RESULT_OK, RESULT_YES, STATUS_AUTHORIZED,
    STATUS_DENIED,
};
use crate::video_device::{devices_well_formed, list_devices, lists, DiscoveredDevice, VideoDevice};
use crate::video_format::VideoFormat;
use vstd::prelude::*;
use vstd::utf8::encode_utf8;

verus! {

/// Bytes of text that go into a buffer of `capacity` bytes: all of it where
/// it fits beside the terminator, else as many as leave room for it; none
/// into an empty buffer.
pub open spec fn copied_len(text_len: int, capacity: int) -> int {
    if capacity == 0 {
        0
    } else if text_len < capacity - 1 {
        text_len
    } else {
        capacity - 1
    }
}

/// `after` is the buffer `before` with `n` bytes of `text` and a terminator
/// written at its start; the bytes behind them are untouched.
pub open spec fn text_copied(text: Seq<u8>, before: Seq<u8>, after: Seq<u8>, n: usize) -> bool {
    &&& after.len() == before.len()
    &&& n == copied_len(text.len() as int, before.len() as int)
    &&& before.len() == 0 ==> after == before
    &&& before.len() > 0 ==> after == text.take(n as int).push(0u8) + before.skip(n + 1)
}

/// The device that an accessor finds at `device_index`, if there is one.
pub open spec fn listed_device(reg: Registry, device_index: i32) -> Option<VideoDevice> {
    if reg.is_ready() && 0 <= device_index < reg.devices().len() {
        Some(reg.devices()[device_index as int])
    } else {
        None
    }
}

/// The format that an accessor finds at `format_index` of the device at
/// `device_index`, if there is one.
pub open spec fn listed_format(reg: Registry, device_index: i32, format_index: i32) -> Option<
    VideoFormat,
> {
    match listed_device(reg, device_index) {
        Some(d) => if 0 <= format_index < d.formats@.len() {
            Some(d.formats@[format_index as int])
        } else {
            None
        },
        None => None,
    }
}

/// Writes `s` into `buf` as far as it fits, followed by a zero byte, and
/// tells how many bytes of `s` were written. A text that is too long is cut
/// without notice; an empty buffer is left alone.
pub fn copy_str(s: &str, buf: &mut Vec<u8>) -> (n: usize)
    ensures
        text_copied(encode_utf8(s@), old(buf)@, final(buf)@, n),
{
    let length: usize = buf.len();
    if length == 0 {
        return 0;
    }
    let bytes = s.as_bytes();
    let n: usize = if bytes.len() < length - 1 {
        bytes.len()
    } else {
        length - 1
    };
    let mut i: usize = 0;
    while i < n
        invariant
            i <= n,
            n < length,
            n <= bytes@.len(),
            buf@.len() == length,
            buf@.len() == old(buf)@.len(),
            forall|k: int| 0 <= k < i ==> buf@[k] == bytes@[k],
            forall|k: int| i <= k < length ==> buf@[k] == old(buf)@[k],
        decreases n - i,
    {
        buf.set(i, bytes[i]);
        i += 1;
    }
    buf.set(n, 0u8);
    proof {
        assert(buf@ =~= bytes@.take(n as int).push(0u8) + old(buf)@.skip(n + 1));
    }
    n
}

/// The device at `device_index`, if devices were listed and it is one of
/// them.
pub fn find_device(reg: &Registry, device_index: i32) -> (r: Option<&VideoDevice>)
    ensures
        match r {
            Some(d) => listed_device(*reg, device_index) == Some(*d),
            None => listed_device(*reg, device_index) is None,
        },
{
    if device_index < 0 {
        return None;
    }
    match reg.device(device_index as u32) {
        Ok(d) => Some(d),
        Err(_) => None,
    }
}

/// The format at `format_index` of the device at `device_index`, if both
/// exist.
pub fn find_format(reg: &Registry, device_index: i32, format_index: i32) -> (r: Option<VideoFormat>)
    ensures
        r == listed_format(*reg, device_index, format_index),
{
    match find_device(reg, device_index) {
        None => None,
        Some(d) => {
            if format_index < 0 || format_index as usize >= d.formats.len() {
                None
            } else {
                Some(d.formats[format_index as usize])
            }
        },
    }
}

/// Takes a new listing into the registry. `found` is what the backend
/// reported, or `None` where it could not be asked; then the registry stays
/// as it is. Sessions that are open stay open.
pub fn cnokhwa_initialize(reg: &mut Registry, found: Option<&Vec<DiscoveredDevice>>) -> (code: i32)
    ensures
        match found {
            Some(f) => {
                &&& code == RESULT_OK
                &&& final(reg).is_ready()
                &&& lists(final(reg).devices(), f@)
                &&& devices_well_formed(final(reg).devices())
                &&& final(reg).sessions() == old(reg).sessions()
            },
            None => code == ERROR_UNKNOWN && *final(reg) == *old(reg),
        },
{
    match found {
        Some(f) => {
            let devices = list_devices(f);
            reg.refresh(devices);
            RESULT_OK
        },
        None => ERROR_UNKNOWN,
    }
}

/// The status that tells whether capture is permitted.
pub fn cnokhwa_has_videocapture_auth(granted: bool) -> (status: i32)
    ensures
        status == if granted {
            STATUS_AUTHORIZED
        } else {
            STATUS_DENIED
        },
{
    if granted {
        STATUS_AUTHORIZED
    } else {
        STATUS_DENIED
    }
}

/// The number of listed devices, or the code for a registry without a
/// listing.
pub fn cnokhwa_devices_count(reg: &Registry) -> (count: i32)
    ensures
        count == if reg.is_ready() {
            reg.devices().len() as i32
        } else {
            ERROR_STATE_NOT_INITIALIZED
        },
{
    match &reg.state {
        None => ERROR_STATE_NOT_INITIALIZED,
        Some(s) => {
            #[verifier::truncate]
            let count = s.devices.len() as i32;
            count
        },
    }
}

/// Writes the display name of the device at `device_index` into `buf`.
/// Nothing is written, and 0 returned, where there is no such device.
pub fn cnokhwa_device_name(reg: &Registry, device_index: i32, buf: &mut Vec<u8>) -> (n: usize)
    ensures
        match listed_device(*reg, device_index) {
            Some(d) => text_copied(encode_utf8(d.name@), old(buf)@, final(buf)@, n),
            None => n == 0 && final(buf)@ == old(buf)@,
        },
{
    match find_device(reg, device_index) {
        Some(d) => copy_str(d.name.as_str(), buf),
        None => 0,
    }
}

/// Writes the unique identifier of the device at `device_index` into `buf`.
/// Nothing is written, and 0 returned, where there is no such device.
pub fn cnokhwa_device_unique_id(reg: &Registry, device_index: i32, buf: &mut Vec<u8>) -> (n: usize)
    ensures
        match listed_device(*reg, device_index) {
            Some(d) => text_copied(encode_utf8(d.unique_id@), old(buf)@, final(buf)@, n),
            None => n == 0 && final(buf)@ == old(buf)@,
        },
{
    match find_device(reg, device_index) {
        Some(d) => copy_str(d.unique_id.as_str(), buf),
        None => 0,
    }
}

/// Writes the model identifier of the device at `device_index` into `buf`.
/// Nothing is written, and 0 returned, where there is no such device.
pub fn cnokhwa_device_model_id(reg: &Registry, device_index: i32, buf: &mut Vec<u8>) -> (n: usize)
    ensures
        match listed_device(*reg, device_index) {
            Some(d) => text_copied(encode_utf8(d.model_id@), old(buf)@, final(buf)@, n),
            None => n == 0 && final(buf)@ == old(buf)@,
        },
{
    match find_device(reg, device_index) {
        Some(d) => copy_str(d.model_id.as_str(), buf),
        None => 0,
    }
}

/// The number of formats of the device at `device_index`, or the code that
/// tells why there is none to count.
pub fn cnokhwa_device_formats_count(reg: &Registry, device_index: i32) -> (count: i32)
    ensures
        count == if !reg.is_ready() {
            ERROR_STATE_NOT_INITIALIZED
        } else {
            match listed_device(*reg, device_index) {
                Some(d) => d.formats@.len() as i32,
                None => ERROR_DEVICE_NOT_FOUND,
            }
        },
{
    if !reg.ready() {
        return ERROR_STATE_NOT_INITIALIZED;
    }
    match find_device(reg, device_index) {
        None => ERROR_DEVICE_NOT_FOUND,
        Some(d) => {
            #[verifier::truncate]
            let count = d.formats.len() as i32;
            count
        },
    }
}

/// The width of the format at `format_index` of the device at
/// `device_index`; 0 where there is no such format.
pub fn cnokhwa_device_format_width(reg: &Registry, device_index: i32, format_index: i32) -> (w: u32)
    ensures
        w == match listed_format(*reg, device_index, format_index) {
            Some(f) => f.width,
            None => 0u32,
        },
{
    match find_format(reg, device_index, format_index) {
        Some(f) => f.width,
        None => 0,
    }
}

/// The height of the format at `format_index` of the device at
/// `device_index`; 0 where there is no such format.
pub fn cnokhwa_device_format_height(reg: &Registry, device_index: i32, format_index: i32) -> (h:
    u32)
    ensures
        h == match listed_format(*reg, device_index, format_index) {
            Some(f) => f.height,
            None => 0u32,
        },
{
    match find_format(reg, device_index, format_index) {
        Some(f) => f.height,
        None => 0,
    }
}

/// The frame rate of the format at `format_index` of the device at
/// `device_index`; 0 where there is no such format.
pub fn cnokhwa_device_format_frame_rate(
    reg: &Registry,
    device_index: i32,
    format_index: i32,
) -> (rate: u32)
    ensures
        rate == match listed_format(*reg, device_index, format_index) {
            Some(f) => f.frame_rate,
            None => 0u32,
        },
{
    match find_format(reg, device_index, format_index) {
        Some(f) => f.frame_rate,
        None => 0,
    }
}

/// Writes the name of the encoding of the format at `format_index` of the
/// device at `device_index` into `buf`. Nothing is written, and 0 returned,
/// where there is no such format.
pub fn cnokhwa_device_format_type(
    reg: &Registry,
    device_index: i32,
    format_index: i32,
    buf: &mut Vec<u8>,
) -> (n: usize)
    ensures
        match listed_format(*reg, device_index, format_index) {
            Some(f) => text_copied(encode_utf8(f.format.spec_name()), old(buf)@, final(buf)@, n),
            None => n == 0 && final(buf)@ == old(buf)@,
        },
{
    match find_format(reg, device_index, format_index) {
        Some(f) => copy_str(f.format.name(), buf),
        None => 0,
    }
}

/// Decides whether a capture may start on the device at `device_index` at
/// that resolution. `Ok` names the device to open and the format to open it
/// with; `Err` holds the code of the refusal. The registry is not changed:
/// the session is entered by `cnokhwa_capture_opened`.
pub fn cnokhwa_start_capture(reg: &Registry, device_index: u32, width: u32, height: u32) -> (r:
    Result<StartRequest, i32>)
    ensures
        match r {
            Ok(req) => {
                &&& reg.start_error(device_index, width, height) is None
                &&& req.device == reg.devices()[device_index as int].index
                &&& is_best_match(
                    reg.devices()[device_index as int].formats@,
                    width,
                    height,
                    req.format_index as int,
                )
                &&& req.format == reg.devices()[device_index as int].formats@[req.format_index as int]
            },
            Err(code) => {
                &&& reg.start_error(device_index, width, height) is Some
                &&& code == reg.start_error(device_index, width, height)->0.spec_code()
            },
        },
{
    match reg.plan_start(device_index, width, height) {
        Ok(req) => Ok(req),
        Err(e) => Err(e.code()),
    }
}

/// Ends a start: `opened` tells whether the device named by the request was
/// opened and streams. If so its session is entered; if not, nothing changes
/// and the code says that opening failed.
pub fn cnokhwa_capture_opened(reg: &mut Registry, device: u64, opened: bool) -> (code: i32)
    requires
        old(reg).wf(),
    ensures
        final(reg).wf(),
        final(reg).devices() == old(reg).devices(),
        final(reg).is_ready() == old(reg).is_ready(),
        code == if !opened {
            ERROR_OPENING_DEVICE
        } else if !old(reg).is_ready() {
            ERROR_STATE_NOT_INITIALIZED
        } else if old(reg).has_session(device) {
            ERROR_SESSION_ALREADY_STARTED
        } else {
            RESULT_OK
        },
        code == RESULT_OK ==> final(reg).sessions() == old(reg).sessions().push(device),
        code != RESULT_OK ==> final(reg).sessions() == old(reg).sessions(),
        forall|other: u64|
            final(reg).has_session(other) <==> (old(reg).has_session(other) || (code == RESULT_OK
                && other == device)),
{
    if !opened {
        return ERROR_OPENING_DEVICE;
    }
    if !reg.ready() {
        return ERROR_STATE_NOT_INITIALIZED;
    }
    if reg.session_opened(device) {
        RESULT_OK
    } else {
        ERROR_SESSION_ALREADY_STARTED
    }
}

/// Takes the session of the device at `device_index` out of the registry.
/// `Ok` names the session whose stream is to be stopped; `Err` holds the code
/// of the refusal, and then the registry is unchanged.
pub fn cnokhwa_stop_capture(reg: &mut Registry, device_index: u32) -> (r: Result<u64, i32>)
    requires
        old(reg).wf(),
    ensures
        final(reg).wf(),
        final(reg).devices() == old(reg).devices(),
        final(reg).is_ready() == old(reg).is_ready(),
        match r {
            Ok(id) => {
                &&& old(reg).session_error(device_index) is None
                &&& id == old(reg).devices()[device_index as int].index
                &&& !final(reg).has_session(id)
                &&& forall|other: u64|
                    other != id ==> (final(reg).has_session(other) <==> old(reg).has_session(other))
            },
            Err(code) => {
                &&& old(reg).session_error(device_index) is Some
                &&& code == old(reg).session_error(device_index)->0.spec_code()
                &&& *final(reg) == *old(reg)
            },
        },
{
    match reg.take_session(device_index) {
        Ok(id) => Ok(id),
        Err(e) => Err(e.code()),
    }
}

/// The code that ends a stop: success where the stream stopped, else the
/// code of a session that was not started.
pub fn cnokhwa_capture_stopped(stopped: bool) -> (code: i32)
    ensures
        code == if stopped {
            RESULT_OK
        } else {
            ERROR_SESSION_NOT_STARTED
        },
{
    if stopped {
        RESULT_OK
    } else {
        ERROR_SESSION_NOT_STARTED
    }
}

/// Whether the session of the device at `device_index` has a frame.
/// `polled` tells whether the poll of that session gave one; it is not read
/// where the session cannot be reached.
pub fn cnokhwa_has_first_frame(reg: &Registry, device_index: u32, polled: bool) -> (code: i32)
    ensures
        code == match reg.session_error(device_index) {
            Some(e) => e.spec_code(),
            None => if polled {
                RESULT_YES
            } else {
                RESULT_NO
            },
        },
{
    match reg.session_of(device_index) {
        Err(e) => e.code(),
        Ok(_) => if polled {
            RESULT_YES
        } else {
            RESULT_NO
        },
    }
}

/// Converts the latest frame of a session for the caller. `session` is what
/// the registry said of the session, `last_frame` the frame that was fetched
/// from it, if one was, and `jpeg` the image made of it where it is MJPEG and
/// could be decoded. `Ok` holds the RGB bytes to hand over; `Err` the code.
pub fn cnokhwa_grab_frame(
    session: Result<u64, CaptureError>,
    last_frame: Option<&Frame>,
    jpeg: Option<&Vec<u8>>,
    buffer_is_null: bool,
    available_bytes: usize,
) -> (r: Result<Vec<u8>, i32>)
    ensures
        match session {
            Err(e) => r == Err::<Vec<u8>, i32>(e.spec_code()),
            Ok(_) => match last_frame {
                None => r == Err::<Vec<u8>, i32>(ERROR_READING_FRAME),
                Some(frame) => match r {
                    Ok(rgb) => grab_outcome(
                        *frame,
                        image_view(jpeg),
                        buffer_is_null,
                        available_bytes,
                        Ok(rgb),
                    ),
                    Err(code) => exists|e: CaptureError|
                        code == e.spec_code() && #[trigger] grab_outcome(
                            *frame,
                            image_view(jpeg),
                            buffer_is_null,
                            available_bytes,
                            Err(e),
                        ),
                },
            },
        },
{
    if let Err(e) = session {
        return Err(e.code());
    }
    match last_frame {
        None => Err(ERROR_READING_FRAME),
        Some(frame) => match grab_frame(frame, jpeg, buffer_is_null, available_bytes) {
            Ok(rgb) => Ok(rgb),
            Err(e) => Err(e.code()),
        },
    }
}

/// The width of the frames of the session of the device at `device_index`.
/// `active` is the format that the session reports, if it could be read; it
/// is not read where the session cannot be reached.
pub fn cnokhwa_frame_width(reg: &Registry, device_index: u32, active: Option<VideoFormat>) -> (code:
    i32)
    ensures
        code == match reg.session_error(device_index) {
            Some(e) => e.spec_code(),
            None => match active {
                Some(f) => f.width as i32,
                None => ERROR_READING_CAMERA_SESSION,
            },
        },
{
    match reg.session_of(device_index) {
        Err(e) => e.code(),
        Ok(_) => match active {
            Some(f) => {
                #[verifier::truncate]
                let w = f.width as i32;
                w
            },
            None => ERROR_READING_CAMERA_SESSION,
        },
    }
}

/// The height of the frames of the session of the device at
/// `device_index`; `active` as for the width.
pub fn cnokhwa_frame_height(reg: &Registry, device_index: u32, active: Option<VideoFormat>) -> (code:
    i32)
    ensures
        code == match reg.session_error(device_index) {
            Some(e) => e.spec_code(),
            None => match active {
                Some(f) => f.height as i32,
                None => ERROR_READING_CAMERA_SESSION,
            },
        },
{
    match reg.session_of(device_index) {
        Err(e) => e.code(),
        Ok(_) => match active {
            Some(f) => {
                #[verifier::truncate]
                let h = f.height as i32;
                h
            },
            None => ERROR_READING_CAMERA_SESSION,
        },
    }
}

/// The bytes of one row of RGB of the frames of the session of the device at
/// `device_index`: three for each pixel of the width, in wrapping 32-bit
/// arithmetic; `active` as for the width.
pub fn cnokhwa_frame_bytes_per_row(
    reg: &Registry,
    device_index: u32,
    active: Option<VideoFormat>,
) -> (code: i32)
    ensures
        code == match reg.session_error(device_index) {
            Some(e) => e.spec_code(),
            None => match active {
                Some(f) => (f.width as i32).wrapping_mul(3i32),
                None => ERROR_READING_CAMERA_SESSION,
            },
        },
{
    match reg.session_of(device_index) {
        Err(e) => e.code(),
        Ok(_) => match active {
            Some(f) => {
                #[verifier::truncate]
                let w = f.width as i32;
                w.wrapping_mul(3i32)
            },
            None => ERROR_READING_CAMERA_SESSION,
        },
    }
}

} // verus!
