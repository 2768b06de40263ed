use crate::video_format::{PixelEncoding, VideoFormat};
use vstd::prelude::*;

verus! {

/// How much an encoding is preferred for capture: raw RGB first, then planar
/// 4:2:0, then packed YUV, then MJPEG; every other encoding ranks lowest.
pub open spec fn encoding_priority(format: PixelEncoding) -> int {
    match format {
        PixelEncoding::RAWRGB => 4,
        PixelEncoding::NV12 => 3,
        PixelEncoding::YUYV => 2,
        PixelEncoding::MJPEG => 1,
        _ => 0,
    }
}

/// The format offers the requested resolution.
pub open spec fn matches_resolution(f: VideoFormat, width: u32, height: u32) -> bool {
    f.width == width && f.height == height
}

/// `a` is preferred to `b`, or as good: its encoding has the higher priority,
/// or the same priority and a frame rate that is not lower.
pub open spec fn at_least_as_good(a: VideoFormat, b: VideoFormat) -> bool {
    encoding_priority(a.format) > encoding_priority(b.format) || (encoding_priority(a.format)
        == encoding_priority(b.format) && a.frame_rate >= b.frame_rate)
}

/// `a` is preferred to `b`.
pub open spec fn better(a: VideoFormat, b: VideoFormat) -> bool {
    at_least_as_good(a, b) && !at_least_as_good(b, a)
}

/// Index `i` is the choice among `formats` for the resolution: the format
/// there matches, none that matches is preferred to it, and of the matches as
/// good as it, it is the last.
pub open spec fn is_best_match(formats: Seq<VideoFormat>, width: u32, height: u32, i: int) -> bool {
    &&& 0 <= i < formats.len()
    &&& matches_resolution(formats[i], width, height)
    &&& forall|j: int|
        0 <= j < formats.len() && matches_resolution(#[trigger] formats[j], width, height)
            ==> at_least_as_good(formats[i], formats[j])
    &&& forall|j: int|
        i < j < formats.len() && matches_resolution(#[trigger] formats[j], width, height)
            ==> better(formats[i], formats[j])
}

/// No format of the list offers the resolution.
pub open spec fn no_match(formats: Seq<VideoFormat>, width: u32, height: u32) -> bool {
    forall|j: int| 0 <= j < formats.len() ==> !matches_resolution(#[trigger] formats[j], width, height)
}

/// How much an encoding is preferred for capture.
pub fn format_priority(format: PixelEncoding) -> (p: u8)
    ensures
        p == encoding_priority(format),
{
    match format {
        PixelEncoding::RAWRGB => 4,
        PixelEncoding::NV12 => 3,
        PixelEncoding::YUYV => 2,
        PixelEncoding::MJPEG => 1,
        _ => 0,
    }
}

/// Whether `a` is preferred to `b`, or as good.
pub fn prefer(a: &VideoFormat, b: &VideoFormat) -> (r: bool)
    ensures
        r == at_least_as_good(*a, *b),
{
    let pa: u8 = format_priority(a.format);
    let pb: u8 = format_priority(b.format);
    if pa == pb {
        a.frame_rate >= b.frame_rate
    } else {
        pa > pb
    }
}

/// Picks the format to capture with at the requested resolution: the index of
/// the preferred one among those of that resolution, or `None` where the list
/// has none.
pub fn resolve_format(formats: &Vec<VideoFormat>, width: u32, height: u32) -> (choice: Option<usize>)
    ensures
        match choice {
            Some(i) => is_best_match(formats@, width, height, i as int),
            None => no_match(formats@, width, height),
        },
{
    let mut choice: Option<usize> = None;
    let mut k: usize = 0;
    while k < formats.len()
        invariant
            k <= formats.len(),
            match choice {
                Some(i) => is_best_match(formats@.take(k as int), width, height, i as int),
                None => no_match(formats@.take(k as int), width, height),
            },
        decreases formats.len() - k,
    {
        let f = &formats[k];
        let ghost head = formats@.take(k as int);
        let ghost next = formats@.take(k + 1);
        proof {
            assert(forall|j: int| 0 <= j < k ==> next[j] == head[j]);
            assert(next[k as int] == *f);
        }
        if f.width == width && f.height == height {
            let replace = match choice {
                Some(i) => prefer(f, &formats[i]),
                None => true,
            };
            if replace {
                proof {
                    assert forall|j: int|
                        0 <= j < next.len() && matches_resolution(
                            #[trigger] next[j],
                            width,
                            height,
                        ) implies at_least_as_good(next[k as int], next[j]) by {
                        if j < k {
                            assert(matches_resolution(head[j], width, height));
                        }
                    }
                }
                choice = Some(k);
            } else {
                proof {
                    let i = choice->0 as int;
                    assert forall|j: int|
                        i < j < next.len() && matches_resolution(
                            #[trigger] next[j],
                            width,
                            height,
                        ) implies better(next[i], next[j]) by {
                        if j < k {
                            assert(matches_resolution(head[j], width, height));
                        }
                    }
                    assert forall|j: int|
                        0 <= j < next.len() && matches_resolution(
                            #[trigger] next[j],
                            width,
                            height,
                        ) implies at_least_as_good(next[i], next[j]) by {
                        if j < k {
                            assert(matches_resolution(head[j], width, height));
                        }
                    }
                }
            }
        } else {
            proof {
                match choice {
                    Some(i) => {
                        assert forall|j: int|
                            0 <= j < next.len() && matches_resolution(
                                #[trigger] next[j],
                                width,
                                height,
                            ) implies at_least_as_good(next[i as int], next[j]) by {
                            if j < k {
                                assert(matches_resolution(head[j], width, height));
                            }
                        }
                        assert forall|j: int|
                            i < j < next.len() && matches_resolution(
                                #[trigger] next[j],
                                width,
                                height,
                            ) implies better(next[i as int], next[j]) by {
                            if j < k {
                                assert(matches_resolution(head[j], width, height));
                            }
                        }
                    },
                    None => {
                        assert forall|j: int| 0 <= j < next.len() implies !matches_resolution(
                            #[trigger] next[j],
                            width,
                            height,
                        ) by {
                            if j < k {
                                assert(!matches_resolution(head[j], width, height));
                            }
                        }
                    },
                }
            }
        }
        k += 1;
    }
    proof {
        assert(formats@.take(k as int) == formats@);
    }
    choice
}

/// The choice is unique: two indices that both qualify are the same index.
pub proof fn best_match_is_unique(
    formats: Seq<VideoFormat>,
    width: u32,
    height: u32,
    i: int,
    j: int,
)
    requires
        is_best_match(formats, width, height, i),
        is_best_match(formats, width, height, j),
    ensures
        i == j,
{
    if i < j {
        assert(better(formats[i], formats[j]));
        assert(at_least_as_good(formats[j], formats[i]));
    } else if j < i {
        assert(better(formats[j], formats[i]));
        assert(at_least_as_good(formats[i], formats[j]));
    }
}

/// An encoding of higher priority wins whatever the frame rates are; between
/// encodings of one priority the higher frame rate wins.
pub proof fn priority_beats_frame_rate(a: VideoFormat, b: VideoFormat)
    ensures
        encoding_priority(a.format) > encoding_priority(b.format) ==> better(a, b),
        encoding_priority(a.format) == encoding_priority(b.format) && a.frame_rate > b.frame_rate
            ==> better(a, b),
{
}

} // verus!
