use vstd::prelude::*;

verus! {

/// The pixel encoding of a native capture mode. The variants are declared in
/// the order by which formats are sorted.
#[allow(clippy::upper_case_acronyms)]
#[derive(Clone, Copy, Debug, PartialEq, Eq, PartialOrd, Ord, Hash, Structural)]
pub enum PixelEncoding {
    MJPEG,
    YUYV,
    NV12,
    GRAY,
    RAWRGB,
    RAWBGR,
}

impl PixelEncoding {
    /// Position of the encoding in the sort order of formats.
    pub open spec fn rank(self) -> int {
        match self {
            PixelEncoding::MJPEG => 0,
            PixelEncoding::YUYV => 1,
            PixelEncoding::NV12 => 2,
            PixelEncoding::GRAY => 3,
            PixelEncoding::RAWRGB => 4,
            PixelEncoding::RAWBGR => 5,
        }
    }

    /// The text by which the encoding is reported to callers.
    pub open spec fn spec_name(self) -> Seq<char> {
        match self {
            PixelEncoding::MJPEG => "MJPEG"@,
            PixelEncoding::YUYV => "YUYV"@,
            PixelEncoding::NV12 => "NV12"@,
            PixelEncoding::GRAY => "GRAY"@,
            PixelEncoding::RAWRGB => "RAWRGB"@,
            PixelEncoding::RAWBGR => "RAWBGR"@,
        }
    }

    /// Position of the encoding in the sort order of formats.
    pub fn sort_rank(self) -> (r: u8)
        ensures
            r == self.rank(),
    {
        match self {
            PixelEncoding::MJPEG => 0,
            PixelEncoding::YUYV => 1,
            PixelEncoding::NV12 => 2,
            PixelEncoding::GRAY => 3,
            PixelEncoding::RAWRGB => 4,
            PixelEncoding::RAWBGR => 5,
        }
    }

    /// The text by which the encoding is reported to callers.
    pub fn name(self) -> (s: &'static str)
        ensures
            s@ == self.spec_name(),
    {
        match self {
            PixelEncoding::MJPEG => "MJPEG",
            PixelEncoding::YUYV => "YUYV",
            PixelEncoding::NV12 => "NV12",
            PixelEncoding::GRAY => "GRAY",
            PixelEncoding::RAWRGB => "RAWRGB",
            PixelEncoding::RAWBGR => "RAWBGR",
        }
    }
}

/// One native capture mode of a device: resolution, pixel encoding and frame
/// rate.
#[derive(Clone, Copy, Debug, PartialEq, Eq, PartialOrd, Ord, Hash, Structural)]
pub struct VideoFormat {
    pub width: u32,
    pub height: u32,
    pub format: PixelEncoding,
    pub frame_rate: u32,
}

/// The total order of formats: by width, then height, then encoding, then
/// frame rate.
pub open spec fn format_less(a: VideoFormat, b: VideoFormat) -> bool {
    if a.width != b.width {
        a.width < b.width
    } else if a.height != b.height {
        a.height < b.height
    } else if a.format.rank() != b.format.rank() {
        a.format.rank() < b.format.rank()
    } else {
        a.frame_rate < b.frame_rate
    }
}

/// Every format stands before all formats that follow it: the sequence is
/// sorted and holds no format twice.
pub open spec fn strictly_sorted(s: Seq<VideoFormat>) -> bool {
    forall|i: int, j: int| 0 <= i < j < s.len() ==> format_less(#[trigger] s[i], #[trigger] s[j])
}

/// The two sequences hold the same formats, whatever their order and number.
pub open spec fn same_formats(a: Seq<VideoFormat>, b: Seq<VideoFormat>) -> bool {
    forall|f: VideoFormat| a.contains(f) <==> b.contains(f)
}

impl VideoFormat {
    /// Whether `self` stands before `other` in the order of formats.
    pub fn less_than(&self, other: &VideoFormat) -> (b: bool)
        ensures
            b == format_less(*self, *other),
    {
        if self.width != other.width {
            self.width < other.width
        } else if self.height != other.height {
            self.height < other.height
        } else if self.format.sort_rank() != other.format.sort_rank() {
            self.format.sort_rank() < other.format.sort_rank()
        } else {
            self.frame_rate < other.frame_rate
        }
    }
}

/// The order of formats is total: of two different formats exactly one stands
/// before the other, none stands before itself, and the order is transitive.
pub proof fn format_order_is_total(a: VideoFormat, b: VideoFormat, c: VideoFormat)
    ensures
        !format_less(a, a),
        a != b ==> (format_less(a, b) <==> !format_less(b, a)),
        format_less(a, b) && format_less(b, c) ==> format_less(a, c),
{
}

/// Puts `f` at its place in a sorted list of formats, unless the list holds it
/// already.
pub fn insert_format(formats: &mut Vec<VideoFormat>, f: VideoFormat)
    requires
        strictly_sorted(old(formats)@),
    ensures
        strictly_sorted(final(formats)@),
        forall|g: VideoFormat| final(formats)@.contains(g) <==> (old(formats)@.contains(g) || g == f),
        old(formats)@.contains(f) ==> final(formats)@ == old(formats)@,
        !old(formats)@.contains(f) ==> final(formats)@.len() == old(formats)@.len() + 1,
{
    let ghost before = formats@;
    let n: usize = formats.len();
    let mut i: usize = 0;
    while i < n && formats[i].less_than(&f)
        invariant
            formats@ == before,
            n == before.len(),
            i <= n,
            forall|k: int| 0 <= k < i ==> format_less(#[trigger] before[k], f),
        decreases n - i,
    {
        i += 1;
    }
    if i < n && formats[i] == f {
        assert(before.contains(f));
        return ;
    }
    proof {
        assert(forall|k: int| i <= k < n ==> format_less(f, #[trigger] before[k])) by {
            assert forall|k: int| i <= k < n implies format_less(f, #[trigger] before[k]) by {
                if k > i {
                    assert(format_less(before[i as int], before[k]));
                }
            }
        }
        assert(!before.contains(f)) by {
            if before.contains(f) {
                let k = choose|k: int| 0 <= k < before.len() && before[k] == f;
                assert(format_less(before[k], f) || format_less(f, before[k]));
            }
        }
    }
    formats.insert(i, f);
    proof {
        let after = formats@;
        assert(after == before.insert(i as int, f));
        assert(after[i as int] == f);
        assert forall|g: VideoFormat| after.contains(g) <==> (before.contains(g) || g == f) by {
            if after.contains(g) {
                let k = choose|k: int| 0 <= k < after.len() && after[k] == g;
                if k < i {
                    assert(before[k] == g);
                } else if k > i {
                    assert(before[k - 1] == g);
                }
            }
            if before.contains(g) {
                let k = choose|k: int| 0 <= k < before.len() && before[k] == g;
                if k < i {
                    assert(after[k] == g);
                } else {
                    assert(after[k + 1] == g);
                }
            }
        }
        assert forall|a: int, b: int| 0 <= a < b < after.len() implies format_less(
            #[trigger] after[a],
            #[trigger] after[b],
        ) by {
            let pa = if a < i { a } else { a - 1 };
            let pb = if b < i { b } else { b - 1 };
            if a != i && b != i {
                assert(format_less(before[pa], before[pb]));
            } else if a == i {
                assert(format_less(f, before[pb]));
            } else {
                assert(format_less(before[pa], f));
            }
        }
    }
}

/// The formats of `found`, each once, in the order of formats.
pub fn sorted_unique_formats(found: &Vec<VideoFormat>) -> (formats: Vec<VideoFormat>)
    ensures
        strictly_sorted(formats@),
        same_formats(formats@, found@),
{
    let mut formats: Vec<VideoFormat> = Vec::new();
    let mut i: usize = 0;
    while i < found.len()
        invariant
            i <= found.len(),
            strictly_sorted(formats@),
            forall|g: VideoFormat| formats@.contains(g) <==> found@.take(i as int).contains(g),
        decreases found.len() - i,
    {
        let f = found[i];
        insert_format(&mut formats, f);
        proof {
            let head = found@.take(i as int);
            let next = found@.take(i + 1);
            assert(next == head.push(f));
            assert forall|g: VideoFormat| formats@.contains(g) <==> next.contains(g) by {
                if next.contains(g) {
                    let k = choose|k: int| 0 <= k < next.len() && next[k] == g;
                    if k < i {
                        assert(head[k] == g);
                    }
                }
                if head.contains(g) {
                    let k = choose|k: int| 0 <= k < head.len() && head[k] == g;
                    assert(next[k] == g);
                }
                assert(next[i as int] == f);
            }
        }
        i += 1;
    }
    proof {
        assert(found@.take(i as int) == found@);
    }
    formats
}

/// A sorted list without repetitions is determined by the formats it holds:
/// two such lists of the same formats are equal, in whatever order the formats
/// were found.
pub proof fn sorted_unique_is_canonical(a: Seq<VideoFormat>, b: Seq<VideoFormat>)
    requires
        strictly_sorted(a),
        strictly_sorted(b),
        same_formats(a, b),
    ensures
        a == b,
    decreases a.len(),
{
    if a.len() == 0 {
        if b.len() > 0 {
            assert(b.contains(b[0]));
            assert(a.contains(b[0]));
        }
        assert(a =~= b);
    } else {
        let la = a.last();
        assert(a.contains(la));
        assert(b.contains(la));
        let lb = b.last();
        assert(b.contains(lb));
        assert(a.contains(lb));
        let ja = choose|k: int| 0 <= k < b.len() && b[k] == la;
        let jb = choose|k: int| 0 <= k < a.len() && a[k] == lb;
        if ja < b.len() - 1 {
            assert(format_less(b[ja], b[b.len() - 1]));
        }
        if jb < a.len() - 1 {
            assert(format_less(a[jb], a[a.len() - 1]));
        }
        assert(la == lb);
        let a0 = a.drop_last();
        let b0 = b.drop_last();
        assert forall|f: VideoFormat| a0.contains(f) <==> b0.contains(f) by {
            if a0.contains(f) {
                let k = choose|k: int| 0 <= k < a0.len() && a0[k] == f;
                assert(format_less(a[k], a[a.len() - 1]));
                assert(a.contains(f));
                let m = choose|m: int| 0 <= m < b.len() && b[m] == f;
                assert(b0[m] == f);
            }
            if b0.contains(f) {
                let k = choose|k: int| 0 <= k < b0.len() && b0[k] == f;
                assert(format_less(b[k], b[b.len() - 1]));
                assert(b.contains(f));
                let m = choose|m: int| 0 <= m < a.len() && a[m] == f;
                assert(a0[m] == f);
            }
        }
        assert(strictly_sorted(a0)) by {
            assert forall|i: int, j: int| 0 <= i < j < a0.len() implies format_less(
                #[trigger] a0[i],
                #[trigger] a0[j],
            ) by {
                assert(format_less(a[i], a[j]));
            }
        }
        assert(strictly_sorted(b0)) by {
            assert forall|i: int, j: int| 0 <= i < j < b0.len() implies format_less(
                #[trigger] b0[i],
                #[trigger] b0[j],
            ) by {
                assert(format_less(b[i], b[j]));
            }
        }
        sorted_unique_is_canonical(a0, b0);
        assert(a =~= a0.push(la));
        assert(b =~= b0.push(lb));
    }
}

/// A sorted list of formats holds no format twice.
pub proof fn sorted_has_no_duplicates(s: Seq<VideoFormat>)
    requires
        strictly_sorted(s),
    ensures
        s.no_duplicates(),
{
    assert forall|i: int, j: int| 0 <= i < s.len() && 0 <= j < s.len() && i != j implies s[i]
        != s[j] by {
        if i < j {
            assert(format_less(s[i], s[j]));
        } else {
            assert(format_less(s[j], s[i]));
        }
    }
}

} // verus!
