use vstd::prelude::*;

verus! {

/// The kinds of image that are told apart by their first bytes.
#[derive(Debug, Clone, Copy, PartialEq, Eq)]
pub enum ImageExt {
    Jpeg,
    Png,
    Gif,
    Bmp,
    Webp,
    Tiff,
    Unknown,
}

impl ImageExt {
    /// The name of the kind in lower case, as it stands in a content type
    /// after `image/`.
    pub open spec fn name(self) -> &'static str {
        match self {
            ImageExt::Jpeg => "jpeg",
            ImageExt::Png => "png",
            ImageExt::Gif => "gif",
            ImageExt::Bmp => "bmp",
            ImageExt::Webp => "webp",
            ImageExt::Tiff => "tiff",
            ImageExt::Unknown => "unknown",
        }
    }
}

impl From<ImageExt> for &'static str {
    fn from(ext: ImageExt) -> (name: &'static str) {
        match ext {
            ImageExt::Jpeg => "jpeg",
            ImageExt::Png => "png",
            ImageExt::Gif => "gif",
            ImageExt::Bmp => "bmp",
            ImageExt::Webp => "webp",
            ImageExt::Tiff => "tiff",
            ImageExt::Unknown => "unknown",
        }
    }
}

impl vstd::std_specs::convert::FromSpecImpl<ImageExt> for &'static str {
    open spec fn obeys_from_spec() -> bool {
        true
    }

    open spec fn from_spec(ext: ImageExt) -> &'static str {
        ext.name()
    }
}

/// `data` begins with the bytes of `magic`.
pub open spec fn starts_with(data: Seq<u8>, magic: Seq<u8>) -> bool {
    magic.len() <= data.len() && data.take(magic.len() as int) == magic
}

/// The kind of image that begins with `data`. The signatures are tried in
/// a fixed order and the first that fits decides.
pub open spec fn sniffed(data: Seq<u8>) -> ImageExt {
    if starts_with(data, seq![0xFFu8, 0xD8u8]) {
        ImageExt::Jpeg
    } else if starts_with(data, seq![0x89u8, 0x50u8, 0x4Eu8, 0x47u8, 0x0Du8, 0x0Au8, 0x1Au8, 0x0Au8]) {
        ImageExt::Png
    } else if starts_with(data, seq![0x47u8, 0x49u8, 0x46u8, 0x38u8]) {
        ImageExt::Gif
    } else if starts_with(data, seq![0x42u8, 0x4Du8]) {
        ImageExt::Bmp
    } else if starts_with(data, seq![0x52u8, 0x49u8, 0x46u8, 0x46u8]) {
        ImageExt::Webp
    } else if starts_with(data, seq![0x49u8, 0x49u8, 0x2Au8, 0x00u8]) {
        ImageExt::Tiff
    } else if starts_with(data, seq![0x4Du8, 0x4Du8, 0x00u8, 0x2Au8]) {
        ImageExt::Tiff
    } else {
        ImageExt::Unknown
    }
}

/// Tells the kind of an image from its first eight bytes.
pub fn image_sniff(data: [u8; 8]) -> (ext: ImageExt)
    ensures
        ext == sniffed(data@),
{
    let ghost d = data@;
    proof {
        assert(starts_with(d, seq![0xFFu8, 0xD8u8]) <==> d[0] == 0xFF && d[1] == 0xD8) by {
            lemma_starts_with_2(d, 0xFF, 0xD8);
        }
        assert(starts_with(d, seq![0x42u8, 0x4Du8]) <==> d[0] == 0x42 && d[1] == 0x4D) by {
            lemma_starts_with_2(d, 0x42, 0x4D);
        }
        lemma_starts_with_4(d, 0x47, 0x49, 0x46, 0x38);
        lemma_starts_with_4(d, 0x52, 0x49, 0x46, 0x46);
        lemma_starts_with_4(d, 0x49, 0x49, 0x2A, 0x00);
        lemma_starts_with_4(d, 0x4D, 0x4D, 0x00, 0x2A);
        lemma_starts_with_png(d);
    }
    if data[0] == 0xFF && data[1] == 0xD8 {
        ImageExt::Jpeg
    } else if data[0] == 0x89 && data[1] == 0x50 && data[2] == 0x4E && data[3] == 0x47 && data[4]
        == 0x0D && data[5] == 0x0A && data[6] == 0x1A && data[7] == 0x0A {
        ImageExt::Png
    } else if data[0] == 0x47 && data[1] == 0x49 && data[2] == 0x46 && data[3] == 0x38 {
        ImageExt::Gif
    } else if data[0] == 0x42 && data[1] == 0x4D {
        ImageExt::Bmp
    } else if data[0] == 0x52 && data[1] == 0x49 && data[2] == 0x46 && data[3] == 0x46 {
        ImageExt::Webp
    } else if data[0] == 0x49 && data[1] == 0x49 && data[2] == 0x2A && data[3] == 0x00 {
        ImageExt::Tiff
    } else if data[0] == 0x4D && data[1] == 0x4D && data[2] == 0x00 && data[3] == 0x2A {
        ImageExt::Tiff
    } else {
        ImageExt::Unknown
    }
}

proof fn lemma_starts_with_2(d: Seq<u8>, a: u8, b: u8)
    requires
        d.len() >= 2,
    ensures
        starts_with(d, seq![a, b]) <==> d[0] == a && d[1] == b,
{
    let m = seq![a, b];
    if d[0] == a && d[1] == b {
        assert(d.take(2) =~= m);
    }
    if starts_with(d, m) {
        assert(d.take(2)[0] == m[0]);
        assert(d.take(2)[1] == m[1]);
    }
}

proof fn lemma_starts_with_4(d: Seq<u8>, a: u8, b: u8, c: u8, e: u8)
    requires
        d.len() >= 4,
    ensures
        starts_with(d, seq![a, b, c, e]) <==> d[0] == a && d[1] == b && d[2] == c && d[3] == e,
{
    let m = seq![a, b, c, e];
    if d[0] == a && d[1] == b && d[2] == c && d[3] == e {
        assert(d.take(4) =~= m);
    }
    if starts_with(d, m) {
        assert(d.take(4)[0] == m[0]);
        assert(d.take(4)[1] == m[1]);
        assert(d.take(4)[2] == m[2]);
        assert(d.take(4)[3] == m[3]);
    }
}

proof fn lemma_starts_with_png(d: Seq<u8>)
    requires
        d.len() >= 8,
    ensures
        starts_with(d, seq![0x89u8, 0x50u8, 0x4Eu8, 0x47u8, 0x0Du8, 0x0Au8, 0x1Au8, 0x0Au8]) <==> d[0]
            == 0x89 && d[1] == 0x50 && d[2] == 0x4E && d[3] == 0x47 && d[4] == 0x0D && d[5] == 0x0A
            && d[6] == 0x1A && d[7] == 0x0A,
{
    let m = seq![0x89u8, 0x50u8, 0x4Eu8, 0x47u8, 0x0Du8, 0x0Au8, 0x1Au8, 0x0Au8];
    if d[0] == 0x89 && d[1] == 0x50 && d[2] == 0x4E && d[3] == 0x47 && d[4] == 0x0D && d[5] == 0x0A
        && d[6] == 0x1A && d[7] == 0x0A {
        assert(d.take(8) =~= m);
    }
    if starts_with(d, m) {
        assert(d.take(8)[0] == m[0]);
        assert(d.take(8)[1] == m[1]);
        assert(d.take(8)[2] == m[2]);
        assert(d.take(8)[3] == m[3]);
        assert(d.take(8)[4] == m[4]);
        assert(d.take(8)[5] == m[5]);
        assert(d.take(8)[6] == m[6]);
        assert(d.take(8)[7] == m[7]);
    }
}

} // verus!
