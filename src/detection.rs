//! Classification of a byte buffer by magic numbers, in a fixed priority order.
use vstd::prelude::*;

verus! {

/// The container formats that the detector recognises.
#[derive(Clone, Copy, Debug, PartialEq, Eq, Structural)]
pub enum FileFormat {
    Png,
    Jpeg,
    Bmp,
    Gif,
    Zip,
    Gzip,
    Tiff,
    Pdf,
    TarUstar,
    TarGnu,
    Unrecognized,
}

/// PNG: `89 50 4E 47 0D 0A 1A 0A` at offset 0.
pub open spec fn png_signature(d: Seq<u8>) -> bool {
    d.len() >= 8 && d[0] == 0x89u8 && d[1] == 0x50u8 && d[2] == 0x4Eu8 && d[3] == 0x47u8
        && d[4] == 0x0Du8 && d[5] == 0x0Au8 && d[6] == 0x1Au8 && d[7] == 0x0Au8
}

/// JPEG: `FF D8 FF` at offset 0.
pub open spec fn jpeg_signature(d: Seq<u8>) -> bool {
    d.len() >= 3 && d[0] == 0xFFu8 && d[1] == 0xD8u8 && d[2] == 0xFFu8
}

/// BMP: `BM` at offset 0.
pub open spec fn bmp_signature(d: Seq<u8>) -> bool {
    d.len() >= 2 && d[0] == 0x42u8 && d[1] == 0x4Du8
}

/// GIF: `GIF87a` or `GIF89a` at offset 0.
pub open spec fn gif_signature(d: Seq<u8>) -> bool {
    d.len() >= 6 && d[0] == 0x47u8 && d[1] == 0x49u8 && d[2] == 0x46u8 && d[3] == 0x38u8
        && (d[4] == 0x37u8 || d[4] == 0x39u8) && d[5] == 0x61u8
}

/// ZIP: `PK` followed by `03 04`, `05 06` or `07 08`.
pub open spec fn zip_signature(d: Seq<u8>) -> bool {
    d.len() >= 4 && d[0] == 0x50u8 && d[1] == 0x4Bu8 && (
    (d[2] == 0x03u8 && d[3] == 0x04u8) || (d[2] == 0x05u8 && d[3] == 0x06u8) || (d[2] == 0x07u8
        && d[3] == 0x08u8))
}

/// GZIP: `1F 8B` at offset 0.
pub open spec fn gzip_signature(d: Seq<u8>) -> bool {
    d.len() >= 2 && d[0] == 0x1Fu8 && d[1] == 0x8Bu8
}

/// TIFF: `II 2A 00` (little-endian) or `MM 00 2A` (big-endian).
pub open spec fn tiff_signature(d: Seq<u8>) -> bool {
    d.len() >= 4 && ((d[0] == 0x49u8 && d[1] == 0x49u8 && d[2] == 0x2Au8 && d[3] == 0x00u8) || (
    d[0] == 0x4Du8 && d[1] == 0x4Du8 && d[2] == 0x00u8 && d[3] == 0x2Au8))
}

/// PDF: `%PDF-` at offset 0.
pub open spec fn pdf_signature(d: Seq<u8>) -> bool {
    d.len() >= 5 && d[0] == 0x25u8 && d[1] == 0x50u8 && d[2] == 0x44u8 && d[3] == 0x46u8 && d[4]
        == 0x2Du8
}

/// `ustar` at offset 257 followed by the byte `last` at 262.
pub open spec fn ustar_magic(d: Seq<u8>, last: u8) -> bool {
    d.len() >= 263 && d[257] == 0x75u8 && d[258] == 0x73u8 && d[259] == 0x74u8 && d[260]
        == 0x61u8 && d[261] == 0x72u8 && d[262] == last
}

/// POSIX tar: `ustar\0` at offset 257.
pub open spec fn tar_ustar_signature(d: Seq<u8>) -> bool {
    ustar_magic(d, 0x00u8)
}

/// GNU tar: `ustar ` at offset 257.
pub open spec fn tar_gnu_signature(d: Seq<u8>) -> bool {
    ustar_magic(d, 0x20u8)
}

/// Whether `d` carries the signature of `f` (never true for `Unrecognized`).
pub open spec fn matches_signature(d: Seq<u8>, f: FileFormat) -> bool {
    match f {
        FileFormat::Png => png_signature(d),
        FileFormat::Jpeg => jpeg_signature(d),
        FileFormat::Bmp => bmp_signature(d),
        FileFormat::Gif => gif_signature(d),
        FileFormat::Zip => zip_signature(d),
        FileFormat::Gzip => gzip_signature(d),
        FileFormat::Tiff => tiff_signature(d),
        FileFormat::Pdf => pdf_signature(d),
        FileFormat::TarUstar => tar_ustar_signature(d),
        FileFormat::TarGnu => tar_gnu_signature(d),
        FileFormat::Unrecognized => false,
    }
}

/// Position of a format in the detector's priority order (earlier wins).
pub open spec fn priority(f: FileFormat) -> nat {
    match f {
        FileFormat::Png => 0,
        FileFormat::Jpeg => 1,
        FileFormat::Bmp => 2,
        FileFormat::Gif => 3,
        FileFormat::Zip => 4,
        FileFormat::Gzip => 5,
        FileFormat::Tiff => 6,
        FileFormat::Pdf => 7,
        FileFormat::TarUstar => 8,
        FileFormat::TarGnu => 9,
        FileFormat::Unrecognized => 10,
    }
}

/// The shortest buffer on which the signature of `f` can match.
pub open spec fn min_signature_len(f: FileFormat) -> nat {
    match f {
        FileFormat::Png => 8,
        FileFormat::Jpeg => 3,
        FileFormat::Bmp => 2,
        FileFormat::Gif => 6,
        FileFormat::Zip => 4,
        FileFormat::Gzip => 2,
        FileFormat::Tiff => 4,
        FileFormat::Pdf => 5,
        FileFormat::TarUstar => 263,
        FileFormat::TarGnu => 263,
        FileFormat::Unrecognized => 0,
    }
}

/// The format of `d`: the first signature in priority order that matches.
pub open spec fn classify_spec(d: Seq<u8>) -> FileFormat {
    if png_signature(d) {
        FileFormat::Png
    } else if jpeg_signature(d) {
        FileFormat::Jpeg
    } else if bmp_signature(d) {
        FileFormat::Bmp
    } else if gif_signature(d) {
        FileFormat::Gif
    } else if zip_signature(d) {
        FileFormat::Zip
    } else if gzip_signature(d) {
        FileFormat::Gzip
    } else if tiff_signature(d) {
        FileFormat::Tiff
    } else if pdf_signature(d) {
        FileFormat::Pdf
    } else if tar_ustar_signature(d) {
        FileFormat::TarUstar
    } else if tar_gnu_signature(d) {
        FileFormat::TarGnu
    } else {
        FileFormat::Unrecognized
    }
}

/// The label under which a format is reported; empty when unrecognised.
pub open spec fn label_spec(f: FileFormat) -> Seq<char> {
    match f {
        FileFormat::Png => "PNG"@,
        FileFormat::Jpeg => "JPEG"@,
        FileFormat::Bmp => "BMP"@,
        FileFormat::Gif => "GIF"@,
        FileFormat::Zip => "ZIP"@,
        FileFormat::Gzip => "GZIP"@,
        FileFormat::Tiff => "TIFF"@,
        FileFormat::Pdf => "PDF"@,
        FileFormat::TarUstar => "TAR (USTAR)"@,
        FileFormat::TarGnu => "TAR (GNU)"@,
        FileFormat::Unrecognized => ""@,
    }
}

impl FileFormat {
    /// The label under which this format is reported.
    pub fn label(&self) -> (r: &'static str)
        ensures
            r@ == label_spec(*self),
    {
        match self {
            FileFormat::Png => "PNG",
            FileFormat::Jpeg => "JPEG",
            FileFormat::Bmp => "BMP",
            FileFormat::Gif => "GIF",
            FileFormat::Zip => "ZIP",
            FileFormat::Gzip => "GZIP",
            FileFormat::Tiff => "TIFF",
            FileFormat::Pdf => "PDF",
            FileFormat::TarUstar => "TAR (USTAR)",
            FileFormat::TarGnu => "TAR (GNU)",
            FileFormat::Unrecognized => "",
        }
    }
}

/// Whether `data` holds `ustar` at offset 257 followed by `last`.
fn has_ustar_magic(data: &[u8], last: u8) -> (r: bool)
    ensures
        r == ustar_magic(data@, last),
{
    data.len() >= 263 && data[257] == 0x75u8 && data[258] == 0x73u8 && data[259] == 0x74u8
        && data[260] == 0x61u8 && data[261] == 0x72u8 && data[262] == last
}

/// Classifies `data` by the first matching signature in priority order.
pub fn classify(data: &[u8]) -> (r: FileFormat)
    ensures
        r == classify_spec(data@),
{
    let n = data.len();
    if n >= 8 && data[0] == 0x89u8 && data[1] == 0x50u8 && data[2] == 0x4Eu8 && data[3] == 0x47u8
        && data[4] == 0x0Du8 && data[5] == 0x0Au8 && data[6] == 0x1Au8 && data[7] == 0x0Au8 {
        FileFormat::Png
    } else if n >= 3 && data[0] == 0xFFu8 && data[1] == 0xD8u8 && data[2] == 0xFFu8 {
        FileFormat::Jpeg
    } else if n >= 2 && data[0] == 0x42u8 && data[1] == 0x4Du8 {
        FileFormat::Bmp
    } else if n >= 6 && data[0] == 0x47u8 && data[1] == 0x49u8 && data[2] == 0x46u8 && data[3]
        == 0x38u8 && (data[4] == 0x37u8 || data[4] == 0x39u8) && data[5] == 0x61u8 {
        FileFormat::Gif
    } else if n >= 4 && data[0] == 0x50u8 && data[1] == 0x4Bu8 && ((data[2] == 0x03u8 && data[3]
        == 0x04u8) || (data[2] == 0x05u8 && data[3] == 0x06u8) || (data[2] == 0x07u8 && data[3]
        == 0x08u8)) {
        FileFormat::Zip
    } else if n >= 2 && data[0] == 0x1Fu8 && data[1] == 0x8Bu8 {
        FileFormat::Gzip
    } else if n >= 4 && ((data[0] == 0x49u8 && data[1] == 0x49u8 && data[2] == 0x2Au8 && data[3]
        == 0x00u8) || (data[0] == 0x4Du8 && data[1] == 0x4Du8 && data[2] == 0x00u8 && data[3]
        == 0x2Au8)) {
        FileFormat::Tiff
    } else if n >= 5 && data[0] == 0x25u8 && data[1] == 0x50u8 && data[2] == 0x44u8 && data[3]
        == 0x46u8 && data[4] == 0x2Du8 {
        FileFormat::Pdf
    } else if has_ustar_magic(data, 0x00u8) {
        FileFormat::TarUstar
    } else if has_ustar_magic(data, 0x20u8) {
        FileFormat::TarGnu
    } else {
        FileFormat::Unrecognized
    }
}

/// Detects the format of a file from its first bytes.
///
/// Returns the format's label, or the empty string when no signature matches.
pub fn detect_file_format(data: &[u8]) -> (r: &'static str)
    ensures
        r@ == label_spec(classify_spec(data@)),
{
    classify(data).label()
}

/// A buffer shorter than a format's signature is never classified as that
/// format, and does not carry its signature.
pub proof fn lemma_short_buffer_not_detected(d: Seq<u8>, f: FileFormat)
    requires
        d.len() < min_signature_len(f),
    ensures
        !matches_signature(d, f),
        classify_spec(d) != f,
{
}

/// Detection depends on the bytes alone: equal buffers get the same format
/// and the same label.
pub proof fn lemma_detection_deterministic(a: Seq<u8>, b: Seq<u8>)
    requires
        a == b,
    ensures
        classify_spec(a) == classify_spec(b),
        label_spec(classify_spec(a)) == label_spec(classify_spec(b)),
{
}

/// Priority: the detected format carries its signature, and no format listed
/// before it does. Hence a buffer that carries the signatures of several
/// formats is classified as the earliest listed of them.
pub proof fn lemma_priority_order(d: Seq<u8>, f: FileFormat)
    requires
        matches_signature(d, f),
    ensures
        classify_spec(d) != FileFormat::Unrecognized,
        matches_signature(d, classify_spec(d)),
        priority(classify_spec(d)) <= priority(f),
        forall|g: FileFormat| #[trigger]
            priority(g) < priority(classify_spec(d)) ==> !matches_signature(d, g),
{
    assert forall|g: FileFormat| #[trigger]
        priority(g) < priority(classify_spec(d)) implies !matches_signature(d, g) by {
        match g {
            FileFormat::Png => {},
            FileFormat::Jpeg => {},
            FileFormat::Bmp => {},
            FileFormat::Gif => {},
            FileFormat::Zip => {},
            FileFormat::Gzip => {},
            FileFormat::Tiff => {},
            FileFormat::Pdf => {},
            FileFormat::TarUstar => {},
            FileFormat::TarGnu => {},
            FileFormat::Unrecognized => {},
        }
    }
}

/// An unrecognised buffer carries no signature at all.
pub proof fn lemma_unrecognized_has_no_signature(d: Seq<u8>, f: FileFormat)
    requires
        classify_spec(d) == FileFormat::Unrecognized,
    ensures
        !matches_signature(d, f),
{
}

} // verus!
