//! Format-specific header decoding into human-readable facts.
//!
//! Each decoder checks a minimum length first and reads only offsets that the
//! check covers; a buffer that is too short contributes no fact.
use vstd::prelude::*;
use crate::bytes::{
    abs,
    be_u16,
    be_u32,
    le_i32,
    le_u16,
    le_u32,
    read_be_u16,
    read_be_u32,
    read_le_i32_abs,
    read_le_u16,
    read_le_u32,
};
use crate::detection::{classify, classify_spec, FileFormat};
use crate::text::{
    decimal,
    hex_byte,
    lossy_string,
    lossy_text,
    parse_unsigned,
    parse_unsigned_spec,
    push_decimal,
    push_hex_byte,
    trim_nul_end,
    trim_trailing_nuls,
};
use vstd::utf8::{decode_utf8, valid_utf8};

verus! {

/// `"  Dimensions: W x H"`.
pub open spec fn dimensions_text(w: nat, h: nat) -> Seq<char> {
    "  Dimensions: "@ + decimal(w) + " x "@ + decimal(h)
}

/// `label`, then `n` in decimal, then `suffix`.
pub open spec fn number_text(label: Seq<char>, n: nat, suffix: Seq<char>) -> Seq<char> {
    label + decimal(n) + suffix
}

/// Name of a PNG colour type.
pub open spec fn png_color_name(t: u8) -> Seq<char> {
    if t == 0 {
        "Grayscale"@
    } else if t == 2 {
        "RGB"@
    } else if t == 3 {
        "Indexed"@
    } else if t == 4 {
        "Grayscale+Alpha"@
    } else if t == 6 {
        "RGB+Alpha"@
    } else {
        "Unknown"@
    }
}

/// PNG: dimensions from the IHDR chunk, then bit depth and colour type when
/// the buffer reaches them.
pub open spec fn png_facts(d: Seq<u8>) -> Seq<Seq<char>> {
    if d.len() < 24 {
        seq![]
    } else {
        let f1 = seq![dimensions_text(be_u32(d, 16), be_u32(d, 20))];
        let f2 = if d.len() >= 25 {
            f1.push(number_text("  Bit depth: "@, d[24] as nat, ""@))
        } else {
            f1
        };
        if d.len() >= 26 {
            f2.push("  Color type: "@ + png_color_name(d[25]))
        } else {
            f2
        }
    }
}

/// Name of a BMP compression method.
pub open spec fn bmp_compression_name(c: nat) -> Seq<char> {
    if c == 0 {
        "BI_RGB"@
    } else if c == 1 {
        "BI_RLE8"@
    } else if c == 2 {
        "BI_RLE4"@
    } else if c == 3 {
        "BI_BITFIELDS"@
    } else if c == 4 {
        "BI_JPEG"@
    } else if c == 5 {
        "BI_PNG"@
    } else {
        "Unknown"@
    }
}

/// BMP: absolute dimensions, bits per pixel, compression and row order.
pub open spec fn bmp_facts(d: Seq<u8>) -> Seq<Seq<char>> {
    if d.len() < 54 {
        seq![]
    } else {
        seq![
            dimensions_text(abs(le_i32(d, 18)), abs(le_i32(d, 22))),
            number_text("  Bits per pixel: "@, le_u16(d, 28), ""@),
            "  Compression: "@ + bmp_compression_name(le_u32(d, 30)),
            if le_i32(d, 22) < 0 {
                "  Orientation: Top-down"@
            } else {
                "  Orientation: Bottom-up"@
            },
        ]
    }
}

/// Name of a GZIP compression method.
pub open spec fn gzip_method_name(m: u8) -> Seq<char> {
    if m == 8 {
        "Deflate"@
    } else {
        "Unknown"@
    }
}

/// Name of the operating system recorded in a GZIP header.
pub open spec fn gzip_os_name(os: u8) -> Seq<char> {
    if os == 0 {
        "FAT filesystem (MS-DOS, OS/2, NT/Win32)"@
    } else if os == 1 {
        "Amiga"@
    } else if os == 2 {
        "VMS (or OpenVMS)"@
    } else if os == 3 {
        "Unix"@
    } else if os == 4 {
        "VM/CMS"@
    } else if os == 5 {
        "Atari TOS"@
    } else if os == 6 {
        "HPFS filesystem (OS/2, NT)"@
    } else if os == 7 {
        "Macintosh"@
    } else if os == 8 {
        "Z-System"@
    } else if os == 9 {
        "CP/M"@
    } else if os == 10 {
        "TOPS-20"@
    } else if os == 11 {
        "NTFS filesystem (NT)"@
    } else if os == 12 {
        "QDOS"@
    } else if os == 13 {
        "Acorn RISCOS"@
    } else if os == 255 {
        "unknown"@
    } else {
        "Other"@
    }
}

/// GZIP: method, modification time (when not zero), OS, flags and extra flags.
pub open spec fn gzip_facts(d: Seq<u8>) -> Seq<Seq<char>> {
    if d.len() < 10 {
        seq![]
    } else {
        let f1 = seq!["  Compression: "@ + gzip_method_name(d[2])];
        let f2 = if le_u32(d, 4) != 0 {
            f1.push(number_text("  Modification time: "@, le_u32(d, 4), " Unix timestamp"@))
        } else {
            f1
        };
        f2 + seq![
            "  OS: "@ + gzip_os_name(d[9]),
            "  Flags: 0x"@ + hex_byte(d[3]),
            "  Extra flags: 0x"@ + hex_byte(d[8]),
        ]
    }
}

/// TIFF: byte order and the offset of the first image file directory.
pub open spec fn tiff_facts(d: Seq<u8>) -> Seq<Seq<char>> {
    if d.len() < 16 {
        seq![]
    } else {
        let little = d[0] == 0x49u8 && d[1] == 0x49u8;
        seq![
            "  Endianness: "@ + if little {
                "Little"@
            } else {
                "Big"@
            },
            number_text(
                "  IFD offset: "@,
                if little {
                    le_u32(d, 4)
                } else {
                    be_u32(d, 4)
                },
                ""@,
            ),
        ]
    }
}

/// `2` raised to `e`.
pub open spec fn pow2(e: nat) -> nat
    decreases e,
{
    if e == 0 {
        1
    } else {
        2 * pow2((e - 1) as nat)
    }
}

/// Whether the buffer starts with `GIF87a`.
pub open spec fn gif87a(d: Seq<u8>) -> bool {
    d.len() >= 6 && d[0] == 0x47u8 && d[1] == 0x49u8 && d[2] == 0x46u8 && d[3] == 0x38u8 && d[4]
        == 0x37u8 && d[5] == 0x61u8
}

/// GIF: version, logical screen size and, when the packed byte at offset 10 is
/// present, the global colour table flag, its size (only when present) and the
/// colour resolution.
pub open spec fn gif_facts(d: Seq<u8>) -> Seq<Seq<char>> {
    if d.len() < 10 {
        seq![]
    } else {
        let f1 = seq![
            "  Version: GIF"@ + if gif87a(d) {
                "87a"@
            } else {
                "89a"@
            },
            dimensions_text(le_u16(d, 6), le_u16(d, 8)),
        ];
        if d.len() < 11 {
            f1
        } else {
            let packed = d[10];
            let table = packed >= 0x80;
            let f2 = f1.push(
                "  Global color table: "@ + if table {
                    "true"@
                } else {
                    "false"@
                },
            );
            let f3 = if table {
                f2.push(number_text("  Color table size: "@, pow2(packed as nat % 8 + 1), ""@))
            } else {
                f2
            };
            f3.push(number_text("  Color resolution: "@, (packed as nat / 16) % 8 + 1, " bits"@))
        }
    }
}

/// Number of bytes of `d` from offset `i` on.
pub open spec fn remaining(d: Seq<u8>, i: int) -> nat {
    if i < d.len() {
        (d.len() - i) as nat
    } else {
        0
    }
}

/// JPEG: walks the marker segments from offset `i` while more than nine bytes
/// remain. A marker `FF C0`..`FF CF` yields dimensions and component count and
/// ends the walk; another `FF` skips its declared segment length plus two; any
/// other byte advances by one.
pub open spec fn jpeg_scan(d: Seq<u8>, i: int) -> Seq<Seq<char>>
    decreases remaining(d, i),
{
    if 0 <= i && i + 9 < d.len() {
        if d[i] == 0xFFu8 && 0xC0u8 <= d[i + 1] <= 0xCFu8 {
            seq![
                dimensions_text(be_u16(d, i + 7), be_u16(d, i + 5)),
                number_text("  Components: "@, d[i + 9] as nat, ""@),
            ]
        } else if d[i] == 0xFFu8 {
            jpeg_scan(d, i + be_u16(d, i + 2) + 2)
        } else {
            jpeg_scan(d, i + 1)
        }
    } else {
        seq![]
    }
}

/// JPEG: the walk starts right after the start-of-image marker.
pub open spec fn jpeg_facts(d: Seq<u8>) -> Seq<Seq<char>> {
    jpeg_scan(d, 2)
}

/// Name of a ZIP compression method.
pub open spec fn zip_method_name(m: nat) -> Seq<char> {
    if m == 0 {
        "Stored"@
    } else if m == 8 {
        "Deflated"@
    } else if m == 9 {
        "Enhanced Deflated"@
    } else if m == 12 {
        "BZIP2"@
    } else if m == 14 {
        "LZMA"@
    } else if m == 19 {
        "LZ77"@
    } else if m == 98 {
        "PPMd"@
    } else {
        "Unknown"@
    }
}

/// Whether the buffer starts with a ZIP local file header signature.
pub open spec fn zip_local_header(d: Seq<u8>) -> bool {
    d.len() >= 4 && d[0] == 0x50u8 && d[1] == 0x4Bu8 && d[2] == 0x03u8 && d[3] == 0x04u8
}

/// ZIP: method, sizes and, when the buffer holds it and it is well-formed
/// UTF-8, the name of the first file.
pub open spec fn zip_facts(d: Seq<u8>) -> Seq<Seq<char>> {
    if d.len() < 30 || !zip_local_header(d) {
        seq![]
    } else {
        let f1 = seq![
            "  Compression: "@ + zip_method_name(le_u16(d, 8)),
            number_text("  Compressed size: "@, le_u32(d, 18), " bytes"@),
            number_text("  Uncompressed size: "@, le_u32(d, 22), " bytes"@),
        ];
        let name = d.subrange(30, 30 + le_u16(d, 26) as int);
        if d.len() >= 30 + le_u16(d, 26) && valid_utf8(name) {
            f1.push("  First file: "@ + decode_utf8(name))
        } else {
            f1
        }
    }
}

/// Name of a tar entry type flag (`'0'` and NUL both mean a regular file).
pub open spec fn tar_type_name(t: u8) -> Seq<char> {
    if t == 0x30u8 || t == 0u8 {
        "Regular file"@
    } else if t == 0x31u8 {
        "Hard link"@
    } else if t == 0x32u8 {
        "Symbolic link"@
    } else if t == 0x33u8 {
        "Character device"@
    } else if t == 0x34u8 {
        "Block device"@
    } else if t == 0x35u8 {
        "Directory"@
    } else if t == 0x36u8 {
        "FIFO"@
    } else if t == 0x37u8 {
        "Contiguous file"@
    } else {
        "Unknown"@
    }
}

/// Facts of a tar header from the text of its fields: the entry name, size
/// and modification time (octal), type flag and link name. Trailing NULs are
/// trimmed; an empty name or link name and a size or time that is not an
/// octal number are left out.
pub open spec fn tar_text_facts(
    name: Seq<char>,
    size: Seq<char>,
    mtime: Seq<char>,
    typeflag: u8,
    link: Seq<char>,
) -> Seq<Seq<char>> {
    let name = trim_trailing_nuls(name);
    let link = trim_trailing_nuls(link);
    let f1 = if name.len() > 0 {
        seq!["  First entry: "@ + name]
    } else {
        seq![]
    };
    let f2 = match parse_unsigned_spec(trim_trailing_nuls(size), 8, u64::MAX as nat) {
        Some(v) => f1.push(number_text("  Size: "@, v, " bytes"@)),
        None => f1,
    };
    let f3 = match parse_unsigned_spec(trim_trailing_nuls(mtime), 8, u64::MAX as nat) {
        Some(v) => f2.push(number_text("  Modification time: "@, v, " Unix timestamp"@)),
        None => f2,
    };
    let f4 = f3.push("  Type: "@ + tar_type_name(typeflag));
    if link.len() > 0 {
        f4.push("  Link name: "@ + link)
    } else {
        f4
    }
}

/// TAR: the fields of the first header block, each decoded leniently as text.
pub open spec fn tar_facts(d: Seq<u8>) -> Seq<Seq<char>> {
    if d.len() < 512 {
        seq![]
    } else {
        tar_text_facts(
            lossy_text(d.subrange(0, 100)),
            lossy_text(d.subrange(124, 136)),
            lossy_text(d.subrange(136, 148)),
            d[156],
            lossy_text(d.subrange(157, 257)),
        )
    }
}

/// `"  Version: "` followed by `version`.
pub open spec fn pdf_version_text(version: Seq<char>) -> Seq<char> {
    "  Version: "@ + version
}

/// PDF: the three bytes of the version after `%PDF-`, decoded leniently.
pub open spec fn pdf_facts(d: Seq<u8>) -> Seq<Seq<char>> {
    if d.len() < 8 {
        seq![]
    } else {
        seq![pdf_version_text(lossy_text(d.subrange(5, 8)))]
    }
}

/// The facts that `extract_format_metadata` reports for `d`.
pub open spec fn metadata_spec(d: Seq<u8>) -> Seq<Seq<char>> {
    match classify_spec(d) {
        FileFormat::Png => png_facts(d),
        FileFormat::Jpeg => jpeg_facts(d),
        FileFormat::Bmp => bmp_facts(d),
        FileFormat::Gif => gif_facts(d),
        FileFormat::Zip => zip_facts(d),
        FileFormat::Gzip => gzip_facts(d),
        FileFormat::Tiff => tiff_facts(d),
        FileFormat::Pdf => pdf_facts(d),
        FileFormat::TarUstar => tar_facts(d),
        FileFormat::TarGnu => tar_facts(d),
        FileFormat::Unrecognized => seq![],
    }
}

/// The length below which a recognised format yields no fact at all.
pub open spec fn metadata_min_len(f: FileFormat) -> nat {
    match f {
        FileFormat::Png => 24,
        FileFormat::Jpeg => 12,
        FileFormat::Bmp => 54,
        FileFormat::Gif => 10,
        FileFormat::Zip => 30,
        FileFormat::Gzip => 10,
        FileFormat::Tiff => 16,
        FileFormat::Pdf => 8,
        FileFormat::TarUstar => 512,
        FileFormat::TarGnu => 512,
        FileFormat::Unrecognized => 0,
    }
}

/// An unrecognised buffer yields no metadata.
pub proof fn lemma_unrecognized_yields_nothing(d: Seq<u8>)
    requires
        classify_spec(d) == FileFormat::Unrecognized,
    ensures
        metadata_spec(d) == Seq::<Seq<char>>::empty(),
{
    assert(metadata_spec(d) =~= Seq::<Seq<char>>::empty());
}

/// A buffer recognised as a format but shorter than that format's metadata
/// minimum yields no metadata.
pub proof fn lemma_short_header_yields_nothing(d: Seq<u8>)
    requires
        d.len() < metadata_min_len(classify_spec(d)),
    ensures
        metadata_spec(d) == Seq::<Seq<char>>::empty(),
{
    if classify_spec(d) == FileFormat::Jpeg {
        assert(jpeg_scan(d, 2) == Seq::<Seq<char>>::empty());
    }
    assert(metadata_spec(d) =~= Seq::<Seq<char>>::empty());
}

/// Appends `line` to `facts`.
fn push_fact(facts: &mut Vec<String>, line: String)
    ensures
        final(facts).deep_view() == old(facts).deep_view().push(line@),
{
    facts.push(line);
    assert(facts.deep_view() =~= old(facts).deep_view().push(line@));
}

/// `label`, then `n` in decimal, then `suffix`.
fn number_line(label: &str, n: u64, suffix: &str) -> (r: String)
    ensures
        r@ == number_text(label@, n as nat, suffix@),
{
    let mut s = String::new();
    s.append(label);
    push_decimal(&mut s, n);
    s.append(suffix);
    s
}

/// `label` followed by `value`.
fn text_line(label: &str, value: &str) -> (r: String)
    ensures
        r@ == label@ + value@,
{
    let mut s = String::new();
    s.append(label);
    s.append(value);
    s
}

fn dimensions_line(w: u64, h: u64) -> (r: String)
    ensures
        r@ == dimensions_text(w as nat, h as nat),
{
    let mut s = String::new();
    s.append("  Dimensions: ");
    push_decimal(&mut s, w);
    s.append(" x ");
    push_decimal(&mut s, h);
    s
}

fn png_color_str(t: u8) -> (r: &'static str)
    ensures
        r@ == png_color_name(t),
{
    match t {
        0 => "Grayscale",
        2 => "RGB",
        3 => "Indexed",
        4 => "Grayscale+Alpha",
        6 => "RGB+Alpha",
        _ => "Unknown",
    }
}

fn png_metadata(data: &[u8]) -> (r: Vec<String>)
    ensures
        r.deep_view() == png_facts(data@),
{
    let mut facts: Vec<String> = Vec::new();
    if data.len() >= 24 {
        let width = read_be_u32(data, 16);
        let height = read_be_u32(data, 20);
        push_fact(&mut facts, dimensions_line(width as u64, height as u64));
        if data.len() >= 25 {
            push_fact(&mut facts, number_line("  Bit depth: ", data[24] as u64, ""));
        }
        if data.len() >= 26 {
            push_fact(&mut facts, text_line("  Color type: ", png_color_str(data[25])));
        }
    }
    assert(facts.deep_view() =~= png_facts(data@));
    facts
}

fn bmp_compression_str(c: u32) -> (r: &'static str)
    ensures
        r@ == bmp_compression_name(c as nat),
{
    match c {
        0 => "BI_RGB",
        1 => "BI_RLE8",
        2 => "BI_RLE4",
        3 => "BI_BITFIELDS",
        4 => "BI_JPEG",
        5 => "BI_PNG",
        _ => "Unknown",
    }
}

fn bmp_metadata(data: &[u8]) -> (r: Vec<String>)
    ensures
        r.deep_view() == bmp_facts(data@),
{
    let mut facts: Vec<String> = Vec::new();
    if data.len() >= 54 {
        let (width, _) = read_le_i32_abs(data, 18);
        let (height, top_down) = read_le_i32_abs(data, 22);
        let bits_per_pixel = read_le_u16(data, 28);
        let compression = read_le_u32(data, 30);
        push_fact(&mut facts, dimensions_line(width as u64, height as u64));
        push_fact(&mut facts, number_line("  Bits per pixel: ", bits_per_pixel as u64, ""));
        push_fact(&mut facts, text_line("  Compression: ", bmp_compression_str(compression)));
        if top_down {
            push_fact(&mut facts, "  Orientation: Top-down".to_owned());
        } else {
            push_fact(&mut facts, "  Orientation: Bottom-up".to_owned());
        }
    }
    assert(facts.deep_view() =~= bmp_facts(data@));
    facts
}

fn gzip_os_str(os: u8) -> (r: &'static str)
    ensures
        r@ == gzip_os_name(os),
{
    match os {
        0 => "FAT filesystem (MS-DOS, OS/2, NT/Win32)",
        1 => "Amiga",
        2 => "VMS (or OpenVMS)",
        3 => "Unix",
        4 => "VM/CMS",
        5 => "Atari TOS",
        6 => "HPFS filesystem (OS/2, NT)",
        7 => "Macintosh",
        8 => "Z-System",
        9 => "CP/M",
        10 => "TOPS-20",
        11 => "NTFS filesystem (NT)",
        12 => "QDOS",
        13 => "Acorn RISCOS",
        255 => "unknown",
        _ => "Other",
    }
}

fn hex_line(label: &str, b: u8) -> (r: String)
    ensures
        r@ == label@ + hex_byte(b),
{
    let mut s = String::new();
    s.append(label);
    push_hex_byte(&mut s, b);
    s
}

fn gzip_metadata(data: &[u8]) -> (r: Vec<String>)
    ensures
        r.deep_view() == gzip_facts(data@),
{
    let mut facts: Vec<String> = Vec::new();
    if data.len() >= 10 {
        let method = if data[2] == 8 {
            "Deflate"
        } else {
            "Unknown"
        };
        let mtime = read_le_u32(data, 4);
        push_fact(&mut facts, text_line("  Compression: ", method));
        if mtime != 0 {
            push_fact(
                &mut facts,
                number_line("  Modification time: ", mtime as u64, " Unix timestamp"),
            );
        }
        push_fact(&mut facts, text_line("  OS: ", gzip_os_str(data[9])));
        push_fact(&mut facts, hex_line("  Flags: 0x", data[3]));
        push_fact(&mut facts, hex_line("  Extra flags: 0x", data[8]));
    }
    assert(facts.deep_view() =~= gzip_facts(data@));
    facts
}

fn tiff_metadata(data: &[u8]) -> (r: Vec<String>)
    ensures
        r.deep_view() == tiff_facts(data@),
{
    let mut facts: Vec<String> = Vec::new();
    if data.len() >= 16 {
        let little = data[0] == 0x49u8 && data[1] == 0x49u8;
        let ifd_offset = if little {
            read_le_u32(data, 4)
        } else {
            read_be_u32(data, 4)
        };
        let order = if little {
            "Little"
        } else {
            "Big"
        };
        push_fact(&mut facts, text_line("  Endianness: ", order));
        push_fact(&mut facts, number_line("  IFD offset: ", ifd_offset as u64, ""));
    }
    assert(facts.deep_view() =~= tiff_facts(data@));
    facts
}

fn gif_metadata(data: &[u8]) -> (r: Vec<String>)
    ensures
        r.deep_view() == gif_facts(data@),
{
    let mut facts: Vec<String> = Vec::new();
    if data.len() >= 10 {
        let is_87a = data[0] == 0x47u8 && data[1] == 0x49u8 && data[2] == 0x46u8 && data[3]
            == 0x38u8 && data[4] == 0x37u8 && data[5] == 0x61u8;
        let version = if is_87a {
            "87a"
        } else {
            "89a"
        };
        let width = read_le_u16(data, 6);
        let height = read_le_u16(data, 8);
        push_fact(&mut facts, text_line("  Version: GIF", version));
        push_fact(&mut facts, dimensions_line(width as u64, height as u64));
        if data.len() >= 11 {
            let packed = data[10];
            let table = packed >= 0x80;
            let shown = if table {
                "true"
            } else {
                "false"
            };
            push_fact(&mut facts, text_line("  Global color table: ", shown));
            if table {
                let size = color_table_size(packed % 8);
                push_fact(&mut facts, number_line("  Color table size: ", size, ""));
            }
            let resolution = ((packed / 16) % 8 + 1) as u64;
            push_fact(&mut facts, number_line("  Color resolution: ", resolution, " bits"));
        }
    }
    assert(facts.deep_view() =~= gif_facts(data@));
    facts
}

/// `2` raised to `bits + 1`.
fn color_table_size(bits: u8) -> (r: u64)
    requires
        bits < 8,
    ensures
        r as nat == pow2(bits as nat + 1),
{
    proof {
        reveal_with_fuel(pow2, 9);
    }
    match bits {
        0 => 2,
        1 => 4,
        2 => 8,
        3 => 16,
        4 => 32,
        5 => 64,
        6 => 128,
        _ => 256,
    }
}

proof fn lemma_jpeg_scan_exhausted(d: Seq<u8>, i: int)
    requires
        i + 9 >= d.len(),
    ensures
        jpeg_scan(d, i) == Seq::<Seq<char>>::empty(),
{
}

fn jpeg_metadata(data: &[u8]) -> (r: Vec<String>)
    ensures
        r.deep_view() == jpeg_facts(data@),
{
    let mut facts: Vec<String> = Vec::new();
    let n = data.len();
    let mut i: usize = 2;
    while n > 9 && i < n - 9
        invariant
            n == data@.len(),
            2 <= i,
            facts.deep_view() == Seq::<Seq<char>>::empty(),
            jpeg_scan(data@, i as int) == jpeg_facts(data@),
        decreases n - i,
    {
        if data[i] == 0xFFu8 && data[i + 1] >= 0xC0u8 && data[i + 1] <= 0xCFu8 {
            let height = read_be_u16(data, i + 5);
            let width = read_be_u16(data, i + 7);
            push_fact(&mut facts, dimensions_line(width as u64, height as u64));
            push_fact(&mut facts, number_line("  Components: ", data[i + 9] as u64, ""));
            assert(facts.deep_view() =~= jpeg_facts(data@));
            return facts;
        }
        if data[i] == 0xFFu8 {
            let skip = read_be_u16(data, i + 2) as usize + 2;
            if skip >= n - i {
                proof {
                    lemma_jpeg_scan_exhausted(data@, i + skip);
                }
                i = n;
            } else {
                i = i + skip;
            }
        } else {
            i = i + 1;
        }
    }
    proof {
        lemma_jpeg_scan_exhausted(data@, i as int);
    }
    facts
}

fn zip_method_str(m: u16) -> (r: &'static str)
    ensures
        r@ == zip_method_name(m as nat),
{
    match m {
        0 => "Stored",
        8 => "Deflated",
        9 => "Enhanced Deflated",
        12 => "BZIP2",
        14 => "LZMA",
        19 => "LZ77",
        98 => "PPMd",
        _ => "Unknown",
    }
}

/// Relies on `String::from_utf8`: it succeeds exactly on well-formed UTF-8,
/// and the string then holds the decoded characters.
#[verifier::external_body]
fn utf8_string(data: &[u8], start: usize, end: usize) -> (r: Option<String>)
    requires
        start <= end <= data@.len(),
    ensures
        r is Some <==> valid_utf8(data@.subrange(start as int, end as int)),
        r matches Some(s) ==> s@ == decode_utf8(data@.subrange(start as int, end as int)),
{
    String::from_utf8(data[start..end].to_vec()).ok()
}

fn zip_metadata(data: &[u8]) -> (r: Vec<String>)
    ensures
        r.deep_view() == zip_facts(data@),
{
    let mut facts: Vec<String> = Vec::new();
    if data.len() >= 30 && data[0] == 0x50u8 && data[1] == 0x4Bu8 && data[2] == 0x03u8 && data[3]
        == 0x04u8 {
        let compressed = read_le_u32(data, 18);
        let uncompressed = read_le_u32(data, 22);
        let method = read_le_u16(data, 8);
        push_fact(&mut facts, text_line("  Compression: ", zip_method_str(method)));
        push_fact(&mut facts, number_line("  Compressed size: ", compressed as u64, " bytes"));
        push_fact(
            &mut facts,
            number_line("  Uncompressed size: ", uncompressed as u64, " bytes"),
        );
        let name_len = read_le_u16(data, 26) as usize;
        if data.len() >= 30 + name_len {
            match utf8_string(data, 30, 30 + name_len) {
                Some(name) => {
                    push_fact(&mut facts, text_line("  First file: ", name.as_str()));
                },
                None => {},
            }
        }
    }
    assert(facts.deep_view() =~= zip_facts(data@));
    facts
}

fn tar_type_str(t: u8) -> (r: &'static str)
    ensures
        r@ == tar_type_name(t),
{
    match t {
        0x30u8 | 0u8 => "Regular file",
        0x31u8 => "Hard link",
        0x32u8 => "Symbolic link",
        0x33u8 => "Character device",
        0x34u8 => "Block device",
        0x35u8 => "Directory",
        0x36u8 => "FIFO",
        0x37u8 => "Contiguous file",
        _ => "Unknown",
    }
}

/// Facts of a tar header from the text of its fields: entry name, size and
/// modification time in octal, type flag and link name.
pub fn tar_header_facts(name: &str, size: &str, mtime: &str, typeflag: u8, link: &str) -> (r:
    Vec<String>)
    ensures
        r.deep_view() == tar_text_facts(name@, size@, mtime@, typeflag, link@),
{
    let mut facts: Vec<String> = Vec::new();
    let entry = trim_nul_end(name);
    let size_digits = trim_nul_end(size);
    let mtime_digits = trim_nul_end(mtime);
    let target = trim_nul_end(link);
    if entry.as_str().unicode_len() > 0 {
        push_fact(&mut facts, text_line("  First entry: ", entry.as_str()));
    }
    match parse_unsigned(size_digits.as_str(), 8, u64::MAX) {
        Some(v) => {
            push_fact(&mut facts, number_line("  Size: ", v, " bytes"));
        },
        None => {},
    }
    match parse_unsigned(mtime_digits.as_str(), 8, u64::MAX) {
        Some(v) => {
            push_fact(&mut facts, number_line("  Modification time: ", v, " Unix timestamp"));
        },
        None => {},
    }
    push_fact(&mut facts, text_line("  Type: ", tar_type_str(typeflag)));
    if target.as_str().unicode_len() > 0 {
        push_fact(&mut facts, text_line("  Link name: ", target.as_str()));
    }
    assert(facts.deep_view() =~= tar_text_facts(name@, size@, mtime@, typeflag, link@));
    facts
}

fn tar_metadata(data: &[u8]) -> (r: Vec<String>)
    ensures
        r.deep_view() == tar_facts(data@),
{
    if data.len() >= 512 {
        let name = lossy_string(data, 0, 100);
        let size = lossy_string(data, 124, 136);
        let mtime = lossy_string(data, 136, 148);
        let link = lossy_string(data, 157, 257);
        tar_header_facts(name.as_str(), size.as_str(), mtime.as_str(), data[156], link.as_str())
    } else {
        Vec::new()
    }
}

/// The PDF version line for the version text `version`.
pub fn pdf_version_fact(version: &str) -> (r: String)
    ensures
        r@ == pdf_version_text(version@),
{
    text_line("  Version: ", version)
}

fn pdf_metadata(data: &[u8]) -> (r: Vec<String>)
    ensures
        r.deep_view() == pdf_facts(data@),
{
    let mut facts: Vec<String> = Vec::new();
    if data.len() >= 8 {
        let version = lossy_string(data, 5, 8);
        push_fact(&mut facts, pdf_version_fact(version.as_str()));
    }
    assert(facts.deep_view() =~= pdf_facts(data@));
    facts
}

/// Extracts format-specific metadata from the first bytes of a file.
///
/// Returns one human-readable line per decoded header field, in the field
/// order of the detected format; nothing for an unrecognised buffer or a
/// header too short to decode.
pub fn extract_format_metadata(data: &[u8]) -> (r: Vec<String>)
    ensures
        r.deep_view() == metadata_spec(data@),
{
    match classify(data) {
        FileFormat::Png => png_metadata(data),
        FileFormat::Jpeg => jpeg_metadata(data),
        FileFormat::Bmp => bmp_metadata(data),
        FileFormat::Gif => gif_metadata(data),
        FileFormat::Zip => zip_metadata(data),
        FileFormat::Gzip => gzip_metadata(data),
        FileFormat::Tiff => tiff_metadata(data),
        FileFormat::Pdf => pdf_metadata(data),
        FileFormat::TarUstar => tar_metadata(data),
        FileFormat::TarGnu => tar_metadata(data),
        FileFormat::Unrecognized => {
            let facts: Vec<String> = Vec::new();
            assert(facts.deep_view() =~= metadata_spec(data@));
            facts
        },
    }
}

} // verus!
