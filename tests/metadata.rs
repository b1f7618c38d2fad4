use hhead::{extract_format_metadata, pdf_version_fact, tar_header_facts};

fn png_header(len: usize) -> Vec<u8> {
    let mut png_data = vec![0u8; len];
    png_data[0..8].copy_from_slice(b"\x89PNG\r\n\x1a\n");
    png_data[8..12].copy_from_slice(&13u32.to_be_bytes());
    png_data[12..16].copy_from_slice(b"IHDR");
    png_data[16..20].copy_from_slice(&800u32.to_be_bytes());
    png_data[20..24].copy_from_slice(&600u32.to_be_bytes());
    if len > 25 {
        png_data[24] = 8;
        png_data[25] = 2;
    }
    png_data
}

fn bmp_header(height: i32) -> Vec<u8> {
    let mut bmp_data = vec![0u8; 54];
    bmp_data[0..2].copy_from_slice(b"BM");
    bmp_data[14..18].copy_from_slice(&40u32.to_le_bytes());
    bmp_data[18..22].copy_from_slice(&800i32.to_le_bytes());
    bmp_data[22..26].copy_from_slice(&height.to_le_bytes());
    bmp_data[28..30].copy_from_slice(&24u16.to_le_bytes());
    bmp_data[30..34].copy_from_slice(&0u32.to_le_bytes());
    bmp_data
}

fn tar_block(magic: &[u8; 6]) -> Vec<u8> {
    let mut block = vec![0u8; 512];
    block[257..263].copy_from_slice(magic);
    block
}

#[test]
fn test_extract_png_metadata() {
    let png_data = png_header(30);
    let metadata = extract_format_metadata(&png_data);
    assert!(!metadata.is_empty());
    assert!(metadata.iter().any(|s| s.contains("Dimensions: 800 x 600")));
    assert!(metadata.iter().any(|s| s.contains("Bit depth: 8")));
    assert!(metadata.iter().any(|s| s.contains("Color type: RGB")));
}

#[test]
fn test_extract_bmp_metadata() {
    let bmp_data = bmp_header(600);
    let metadata = extract_format_metadata(&bmp_data);
    assert!(!metadata.is_empty());
    assert!(metadata.iter().any(|s| s.contains("Dimensions: 800 x 600")));
    assert!(metadata.iter().any(|s| s.contains("Bits per pixel: 24")));
    assert!(metadata.iter().any(|s| s.contains("Compression: BI_RGB")));
    assert!(metadata.iter().any(|s| s.contains("Orientation: Bottom-up")));
}

#[test]
fn test_extract_gif_metadata() {
    let mut gif_data = vec![0u8; 20];
    gif_data[0..6].copy_from_slice(b"GIF89a");
    gif_data[6..8].copy_from_slice(&320u16.to_le_bytes());
    gif_data[8..10].copy_from_slice(&240u16.to_le_bytes());
    gif_data[10] = 0xF0;

    let metadata = extract_format_metadata(&gif_data);
    assert!(!metadata.is_empty());
    assert!(metadata.iter().any(|s| s.contains("Version: GIF89a")));
    assert!(metadata.iter().any(|s| s.contains("Dimensions: 320 x 240")));
    assert!(metadata.iter().any(|s| s.contains("Global color table: true")));
    assert!(metadata.iter().any(|s| s.contains("Color resolution: 8 bits")));
}

#[test]
fn test_extract_unknown_format() {
    let unknown_data = b"UNKNOWN";
    let metadata = extract_format_metadata(unknown_data);
    assert!(metadata.is_empty());
}

#[test]
fn png_facts_in_field_order() {
    assert_eq!(
        extract_format_metadata(&png_header(30)),
        vec!["  Dimensions: 800 x 600", "  Bit depth: 8", "  Color type: RGB"]
    );
}

#[test]
fn png_header_cut_short() {
    let full = png_header(30);
    assert_eq!(extract_format_metadata(&full[..24]), vec!["  Dimensions: 800 x 600"]);
    assert_eq!(
        extract_format_metadata(&full[..25]),
        vec!["  Dimensions: 800 x 600", "  Bit depth: 8"]
    );
    assert!(extract_format_metadata(&full[..23]).is_empty());
    assert_eq!(detect_label(&full[..23]), "PNG");
}

fn detect_label(data: &[u8]) -> &'static str {
    hhead::detect_file_format(data)
}

#[test]
fn png_color_types() {
    let mut data = png_header(30);
    data[25] = 6;
    assert_eq!(extract_format_metadata(&data)[2], "  Color type: RGB+Alpha");
    data[25] = 5;
    assert_eq!(extract_format_metadata(&data)[2], "  Color type: Unknown");
}

#[test]
fn bmp_orientation_follows_height_sign() {
    assert_eq!(
        extract_format_metadata(&bmp_header(600)),
        vec![
            "  Dimensions: 800 x 600",
            "  Bits per pixel: 24",
            "  Compression: BI_RGB",
            "  Orientation: Bottom-up"
        ]
    );
    assert_eq!(
        extract_format_metadata(&bmp_header(-600)),
        vec![
            "  Dimensions: 800 x 600",
            "  Bits per pixel: 24",
            "  Compression: BI_RGB",
            "  Orientation: Top-down"
        ]
    );
}

#[test]
fn bmp_extreme_height_and_compression() {
    let mut data = bmp_header(i32::MIN);
    data[30] = 3;
    let facts = extract_format_metadata(&data);
    assert_eq!(facts[0], "  Dimensions: 800 x 2147483648");
    assert_eq!(facts[2], "  Compression: BI_BITFIELDS");
    assert_eq!(facts[3], "  Orientation: Top-down");
    data[30] = 9;
    assert_eq!(extract_format_metadata(&data)[2], "  Compression: Unknown");
}

#[test]
fn bmp_header_cut_short() {
    let data = bmp_header(600);
    assert!(extract_format_metadata(&data[..53]).is_empty());
}

#[test]
fn gif_scenario_in_field_order() {
    let mut gif_data = vec![0u8; 11];
    gif_data[0..6].copy_from_slice(b"GIF89a");
    gif_data[6..8].copy_from_slice(&320u16.to_le_bytes());
    gif_data[8..10].copy_from_slice(&240u16.to_le_bytes());
    gif_data[10] = 0xF0;
    assert_eq!(
        extract_format_metadata(&gif_data),
        vec![
            "  Version: GIF89a",
            "  Dimensions: 320 x 240",
            "  Global color table: true",
            "  Color table size: 2",
            "  Color resolution: 8 bits"
        ]
    );
}

#[test]
fn gif87a_without_color_table() {
    let mut data = vec![0u8; 13];
    data[0..6].copy_from_slice(b"GIF87a");
    data[6..8].copy_from_slice(&16u16.to_le_bytes());
    data[8..10].copy_from_slice(&9u16.to_le_bytes());
    data[10] = 0x11;
    assert_eq!(
        extract_format_metadata(&data),
        vec![
            "  Version: GIF87a",
            "  Dimensions: 16 x 9",
            "  Global color table: false",
            "  Color resolution: 2 bits"
        ]
    );
    data[10] = 0x97;
    assert_eq!(extract_format_metadata(&data)[3], "  Color table size: 256");
}

#[test]
fn gif_without_packed_byte() {
    let mut data = vec![0u8; 10];
    data[0..6].copy_from_slice(b"GIF89a");
    data[6] = 1;
    data[8] = 2;
    assert_eq!(
        extract_format_metadata(&data),
        vec!["  Version: GIF89a", "  Dimensions: 1 x 2"]
    );
    assert!(extract_format_metadata(&data[..9]).is_empty());
}

fn jpeg_with_frame() -> Vec<u8> {
    let mut data = vec![0u8; 40];
    data[0..4].copy_from_slice(b"\xff\xd8\xff\xe0");
    data[4..6].copy_from_slice(&16u16.to_be_bytes());
    data[20] = 0xFF;
    data[21] = 0xC0;
    data[25..27].copy_from_slice(&480u16.to_be_bytes());
    data[27..29].copy_from_slice(&640u16.to_be_bytes());
    data[29] = 3;
    data
}

#[test]
fn jpeg_frame_after_segment() {
    assert_eq!(
        extract_format_metadata(&jpeg_with_frame()),
        vec!["  Dimensions: 640 x 480", "  Components: 3"]
    );
}

#[test]
fn jpeg_scan_boundaries() {
    let data = jpeg_with_frame();
    // The frame marker at 20 is read only while 20 + 9 < length.
    assert_eq!(extract_format_metadata(&data[..30]).len(), 2);
    assert!(extract_format_metadata(&data[..29]).is_empty());
    // Too short for any marker to be examined.
    assert!(extract_format_metadata(&data[..11]).is_empty());
}

#[test]
fn jpeg_segment_past_end() {
    let mut data = jpeg_with_frame();
    data[4..6].copy_from_slice(&0xFFFFu16.to_be_bytes());
    assert!(extract_format_metadata(&data).is_empty());
}

#[test]
fn jpeg_stray_bytes_are_stepped_over() {
    // A two-byte segment at 2, then a stray byte at 6, then a frame at 7.
    let mut full = vec![0xFFu8, 0xD8, 0xFF, 0x01, 0x00, 0x02, 0x00];
    full.extend_from_slice(&[0xFF, 0xC2, 0x00, 0x11, 0x08, 0x00, 0x02, 0x00, 0x03, 0x01]);
    full.extend_from_slice(&[0u8; 4]);
    assert_eq!(
        extract_format_metadata(&full),
        vec!["  Dimensions: 3 x 2", "  Components: 1"]
    );
}

fn zip_header(name: &[u8], name_len: u16) -> Vec<u8> {
    let mut data = vec![0u8; 30];
    data[0..4].copy_from_slice(b"PK\x03\x04");
    data[8..10].copy_from_slice(&8u16.to_le_bytes());
    data[18..22].copy_from_slice(&100u32.to_le_bytes());
    data[22..26].copy_from_slice(&200u32.to_le_bytes());
    data[26..28].copy_from_slice(&name_len.to_le_bytes());
    data.extend_from_slice(name);
    data
}

#[test]
fn zip_local_header_with_name() {
    assert_eq!(
        extract_format_metadata(&zip_header(b"a.txt", 5)),
        vec![
            "  Compression: Deflated",
            "  Compressed size: 100 bytes",
            "  Uncompressed size: 200 bytes",
            "  First file: a.txt"
        ]
    );
}

#[test]
fn zip_name_missing_or_malformed() {
    assert_eq!(extract_format_metadata(&zip_header(b"a.t", 5)).len(), 3);
    assert_eq!(extract_format_metadata(&zip_header(b"\xff\xfe", 2)).len(), 3);
    let facts = extract_format_metadata(&zip_header(b"", 0));
    assert_eq!(facts[3], "  First file: ");
}

#[test]
fn zip_other_records_and_methods() {
    let mut data = zip_header(b"", 0);
    data[2] = 5;
    data[3] = 6;
    assert!(extract_format_metadata(&data).is_empty());
    let mut data = zip_header(b"", 0);
    data[8] = 98;
    assert_eq!(extract_format_metadata(&data)[0], "  Compression: PPMd");
    data[8] = 7;
    assert_eq!(extract_format_metadata(&data)[0], "  Compression: Unknown");
    assert!(extract_format_metadata(&data[..29]).is_empty());
}

#[test]
fn gzip_header_fields() {
    let mut data = vec![0x1Fu8, 0x8B, 8, 0x1f];
    data.extend_from_slice(&1700000000u32.to_le_bytes());
    data.extend_from_slice(&[2, 3]);
    assert_eq!(
        extract_format_metadata(&data),
        vec![
            "  Compression: Deflate",
            "  Modification time: 1700000000 Unix timestamp",
            "  OS: Unix",
            "  Flags: 0x1f",
            "  Extra flags: 0x02"
        ]
    );
}

#[test]
fn gzip_zero_mtime_and_other_os() {
    let data = vec![0x1Fu8, 0x8B, 7, 0, 0, 0, 0, 0, 0xAB, 200];
    assert_eq!(
        extract_format_metadata(&data),
        vec![
            "  Compression: Unknown",
            "  OS: Other",
            "  Flags: 0x00",
            "  Extra flags: 0xab"
        ]
    );
    let data = vec![0x1Fu8, 0x8B, 8, 0, 0, 0, 0, 0, 0, 255];
    assert_eq!(extract_format_metadata(&data)[1], "  OS: unknown");
    assert!(extract_format_metadata(&data[..9]).is_empty());
}

#[test]
fn tiff_byte_orders() {
    let mut little = vec![0u8; 16];
    little[0..8].copy_from_slice(b"II\x2a\x00\x08\x00\x00\x00");
    assert_eq!(
        extract_format_metadata(&little),
        vec!["  Endianness: Little", "  IFD offset: 8"]
    );
    let mut big = vec![0u8; 16];
    big[0..8].copy_from_slice(b"MM\x00\x2a\x00\x00\x01\x00");
    assert_eq!(
        extract_format_metadata(&big),
        vec!["  Endianness: Big", "  IFD offset: 256"]
    );
    assert!(extract_format_metadata(&big[..15]).is_empty());
}

#[test]
fn pdf_version() {
    assert_eq!(extract_format_metadata(b"%PDF-1.4\n"), vec!["  Version: 1.4"]);
    assert!(extract_format_metadata(b"%PDF-1.").is_empty());
    assert_eq!(pdf_version_fact("2.0"), "  Version: 2.0");
}

#[test]
fn pdf_version_bytes_decoded_leniently() {
    assert_eq!(
        extract_format_metadata(b"%PDF-1\xff4"),
        vec!["  Version: 1\u{FFFD}4"]
    );
}

#[test]
fn tar_all_zero_header() {
    let block = tar_block(b"ustar\0");
    assert_eq!(detect_label(&block), "TAR (USTAR)");
    assert_eq!(extract_format_metadata(&block), vec!["  Type: Regular file"]);
}

#[test]
fn tar_regular_file_entry() {
    let mut block = tar_block(b"ustar ");
    block[0..9].copy_from_slice(b"hello.txt");
    block[124..135].copy_from_slice(b"00000000012");
    block[136..147].copy_from_slice(b"00000000777");
    block[156] = b'0';
    assert_eq!(detect_label(&block), "TAR (GNU)");
    assert_eq!(
        extract_format_metadata(&block),
        vec![
            "  First entry: hello.txt",
            "  Size: 10 bytes",
            "  Modification time: 511 Unix timestamp",
            "  Type: Regular file"
        ]
    );
}

#[test]
fn tar_symlink_with_unparsable_size() {
    let mut block = tar_block(b"ustar\0");
    block[0..4].copy_from_slice(b"link");
    block[124..133].copy_from_slice(b"0000012 \0");
    block[156] = b'2';
    block[157..163].copy_from_slice(b"target");
    assert_eq!(
        extract_format_metadata(&block),
        vec!["  First entry: link", "  Type: Symbolic link", "  Link name: target"]
    );
    assert!(extract_format_metadata(&block[..511]).is_empty());
}

#[test]
fn tar_name_decoded_leniently() {
    let mut block = tar_block(b"ustar\0");
    block[0..3].copy_from_slice(b"a\xffb");
    block[156] = b'Z';
    assert_eq!(
        extract_format_metadata(&block),
        vec!["  First entry: a\u{FFFD}b", "  Type: Unknown"]
    );
}

#[test]
fn tar_fields_from_text() {
    assert_eq!(
        tar_header_facts("dir\0\0", "+17\0", "8\0", b'5', "\0"),
        vec!["  First entry: dir", "  Size: 15 bytes", "  Type: Directory"]
    );
    assert_eq!(
        tar_header_facts("", "", "1777777777777777777777", 0, "x"),
        vec![
            "  Modification time: 18446744073709551615 Unix timestamp",
            "  Type: Regular file",
            "  Link name: x"
        ]
    );
    assert_eq!(
        tar_header_facts("", "2000000000000000000000", "+", b'7', ""),
        vec!["  Type: Contiguous file"]
    );
}
