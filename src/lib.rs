//! File format sniffing and header metadata extraction for a hex-dump tool.
//!
//! The library classifies a byte prefix of a file by its magic numbers and
//! decodes a handful of header fields of the recognised format into
//! human-readable lines. Every function is total over its input: short or
//! malformed headers simply yield fewer facts.
pub mod bytes;
pub mod cli;
pub mod color;
pub mod detection;
pub mod hexdump;
pub mod metadata;
pub mod parsing;
pub mod text;

pub use cli::Args;
pub use color::{cube_palette_index, gray_palette_index, is_near_gray};
pub use detection::{classify, detect_file_format, FileFormat};
pub use hexdump::{hex_cells, offset_label, text_column};
pub use metadata::{extract_format_metadata, pdf_version_fact, tar_header_facts};
pub use parsing::parse_scale;
