//! The tool's settings and their validation.
use vstd::prelude::*;

verus! {

/// Settings of one run of the tool.
pub struct Args {
    /// Width of the hex display, in bytes per line.
    pub width: usize,
    /// Number of bytes to read.
    pub bytes: usize,
    /// Input file.
    pub input: String,
    /// Colourise the output.
    pub color: bool,
    /// Print file metadata.
    pub meta: bool,
    /// Decode and align the text column as UTF-8.
    pub utf8: bool,
    /// Display an image minimap.
    pub minimap: bool,
    /// Minimap scale written `ROWSxCOLS`.
    pub minimap_scale: String,
}

impl Args {
    /// Checks that the line width and the byte count are positive.
    pub fn validate(&self) -> (r: Result<(), String>)
        ensures
            r is Ok <==> (self.width > 0 && self.bytes > 0),
            r matches Err(e) ==> e@ == (if self.width == 0 {
                "width must be positive"@
            } else {
                "bytes must be positive"@
            }),
    {
        if self.width == 0 {
            return Err("width must be positive".to_owned());
        }
        if self.bytes == 0 {
            return Err("bytes must be positive".to_owned());
        }
        Ok(())
    }
}

} // verus!
