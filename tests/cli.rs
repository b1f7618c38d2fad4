use hhead::Args;

fn args(width: usize, bytes: usize) -> Args {
    Args {
        width,
        bytes,
        input: "file.bin".to_string(),
        color: false,
        meta: false,
        utf8: false,
        minimap: false,
        minimap_scale: "8x12".to_string(),
    }
}

#[test]
fn validate_accepts_positive_settings() {
    assert_eq!(args(64, 256).validate(), Ok(()));
}

#[test]
fn validate_rejects_zero_width_first() {
    assert_eq!(args(0, 256).validate(), Err("width must be positive".to_string()));
    assert_eq!(args(0, 0).validate(), Err("width must be positive".to_string()));
}

#[test]
fn validate_rejects_zero_bytes() {
    assert_eq!(args(16, 0).validate(), Err("bytes must be positive".to_string()));
}
