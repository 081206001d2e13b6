use murale::render::{
    has_frame, is_scalable, render_nonblocking, to_pixels, RenderParam, UPDATE_FRAME,
};

#[test]
fn frames_are_drawn_without_blocking() {
    assert_eq!(
        render_nonblocking(3840, 2160),
        vec![
            RenderParam::OpenGlFbo { fbo: 0, w: 3840, h: 2160, internal_format: 0 },
            RenderParam::FlipY(1),
            RenderParam::BlockForTargetTime(0),
            RenderParam::Invalid,
        ]
    );
}

#[test]
fn lengths_are_scaled() {
    assert_eq!(to_pixels(1920, 2), 3840);
    assert_eq!(to_pixels(0, 7), 0);
    assert_eq!(to_pixels(0x7fff_ffff, 1), i32::MAX);
    assert_eq!(to_pixels(0x8000_0000, 1), i32::MIN);
    assert_eq!(to_pixels(u32::MAX, 1), -1);
}

#[test]
fn sizes_have_to_fit() {
    assert!(is_scalable(1920, 1080, 3));
    assert!(is_scalable(u32::MAX, 1, 1));
    assert!(!is_scalable(0x8000_0000, 1, 2));
    assert!(!is_scalable(1, 0x8000_0000, 2));
    assert!(is_scalable(u32::MAX, u32::MAX, 0));
}

#[test]
fn the_frame_flag_is_the_lowest_bit() {
    assert_eq!(UPDATE_FRAME, 1);
    assert!(has_frame(1));
    assert!(has_frame(3));
    assert!(!has_frame(0));
    assert!(!has_frame(2));
}
