use vid_frames::{letterbox_crop, measure_frame, measure_side, Crop, RgbFrame, Side};

/// A `w` by `h` frame that is black but for a grey picture in the given rectangle.
fn framed(w: u32, h: u32, x0: u32, y0: u32, x1: u32, y1: u32) -> RgbFrame {
    let mut data = Vec::new();
    for y in 0..h {
        for x in 0..w {
            let v = if x >= x0 && x < x1 && y >= y0 && y < y1 { 128 } else { 0 };
            data.extend_from_slice(&[v, v, v]);
        }
    }
    RgbFrame::from_raw(w, h, data).unwrap()
}

#[test]
fn from_raw_checks_length() {
    assert!(RgbFrame::from_raw(2, 2, vec![0; 12]).is_some());
    assert!(RgbFrame::from_raw(2, 2, vec![0; 11]).is_none());
}

#[test]
fn sides_are_measured_from_the_edge() {
    let f = framed(10, 8, 2, 1, 7, 5);
    assert_eq!(measure_side(&f, Side::Left, 16), 2);
    assert_eq!(measure_side(&f, Side::Right, 16), 3);
    assert_eq!(measure_side(&f, Side::Top, 16), 1);
    assert_eq!(measure_side(&f, Side::Bottom, 16), 3);
}

#[test]
fn white_and_near_black_count_as_letterbox() {
    let mut data = Vec::new();
    for x in 0..4u32 {
        let px: [u8; 3] = match x {
            0 => [255, 250, 240],
            1 => [16, 16, 16],
            2 => [17, 16, 16],
            _ => [0, 0, 0],
        };
        data.extend_from_slice(&px);
    }
    let f = RgbFrame::from_raw(4, 1, data).unwrap();
    assert_eq!(measure_side(&f, Side::Left, 16), 2);
    assert_eq!(measure_side(&f, Side::Right, 16), 1);
}

#[test]
fn all_letterbox_frame_is_not_cropped() {
    let f = framed(4, 4, 0, 0, 0, 0);
    let c = measure_frame(&f, 16);
    assert_eq!((c.left, c.right, c.top, c.bottom), (0, 0, 0, 0));
    assert_eq!(c.as_view_args(), (0, 0, 4, 4));
}

#[test]
fn sequence_keeps_the_smallest_borders() {
    let frames = vec![framed(10, 8, 2, 1, 7, 5), framed(10, 8, 3, 2, 9, 6)];
    let c = letterbox_crop(&frames);
    assert_eq!((c.left, c.right, c.top, c.bottom), (2, 1, 1, 2));
    assert_eq!(c.as_view_args(), (2, 1, 7, 5));
}

#[test]
fn crop_that_leaves_nothing_becomes_no_crop() {
    let c = Crop::new((4, 4), 2, 2, 0, 0);
    assert_eq!((c.left, c.right, c.top, c.bottom), (0, 0, 0, 0));
    let a = Crop::new((10, 10), 3, 1, 2, 2);
    let b = Crop::new((10, 10), 1, 4, 3, 0);
    let u = a.union(&b);
    assert_eq!((u.left, u.right, u.top, u.bottom), (1, 1, 2, 0));
}
