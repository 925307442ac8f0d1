use gt911_touch::gt911::{
    decode_le16, decode_touch_point, sat_sub, transform_point, Dimension, Orientation, TouchPoint,
};

fn panel() -> Dimension {
    Dimension {
        height: 480,
        width: 800,
    }
}

#[test]
fn landscape_is_identity() {
    let p = transform_point(Orientation::Landscape, panel(), 300, 100);
    assert_eq!(p, TouchPoint { x: 300, y: 100 });
    let q = transform_point(Orientation::Landscape, panel(), 0, 0);
    assert_eq!(q, TouchPoint { x: 0, y: 0 });
    let r = transform_point(Orientation::Landscape, panel(), 799, 479);
    assert_eq!(r, TouchPoint { x: 799, y: 479 });
}

#[test]
fn portrait_swaps_and_reflects_against_height() {
    // screen_x = raw_y; screen_y = height - raw_x
    let p = transform_point(Orientation::Portrait, panel(), 300, 100);
    assert_eq!(p, TouchPoint { x: 100, y: 180 });
}

#[test]
fn inverted_landscape_reflects_both_axes() {
    let p = transform_point(Orientation::InvertedLandscape, panel(), 300, 100);
    assert_eq!(p, TouchPoint { x: 500, y: 380 });
}

#[test]
fn inverted_portrait_reflects_against_width() {
    // screen_x = width - raw_y; screen_y = raw_x
    let p = transform_point(Orientation::InvertedPortrait, panel(), 300, 100);
    assert_eq!(p, TouchPoint { x: 700, y: 300 });
}

#[test]
fn boundary_subtrahend_beyond_minuend_clamps_to_zero() {
    // Raw x beyond the panel width: the reflected coordinate clamps to 0
    // instead of wrapping around.
    let p = transform_point(Orientation::InvertedLandscape, panel(), 801, 100);
    assert_eq!(p.x, 0);
    assert_eq!(p.y, 380);
    // Raw y beyond the panel height clamps the other axis.
    let q = transform_point(Orientation::InvertedLandscape, panel(), 300, 481);
    assert_eq!(q, TouchPoint { x: 500, y: 0 });
    // The same policy on the portrait orientations.
    let r = transform_point(Orientation::Portrait, panel(), 481, 100);
    assert_eq!(r.y, 0);
    let s = transform_point(Orientation::InvertedPortrait, panel(), 300, 801);
    assert_eq!(s.x, 0);
}

#[test]
fn sat_sub_clamps() {
    assert_eq!(sat_sub(480, 300), 180);
    assert_eq!(sat_sub(300, 480), 0);
    assert_eq!(sat_sub(0, 0), 0);
    assert_eq!(sat_sub(65535, 65535), 0);
}

#[test]
fn le16_low_byte_first() {
    assert_eq!(decode_le16(0x34, 0x12), 0x1234);
    assert_eq!(decode_le16(0xFF, 0xFF), 0xFFFF);
    assert_eq!(decode_le16(10, 0), 10);
}

#[test]
fn decode_touch_point_reads_little_endian_fields() {
    // x = rec[1] | rec[2] << 8, y = rec[3] | rec[4] << 8
    let rec: [u8; 7] = [7, 0x2C, 0x01, 0x64, 0x00, 0x05, 0x00];
    let p = decode_touch_point(Orientation::Landscape, panel(), &rec);
    assert_eq!(p, TouchPoint { x: 300, y: 100 });
}
