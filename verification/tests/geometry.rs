use glhelper::{expand_path_to_quads, GlError, Point};

fn pt(x: i32, y: i32) -> Point {
    Point { x, y }
}

#[test]
fn single_segment_unit_x() {
    // One segment from (0,0) to (1,0): nx = 0, ny = -1, and each endpoint
    // is emitted first with (-nx, -ny) and then with (nx, ny).
    let path = vec![pt(0, 0), pt(1, 0)];
    let buf = expand_path_to_quads(&path, 1).unwrap();
    assert_eq!(buf.len(), 16);
    assert_eq!(buf, vec![0, 0, 0, 1, 0, 0, 0, -1, 1, 0, 0, 1, 1, 0, 0, -1]);
}

#[test]
fn two_segments_layout() {
    let path = vec![pt(0, 0), pt(1, 0), pt(1, 2)];
    let buf = expand_path_to_quads(&path, 2).unwrap();
    assert_eq!(buf.len(), 32);
    let single = expand_path_to_quads(&path[0..2].to_vec(), 1).unwrap();
    assert_eq!(&buf[0..16], &single[..]);
    // Second segment from (1,0) to (1,2): nx = 2, ny = 0.
    assert_eq!(
        &buf[16..32],
        &[1, 0, -2, 0, 1, 0, 2, 0, 1, 2, -2, 0, 1, 2, 2, 0]
    );
}

#[test]
fn zero_segments_empty() {
    let path = vec![pt(3, 4)];
    let buf = expand_path_to_quads(&path, 0).unwrap();
    assert!(buf.is_empty());
}

#[test]
fn degenerate_segment_zero_normal() {
    let path = vec![pt(5, -7), pt(5, -7)];
    let buf = expand_path_to_quads(&path, 1).unwrap();
    assert_eq!(buf, vec![5, -7, 0, 0, 5, -7, 0, 0, 5, -7, 0, 0, 5, -7, 0, 0]);
}

#[test]
fn normals_negate_in_pairs() {
    let path = vec![pt(2, 3), pt(-4, 9), pt(0, 0)];
    let buf = expand_path_to_quads(&path, 2).unwrap();
    for s in 0..2usize {
        let r = &buf[s * 16..s * 16 + 16];
        assert_eq!(r[2], -r[6]);
        assert_eq!(r[3], -r[7]);
        assert_eq!(r[10], -r[14]);
        assert_eq!(r[11], -r[15]);
        assert_eq!(r[2], r[10]);
        assert_eq!(r[3], r[11]);
        assert_eq!(r[6], r[14]);
        assert_eq!(r[7], r[15]);
    }
}

#[test]
fn output_length_scales_with_segments() {
    let path: Vec<Point> = (0..9).map(|i| pt(i, i * i)).collect();
    for sc in 0..9i64 {
        let buf = expand_path_to_quads(&path, sc).unwrap();
        assert_eq!(buf.len(), 16 * sc as usize);
    }
}

#[test]
fn extreme_coordinates_do_not_overflow() {
    let path = vec![pt(i32::MIN, i32::MIN), pt(i32::MAX, i32::MAX)];
    let buf = expand_path_to_quads(&path, 1).unwrap();
    let diff = i32::MAX as i64 - i32::MIN as i64;
    assert_eq!(buf[6], diff);
    assert_eq!(buf[7], -diff);
    assert_eq!(buf[2], -diff);
    assert_eq!(buf[3], diff);
}

#[test]
fn segment_count_past_end_is_out_of_range() {
    let path = vec![pt(0, 0), pt(1, 1)];
    assert_eq!(expand_path_to_quads(&path, 2), Err(GlError::OutOfRange));
    assert_eq!(expand_path_to_quads(&path, i64::MAX), Err(GlError::OutOfRange));
    let empty: Vec<Point> = vec![];
    assert_eq!(expand_path_to_quads(&empty, 0), Err(GlError::OutOfRange));
}

#[test]
fn negative_segment_count_is_invalid_argument() {
    let path = vec![pt(0, 0), pt(1, 1)];
    assert_eq!(
        expand_path_to_quads(&path, -1),
        Err(GlError::InvalidArgument)
    );
    assert_eq!(
        expand_path_to_quads(&path, i64::MIN),
        Err(GlError::InvalidArgument)
    );
}

#[test]
fn round_trip_recovers_segment() {
    let path = vec![pt(10, 20), pt(-3, 44), pt(7, -9)];
    let buf = expand_path_to_quads(&path, 2).unwrap();
    for s in 0..2usize {
        let a = (buf[s * 16 + 4], buf[s * 16 + 5]);
        let n = (buf[s * 16 + 6], buf[s * 16 + 7]);
        let b = (buf[s * 16 + 8], buf[s * 16 + 9]);
        assert_eq!(a, (path[s].x as i64, path[s].y as i64));
        assert_eq!(b, (path[s + 1].x as i64, path[s + 1].y as i64));
        assert_eq!(
            n,
            (
                (path[s + 1].y as i64) - (path[s].y as i64),
                (path[s].x as i64) - (path[s + 1].x as i64)
            )
        );
    }
}
