use vstd::prelude::*;

use crate::error::GlError;

verus! {

/// A vertex of a polyline, with exact integer coordinates.
///
/// Coordinates are plain integers so that the segment arithmetic
/// (differences and negations) is exact; the renderer converts each scalar
/// to its own vertex format at upload time.
#[derive(Clone, Copy, PartialEq, Eq, Structural, Debug)]
pub struct Point {
    pub x: i32,
    pub y: i32,
}

/// x component of the perpendicular of the segment `a -> b`.
///
/// The perpendicular is deliberately not normalised: its magnitude equals
/// the segment length, so the rendered line thickness scales with it.
pub open spec fn normal_x(a: Point, b: Point) -> int {
    b.y - a.y
}

/// y component of the perpendicular of the segment `a -> b`.
pub open spec fn normal_y(a: Point, b: Point) -> int {
    a.x - b.x
}

/// The sixteen scalars that the expansion writes for the segment `a -> b`
/// starting at `off`: four records of (position.x, position.y, normal.x,
/// normal.y), in the order A with -n, A with +n, B with -n, B with +n.
pub open spec fn segment_record_at(buf: Seq<i64>, a: Point, b: Point, off: int) -> bool {
    &&& buf[off + 0] == a.x as i64
    &&& buf[off + 1] == a.y as i64
    &&& buf[off + 2] as int == -normal_x(a, b)
    &&& buf[off + 3] as int == -normal_y(a, b)
    &&& buf[off + 4] == a.x as i64
    &&& buf[off + 5] == a.y as i64
    &&& buf[off + 6] as int == normal_x(a, b)
    &&& buf[off + 7] as int == normal_y(a, b)
    &&& buf[off + 8] == b.x as i64
    &&& buf[off + 9] == b.y as i64
    &&& buf[off + 10] as int == -normal_x(a, b)
    &&& buf[off + 11] as int == -normal_y(a, b)
    &&& buf[off + 12] == b.x as i64
    &&& buf[off + 13] == b.y as i64
    &&& buf[off + 14] as int == normal_x(a, b)
    &&& buf[off + 15] as int == normal_y(a, b)
}

/// Segment `i` of `path` stands in `buf` at its place in the layout:
/// sixteen scalars at offset `16 * i`, taken from `path[i]` and
/// `path[i + 1]`.
pub open spec fn segment_emitted(buf: Seq<i64>, path: Seq<Point>, i: int) -> bool {
    segment_record_at(buf, path[i], path[i + 1], 16 * i)
}

/// The whole output of the expansion: exactly sixteen scalars per segment,
/// each segment at its place in the layout.
pub open spec fn quad_buffer_matches(buf: Seq<i64>, path: Seq<Point>, n: int) -> bool {
    &&& buf.len() == 16 * n
    &&& forall|i: int| 0 <= i < n ==> #[trigger] segment_emitted(buf, path, i)
}

/// Expands the first `segment_count` segments of `path` into a flat buffer
/// of quad-strip vertex records, sixteen scalars per segment.
///
/// Segment `i` connects `path[i]` to `path[i + 1]`, so the call needs
/// `segment_count + 1` points; a count past that fails with `OutOfRange`
/// before any point is read, and a negative count with `InvalidArgument`.
pub fn expand_path_to_quads(path: &[Point], segment_count: i64) -> (r: Result<
    Vec<i64>,
    GlError,
>)
    ensures
        r is Ok <==> 0 <= segment_count && segment_count + 1 <= path@.len(),
        segment_count < 0 ==> r == Err::<Vec<i64>, GlError>(GlError::InvalidArgument),
        segment_count >= 0 && segment_count + 1 > path@.len() ==> r == Err::<
            Vec<i64>,
            GlError,
        >(GlError::OutOfRange),
        r matches Ok(buf) ==> quad_buffer_matches(buf@, path@, segment_count as int),
{
    if segment_count < 0 {
        return Err(GlError::InvalidArgument);
    }
    let n: usize = path.len();
    if n == 0 || segment_count as u64 > (n - 1) as u64 {
        return Err(GlError::OutOfRange);
    }
    let sc: usize = segment_count as usize;
    let mut buf: Vec<i64> = Vec::new();
    for i in 0..sc
        invariant
            sc + 1 <= path@.len(),
            sc == segment_count,
            buf@.len() == 16 * i,
            forall|k: int| 0 <= k < i ==> #[trigger] segment_emitted(buf@, path@, k),
    {
        let ghost pre = buf@;
        let a = path[i];
        let b = path[i + 1];
        let nx: i64 = (b.y as i64) - (a.y as i64);
        let ny: i64 = (a.x as i64) - (b.x as i64);
        buf.push(a.x as i64);
        buf.push(a.y as i64);
        buf.push(-nx);
        buf.push(-ny);
        buf.push(a.x as i64);
        buf.push(a.y as i64);
        buf.push(nx);
        buf.push(ny);
        buf.push(b.x as i64);
        buf.push(b.y as i64);
        buf.push(-nx);
        buf.push(-ny);
        buf.push(b.x as i64);
        buf.push(b.y as i64);
        buf.push(nx);
        buf.push(ny);
        proof {
            assert forall|k: int| 0 <= k < i + 1 implies #[trigger] segment_emitted(
                buf@,
                path@,
                k,
            ) by {
                if k < i {
                    assert(segment_emitted(pre, path@, k));
                } else {
                    assert(segment_emitted(buf@, path@, i as int));
                }
            }
        }
    }
    Ok(buf)
}

/// Law: within one emitted segment the offsets are exact negations in
/// consistent pairs. The first record of each endpoint carries the negated
/// perpendicular and the second the perpendicular itself, and both
/// endpoints carry the same pair.
pub proof fn lemma_normal_pairing(buf: Seq<i64>, path: Seq<Point>, n: int, i: int)
    requires
        quad_buffer_matches(buf, path, n),
        0 <= i < n,
    ensures
        buf[16 * i + 2] as int == -(buf[16 * i + 6] as int),
        buf[16 * i + 3] as int == -(buf[16 * i + 7] as int),
        buf[16 * i + 10] as int == -(buf[16 * i + 14] as int),
        buf[16 * i + 11] as int == -(buf[16 * i + 15] as int),
        buf[16 * i + 10] == buf[16 * i + 2],
        buf[16 * i + 11] == buf[16 * i + 3],
        buf[16 * i + 14] == buf[16 * i + 6],
        buf[16 * i + 15] == buf[16 * i + 7],
{
    assert(segment_emitted(buf, path, i));
}

/// Law: the segment round-trips through its emitted form. Two consecutive
/// records — the second record of endpoint A and the first of endpoint B —
/// recover A, B and the perpendicular exactly, since nothing beyond
/// differences and negations was applied.
pub proof fn lemma_round_trip(buf: Seq<i64>, path: Seq<Point>, n: int, i: int)
    requires
        quad_buffer_matches(buf, path, n),
        0 <= i < n,
    ensures
        buf[16 * i + 4] == path[i].x as i64,
        buf[16 * i + 5] == path[i].y as i64,
        buf[16 * i + 8] == path[i + 1].x as i64,
        buf[16 * i + 9] == path[i + 1].y as i64,
        buf[16 * i + 6] as int == path[i + 1].y - path[i].y,
        buf[16 * i + 7] as int == path[i].x - path[i + 1].x,
{
    assert(segment_emitted(buf, path, i));
}

/// Law: a degenerate segment, whose endpoints coincide, is emitted with a
/// zero perpendicular and four identical position pairs; it is not an
/// error.
pub proof fn lemma_degenerate_segment(buf: Seq<i64>, path: Seq<Point>, n: int, i: int)
    requires
        quad_buffer_matches(buf, path, n),
        0 <= i < n,
        path[i] == path[i + 1],
    ensures
        buf[16 * i + 2] == 0 && buf[16 * i + 3] == 0,
        buf[16 * i + 6] == 0 && buf[16 * i + 7] == 0,
        buf[16 * i + 10] == 0 && buf[16 * i + 11] == 0,
        buf[16 * i + 14] == 0 && buf[16 * i + 15] == 0,
        buf[16 * i + 0] == buf[16 * i + 4] && buf[16 * i + 4] == buf[16 * i + 8] && buf[16 * i + 8]
            == buf[16 * i + 12],
        buf[16 * i + 1] == buf[16 * i + 5] && buf[16 * i + 5] == buf[16 * i + 9] && buf[16 * i + 9]
            == buf[16 * i + 13],
{
    assert(segment_emitted(buf, path, i));
}

} // verus!
