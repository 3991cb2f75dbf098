//! The tray icon: a solid green dot while Loudness Equalization is on, a gray
//! ring while it is off. Its edges are smooth: over a width of two, the opacity
//! falls off linearly with the distance from the centre, in 255 steps.
//!
//! Distances are kept squared and in half pixels, so that all of it is integer
//! arithmetic: for a pixel at distance `d` from the centre the square is
//! `4 * d * d`.
use vstd::prelude::*;

verus! {

/// Width and height of the icon.
pub const ICON_SIZE: usize = 32;

/// The square of twice the distance of a pixel's centre from that of the icon.
pub open spec fn distance(x: int, y: int) -> int {
    (2 * x - 31) * (2 * x - 31) + (2 * y - 31) * (2 * y - 31)
}

/// At the outer edge, between the radii 13 and 15, the opacity is at least `a`:
/// that is `a <= 255 * (15 - d) / 2`, without the root.
pub open spec fn fades(q: int, a: int) -> bool {
    65025 * q <= (7650 - 4 * a) * (7650 - 4 * a)
}

/// At the inner edge, between the radii 7 and 9, the opacity is at least `a`:
/// that is `a <= 255 * (d - 7) / 2`, without the root.
pub open spec fn grows(q: int, a: int) -> bool {
    (4 * a + 3570) * (4 * a + 3570) <= 65025 * q
}

/// The opacity of a pixel is `a`. On the edges it is rounded down.
pub open spec fn has_opacity(on: bool, q: int, a: int) -> bool {
    &&& 0 <= a <= 255
    &&& if q >= 900 {
        a == 0
    } else if q > 676 {
        fades(q, a) && !fades(q, a + 1)
    } else if on || q >= 324 {
        a == 255
    } else if q > 196 {
        grows(q, a) && !grows(q, a + 1)
    } else {
        a == 0
    }
}

/// Whether the opacity at the outer edge is at least `a`.
fn at_least_outside(q: i32, a: i32) -> (r: bool)
    requires
        0 <= q <= 900,
        0 <= a <= 256,
    ensures
        r == fades(q as int, a as int),
{
    let m: i32 = 7650 - 4 * a;
    assert(0 <= m * m <= 7650 * 7650) by (nonlinear_arith)
        requires
            0 <= m <= 7650,
    ;
    65025 * q <= m * m
}

/// Whether the opacity at the inner edge is at least `a`.
fn at_least_inside(q: i32, a: i32) -> (r: bool)
    requires
        0 <= q <= 900,
        0 <= a <= 256,
    ensures
        r == grows(q as int, a as int),
{
    let m: i32 = 4 * a + 3570;
    assert(0 <= m * m <= 4594 * 4594) by (nonlinear_arith)
        requires
            0 <= m <= 4594,
    ;
    m * m <= 65025 * q
}

/// The opacity at the outer edge.
fn fade(q: i32) -> (r: i32)
    requires
        676 < q < 900,
    ensures
        0 <= r <= 255,
        fades(q as int, r as int),
        !fades(q as int, r + 1),
{
    let mut a: i32 = 0;
    assert((7650 - 4 * 0) * (7650 - 4 * 0) == 58522500) by (nonlinear_arith);
    assert((7650 - 4 * 256) * (7650 - 4 * 256) == 43903876) by (nonlinear_arith);
    while a < 255 && at_least_outside(q, a + 1)
        invariant
            0 <= a <= 255,
            676 < q < 900,
            fades(q as int, a as int),
            !fades(q as int, 256),
        decreases 255 - a,
    {
        a = a + 1;
    }
    a
}

/// The opacity at the inner edge.
fn growth(q: i32) -> (r: i32)
    requires
        196 < q < 324,
    ensures
        0 <= r <= 255,
        grows(q as int, r as int),
        !grows(q as int, r + 1),
{
    let mut a: i32 = 0;
    assert((4 * 0 + 3570) * (4 * 0 + 3570) == 12744900) by (nonlinear_arith);
    assert((4 * 256 + 3570) * (4 * 256 + 3570) == 21104836) by (nonlinear_arith);
    while a < 255 && at_least_inside(q, a + 1)
        invariant
            0 <= a <= 255,
            196 < q < 324,
            grows(q as int, a as int),
            !grows(q as int, 256),
        decreases 255 - a,
    {
        a = a + 1;
    }
    a
}

/// The opacity of a pixel.
pub fn opacity(on: bool, x: usize, y: usize) -> (r: u32)
    requires
        x < ICON_SIZE,
        y < ICON_SIZE,
    ensures
        has_opacity(on, distance(x as int, y as int), r as int),
{
    let u: i32 = 2 * (x as i32) - 31;
    let v: i32 = 2 * (y as i32) - 31;
    assert(0 <= u * u <= 961 && 0 <= v * v <= 961) by (nonlinear_arith)
        requires
            -31 <= u <= 31,
            -31 <= v <= 31,
    ;
    let q: i32 = u * u + v * v;
    if q >= 900 {
        0
    } else if q > 676 {
        fade(q) as u32
    } else if on || q >= 324 {
        255
    } else if q > 196 {
        growth(q) as u32
    } else {
        0
    }
}

/// The colour of the icon: blue, green and red.
pub open spec fn colour(on: bool) -> (int, int, int) {
    if on {
        (0x3b, 0xc9, 0x21)
    } else {
        (0x8a, 0x8a, 0x8a)
    }
}

/// The four bytes of a pixel of the given opacity: blue, green and red, each
/// scaled by the opacity, and the opacity.
pub open spec fn pixel(on: bool, a: int) -> Seq<u8> {
    let (b, g, r) = colour(on);
    seq![(b * a / 255) as u8, (g * a / 255) as u8, (r * a / 255) as u8, a as u8]
}

/// The bytes are those of the icon, row by row from the top.
pub open spec fn is_icon(on: bool, bytes: Seq<u8>) -> bool {
    &&& bytes.len() == 4096
    &&& forall|x: int, y: int|
        0 <= x < 32 && 0 <= y < 32 ==> #[trigger] is_pixel(on, bytes, x, y)
}

/// The bytes hold a pixel of the icon.
pub open spec fn is_pixel(on: bool, bytes: Seq<u8>, x: int, y: int) -> bool {
    let i = (y * 32 + x) * 4;
    let a = bytes[i + 3] as int;
    &&& has_opacity(on, distance(x, y), a)
    &&& bytes.subrange(i, i + 4) == pixel(on, a)
}

/// The pixels of the icon.
pub fn icon_pixels(on: bool) -> (r: Vec<u8>)
    ensures
        is_icon(on, r@),
{
    let blue: u32 = if on { 0x3b } else { 0x8a };
    let green: u32 = if on { 0xc9 } else { 0x8a };
    let red: u32 = if on { 0x21 } else { 0x8a };
    let mut out: Vec<u8> = Vec::new();
    let mut y: usize = 0;
    while y < ICON_SIZE
        invariant
            y <= 32,
            (blue as int, green as int, red as int) == colour(on),
            out@.len() == y * 128,
            forall|i: int, j: int|
                0 <= i < 32 && 0 <= j < y ==> #[trigger] is_pixel(on, out@, i, j),
        decreases ICON_SIZE - y,
    {
        let mut x: usize = 0;
        while x < ICON_SIZE
            invariant
                x <= 32,
                y < 32,
                (blue as int, green as int, red as int) == colour(on),
                out@.len() == y * 128 + x * 4,
                forall|i: int, j: int|
                    0 <= i < 32 && 0 <= j < y ==> #[trigger] is_pixel(on, out@, i, j),
                forall|i: int| 0 <= i < x ==> #[trigger] is_pixel(on, out@, i, y as int),
            decreases ICON_SIZE - x,
        {
            let ghost before = out@;
            let a: u32 = opacity(on, x, y);
            assert(0 <= blue * a <= 255 * 255 && 0 <= green * a <= 255 * 255 && 0 <= red * a <= 255
                * 255) by (nonlinear_arith)
                requires
                    0 <= blue <= 255,
                    0 <= green <= 255,
                    0 <= red <= 255,
                    0 <= a <= 255,
            ;
            out.push((blue * a / 255) as u8);
            out.push((green * a / 255) as u8);
            out.push((red * a / 255) as u8);
            out.push(a as u8);
            proof {
                let at = (y * 32 + x) * 4;
                assert(out@.take(before.len() as int) =~= before);
                assert(out@.subrange(at, at + 4) =~= pixel(on, a as int));
                assert forall|i: int, j: int|
                    0 <= i < 32 && 0 <= j < y || 0 <= i < x && j == y implies #[trigger] is_pixel(
                    on,
                    out@,
                    i,
                    j,
                ) by {
                    assert(is_pixel(on, before, i, j));
                    let k = (j * 32 + i) * 4;
                    assert(out@.subrange(k, k + 4) =~= before.subrange(k, k + 4));
                }
            }
            x += 1;
        }
        y += 1;
    }
    out
}

/// A lower opacity is reached wherever a higher one is.
proof fn lemma_edges(q: int, a: int, b: int)
    requires
        0 <= a <= b <= 256,
    ensures
        fades(q, b) ==> fades(q, a),
        grows(q, b) ==> grows(q, a),
{
    assert((7650 - 4 * b) * (7650 - 4 * b) <= (7650 - 4 * a) * (7650 - 4 * a)) by (nonlinear_arith)
        requires
            0 <= a <= b <= 256,
    ;
    assert((4 * a + 3570) * (4 * a + 3570) <= (4 * b + 3570) * (4 * b + 3570)) by (nonlinear_arith)
        requires
            0 <= a <= b <= 256,
    ;
}

/// A pixel has one opacity.
pub proof fn opacity_is_determined(on: bool, q: int, a: int, b: int)
    requires
        has_opacity(on, q, a),
        has_opacity(on, q, b),
    ensures
        a == b,
{
    if a < b {
        lemma_edges(q, a + 1, b);
    }
    if b < a {
        lemma_edges(q, b + 1, a);
    }
}

/// There is one icon for each state.
pub proof fn icon_is_determined(on: bool, one: Seq<u8>, other: Seq<u8>)
    requires
        is_icon(on, one),
        is_icon(on, other),
    ensures
        one == other,
{
    assert forall|i: int| 0 <= i < 4096 implies one[i] == other[i] by {
        let y = i / 128;
        let x = (i % 128) / 4;
        let at = (y * 32 + x) * 4;
        assert(is_pixel(on, one, x, y) && is_pixel(on, other, x, y));
        opacity_is_determined(on, distance(x, y), one[at + 3] as int, other[at + 3] as int);
        assert(one[i] == one.subrange(at, at + 4)[i - at]);
        assert(other[i] == other.subrange(at, at + 4)[i - at]);
    }
    assert(one =~= other);
}

/// The two icons differ in shape and not only in colour: the middle of the dot
/// is solid where that of the ring is hollow. Outside the hole they have the
/// same shape.
pub proof fn icons_differ_in_shape(q: int, dot: int, ring: int)
    requires
        has_opacity(true, q, dot),
        has_opacity(false, q, ring),
    ensures
        q <= 196 ==> dot == 255 && ring == 0,
        q >= 324 ==> dot == ring,
        ring <= dot,
{
    if 676 < q < 900 {
        opacity_is_determined(true, q, dot, ring);
    }
}

/// No colour of a pixel is stronger than its opacity.
pub proof fn colours_are_scaled(on: bool, bytes: Seq<u8>, x: int, y: int)
    requires
        is_icon(on, bytes),
        0 <= x < 32,
        0 <= y < 32,
    ensures
        ({
            let i = (y * 32 + x) * 4;
            &&& bytes[i] <= bytes[i + 3]
            &&& bytes[i + 1] <= bytes[i + 3]
            &&& bytes[i + 2] <= bytes[i + 3]
        }),
{
    let i = (y * 32 + x) * 4;
    let a = bytes[i + 3] as int;
    assert(is_pixel(on, bytes, x, y));
    let (b, g, r) = colour(on);
    assert(0 <= b * a / 255 <= a && 0 <= g * a / 255 <= a && 0 <= r * a / 255 <= a)
        by (nonlinear_arith)
        requires
            0 <= a <= 255,
            0 <= b <= 255,
            0 <= g <= 255,
            0 <= r <= 255,
    ;
    let p = bytes.subrange(i, i + 4);
    assert(p[0] == bytes[i] && p[1] == bytes[i + 1] && p[2] == bytes[i + 2]);
}

} // verus!
