//! The equatorial and the ecliptic frame of a body, and the rotation about
//! the first axis that leads from one to the other.
//!
//! Positions are counted in whole millionths of a display unit. An angle is
//! given by its cosine and sine in billionths. A rotated coordinate is rounded
//! to the nearest whole number, halves away from zero.

use vstd::prelude::*;

use crate::celestial_body::CelestialBodyId;
use crate::celestial_data::{
    axial_tilt_cosine, axial_tilt_sine, get_axial_tilt_cosine, get_axial_tilt_sine,
    lemma_axial_tilt_is_an_angle,
};
use crate::position::Position;

verus! {

/// The denominator of cosines and sines.
pub const BILLION: i128 = 1_000_000_000;

/// The greatest size of a second or third coordinate that can be rotated.
pub const COORDINATE_LIMIT: i128 = 1_000_000_000_000_000_000_000_000_000;

/// The absolute value of an integer.
pub open spec fn magnitude(n: int) -> int {
    if n >= 0 {
        n
    } else {
        -n
    }
}

/// The whole number nearest to `n` billionths, halves away from zero.
pub open spec fn round_billionths(n: int) -> int {
    if n >= 0 {
        (n + 500_000_000) / 1_000_000_000
    } else {
        -((-n + 500_000_000) / 1_000_000_000)
    }
}

/// Whether the second and third coordinate of `pos` are small enough to be
/// rotated.
pub open spec fn within_reach(pos: Position) -> bool {
    &&& -COORDINATE_LIMIT <= pos.y <= COORDINATE_LIMIT
    &&& -COORDINATE_LIMIT <= pos.z <= COORDINATE_LIMIT
}

/// Whether `cosine` and `sine`, in billionths, are those of an angle, to
/// within a billionth or two: their squares add up to a billion squared, or
/// miss it by no more than two billion.
pub open spec fn near_unit(cosine: int, sine: int) -> bool {
    &&& -BILLION <= cosine <= BILLION
    &&& -BILLION <= sine <= BILLION
    &&& -2 * BILLION <= cosine * cosine + sine * sine - BILLION * BILLION <= 2 * BILLION
}

/// The position `pos` turned about the first axis by the angle with the
/// given cosine and sine:
///
/// ```text
/// x' = x
/// y' = y cos - z sin
/// z' = y sin + z cos
/// ```
pub open spec fn rotated(pos: Position, cosine: int, sine: int) -> Position {
    Position {
        x: pos.x,
        y: round_billionths(pos.y * cosine - pos.z * sine) as i128,
        z: round_billionths(pos.y * sine + pos.z * cosine) as i128,
    }
}

/// Rounding to whole billions moves a number by at most half a billion.
pub proof fn lemma_round_billionths(n: int)
    ensures
        -500_000_000 <= n - round_billionths(n) * 1_000_000_000 <= 500_000_000,
{
}

/// A rotated coordinate is no larger than the two coordinates it is made of,
/// taken together, and one for the rounding.
pub proof fn lemma_rotated_size(a: int, b: int, c: int, s: int)
    requires
        -BILLION <= c <= BILLION,
        -BILLION <= s <= BILLION,
    ensures
        magnitude(round_billionths(a * c + b * s)) <= magnitude(a) + magnitude(b) + 1,
        magnitude(a * c + b * s) <= (magnitude(a) + magnitude(b)) * BILLION,
{
    let d = BILLION as int;
    assert(magnitude(a * c) <= magnitude(a) * d) by (nonlinear_arith)
        requires
            -d <= c <= d,
            d > 0,
    ;
    assert(magnitude(b * s) <= magnitude(b) * d) by (nonlinear_arith)
        requires
            -d <= s <= d,
            d > 0,
    ;
    assert((magnitude(a) + magnitude(b)) * d == magnitude(a) * d + magnitude(b) * d)
        by (nonlinear_arith);
    let n = a * c + b * s;
    let q = round_billionths(n);
    lemma_round_billionths(n);
    assert(magnitude(q) <= magnitude(a) + magnitude(b) + 1) by (nonlinear_arith)
        requires
            -500_000_000 <= n - q * 1_000_000_000 <= 500_000_000,
            magnitude(n) <= (magnitude(a) + magnitude(b)) * 1_000_000_000,
    ;
}

/// The whole number nearest to `n` billionths.
fn round_to_billionths(n: i128) -> (q: i128)
    requires
        -2 * COORDINATE_LIMIT * BILLION <= n <= 2 * COORDINATE_LIMIT * BILLION,
    ensures
        q == round_billionths(n as int),
{
    if n >= 0 {
        (n + 500_000_000) / BILLION
    } else {
        -((-n + 500_000_000) / BILLION)
    }
}

/// Turns a position within reach about the first axis by the angle with the
/// given cosine and sine in billionths.
pub(crate) fn rotate_within_reach(pos: Position, cosine: i128, sine: i128) -> (turned: Position)
    requires
        within_reach(pos),
        -BILLION <= cosine <= BILLION,
        -BILLION <= sine <= BILLION,
    ensures
        turned == rotated(pos, cosine as int, sine as int),
{
    proof {
        lemma_rotated_size(pos.y as int, pos.z as int, cosine as int, -sine as int);
        lemma_rotated_size(pos.y as int, pos.z as int, sine as int, cosine as int);
        assert(pos.y * cosine + pos.z * (-sine) == pos.y * cosine - pos.z * sine)
            by (nonlinear_arith);
    }
    assert(-COORDINATE_LIMIT * BILLION <= pos.y * cosine <= COORDINATE_LIMIT * BILLION)
        by (nonlinear_arith)
        requires
            -COORDINATE_LIMIT <= pos.y <= COORDINATE_LIMIT,
            -BILLION <= cosine <= BILLION,
    ;
    assert(-COORDINATE_LIMIT * BILLION <= pos.z * sine <= COORDINATE_LIMIT * BILLION)
        by (nonlinear_arith)
        requires
            -COORDINATE_LIMIT <= pos.z <= COORDINATE_LIMIT,
            -BILLION <= sine <= BILLION,
    ;
    assert(-COORDINATE_LIMIT * BILLION <= pos.y * sine <= COORDINATE_LIMIT * BILLION)
        by (nonlinear_arith)
        requires
            -COORDINATE_LIMIT <= pos.y <= COORDINATE_LIMIT,
            -BILLION <= sine <= BILLION,
    ;
    assert(-COORDINATE_LIMIT * BILLION <= pos.z * cosine <= COORDINATE_LIMIT * BILLION)
        by (nonlinear_arith)
        requires
            -COORDINATE_LIMIT <= pos.z <= COORDINATE_LIMIT,
            -BILLION <= cosine <= BILLION,
    ;
    let y = round_to_billionths(pos.y * cosine - pos.z * sine);
    let z = round_to_billionths(pos.y * sine + pos.z * cosine);
    Position { x: pos.x, y, z }
}

/// Turns `pos` about the first axis by the angle with the given cosine and
/// sine in billionths. A position out of reach is not turned.
pub fn rotate_about_x(pos: Position, cosine: i128, sine: i128) -> (turned: Option<Position>)
    requires
        -BILLION <= cosine <= BILLION,
        -BILLION <= sine <= BILLION,
    ensures
        within_reach(pos) ==> turned == Some(rotated(pos, cosine as int, sine as int)),
        !within_reach(pos) ==> turned is None,
{
    if pos.y < -COORDINATE_LIMIT || pos.y > COORDINATE_LIMIT || pos.z < -COORDINATE_LIMIT || pos.z
        > COORDINATE_LIMIT {
        None
    } else {
        Some(rotate_within_reach(pos, cosine, sine))
    }
}

/// Turning a position and turning it back by the same angle returns it to
/// where it was, up to the rounding of the coordinates and of the cosine and
/// sine: the first coordinate is unchanged, and each of the others moves by
/// no more than two billionths of its size and one and a half.
pub proof fn lemma_rotation_round_trip(pos: Position, cosine: int, sine: int)
    requires
        near_unit(cosine, sine),
        -COORDINATE_LIMIT < 2 * pos.y < COORDINATE_LIMIT,
        -COORDINATE_LIMIT < 2 * pos.z < COORDINATE_LIMIT,
    ensures
        within_reach(pos),
        within_reach(rotated(pos, cosine, sine)),
        rotated(rotated(pos, cosine, sine), cosine, -sine).x == pos.x,
        magnitude(rotated(rotated(pos, cosine, sine), cosine, -sine).y - pos.y) * BILLION <= 2
            * magnitude(pos.y as int) + 1_500_000_000,
        magnitude(rotated(rotated(pos, cosine, sine), cosine, -sine).z - pos.z) * BILLION <= 2
            * magnitude(pos.z as int) + 1_500_000_000,
{
    let d = BILLION as int;
    let y = pos.y as int;
    let z = pos.z as int;
    let c = cosine;
    let s = sine;
    let k = c * c + s * s - d * d;

    let n1 = y * c - z * s;
    let n2 = y * s + z * c;
    let y1 = round_billionths(n1);
    let z1 = round_billionths(n2);
    let e1 = n1 - y1 * d;
    let e2 = n2 - z1 * d;
    lemma_round_billionths(n1);
    lemma_round_billionths(n2);
    lemma_rotated_size(y, z, c, -s);
    lemma_rotated_size(y, z, s, c);
    assert(y * c + z * (-s) == n1) by (nonlinear_arith)
        requires
            n1 == y * c - z * s,
    ;

    let n3 = y1 * c - z1 * (-s);
    let n4 = y1 * (-s) + z1 * c;
    let y2 = round_billionths(n3);
    let z2 = round_billionths(n4);
    let e3 = n3 - y2 * d;
    let e4 = n4 - z2 * d;
    lemma_round_billionths(n3);
    lemma_round_billionths(n4);
    lemma_rotated_size(y1, z1, c, s);
    lemma_rotated_size(y1, z1, -s, c);
    assert(y1 * c + z1 * s == n3) by (nonlinear_arith)
        requires
            n3 == y1 * c - z1 * (-s),
    ;

    assert(d * y1 == y * c - z * s - e1 && d * z1 == y * s + z * c - e2 && d * y2 == y1 * c + z1
        * s - e3) by (nonlinear_arith)
        requires
            n1 == y * c - z * s,
            n2 == y * s + z * c,
            e1 == n1 - y1 * d,
            e2 == n2 - z1 * d,
            n3 == y1 * c - z1 * (-s),
            e3 == n3 - y2 * d,
    ;
    lemma_round_trip_identity(y, z, c, s, y1, z1, y2, e1, e2, e3);
    lemma_round_trip_bound(y, y2, k, e1, c, e2, s, e3);

    assert(d * z1 == z * c - (-y) * s - e2 && d * (-y1) == z * s + (-y) * c - (-e1) && d * z2
        == z1 * c + (-y1) * s - e4) by (nonlinear_arith)
        requires
            n1 == y * c - z * s,
            n2 == y * s + z * c,
            e1 == n1 - y1 * d,
            e2 == n2 - z1 * d,
            n4 == y1 * (-s) + z1 * c,
            e4 == n4 - z2 * d,
    ;
    lemma_round_trip_identity(z, -y, c, s, z1, -y1, z2, e2, -e1, e4);
    lemma_round_trip_bound(z, z2, k, e2, c, -e1, s, e4);
}

/// The algebra of a round trip. Where `y1` and `z1` are the turned
/// coordinates of `y` and `z` with rounding errors `e1` and `e2`, and `y2` is
/// the first of them turned back with rounding error `e3`, what `y2` differs
/// from `y` by is made up of the defect of the angle and of the three
/// rounding errors.
proof fn lemma_round_trip_identity(
    y: int,
    z: int,
    c: int,
    s: int,
    y1: int,
    z1: int,
    y2: int,
    e1: int,
    e2: int,
    e3: int,
)
    requires
        BILLION * y1 == y * c - z * s - e1,
        BILLION * z1 == y * s + z * c - e2,
        BILLION * y2 == y1 * c + z1 * s - e3,
    ensures
        BILLION * BILLION * (y2 - y) == y * (c * c + s * s - BILLION * BILLION) - e1 * c - e2 * s
            - BILLION * e3,
{
    let d = BILLION as int;
    let p = d * y1;
    let q = d * z1;
    let cc = c * c;
    let ss = s * s;
    let sc = s * c;
    let dd = d * d;
    assert(d * (d * y2) == p * c + q * s - d * e3) by (nonlinear_arith)
        requires
            d * y2 == y1 * c + z1 * s - e3,
            p == d * y1,
            q == d * z1,
    ;
    let yc = y * c;
    let zs = z * s;
    let ys = y * s;
    let zc = z * c;
    assert(p * c == yc * c - zs * c - e1 * c) by (nonlinear_arith)
        requires
            p == yc - zs - e1,
    ;
    assert(q * s == ys * s + zc * s - e2 * s) by (nonlinear_arith)
        requires
            q == ys + zc - e2,
    ;
    assert(yc * c == y * cc) by (nonlinear_arith)
        requires
            yc == y * c,
            cc == c * c,
    ;
    assert(zs * c == z * sc) by (nonlinear_arith)
        requires
            zs == z * s,
            sc == s * c,
    ;
    assert(ys * s == y * ss) by (nonlinear_arith)
        requires
            ys == y * s,
            ss == s * s,
    ;
    assert(zc * s == z * sc) by (nonlinear_arith)
        requires
            zc == z * c,
            sc == s * c,
    ;
    assert(y * (cc + ss - dd) == y * cc + y * ss - y * dd) by (nonlinear_arith);
    assert(d * (d * y2) == dd * y2) by (nonlinear_arith)
        requires
            dd == d * d,
    ;
    assert(dd * (y2 - y) == dd * y2 - y * dd) by (nonlinear_arith);
}

/// The size of what a round trip leaves of a coordinate `a`: where the
/// defect of the angle is at most two billion and each rounding at most half
/// a billion, the coordinate comes back to within two billionths of its size
/// and one and a half.
proof fn lemma_round_trip_bound(
    a: int,
    b: int,
    k: int,
    e1: int,
    c: int,
    e2: int,
    s: int,
    e3: int,
)
    requires
        -2 * BILLION <= k <= 2 * BILLION,
        -500_000_000 <= e1 <= 500_000_000,
        -500_000_000 <= e2 <= 500_000_000,
        -500_000_000 <= e3 <= 500_000_000,
        -BILLION <= c <= BILLION,
        -BILLION <= s <= BILLION,
        BILLION * BILLION * (b - a) == a * k - e1 * c - e2 * s - BILLION * e3,
    ensures
        magnitude(b - a) * BILLION <= 2 * magnitude(a) + 1_500_000_000,
{
    let d = BILLION as int;
    let h = 500_000_000int;
    assert(magnitude(a * k) <= magnitude(a) * (2 * d)) by (nonlinear_arith)
        requires
            -2 * d <= k <= 2 * d,
            d > 0,
    ;
    assert(magnitude(e1 * c) <= h * d) by (nonlinear_arith)
        requires
            -h <= e1 <= h,
            -d <= c <= d,
            h > 0,
            d > 0,
    ;
    assert(magnitude(e2 * s) <= h * d) by (nonlinear_arith)
        requires
            -h <= e2 <= h,
            -d <= s <= d,
            h > 0,
            d > 0,
    ;
    assert(magnitude(d * e3) <= h * d) by (nonlinear_arith)
        requires
            -h <= e3 <= h,
            d > 0,
    ;
    assert(magnitude(d * d * (b - a)) == d * (d * magnitude(b - a))) by (nonlinear_arith)
        requires
            d > 0,
    ;
    assert(magnitude(a) * (2 * d) + 3 * (h * d) == d * (2 * magnitude(a) + 3 * h))
        by (nonlinear_arith);
    assert(d * magnitude(b - a) <= 2 * magnitude(a) + 3 * h) by (nonlinear_arith)
        requires
            d * (d * magnitude(b - a)) <= d * (2 * magnitude(a) + 3 * h),
            d > 0,
    ;
}

/// The ecliptic place of a position given in the equatorial frame of
/// `central_body`: the position turned about the first axis by the axial tilt
/// of that body. A position out of reach of the arithmetic has none.
pub open spec fn ecliptic_position(
    pos: Position,
    central_body: CelestialBodyId,
) -> Option<Position> {
    if within_reach(pos) {
        Some(rotated(pos, axial_tilt_cosine(central_body), axial_tilt_sine(central_body)))
    } else {
        None
    }
}

/// The equatorial place of a position given in the ecliptic frame of
/// `central_body`: the position turned back by the axial tilt of that body.
pub open spec fn equatorial_position(
    pos: Position,
    central_body: CelestialBodyId,
) -> Option<Position> {
    if within_reach(pos) {
        Some(rotated(pos, axial_tilt_cosine(central_body), -axial_tilt_sine(central_body)))
    } else {
        None
    }
}

/// Turns a position from the equatorial frame of `central_body` into its
/// ecliptic frame. The tilt is that of the body at the centre of the frame.
pub fn equatorial_to_ecliptic(
    pos: Position,
    central_body: CelestialBodyId,
) -> (turned: Option<Position>)
    ensures
        turned == ecliptic_position(pos, central_body),
{
    rotate_about_x(pos, get_axial_tilt_cosine(central_body), get_axial_tilt_sine(central_body))
}

/// Turns a position from the ecliptic frame of `central_body` back into its
/// equatorial frame.
pub fn ecliptic_to_equatorial(
    pos: Position,
    central_body: CelestialBodyId,
) -> (turned: Option<Position>)
    ensures
        turned == equatorial_position(pos, central_body),
{
    rotate_about_x(pos, get_axial_tilt_cosine(central_body), -get_axial_tilt_sine(central_body))
}

/// The greater of the sizes of the second and third coordinate of a position.
spec fn reach(pos: Position) -> int {
    if magnitude(pos.y as int) >= magnitude(pos.z as int) {
        magnitude(pos.y as int)
    } else {
        magnitude(pos.z as int)
    }
}

/// The square of the length of the step from `from` to `to`.
pub open spec fn squared_distance(from: Position, to: Position) -> int {
    (to.x - from.x) * (to.x - from.x) + (to.y - from.y) * (to.y - from.y) + (to.z - from.z) * (to.z
        - from.z)
}

/// The square of the length of a position.
pub open spec fn squared_length(pos: Position) -> int {
    pos.x * pos.x + pos.y * pos.y + pos.z * pos.z
}

/// A position turned into the ecliptic frame of a body and back into its
/// equatorial frame is where it was, to within the rounding.
///
/// The first coordinate is unchanged, and each of the others moves by no more
/// than two billionths of its size and one and a half millionths of a display
/// unit. For a position whose squared length is 0.02 squared display units
/// or more, that is one a little over 0.1414 display units long or longer,
/// the step from where it was to where it returns is no longer than a
/// hundred-thousandth of that length.
///
/// A shorter position returns one millionth of a display unit off in the
/// second coordinate, in the third, or in both, at most. That may be more
/// than a hundred-thousandth of its length: whole millionths cannot do
/// better. So for every position the step is no longer than a
/// hundred-thousandth of its length or of 0.1415 display units. The
/// position (0, 7, 3) turns into (0, 5, 6) in the ecliptic frame of the Earth
/// and returns as (0, 7, 4).
pub proof fn lemma_frames_round_trip(pos: Position, central_body: CelestialBodyId)
    requires
        -COORDINATE_LIMIT < 2 * pos.y < COORDINATE_LIMIT,
        -COORDINATE_LIMIT < 2 * pos.z < COORDINATE_LIMIT,
    ensures
        ecliptic_position(pos, central_body) is Some,
        equatorial_position(ecliptic_position(pos, central_body)->Some_0, central_body) is Some,
        ({
            let back = equatorial_position(
                ecliptic_position(pos, central_body)->Some_0,
                central_body,
            )->Some_0;
            &&& back.x == pos.x
            &&& magnitude(back.y - pos.y) * BILLION <= 2 * magnitude(pos.y as int) + 1_500_000_000
            &&& magnitude(back.z - pos.z) * BILLION <= 2 * magnitude(pos.z as int) + 1_500_000_000
            &&& squared_length(pos) >= 20_000_000_000 ==> 10_000_000_000 * squared_distance(
                pos,
                back,
            ) <= squared_length(pos)
            &&& squared_length(pos) < 20_000_000_000 ==> squared_distance(pos, back) <= 2
        }),
{
    lemma_axial_tilt_is_an_angle(central_body);
    lemma_rotation_round_trip(pos, axial_tilt_cosine(central_body), axial_tilt_sine(central_body));
    let back = equatorial_position(
        ecliptic_position(pos, central_body)->Some_0,
        central_body,
    )->Some_0;
    let m = reach(pos);
    let dy = magnitude(back.y - pos.y);
    let dz = magnitude(back.z - pos.z);
    let y = magnitude(pos.y as int);
    let z = magnitude(pos.z as int);
    assert(dy * dy == (back.y - pos.y) * (back.y - pos.y)) by (nonlinear_arith)
        requires
            dy == back.y - pos.y || dy == -(back.y - pos.y),
    ;
    assert(dz * dz == (back.z - pos.z) * (back.z - pos.z)) by (nonlinear_arith)
        requires
            dz == back.z - pos.z || dz == -(back.z - pos.z),
    ;
    if m >= 400_000 {
        // Far from the first axis each coordinate returns to within a
        // two-hundred-thousandth of that distance.
        assert(40_000_000_000 * (dy * dy) <= m * m) by (nonlinear_arith)
            requires
                0 <= 200_000 * dy <= m,
        ;
        assert(40_000_000_000 * (dz * dz) <= m * m) by (nonlinear_arith)
            requires
                0 <= 200_000 * dz <= m,
        ;
        assert(m * m <= y * y + z * z) by (nonlinear_arith)
            requires
                m == y || m == z,
        ;
        assert(y * y == pos.y * pos.y) by (nonlinear_arith)
            requires
                y == pos.y || y == -pos.y,
        ;
        assert(z * z == pos.z * pos.z) by (nonlinear_arith)
            requires
                z == pos.z || z == -pos.z,
        ;
        assert(0 <= pos.x * pos.x) by (nonlinear_arith);
    } else {
        // Near the first axis each coordinate returns to within one.
        assert(dy <= 1 && dz <= 1);
        assert(dy * dy <= 1 && dz * dz <= 1) by (nonlinear_arith)
            requires
                0 <= dy <= 1,
                0 <= dz <= 1,
        ;
    }
}

} // verus!
