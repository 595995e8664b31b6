//! Mathematical model of the Swiss projection.
//!
//! Every quantity in this crate is an exact fixed-point integer:
//! planar coordinates and altitudes are millimeters, angles are
//! nanodegrees (1e-9 degree).  The projection formulas are evaluated
//! over unbounded integers here; the executable code in `lib.rs` is
//! proved to return exactly these values.

use vstd::prelude::*;

verus! {

/// A projected point: northing, easting and altitude in millimeters.
pub ghost struct PointMm {
    pub north: int,
    pub east: int,
    pub altitude: int,
}

/// A geographic position: longitude and latitude in nanodegrees,
/// altitude in millimeters.
pub ghost struct GeoNano {
    pub longitude: int,
    pub latitude: int,
    pub altitude: int,
}

/// Smallest northing (in mm) that falls within Switzerland.
pub const NORTH_MIN_MM: i64 = 70_000_000;
/// Largest northing (in mm) that falls within Switzerland.
pub const NORTH_MAX_MM: i64 = 300_000_000;
/// Smallest easting (in mm) that falls within Switzerland.
pub const EAST_MIN_MM: i64 = 480_000_000;
/// Largest easting (in mm) that falls within Switzerland.
pub const EAST_MAX_MM: i64 = 850_000_000;
/// Largest altitude magnitude (in mm) a point may carry, so that sums
/// and squared distances stay representable.
pub const ALT_LIMIT_MM: i64 = 4_000_000_000_000_000_000;

/// LV95 northings exceed LV03 northings by exactly 1,000 km.
pub const LV95_NORTH_OFFSET_MM: i64 = 1_000_000_000;
/// LV95 eastings exceed LV03 eastings by exactly 2,000 km.
pub const LV95_EAST_OFFSET_MM: i64 = 2_000_000_000;

/// Largest magnitude, in 1e-9 of the auxiliary angular unit, that the
/// forward formula accepts.  90e9 covers every longitude in
/// [-180, 180] degrees and every latitude in [-90, 90] degrees.
pub const UNIT_WINDOW: i128 = 90_000_000_000;

/// One auxiliary unit, or one degree, in its 1e-9 subdivisions.
pub const NANO: i128 = 1_000_000_000;
/// Scale of a product of two 1e-9 fixed-point factors.
pub const NANO2: i128 = 1_000_000_000_000_000_000;
/// Scale of a product of three 1e-9 fixed-point factors.
pub const NANO3: i128 = 1_000_000_000_000_000_000_000_000_000;

/// Division that truncates toward zero, as the executable code's
/// integer division does.
pub open spec fn tdiv(a: int, d: int) -> int
    recommends
        0 < d,
{
    if 0 <= a {
        a / d
    } else {
        -((-a) / d)
    }
}

/// Longitude, in 1e-9 of the auxiliary unit: arc seconds of the
/// difference to the Bern meridian, scaled by 1/10,000.
pub open spec fn lambda_units(longitude_nano: int) -> int {
    tdiv(3600 * longitude_nano - 26_782_500_000_000, 10_000)
}

/// Latitude, in 1e-9 of the auxiliary unit: arc seconds of the
/// difference to the Bern parallel, scaled by 1/10,000.
pub open spec fn phi_units(latitude_nano: int) -> int {
    tdiv(3600 * latitude_nano - 169_028_660_000_000, 10_000)
}

/// Whether the auxiliary angles are small enough for the forward
/// polynomial; every real-world longitude and latitude is.
pub open spec fn in_forward_window(l: int, p: int) -> bool {
    &&& -UNIT_WINDOW <= l <= UNIT_WINDOW
    &&& -UNIT_WINDOW <= p <= UNIT_WINDOW
}

/// Forward polynomial for the easting, in mm of the LV95 frame.
pub open spec fn forward_east95_mm(l: int, p: int) -> int {
    2_600_072_370 + tdiv(211_455_930 * l, NANO as int) - tdiv(10_938_510 * (l * p), NANO2 as int)
        - tdiv(360 * ((l * p) * p), NANO3 as int) - tdiv(44_540 * ((l * l) * l), NANO3 as int)
}

/// Forward polynomial for the northing, in mm of the LV95 frame.
pub open spec fn forward_north95_mm(l: int, p: int) -> int {
    1_200_147_070 + tdiv(308_807_950 * p, NANO as int) + tdiv(3_745_250 * (l * l), NANO2 as int)
        + tdiv(76_630 * (p * p), NANO2 as int) - tdiv(194_560 * ((l * l) * p), NANO3 as int)
        + tdiv(119_790 * ((p * p) * p), NANO3 as int)
}

/// Geoid-model altitude correction of the forward projection, in mm.
pub open spec fn forward_alt_mm(altitude: int, l: int, p: int) -> int {
    altitude - 49_550 + tdiv(2_730 * l, NANO as int) + tdiv(6_940 * p, NANO as int)
}

/// The whole forward projection: a geographic position to an LV03
/// point, as mm values (validity is judged separately).
pub open spec fn forward(g: GeoNano) -> PointMm {
    let l = lambda_units(g.longitude);
    let p = phi_units(g.latitude);
    PointMm {
        north: forward_north95_mm(l, p) - LV95_NORTH_OFFSET_MM as int,
        east: forward_east95_mm(l, p) - LV95_EAST_OFFSET_MM as int,
        altitude: forward_alt_mm(g.altitude, l, p),
    }
}

/// Whether the forward polynomial accepts the geographic position.
pub open spec fn forward_defined(g: GeoNano) -> bool {
    in_forward_window(lambda_units(g.longitude), phi_units(g.latitude))
}

/// The validity bounds of an LV03 point: inside the Swiss bounding
/// box, easting at least as large as northing, altitude representable.
pub open spec fn valid_lv03(p: PointMm) -> bool {
    &&& NORTH_MIN_MM <= p.north <= NORTH_MAX_MM
    &&& EAST_MIN_MM <= p.east <= EAST_MAX_MM
    &&& p.north <= p.east
    &&& -ALT_LIMIT_MM <= p.altitude <= ALT_LIMIT_MM
}

/// The LV95 expression of an LV03 point: a pure frame shift.
pub open spec fn lv95_of(p: PointMm) -> PointMm {
    PointMm {
        north: p.north + LV95_NORTH_OFFSET_MM as int,
        east: p.east + LV95_EAST_OFFSET_MM as int,
        altitude: p.altitude,
    }
}

/// The LV03 expression of an LV95 point: the inverse frame shift.
pub open spec fn lv03_of(p: PointMm) -> PointMm {
    PointMm {
        north: p.north - LV95_NORTH_OFFSET_MM as int,
        east: p.east - LV95_EAST_OFFSET_MM as int,
        altitude: p.altitude,
    }
}

/// Easting of an LV03 point in 1e-9 of the inverse formula's
/// projection unit (1,000 km), relative to the projection center.
pub open spec fn y_units(east_mm: int) -> int {
    east_mm - 600_000_000
}

/// Northing counterpart of `y_units`.
pub open spec fn x_units(north_mm: int) -> int {
    north_mm - 200_000_000
}

/// Inverse polynomial for the longitude, in 1e-9 of the formula's
/// native unit (10,000 arc seconds).
pub open spec fn inverse_lambda_raw(y: int, x: int) -> int {
    2_677_909_400 + tdiv(4_728_982_000 * y, NANO as int) + tdiv(791_484_000 * (y * x), NANO2 as int)
        + tdiv(130_600_000 * ((y * x) * x), NANO3 as int) - tdiv(
        43_600_000 * ((y * y) * y),
        NANO3 as int,
    )
}

/// Inverse polynomial for the latitude, in 1e-9 of the formula's
/// native unit.
pub open spec fn inverse_phi_raw(y: int, x: int) -> int {
    16_902_389_200 + tdiv(3_238_272_000 * x, NANO as int) - tdiv(
        270_978_000 * (y * y),
        NANO2 as int,
    ) - tdiv(2_528_000 * (x * x), NANO2 as int) - tdiv(44_700_000 * ((y * y) * x), NANO3 as int)
        - tdiv(14_000_000 * ((x * x) * x), NANO3 as int)
}

/// The formula's native angular unit turned into nanodegrees: a
/// factor of 100/36.
pub open spec fn raw_to_nanodegrees(v: int) -> int {
    tdiv(v * 1000, 360)
}

/// Geoid-model altitude correction of the inverse projection, in mm.
pub open spec fn inverse_alt_mm(altitude: int, y: int, x: int) -> int {
    altitude + 49_550 - tdiv(12_600 * y, NANO as int) - tdiv(22_640 * x, NANO as int)
}

/// The whole inverse projection: an LV03 point to a geographic
/// position.
pub open spec fn inverse(p: PointMm) -> GeoNano {
    let y = y_units(p.east);
    let x = x_units(p.north);
    GeoNano {
        longitude: raw_to_nanodegrees(inverse_lambda_raw(y, x)),
        latitude: raw_to_nanodegrees(inverse_phi_raw(y, x)),
        altitude: inverse_alt_mm(p.altitude, y, x),
    }
}

/// A projected point assembled from its three mm components.
pub open spec fn point_mm(north: int, east: int, altitude: int) -> PointMm {
    PointMm { north, east, altitude }
}

/// A geographic position assembled from its nanodegree angles and its
/// mm altitude.
pub open spec fn geo_nano(longitude: int, latitude: int, altitude: int) -> GeoNano {
    GeoNano { longitude, latitude, altitude }
}

/// Squared Euclidean distance of two projected points, in mm^2.
pub open spec fn squared_distance(a: PointMm, b: PointMm) -> int {
    (a.north - b.north) * (a.north - b.north) + (a.east - b.east) * (a.east - b.east) + (a.altitude
        - b.altitude) * (a.altitude - b.altitude)
}

} // verus!
