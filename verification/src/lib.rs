//! Conversions between the Swiss projected coordinate frames LV03 and
//! LV95 and the global WGS84 frame.
//!
//! All values are exact fixed-point integers: northings, eastings and
//! altitudes in millimeters, longitudes and latitudes in nanodegrees
//! (1e-9 degree).  The closed-form approximation polynomials of the
//! Swiss projection are evaluated in integer arithmetic; `model`
//! states their exact results, and every conversion here is proved to
//! return them.

use vstd::prelude::*;

mod fixedpoint;
pub mod model;

use crate::fixedpoint::lemma_mul_bounds;
use crate::fixedpoint::lemma_tdiv_bound;
use crate::fixedpoint::tdiv128;
use crate::model::forward;
use crate::model::forward_defined;
use crate::model::inverse;
use crate::model::inverse_lambda_raw;
use crate::model::inverse_phi_raw;
use crate::model::lv03_of;
use crate::model::lv95_of;
use crate::model::point_mm;
use crate::model::squared_distance;
use crate::model::valid_lv03;
use crate::model::GeoNano;
use crate::model::PointMm;
use crate::model::LV95_EAST_OFFSET_MM;
use crate::model::LV95_NORTH_OFFSET_MM;
use crate::model::ALT_LIMIT_MM;
use crate::model::EAST_MAX_MM;
use crate::model::EAST_MIN_MM;
use crate::model::NORTH_MAX_MM;
use crate::model::NORTH_MIN_MM;
use crate::model::NANO;
use crate::model::NANO2;
use crate::model::NANO3;
use crate::model::UNIT_WINDOW;
use crate::model::x_units;
use crate::model::y_units;

verus! {

/// A point of the LV03 frame: northing, easting and altitude in
/// millimeters.  Every value of this type lies within the Swiss
/// bounds (`model::valid_lv03`).
#[derive(Clone, Copy, PartialEq, Eq, Debug)]
pub struct Lv03 {
    north: i64,
    east: i64,
    altitude: i64,
}

impl View for Lv03 {
    type V = PointMm;

    closed spec fn view(&self) -> PointMm {
        PointMm {
            north: self.north as int,
            east: self.east as int,
            altitude: self.altitude as int,
        }
    }
}

impl Lv03 {
    /// Every LV03 value lies within the Swiss bounds; established by
    /// the constructors, usable through `use_type_invariant`.
    #[verifier::type_invariant]
    pub open spec fn inv(self) -> bool {
        valid_lv03(self@)
    }

    /// Validates and builds a point: present exactly when the
    /// coordinates fall within the Swiss bounds, the northing does not
    /// exceed the easting, and the altitude is representable.
    pub fn new(north: i64, east: i64, altitude: i64) -> (r: Option<Lv03>)
        ensures
            r is Some <==> valid_lv03(point_mm(north as int, east as int, altitude as int)),
            r matches Some(p) ==> p@ == point_mm(north as int, east as int, altitude as int),
    {
        if north < NORTH_MIN_MM || east < EAST_MIN_MM {
            // Below the minimum extent of Switzerland.
            None
        } else if north > NORTH_MAX_MM || east > EAST_MAX_MM {
            // Above the maximum extent of Switzerland.
            None
        } else if north > east {
            // The easting is always the numerically larger coordinate.
            None
        } else if altitude < -ALT_LIMIT_MM || altitude > ALT_LIMIT_MM {
            // Too large in magnitude for exact mm arithmetic.
            None
        } else {
            Some(Lv03 { north, east, altitude })
        }
    }

    /// Northing in millimeters.
    pub fn north(&self) -> (r: i64)
        ensures
            r == self@.north,
    {
        self.north
    }

    /// Easting in millimeters.
    pub fn east(&self) -> (r: i64)
        ensures
            r == self@.east,
    {
        self.east
    }

    /// Altitude in millimeters.
    pub fn altitude(&self) -> (r: i64)
        ensures
            r == self@.altitude,
    {
        self.altitude
    }

    /// Squared Euclidean distance to another point, in mm^2.
    pub fn distance_squared(&self, p: &Lv03) -> (r: i128)
        ensures
            r == squared_distance(self@, p@),
    {
        proof {
            use_type_invariant(*self);
            use_type_invariant(*p);
        }
        let dn: i128 = self.north as i128 - p.north as i128;
        let de: i128 = self.east as i128 - p.east as i128;
        let da: i128 = self.altitude as i128 - p.altitude as i128;
        proof {
            lemma_mul_bounds(dn as int, dn as int, 230_000_000, 230_000_000);
            lemma_mul_bounds(de as int, de as int, 370_000_000, 370_000_000);
            lemma_mul_bounds(
                da as int,
                da as int,
                2 * ALT_LIMIT_MM as int,
                2 * ALT_LIMIT_MM as int,
            );
        }
        dn * dn + de * de + da * da
    }

    /// The inverse projection: the approximate WGS84 position of this
    /// point, computed by the fixed-coefficient polynomials of the
    /// Swiss projection.  Total: every LV03 point has an image.
    #[verifier::rlimit(100)]
    pub fn to_wgs84(&self) -> (r: Wgs84)
        ensures
            r@ == inverse(self@),
    {
        proof {
            use_type_invariant(*self);
        }
        // Offsets from the projection center, in 1e-9 projection
        // units: |y| <= 250e6, |x| <= 130e6.
        let y: i128 = self.east as i128 - 600_000_000;
        let x: i128 = self.north as i128 - 200_000_000;
        proof {
            lemma_mul_bounds(y as int, x as int, 250_000_000, 130_000_000);
            lemma_mul_bounds(y as int, y as int, 250_000_000, 250_000_000);
            lemma_mul_bounds(x as int, x as int, 130_000_000, 130_000_000);
        }
        let yx: i128 = y * x;
        let yy: i128 = y * y;
        let xx: i128 = x * x;
        proof {
            lemma_mul_bounds(yx as int, x as int, 32_500_000_000_000_000, 130_000_000);
            lemma_mul_bounds(yy as int, y as int, 62_500_000_000_000_000, 250_000_000);
            lemma_mul_bounds(yy as int, x as int, 62_500_000_000_000_000, 130_000_000);
            lemma_mul_bounds(xx as int, x as int, 16_900_000_000_000_000, 130_000_000);
        }
        let yxx: i128 = yx * x;
        let yyy: i128 = yy * y;
        let yyx: i128 = yy * x;
        let xxx: i128 = xx * x;

        let l1n: i128 = 4_728_982_000 * y;
        let l1: i128 = tdiv128(l1n, NANO);
        let l2n: i128 = 791_484_000 * yx;
        let l2: i128 = tdiv128(l2n, NANO2);
        let l3n: i128 = 130_600_000 * yxx;
        let l3: i128 = tdiv128(l3n, NANO3);
        let l4n: i128 = 43_600_000 * yyy;
        let l4: i128 = tdiv128(l4n, NANO3);
        proof {
            lemma_tdiv_bound(l1n as int, NANO as int, 1_182_245_500_000_000_000);
            lemma_tdiv_bound(l2n as int, NANO2 as int, 25_723_230_000_000_000_000_000_000);
            lemma_tdiv_bound(
                l3n as int,
                NANO3 as int,
                551_785_000_000_000_000_000_000_000_000_000,
            );
            lemma_tdiv_bound(
                l4n as int,
                NANO3 as int,
                681_250_000_000_000_000_000_000_000_000_000,
            );
        }
        let lraw: i128 = 2_677_909_400 + l1 + l2 + l3 - l4;

        let p1n: i128 = 3_238_272_000 * x;
        let p1: i128 = tdiv128(p1n, NANO);
        let p2n: i128 = 270_978_000 * yy;
        let p2: i128 = tdiv128(p2n, NANO2);
        let p3n: i128 = 2_528_000 * xx;
        let p3: i128 = tdiv128(p3n, NANO2);
        let p4n: i128 = 44_700_000 * yyx;
        let p4: i128 = tdiv128(p4n, NANO3);
        let p5n: i128 = 14_000_000 * xxx;
        let p5: i128 = tdiv128(p5n, NANO3);
        proof {
            lemma_tdiv_bound(p1n as int, NANO as int, 420_975_360_000_000_000);
            lemma_tdiv_bound(p2n as int, NANO2 as int, 16_936_125_000_000_000_000_000_000);
            lemma_tdiv_bound(p3n as int, NANO2 as int, 42_723_200_000_000_000_000_000);
            lemma_tdiv_bound(
                p4n as int,
                NANO3 as int,
                363_187_500_000_000_000_000_000_000_000_000,
            );
            lemma_tdiv_bound(
                p5n as int,
                NANO3 as int,
                30_758_000_000_000_000_000_000_000_000_000,
            );
        }
        let praw: i128 = 16_902_389_200 + p1 - p2 - p3 - p4 - p5;

        // The formula's native unit to nanodegrees: a factor 100/36.
        let lonn: i128 = lraw * 1000;
        let lon: i128 = tdiv128(lonn, 360);
        let latn: i128 = praw * 1000;
        let lat: i128 = tdiv128(latn, 360);
        proof {
            lemma_tdiv_bound(lonn as int, 360, 4_000_000_000_000);
            lemma_tdiv_bound(latn as int, 360, 18_000_000_000_000);
        }

        let a1n: i128 = 12_600 * y;
        let a1: i128 = tdiv128(a1n, NANO);
        let a2n: i128 = 22_640 * x;
        let a2: i128 = tdiv128(a2n, NANO);
        proof {
            lemma_tdiv_bound(a1n as int, NANO as int, 3_150_000_000_000);
            lemma_tdiv_bound(a2n as int, NANO as int, 2_943_200_000_000);
        }
        let alt: i128 = self.altitude as i128 + 49_550 - a1 - a2;

        Wgs84 { longitude: lon as i64, latitude: lat as i64, altitude: alt as i64 }
    }
}

/// A WGS84 position: longitude and latitude in nanodegrees (1e-9
/// degree), altitude in millimeters.  Any triple is representable;
/// whether it names a Swiss-region position shows only in the result
/// of the forward projection.
#[derive(Clone, Copy, PartialEq, Eq, Debug)]
pub struct Wgs84 {
    /// Longitude in nanodegrees.
    pub longitude: i64,
    /// Latitude in nanodegrees.
    pub latitude: i64,
    /// Altitude in millimeters.
    pub altitude: i64,
}

impl View for Wgs84 {
    type V = GeoNano;

    open spec fn view(&self) -> GeoNano {
        GeoNano {
            longitude: self.longitude as int,
            latitude: self.latitude as int,
            altitude: self.altitude as int,
        }
    }
}

impl Wgs84 {
    /// The forward projection: the LV03 point of this position,
    /// computed by the fixed-coefficient polynomials of the Swiss
    /// projection.  Absent exactly when the auxiliary angles leave
    /// the formula's window (far outside any real-world coordinate)
    /// or the projected point falls outside the Swiss bounds.
    #[verifier::rlimit(100)]
    pub fn to_lv03(&self) -> (r: Option<Lv03>)
        ensures
            r is Some <==> forward_defined(self@) && valid_lv03(forward(self@)),
            r matches Some(q) ==> q@ == forward(self@),
    {
        let lon: i128 = self.longitude as i128;
        let lat: i128 = self.latitude as i128;
        // Auxiliary angles in 1e-9 unit: arc seconds relative to
        // Bern, scaled by 1/10,000.
        let l: i128 = tdiv128(3600 * lon - 26_782_500_000_000, 10_000);
        let p: i128 = tdiv128(3600 * lat - 169_028_660_000_000, 10_000);
        if l < -UNIT_WINDOW || l > UNIT_WINDOW || p < -UNIT_WINDOW || p > UNIT_WINDOW {
            return None;
        }
        proof {
            lemma_mul_bounds(l as int, p as int, UNIT_WINDOW as int, UNIT_WINDOW as int);
            lemma_mul_bounds(l as int, l as int, UNIT_WINDOW as int, UNIT_WINDOW as int);
            lemma_mul_bounds(p as int, p as int, UNIT_WINDOW as int, UNIT_WINDOW as int);
        }
        let lp: i128 = l * p;
        let ll: i128 = l * l;
        let pp: i128 = p * p;
        proof {
            lemma_mul_bounds(
                lp as int,
                p as int,
                8_100_000_000_000_000_000_000,
                UNIT_WINDOW as int,
            );
            lemma_mul_bounds(
                ll as int,
                l as int,
                8_100_000_000_000_000_000_000,
                UNIT_WINDOW as int,
            );
            lemma_mul_bounds(
                ll as int,
                p as int,
                8_100_000_000_000_000_000_000,
                UNIT_WINDOW as int,
            );
            lemma_mul_bounds(
                pp as int,
                p as int,
                8_100_000_000_000_000_000_000,
                UNIT_WINDOW as int,
            );
        }
        let lpp: i128 = lp * p;
        let lll: i128 = ll * l;
        let llp: i128 = ll * p;
        let ppp: i128 = pp * p;

        let e1n: i128 = 211_455_930 * l;
        let e1: i128 = tdiv128(e1n, NANO);
        let e2n: i128 = 10_938_510 * lp;
        let e2: i128 = tdiv128(e2n, NANO2);
        let e3n: i128 = 360 * lpp;
        let e3: i128 = tdiv128(e3n, NANO3);
        let e4n: i128 = 44_540 * lll;
        let e4: i128 = tdiv128(e4n, NANO3);
        proof {
            lemma_tdiv_bound(e1n as int, NANO as int, 19_031_033_700_000_000_000);
            lemma_tdiv_bound(e2n as int, NANO2 as int, 88_601_931_000_000_000_000_000_000_000);
            lemma_tdiv_bound(
                e3n as int,
                NANO3 as int,
                262_440_000_000_000_000_000_000_000_000_000_000,
            );
            lemma_tdiv_bound(
                e4n as int,
                NANO3 as int,
                32_471_946_000_000_000_000_000_000_000_000_000_000,
            );
        }
        let e95: i128 = 2_600_072_370 + e1 - e2 - e3 - e4;

        let n1n: i128 = 308_807_950 * p;
        let n1: i128 = tdiv128(n1n, NANO);
        let n2n: i128 = 3_745_250 * ll;
        let n2: i128 = tdiv128(n2n, NANO2);
        let n3n: i128 = 76_630 * pp;
        let n3: i128 = tdiv128(n3n, NANO2);
        let n4n: i128 = 194_560 * llp;
        let n4: i128 = tdiv128(n4n, NANO3);
        let n5n: i128 = 119_790 * ppp;
        let n5: i128 = tdiv128(n5n, NANO3);
        proof {
            lemma_tdiv_bound(n1n as int, NANO as int, 27_792_715_500_000_000_000);
            lemma_tdiv_bound(n2n as int, NANO2 as int, 30_336_525_000_000_000_000_000_000_000);
            lemma_tdiv_bound(n3n as int, NANO2 as int, 620_703_000_000_000_000_000_000_000);
            lemma_tdiv_bound(
                n4n as int,
                NANO3 as int,
                141_834_240_000_000_000_000_000_000_000_000_000_000,
            );
            lemma_tdiv_bound(
                n5n as int,
                NANO3 as int,
                87_326_910_000_000_000_000_000_000_000_000_000_000,
            );
        }
        let n95: i128 = 1_200_147_070 + n1 + n2 + n3 - n4 + n5;

        let x_mm: i128 = n95 - 1_000_000_000;
        let y_mm: i128 = e95 - 2_000_000_000;

        let f1n: i128 = 2_730 * l;
        let f1: i128 = tdiv128(f1n, NANO);
        let f2n: i128 = 6_940 * p;
        let f2: i128 = tdiv128(f2n, NANO);
        proof {
            lemma_tdiv_bound(f1n as int, NANO as int, 245_700_000_000_000);
            lemma_tdiv_bound(f2n as int, NANO as int, 624_600_000_000_000);
        }
        let alt: i128 = self.altitude as i128 - 49_550 + f1 + f2;

        if NORTH_MIN_MM as i128 <= x_mm && x_mm <= NORTH_MAX_MM as i128 && EAST_MIN_MM as i128
            <= y_mm && y_mm <= EAST_MAX_MM as i128 && x_mm <= y_mm && -(ALT_LIMIT_MM as i128)
            <= alt && alt <= ALT_LIMIT_MM as i128 {
            Some(Lv03 { north: x_mm as i64, east: y_mm as i64, altitude: alt as i64 })
        } else {
            None
        }
    }
}

/// A point of the LV95 frame: the same point as an LV03 value, with
/// northing and easting shifted by the fixed frame offset.
#[derive(Clone, Copy, PartialEq, Eq, Debug)]
pub struct Lv95 {
    north: i64,
    east: i64,
    altitude: i64,
}

impl View for Lv95 {
    type V = PointMm;

    closed spec fn view(&self) -> PointMm {
        PointMm {
            north: self.north as int,
            east: self.east as int,
            altitude: self.altitude as int,
        }
    }
}

impl Lv95 {
    /// Every LV95 value is the frame shift of a valid LV03 point;
    /// established by the constructors, usable through
    /// `use_type_invariant`.
    #[verifier::type_invariant]
    pub open spec fn inv(self) -> bool {
        valid_lv03(lv03_of(self@))
    }

    /// Validates coordinates given in the LV03 frame and builds the
    /// corresponding LV95 point, shifted by the fixed frame offset.
    pub fn new(north: i64, east: i64, altitude: i64) -> (r: Option<Lv95>)
        ensures
            r is Some <==> valid_lv03(point_mm(north as int, east as int, altitude as int)),
            r matches Some(p) ==> p@ == lv95_of(
                point_mm(north as int, east as int, altitude as int),
            ),
    {
        match Lv03::new(north, east, altitude) {
            Some(p) => Some(Lv95::from(p)),
            None => None,
        }
    }

    /// Northing in millimeters.
    pub fn north(&self) -> (r: i64)
        ensures
            r == self@.north,
    {
        self.north
    }

    /// Easting in millimeters.
    pub fn east(&self) -> (r: i64)
        ensures
            r == self@.east,
    {
        self.east
    }

    /// Altitude in millimeters.
    pub fn altitude(&self) -> (r: i64)
        ensures
            r == self@.altitude,
    {
        self.altitude
    }

    /// The inverse projection of this point: it is shifted into the
    /// LV03 frame first, then projected like any LV03 point.
    pub fn to_wgs84(&self) -> (r: Wgs84)
        ensures
            r@ == inverse(lv03_of(self@)),
    {
        proof {
            use_type_invariant(*self);
        }
        let p03: Lv03 = Lv03::from(*self);
        p03.to_wgs84()
    }
}

impl From<Lv03> for Wgs84 {
    fn from(p: Lv03) -> (r: Wgs84) {
        p.to_wgs84()
    }
}

impl vstd::std_specs::convert::FromSpecImpl<Lv03> for Wgs84 {
    open spec fn obeys_from_spec() -> bool {
        true
    }

    closed spec fn from_spec(p: Lv03) -> Wgs84 {
        Wgs84 {
            longitude: inverse(p@).longitude as i64,
            latitude: inverse(p@).latitude as i64,
            altitude: inverse(p@).altitude as i64,
        }
    }
}

impl From<Lv95> for Wgs84 {
    fn from(p: Lv95) -> (r: Wgs84) {
        p.to_wgs84()
    }
}

impl vstd::std_specs::convert::FromSpecImpl<Lv95> for Wgs84 {
    open spec fn obeys_from_spec() -> bool {
        true
    }

    closed spec fn from_spec(p: Lv95) -> Wgs84 {
        Wgs84 {
            longitude: inverse(lv03_of(p@)).longitude as i64,
            latitude: inverse(lv03_of(p@)).latitude as i64,
            altitude: inverse(lv03_of(p@)).altitude as i64,
        }
    }
}

impl From<Lv03> for Lv95 {
    fn from(p: Lv03) -> (r: Lv95) {
        proof {
            use_type_invariant(p);
        }
        Lv95 {
            north: p.north + LV95_NORTH_OFFSET_MM,
            east: p.east + LV95_EAST_OFFSET_MM,
            altitude: p.altitude,
        }
    }
}

impl vstd::std_specs::convert::FromSpecImpl<Lv03> for Lv95 {
    open spec fn obeys_from_spec() -> bool {
        true
    }

    closed spec fn from_spec(p: Lv03) -> Lv95 {
        Lv95 {
            north: (p@.north + LV95_NORTH_OFFSET_MM) as i64,
            east: (p@.east + LV95_EAST_OFFSET_MM) as i64,
            altitude: p@.altitude as i64,
        }
    }
}

impl From<Lv95> for Lv03 {
    fn from(p: Lv95) -> (r: Lv03) {
        proof {
            use_type_invariant(p);
        }
        Lv03 {
            north: p.north - LV95_NORTH_OFFSET_MM,
            east: p.east - LV95_EAST_OFFSET_MM,
            altitude: p.altitude,
        }
    }
}

impl vstd::std_specs::convert::FromSpecImpl<Lv95> for Lv03 {
    open spec fn obeys_from_spec() -> bool {
        true
    }

    closed spec fn from_spec(p: Lv95) -> Lv03 {
        Lv03 {
            north: (p@.north - LV95_NORTH_OFFSET_MM) as i64,
            east: (p@.east - LV95_EAST_OFFSET_MM) as i64,
            altitude: p@.altitude as i64,
        }
    }
}

/// Converting into the LV95 frame yields exactly the shifted point.
pub proof fn lemma_lv95_from_lv03(p: Lv03)
    requires
        valid_lv03(p@),
    ensures
        (<Lv95 as vstd::std_specs::convert::FromSpec<Lv03>>::from_spec(p))@ == lv95_of(p@),
{
}

/// Converting into the LV03 frame yields exactly the unshifted point.
pub proof fn lemma_lv03_from_lv95(p: Lv95)
    requires
        valid_lv03(lv03_of(p@)),
    ensures
        (<Lv03 as vstd::std_specs::convert::FromSpec<Lv95>>::from_spec(p))@ == lv03_of(p@),
{
}

/// The forward formula's window covers the whole globe: every
/// position whose longitude lies within [-180, 180] degrees and
/// whose latitude lies within [-90, 90] degrees is accepted, so for
/// real-world coordinates the forward projection is absent exactly
/// when the projected point leaves the Swiss bounds.
pub proof fn lemma_window_covers_globe(g: GeoNano)
    requires
        -180_000_000_000 <= g.longitude <= 180_000_000_000,
        -90_000_000_000 <= g.latitude <= 90_000_000_000,
    ensures
        forward_defined(g),
{
    lemma_tdiv_bound(3600 * g.longitude - 26_782_500_000_000, 10_000, 674_782_500_000_000);
    lemma_tdiv_bound(3600 * g.latitude - 169_028_660_000_000, 10_000, 493_028_660_000_000);
}

/// Of the approximate forward/inverse round trip, the exactly
/// provable half: the geographic position of any valid LV03 point
/// stays within the forward formula's window, so projecting it back
/// never fails for want of the formula's domain.
#[verifier::rlimit(100)]
pub proof fn lemma_round_trip_defined(p: PointMm)
    requires
        valid_lv03(p),
    ensures
        forward_defined(inverse(p)),
{
    let y: int = y_units(p.east);
    let x: int = x_units(p.north);
    lemma_mul_bounds(y, x, 250_000_000, 130_000_000);
    lemma_mul_bounds(y, y, 250_000_000, 250_000_000);
    lemma_mul_bounds(x, x, 130_000_000, 130_000_000);
    lemma_mul_bounds(y * x, x, 32_500_000_000_000_000, 130_000_000);
    lemma_mul_bounds(y * y, y, 62_500_000_000_000_000, 250_000_000);
    lemma_mul_bounds(y * y, x, 62_500_000_000_000_000, 130_000_000);
    lemma_mul_bounds(x * x, x, 16_900_000_000_000_000, 130_000_000);
    lemma_tdiv_bound(4_728_982_000 * y, NANO as int, 1_182_245_500_000_000_000);
    lemma_tdiv_bound(791_484_000 * (y * x), NANO2 as int, 25_723_230_000_000_000_000_000_000);
    lemma_tdiv_bound(
        130_600_000 * ((y * x) * x),
        NANO3 as int,
        551_785_000_000_000_000_000_000_000_000_000,
    );
    lemma_tdiv_bound(
        43_600_000 * ((y * y) * y),
        NANO3 as int,
        681_250_000_000_000_000_000_000_000_000_000,
    );
    lemma_tdiv_bound(inverse_lambda_raw(y, x) * 1000, 360, 4_000_000_000_000);
    lemma_tdiv_bound(3_238_272_000 * x, NANO as int, 420_975_360_000_000_000);
    lemma_tdiv_bound(270_978_000 * (y * y), NANO2 as int, 16_936_125_000_000_000_000_000_000);
    lemma_tdiv_bound(2_528_000 * (x * x), NANO2 as int, 42_723_200_000_000_000_000_000);
    lemma_tdiv_bound(
        44_700_000 * ((y * y) * x),
        NANO3 as int,
        363_187_500_000_000_000_000_000_000_000_000,
    );
    lemma_tdiv_bound(
        14_000_000 * ((x * x) * x),
        NANO3 as int,
        30_758_000_000_000_000_000_000_000_000_000,
    );
    lemma_tdiv_bound(inverse_phi_raw(y, x) * 1000, 360, 18_000_000_000_000);
    let g: GeoNano = inverse(p);
    lemma_tdiv_bound(3600 * g.longitude - 26_782_500_000_000, 10_000, 66_782_500_000_000);
    lemma_tdiv_bound(3600 * g.latitude - 169_028_660_000_000, 10_000, 349_028_660_000_000);
}

/// Frame-shift exactness over the values themselves: an LV03 point
/// taken into the LV95 frame and back is the very same value.
pub proof fn lemma_lv95_value_round_trip(p: Lv03)
    requires
        valid_lv03(p@),
    ensures
        <Lv03 as vstd::std_specs::convert::FromSpec<Lv95>>::from_spec(
            <Lv95 as vstd::std_specs::convert::FromSpec<Lv03>>::from_spec(p),
        ) == p,
{
}

/// The squared distance between equal points vanishes.
proof fn lemma_squared_distance_self(a: PointMm, b: PointMm)
    requires
        a == b,
    ensures
        squared_distance(a, b) == 0,
{
    assert((a.north - b.north) * (a.north - b.north) == 0) by (nonlinear_arith)
        requires
            a.north == b.north,
    ;
    assert((a.east - b.east) * (a.east - b.east) == 0) by (nonlinear_arith)
        requires
            a.east == b.east,
    ;
    assert((a.altitude - b.altitude) * (a.altitude - b.altitude) == 0) by (nonlinear_arith)
        requires
            a.altitude == b.altitude,
    ;
}

/// The frame shift is exact and lossless: taking a valid LV03 point
/// into the LV95 frame and back returns the very same point, at
/// squared distance zero.
pub proof fn lemma_frame_shift_round_trip(p: PointMm)
    requires
        valid_lv03(p),
    ensures
        lv03_of(lv95_of(p)) == p,
        squared_distance(lv03_of(lv95_of(p)), p) == 0,
{
    lemma_squared_distance_self(lv03_of(lv95_of(p)), p);
}

/// The frame shift is a bijection between the frames: shifting a
/// valid LV95 point down and up again returns the same point.
pub proof fn lemma_frame_shift_round_trip_rev(p: PointMm)
    requires
        valid_lv03(lv03_of(p)),
    ensures
        lv95_of(lv03_of(p)) == p,
        squared_distance(lv95_of(lv03_of(p)), p) == 0,
{
    lemma_squared_distance_self(lv95_of(lv03_of(p)), p);
}

} // verus!
