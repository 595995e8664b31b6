//! Conversion tests: reference pairs, round trips, validation and
//! distances.  Planar values are millimeters, angles nanodegrees.

use swisscoord::Lv03;
use swisscoord::Lv95;
use swisscoord::Wgs84;

fn test_conversions(lv: &Lv03, wgs: &Wgs84) {
    // Angular agreement within 0.001 degree = 1_000_000 nanodegrees.
    let wgs_converted = lv.to_wgs84();
    assert!((wgs_converted.longitude - wgs.longitude).abs() < 1_000_000);
    assert!((wgs_converted.latitude - wgs.latitude).abs() < 1_000_000);

    // Planar agreement within 2 meters = 2_000 millimeters.
    let lv_converted = wgs.to_lv03().unwrap();
    assert!((lv_converted.east() - lv.east()).abs() < 2_000);
    assert!((lv_converted.north() - lv.north()).abs() < 2_000);

    test_roundtrip_wgs(lv);
    test_roundtrip_lv(lv);
}

fn test_roundtrip_lv(lv03: &Lv03) {
    let lv95: Lv95 = lv03.clone().into();
    let lv03_converted: Lv03 = lv95.into();
    // Within 0.001 square meter = 1_000 square millimeters.
    assert!(lv03.distance_squared(&lv03_converted) < 1_000);
}

fn test_roundtrip_wgs(lv: &Lv03) {
    let wgs = lv.to_wgs84();
    let lv03 = wgs.to_lv03().unwrap();

    // Should be within one meter: 1_000_000 square millimeters.
    assert!(lv03.distance_squared(lv) < 1_000_000);
}

#[test]
fn to_lv03_bundeshaus() {
    let lv = Lv03::new(199_498_430, 600_421_430, 542_800).unwrap();
    let wgs = Wgs84 { longitude: 7_444_170_000, latitude: 46_946_580_000, altitude: 542_800 };
    test_conversions(&lv, &wgs);
}

#[test]
fn to_wgs84_700_100() {
    let lv = Lv03::new(100_000_000, 700_000_000, 542_800).unwrap();
    let wgs = Wgs84 { longitude: 8_730_497_076, latitude: 46_044_130_339, altitude: 542_800 };
    test_conversions(&lv, &wgs);
}

#[test]
fn test_negative() {
    assert!(Lv03::new(-1_000, 2_000, 5_000).is_none());
    assert!(Lv03::new(1_000, -2_000, 5_000).is_none());
    assert!(Lv03::new(250_000_000, 500_000_000, -5_000).is_some());
}

#[test]
fn test_coordinates_swapped() {
    assert!(Lv03::new(600_000_000, 200_000_000, 500_000).is_none());
}

#[test]
fn test_distance() {
    let p1 = Lv03::new(200_000_000, 600_000_000, 500_000).unwrap();
    let p2 = Lv03::new(200_002_000, 600_000_000, 500_000).unwrap();
    assert_eq!(4_000_000, p1.distance_squared(&p2));
    assert_eq!(4.0, p1.distance_squared(&p2) as f64 / 1_000_000.0);
}

#[test]
fn test_lv_conversion() {
    let p1 = Lv03::new(200_000_000, 600_000_000, 500_000).unwrap();
    let p2: Lv95 = p1.clone().into();
    assert_eq!(p1, p2.clone().into());

    assert_eq!(p1.east() + 2_000_000_000, p2.east());
    assert_eq!(p1.north() + 1_000_000_000, p2.north());
}

#[test]
fn bounds_inclusive_and_rejections() {
    // The extreme corners of the box are accepted.
    assert!(Lv03::new(70_000_000, 480_000_000, 0).is_some());
    assert!(Lv03::new(300_000_000, 850_000_000, 0).is_some());
    // One step below the minimum extent is rejected.
    assert!(Lv03::new(69_999_999, 480_000_000, 0).is_none());
    assert!(Lv03::new(70_000_000, 479_999_999, 0).is_none());
    // One step above the maximum extent is rejected.
    assert!(Lv03::new(300_000_001, 850_000_000, 0).is_none());
    assert!(Lv03::new(300_000_000, 850_000_001, 0).is_none());
    // The altitude magnitude limit is sharp.
    assert!(Lv03::new(200_000_000, 600_000_000, 4_000_000_000_000_000_000).is_some());
    assert!(Lv03::new(200_000_000, 600_000_000, 4_000_000_000_000_000_001).is_none());
    assert!(Lv03::new(200_000_000, 600_000_000, -4_000_000_000_000_000_001).is_none());
}

#[test]
fn lv95_validates_unshifted_coordinates() {
    let p = Lv95::new(200_000_000, 600_000_000, 500_000).unwrap();
    assert_eq!(1_200_000_000, p.north());
    assert_eq!(2_600_000_000, p.east());
    assert_eq!(500_000, p.altitude());
    assert!(Lv95::new(600_000_000, 200_000_000, 500_000).is_none());
    assert!(Lv95::new(-1_000, 2_000, 5_000).is_none());
}

#[test]
fn lv95_to_wgs84_matches_lv03() {
    let p03 = Lv03::new(199_498_430, 600_421_430, 542_800).unwrap();
    let p95: Lv95 = p03.into();
    assert_eq!(p03.to_wgs84(), p95.to_wgs84());
    let w: Wgs84 = p95.into();
    assert_eq!(p03.to_wgs84(), w);
    let w03: Wgs84 = p03.into();
    assert_eq!(p03.to_wgs84(), w03);
}

#[test]
fn frame_shift_is_exact() {
    let p1 = Lv03::new(123_456_789, 654_321_000, 1_234).unwrap();
    let p95: Lv95 = p1.into();
    let back: Lv03 = p95.into();
    assert_eq!(p1, back);
    assert_eq!(0, p1.distance_squared(&back));
}

#[test]
fn exact_inverse_reference() {
    let lv = Lv03::new(199_498_430, 600_421_430, 542_800).unwrap();
    let wgs = lv.to_wgs84();
    assert_eq!(7_444_172_686, wgs.longitude);
    assert_eq!(46_946_569_255, wgs.latitude);
    assert_eq!(592_356, wgs.altitude);
}

#[test]
fn exact_forward_reference() {
    let wgs = Wgs84 { longitude: 7_444_170_000, latitude: 46_946_580_000, altitude: 542_800 };
    let lv = wgs.to_lv03().unwrap();
    assert_eq!(199_499_448, lv.north());
    assert_eq!(600_421_563, lv.east());
    assert_eq!(493_240, lv.altitude());
}

#[test]
fn forward_rejects_non_swiss_positions() {
    // Paris projects far west of the Swiss bounds.
    let paris = Wgs84 { longitude: 2_352_200_000, latitude: 48_856_600_000, altitude: 0 };
    assert!(paris.to_lv03().is_none());
    // A longitude beyond any real bearing leaves the formula window.
    let absurd = Wgs84 { longitude: 300_000_000_000, latitude: 46_000_000_000, altitude: 0 };
    assert!(absurd.to_lv03().is_none());
}
