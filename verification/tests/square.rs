use raytracer::report::setup_panic;
use raytracer::sample::SampleMode;
use raytracer::scalar::Scalar;
use raytracer::square::AxisPart::{Center, Minus, Plus};
use raytracer::square::{AxisPart, Bounds};

fn s(x: f32) -> Scalar {
    Scalar::from_bits(x.to_bits())
}

fn by_the_numbers(x: f32) -> Option<AxisPart> {
    let width = 0.5f32;
    if -1.0 <= x && x <= (width - 1.0) {
        Some(AxisPart::Minus)
    } else if (1.0 - width) <= x && x <= 1.0 {
        Some(AxisPart::Plus)
    } else if (width - 1.0) <= x && x <= (1.0 - width) {
        Some(AxisPart::Center)
    } else {
        None
    }
}

#[test]
fn axis_part_names_the_strip() {
    assert_eq!(AxisPart::from_coord(s(-1.0)), Some(AxisPart::Minus));
    assert_eq!(AxisPart::from_coord(s(-0.75)), Some(AxisPart::Minus));
    assert_eq!(AxisPart::from_coord(s(-0.5)), Some(AxisPart::Minus));
    assert_eq!(AxisPart::from_coord(s(-0.49)), Some(AxisPart::Center));
    assert_eq!(AxisPart::from_coord(s(0.0)), Some(AxisPart::Center));
    assert_eq!(AxisPart::from_coord(s(-0.0)), Some(AxisPart::Center));
    assert_eq!(AxisPart::from_coord(s(0.49)), Some(AxisPart::Center));
    assert_eq!(AxisPart::from_coord(s(0.5)), Some(AxisPart::Plus));
    assert_eq!(AxisPart::from_coord(s(1.0)), Some(AxisPart::Plus));
}

#[test]
fn axis_part_is_nothing_off_the_square() {
    assert_eq!(AxisPart::from_coord(s(-1.0000001)), None);
    assert_eq!(AxisPart::from_coord(s(1.0000001)), None);
    assert_eq!(AxisPart::from_coord(s(f32::INFINITY)), None);
    assert_eq!(AxisPart::from_coord(s(f32::NAN)), None);
}

#[test]
fn axis_part_agrees_with_the_comparisons_of_the_machine() {
    for i in -300..=300i32 {
        let x = i as f32 / 200.0;
        assert_eq!(AxisPart::from_coord(s(x)), by_the_numbers(x), "{:?}", x);
    }
}

#[test]
fn bounds_name_the_kind_of_part() {
    assert_eq!(Bounds::from_parts(Center, Center), Bounds::Middle);
    for &(x, y) in &[(Minus, Center), (Plus, Center), (Center, Minus), (Center, Plus)] {
        assert_eq!(Bounds::from_parts(x, y), Bounds::Edge);
    }
    for &(x, y) in &[(Minus, Minus), (Minus, Plus), (Plus, Minus), (Plus, Plus)] {
        assert_eq!(Bounds::from_parts(x, y), Bounds::Corner);
    }
}

#[test]
fn bounds_of_a_point() {
    assert_eq!(Bounds::from_coords(s(0.0), s(0.0)), Some(Bounds::Middle));
    assert_eq!(Bounds::from_coords(s(0.75), s(0.1)), Some(Bounds::Edge));
    assert_eq!(Bounds::from_coords(s(-0.2), s(-0.9)), Some(Bounds::Edge));
    assert_eq!(Bounds::from_coords(s(0.75), s(-0.75)), Some(Bounds::Corner));
    assert_eq!(Bounds::from_coords(s(-1.0), s(1.0)), Some(Bounds::Corner));
    assert_eq!(Bounds::from_coords(s(1.5), s(0.0)), None);
    assert_eq!(Bounds::from_coords(s(0.0), s(-1.5)), None);
    assert_eq!(Bounds::from_coords(s(f32::NAN), s(0.0)), None);
}

#[test]
fn sample_modes_are_told_apart_and_ordered() {
    assert_ne!(SampleMode::Bilinear, SampleMode::Gaussian);
    assert_ne!(SampleMode::Gaussian, SampleMode::Point);
    assert!(SampleMode::Bilinear < SampleMode::Gaussian);
    assert!(SampleMode::Gaussian < SampleMode::Point);
    let mode = SampleMode::Point;
    let copy = mode;
    assert_eq!(mode, copy);
}

#[test]
fn panic_report_is_for_builds_without_debug_assertions() {
    assert!(setup_panic(false));
    assert!(!setup_panic(true));
}
